use flate2::write::GzEncoder;
use flate2::Compression;
use std::io::Write;
use std::sync::atomic::{AtomicUsize, Ordering};
use the_blockheads_tools_lib::chunk::CHUNK_BYTES;
use the_blockheads_tools_lib::{Chunk, FromCompressedGzip, Gzip};

fn gzip(bytes: &[u8]) -> Vec<u8> {
    let mut encoder = GzEncoder::new(Vec::new(), Compression::default());
    encoder.write_all(bytes).unwrap();
    encoder.finish().unwrap()
}

fn patterned() -> Vec<u8> {
    (0..CHUNK_BYTES).map(|i| (i % 253) as u8).collect()
}

static DECODES: AtomicUsize = AtomicUsize::new(0);

/// A chunk that counts how often one is decoded.
#[derive(Debug)]
struct Counted(Chunk);

impl FromCompressedGzip for Counted {
    fn from_compressed_gzip(bytes: &[u8]) -> Result<Self, std::io::Error> {
        DECODES.fetch_add(1, Ordering::SeqCst);
        Chunk::from_compressed_gzip(bytes).map(Counted)
    }
}

#[test]
fn an_entry_starts_compressed() {
    let entry: Gzip<Chunk> = Gzip::from_compressed(vec![1, 2, 3]);
    assert!(matches!(entry, Gzip::Compressed(ref bytes) if bytes == &[1, 2, 3]));
}

#[test]
fn decompressing_twice_decodes_once() {
    let content = patterned();
    let mut entry: Gzip<Counted> = Gzip::from_compressed(gzip(&content));
    assert_eq!(DECODES.load(Ordering::SeqCst), 0);
    let first = entry.as_uncompressed().unwrap().0.inner().to_vec();
    assert_eq!(DECODES.load(Ordering::SeqCst), 1);
    let second = entry.as_uncompressed().unwrap().0.inner().to_vec();
    assert_eq!(DECODES.load(Ordering::SeqCst), 1);
    assert_eq!(first, content);
    assert_eq!(second, content);
    entry.ensure_decompressed().unwrap();
    entry.as_uncompressed_mut().unwrap();
    assert_eq!(DECODES.load(Ordering::SeqCst), 1);
    assert!(matches!(entry, Gzip::Uncompressed(_)));
}

#[test]
fn corrupted_bytes_fail_and_stay_in_place() {
    let mut corrupted = gzip(&patterned());
    let middle = corrupted.len() / 2;
    corrupted.truncate(middle);
    let mut entry: Gzip<Chunk> = Gzip::from_compressed(corrupted.clone());
    assert!(entry.ensure_decompressed().is_err());
    assert!(matches!(entry, Gzip::Compressed(ref bytes) if *bytes == corrupted));
    assert!(entry.as_uncompressed().is_err());
    assert!(entry.as_uncompressed_mut().is_err());
    assert!(matches!(entry, Gzip::Compressed(ref bytes) if *bytes == corrupted));

    let garbage = b"\x1f\x8b\x08\x00 this is no deflate stream".to_vec();
    let mut entry: Gzip<Chunk> = Gzip::from_compressed(garbage.clone());
    assert!(entry.as_uncompressed().is_err());
    assert!(matches!(entry, Gzip::Compressed(ref bytes) if *bytes == garbage));
}

#[test]
fn what_is_changed_in_place_stays_changed() {
    let mut entry: Gzip<Chunk> = Gzip::from_compressed(gzip(&patterned()));
    entry.as_uncompressed_mut().unwrap().inner_mut()[10] = 0xee;
    assert_eq!(entry.as_uncompressed().unwrap().inner()[10], 0xee);
    assert_eq!(entry.as_uncompressed().unwrap().inner()[11], 11);
}

#[test]
fn install_takes_a_value_or_keeps_the_state() {
    let mut entry: Gzip<Chunk> = Gzip::from_compressed(vec![9, 9]);
    let failure = std::io::Error::new(std::io::ErrorKind::InvalidData, "broken");
    let handed_on = entry.install(Err(failure)).unwrap_err();
    assert_eq!(handed_on.kind(), std::io::ErrorKind::InvalidData);
    assert_eq!(handed_on.to_string(), "broken");
    assert!(matches!(entry, Gzip::Compressed(ref bytes) if bytes == &[9, 9]));
    entry.install(Ok(Chunk::new_empty())).unwrap();
    assert!(matches!(entry, Gzip::Uncompressed(ref chunk) if chunk.inner()[0] == 0));
}
