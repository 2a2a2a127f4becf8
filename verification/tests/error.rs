use the_blockheads_tools_lib::{BhError, BhResult, Chunk, FromCompressedGzip};

fn decode(bytes: &[u8]) -> BhResult<Chunk> {
    Ok(Chunk::from_compressed_gzip(bytes)?)
}

#[test]
fn a_failed_read_becomes_a_gzip_error() {
    let failure = std::io::Error::new(std::io::ErrorKind::UnexpectedEof, "cut short");
    match BhError::from(failure) {
        BhError::GzipError(inner) => {
            assert_eq!(inner.kind(), std::io::ErrorKind::UnexpectedEof);
            assert_eq!(inner.to_string(), "cut short");
        }
        other => panic!("unexpected {:?}", other),
    }
    assert!(matches!(decode(b"no gzip"), Err(BhError::GzipError(_))));
}

#[test]
fn errors_carry_what_they_are_about() {
    let errors = [
        BhError::DbError("locked".to_string()),
        BhError::PlistError("no such field".to_string()),
        BhError::CoordError { input: 40, limit: 32 },
        BhError::ParseError("Missing y coordinate in 4".to_string()),
        BhError::InvalidBlockIdError(23),
        BhError::InvalidBlockContentIdError(9),
        BhError::MissingKey("worldv2"),
    ];
    let shown: Vec<String> = errors.iter().map(|error| format!("{:?}", error)).collect();
    assert_eq!(shown[0], "DbError(\"locked\")");
    assert_eq!(shown[2], "CoordError { input: 40, limit: 32 }");
    assert_eq!(shown[4], "InvalidBlockIdError(23)");
    assert_eq!(shown[6], "MissingKey(\"worldv2\")");
}
