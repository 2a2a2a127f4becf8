use vstd::prelude::*;

verus! {

/// A value that is stored gzip-compressed and built from the compressed
/// bytes when it is first needed.
pub trait FromCompressedGzip: Sized {
    /// The value that compressed bytes hold, if they hold one. The same
    /// bytes always give the same answer. An implementation that does not
    /// say which value that is leaves it without a description.
    open spec fn decoded(bytes: Seq<u8>) -> Option<Self> {
        (vstd::pervasive::arbitrary::<spec_fn(Seq<u8>) -> Option<Self>>())(bytes)
    }

    /// Builds the value, or reports why the bytes do not hold one.
    fn from_compressed_gzip(bytes: &[u8]) -> (r: Result<Self, std::io::Error>)
        ensures
            match r {
                Ok(value) => Self::decoded(bytes@) == Some(value),
                Err(_) => Self::decoded(bytes@) is None,
            },
    ;
}

/// A value that starts out as compressed bytes and becomes the decoded
/// value at the first access. It never goes back, and it is never left
/// between the two states.
#[derive(Debug)]
pub enum Gzip<T> {
    Compressed(Vec<u8>),
    Uncompressed(T),
}

impl<T> Gzip<T> {
    pub fn from_compressed(bytes: Vec<u8>) -> (entry: Self)
        ensures
            entry == Gzip::<T>::Compressed(bytes),
    {
        Self::Compressed(bytes)
    }

    /// Takes in what a decoding attempt gave: the decoded value replaces
    /// the present state, a failure leaves the state as it is and is
    /// handed on.
    pub fn install(&mut self, outcome: Result<T, std::io::Error>) -> (r: Result<
        (),
        std::io::Error,
    >)
        ensures
            match outcome {
                Ok(value) => *final(self) == Gzip::Uncompressed(value) && r is Ok,
                Err(e) => *final(self) == *old(self) && r == Err::<(), std::io::Error>(e),
            },
    {
        match outcome {
            Ok(value) => {
                *self = Gzip::Uncompressed(value);
                Ok(())
            },
            Err(e) => Err(e),
        }
    }
}

impl<T: FromCompressedGzip> Gzip<T> {
    /// The state after an access: a decoded value stays; compressed
    /// bytes give way to the value they hold, and stay if they hold none.
    pub open spec fn settled(self) -> Self {
        match self {
            Gzip::Compressed(bytes) => match T::decoded(bytes@) {
                Some(value) => Gzip::Uncompressed(value),
                None => self,
            },
            Gzip::Uncompressed(_) => self,
        }
    }

    /// Decodes the value if that has not been done yet. Succeeds exactly
    /// when the state is decoded afterwards; after a failure the
    /// compressed bytes are in place, untouched.
    pub fn ensure_decompressed(&mut self) -> (r: Result<(), std::io::Error>)
        ensures
            *final(self) == old(self).settled(),
            r is Ok <==> *final(self) is Uncompressed,
    {
        let outcome = match self {
            Gzip::Uncompressed(_) => {
                return Ok(());
            },
            Gzip::Compressed(bytes) => T::from_compressed_gzip(bytes.as_slice()),
        };
        self.install(outcome)
    }

    /// The decoded value, decoded now if need be.
    pub fn as_uncompressed(&mut self) -> (r: Result<&T, std::io::Error>)
        ensures
            *final(self) == old(self).settled(),
            match r {
                Ok(value) => *final(self) == Gzip::Uncompressed(*value),
                Err(_) => *final(self) is Compressed,
            },
    {
        match self.ensure_decompressed() {
            Ok(()) => {},
            Err(e) => {
                return Err(e);
            },
        }
        match self {
            Gzip::Uncompressed(value) => Ok(value),
            Gzip::Compressed(_) => vstd::pervasive::unreached(),
        }
    }

    /// The decoded value, decoded now if need be, to be changed in place.
    /// What the caller leaves behind it is the new decoded state.
    pub fn as_uncompressed_mut(&mut self) -> (r: Result<&mut T, std::io::Error>)
        ensures
            match r {
                Ok(value) => old(self).settled() == Gzip::Uncompressed(*value) && *final(self)
                    == Gzip::Uncompressed(*final(value)),
                Err(_) => old(self).settled() is Compressed && *final(self) == *old(self),
            },
    {
        match self.ensure_decompressed() {
            Ok(()) => {},
            Err(e) => {
                return Err(e);
            },
        }
        match self {
            Gzip::Uncompressed(value) => Ok(value),
            Gzip::Compressed(_) => vstd::pervasive::unreached(),
        }
    }
}

/// An access settles the state for good: a second access finds it as the
/// first one left it.
pub proof fn lemma_settled_is_final<T: FromCompressedGzip>(entry: Gzip<T>)
    ensures
        entry.settled().settled() == entry.settled(),
        entry is Uncompressed ==> entry.settled() == entry,
{
}

/// Bytes that hold no value survive every access: the entry stays
/// compressed, with the very bytes it was made from.
pub proof fn lemma_failure_keeps_bytes<T: FromCompressedGzip>(bytes: Vec<u8>)
    requires
        T::decoded(bytes@) is None,
    ensures
        Gzip::<T>::Compressed(bytes).settled() == Gzip::<T>::Compressed(bytes),
{
}

} // verus!
