use vstd::prelude::*;

verus! {

/// A WAV file is a RIFF container made of chunks; each chunk announces
/// itself with a four-byte identifier and a little-endian size.
pub trait Chunk {
    /// The four identifier bytes, as written to the file.
    spec fn spec_id(&self) -> Seq<u8>;

    /// The chunk size, as written to the file (little-endian).
    spec fn spec_size(&self) -> u32;

    /// Get the chunk ID as a big-endian array of 4 bytes.
    fn get_be_id(&self) -> (id: &[u8; 4])
        ensures
            id@ == self.spec_id(),
    ;

    /// Get the chunk size as a little-endian u32.
    fn get_le_size(&self) -> (size: u32)
        ensures
            size == self.spec_size(),
    ;
}

} // verus!
