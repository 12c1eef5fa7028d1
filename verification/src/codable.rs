use vstd::prelude::*;

verus! {

/// A value that can be read back from the bytes of a file image.
pub trait Decodable: Sized {
    /// The byte sequences this type can be decoded from.
    spec fn spec_decodable(bytes: Seq<u8>) -> bool;

    /// The one value those bytes decode to.
    spec fn spec_decoded(bytes: Seq<u8>, r: Self) -> bool;

    /// Decode a new value from the start of `bytes`.
    fn decode_new(bytes: &[u8]) -> (r: Self)
        requires
            Self::spec_decodable(bytes@),
        ensures
            Self::spec_decoded(bytes@, r),
    ;
}

/// A value that can be written out as bytes of a file image.
pub trait Encodable {
    /// The values whose derived fields fit the fixed-width header slots.
    spec fn spec_encodable(&self) -> bool;

    /// The exact bytes the value is written as.
    spec fn spec_encode(&self) -> Seq<u8>;

    /// Encode the value.
    fn encode(&self) -> (r: Vec<u8>)
        requires
            self.spec_encodable(),
        ensures
            r@ == self.spec_encode(),
    ;
}

pub trait Codable: Decodable + Encodable {

}

} // verus!
