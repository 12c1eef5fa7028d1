use vstd::prelude::*;

verus! {

use vstd::string::StringSliceAdditionalSpecFns;

/// A four-character code: the four-byte tag that names a RIFF chunk.
#[derive(Debug)]
pub struct FourCC {
    pub value: [u8; 4],
}

impl FourCC {
    pub fn new(value: [u8; 4]) -> (r: Result<FourCC, ()>)
        ensures
            (r matches Ok(f) && f.value@ == value@),
    {
        Ok(FourCC { value })
    }

    /// A code from a string, which must be exactly four bytes long.
    pub fn from(string: &str) -> (r: Result<FourCC, &'static str>)
        ensures
            string.spec_bytes().len() == 4 ==> (r matches Ok(f) && f.value@ == string.spec_bytes()),
            string.spec_bytes().len() != 4 ==> (r matches Err(m)
                && m@ == "FourCC must be 4 characters long"@),
    {
        if string.len() != 4 {
            return Err("FourCC must be 4 characters long");
        }

        let bytes = string.as_bytes();

        let tuple: [u8; 4] = [bytes[0], bytes[1], bytes[2], bytes[3]];
        assert(tuple@ =~= string.spec_bytes());

        Ok(FourCC { value: tuple })
    }

    pub fn as_bytes(&self) -> (r: [u8; 4])
        ensures
            r@ == self.value@,
    {
        self.value
    }
}

} // verus!
