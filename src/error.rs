use vstd::prelude::*;

verus! {

/// Why a conversion across the boundary failed.
#[derive(PartialEq, Eq, Structural, Clone, Copy, Debug)]
pub enum MarshalError {
    /// An absent (zero) address was handed in.
    InvalidData,
    /// Text held the terminator byte and cannot be null-terminated.
    EncodingError,
}

impl MarshalError {
    pub open spec fn spec_message(self) -> Seq<char> {
        match self {
            MarshalError::InvalidData => "null pointer"@,
            MarshalError::EncodingError => "text contains a nul byte"@,
        }
    }

    /// The description handed to an error callback.
    pub fn message(&self) -> (r: String)
        ensures
            r@ == self.spec_message(),
    {
        match self {
            MarshalError::InvalidData => "null pointer".to_owned(),
            MarshalError::EncodingError => "text contains a nul byte".to_owned(),
        }
    }
}

/// The failure every inbound converter reports for an absent address.
pub fn null_ptr_error() -> (r: MarshalError)
    ensures
        r == MarshalError::InvalidData,
        r.spec_message() == "null pointer"@,
{
    MarshalError::InvalidData
}

/// Whether a foreign address is the reserved "absent" value.
pub fn is_absent(addr: usize) -> (r: bool)
    ensures
        r == (addr == 0),
{
    addr == 0
}

} // verus!
