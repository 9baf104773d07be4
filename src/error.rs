use vstd::prelude::*;

verus! {

/// Why a document did not decode: the member whose value did not fit, or
/// an empty name where the text itself is no JSON.
#[derive(Debug)]
pub struct DecodeError {
    pub field: String,
}

impl DecodeError {
    pub fn at(field: &str) -> (r: DecodeError)
        ensures
            r.field@ == field@,
    {
        DecodeError { field: field.to_owned() }
    }
}

/// The failures of the client and of the decoders.
#[derive(Debug)]
pub enum Error {
    /// The HTTP transport could not be built, or a request did not complete;
    /// the transport's own account of it.
    Reqwest(String),
    /// The service answered with a status outside 200..=299.
    HttpStatus(u16),
    /// A body or a webhook document does not fit the expected schema.
    Deserialize(DecodeError),
}

} // verus!
