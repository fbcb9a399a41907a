//! The outcome of turning the parameters of a request into query text.

use vstd::prelude::*;

verus! {

/// The query of a request could not be made. The request is not sent.
#[derive(Debug)]
pub enum QuerySerializationError {
    /// A structured object could not be encoded; the text is what the encoder
    /// reported.
    Encoding(String),
    /// The address has grown to `len` bytes, more than can be signed.
    TooLong { len: usize },
}

} // verus!
