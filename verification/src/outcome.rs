//! Views of the outcomes of outside work, whose failures are texts.

use vstd::prelude::*;

verus! {

/// An outcome of any kind, its failure as a sequence of characters.
pub open spec fn value_or_text<T>(outcome: Result<T, String>) -> Result<T, Seq<char>> {
    match outcome {
        Ok(value) => Ok(value),
        Err(text) => Err(text@),
    }
}

/// A text, or the text of a failure.
pub open spec fn text_or_text(outcome: Result<String, String>) -> Result<Seq<char>, Seq<char>> {
    match outcome {
        Ok(value) => Ok(value@),
        Err(text) => Err(text@),
    }
}

/// A byte string, or the text of a failure.
pub open spec fn bytes_or_text(outcome: Result<Vec<u8>, String>) -> Result<Seq<u8>, Seq<char>> {
    match outcome {
        Ok(bytes) => Ok(bytes@),
        Err(text) => Err(text@),
    }
}

/// A byte string that may be absent, or the text of a failure.
pub open spec fn optional_bytes_or_text(outcome: Result<Option<Vec<u8>>, String>) -> Result<
    Option<Seq<u8>>,
    Seq<char>,
> {
    match outcome {
        Ok(Some(bytes)) => Ok(Some(bytes@)),
        Ok(None) => Ok(None),
        Err(text) => Err(text@),
    }
}

} // verus!
