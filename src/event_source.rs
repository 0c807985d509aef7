use vstd::prelude::*;

verus! {

/// The standard library's I/O error, carried through unchanged.
#[verifier::external_type_specification]
#[verifier::external_body]
pub struct ExIoError(std::io::Error);

/// A failure to read one event: reading the bytes, or classifying them.
#[derive(Debug)]
pub enum EventSourceError<E> {
    Io(std::io::Error),
    Parse(E),
}

} // verus!
