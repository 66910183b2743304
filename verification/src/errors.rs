use vstd::prelude::*;

verus! {

/// The three failure kinds of the timed bulk loader.
///
/// Each kind propagates to the caller as a typed, catchable value: the
/// loader never aborts the process on a failed run.
#[derive(Clone, Copy, Debug, PartialEq, Eq, Structural)]
pub enum LoadError {
    /// The data store could not be reached or refused the credentials.
    ConnectionError,
    /// The data store rejected the read statement.
    QueryError,
    /// A fetched row did not match the expected schema.
    DecodeError,
}

} // verus!
