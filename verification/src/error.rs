use vstd::prelude::*;

verus! {

/// Failures surfaced by this crate.
///
/// A dispatched instruction can also fail inside the invocation channel
/// itself; that failure is an opaque error of the channel, propagated by
/// the dispatching layer verbatim, and never enters this crate.
#[derive(Clone, Copy, Debug, PartialEq, Eq, Structural)]
pub enum ExtensionError {
    /// The buffer is not owned by the expected token program.
    InvalidOwner,
    /// The extension record is absent from the buffer's extension index,
    /// or the entry's declared length does not match the record size.
    InvalidData,
}

} // verus!
