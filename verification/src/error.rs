//! What can go wrong.
use vstd::prelude::*;

verus! {

/// The ways in which a request to the drag source fails.
#[derive(Clone, Copy, Debug, PartialEq, Eq, Structural)]
pub enum NativeExtensionsError {
    /// A drag was asked for, but no mouse button has gone down in the view yet.
    MouseEventNotFound,
    /// No drag of that name is under way.
    DragSessionNotFound,
}

/// The result of a request to the drag source.
pub type NativeExtensionsResult<T> = Result<T, NativeExtensionsError>;

} // verus!
