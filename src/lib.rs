use vstd::prelude::*;

pub mod animation;
pub mod channel;
pub mod dom;
pub mod host;
mod web;

use crate::dom::{HostDocument, SetupFault, HostWindow};

verus! {

/// Where in the host loop's phases a task is scheduled.
#[derive(Debug, Clone, Copy, PartialEq, Eq, Structural)]
pub enum Priority {
    /// The next microtask tick.
    High,
    /// The next idle slot.
    Low,
}

/// The browser's `Document` object, or the capability the host lacks.
pub fn document() -> (r: Result<HostDocument, SetupFault>)
    ensures
        r is Err ==> (r == Err::<HostDocument, SetupFault>(SetupFault::MissingWindow)
            || r == Err::<HostDocument, SetupFault>(SetupFault::MissingDocument)),
{
    HostDocument::new()
}

/// The browser's `Window` object, or the capability the host lacks.
pub fn window() -> (r: Result<HostWindow, SetupFault>)
    ensures
        r is Err ==> r == Err::<HostWindow, SetupFault>(SetupFault::MissingWindow),
{
    HostWindow::new()
}

} // verus!
