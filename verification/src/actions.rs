//! The command vocabulary of the coordinator.
//!
//! A handler never touches a window directly: it returns a plan, a sequence
//! of [`Action`] values, and the host executes them in order.  The plan is
//! the whole observable behaviour of a handler, so every contract in this
//! crate is a statement about plans.

use vstd::prelude::*;

verus! {

/// The two windows the coordinator addresses, always re-resolved by name
/// ("main", "capture") at the moment an event arrives.
#[derive(Clone, Copy, Debug, PartialEq, Eq, Structural)]
pub enum WindowId {
    Main,
    Capture,
}

/// One command issued against the host framework.
///
/// The window commands (`Show`, `Hide`, `Focus`, `Unminimize`) may each fail
/// at the host; failures are logged and never roll back or suppress the
/// commands that follow them in a plan.  `PreventClose` suppresses the
/// default handling of a close request.  `Exit` terminates the process with
/// the given code.
#[derive(Clone, Copy, Debug, PartialEq, Eq, Structural)]
pub enum Action {
    Show(WindowId),
    Hide(WindowId),
    Focus(WindowId),
    Unminimize(WindowId),
    PreventClose,
    Exit(i32),
}

/// How many times `a` occurs in `plan`.
pub open spec fn count_of(plan: Seq<Action>, a: Action) -> nat
    decreases plan.len(),
{
    if plan.len() == 0 {
        0
    } else {
        (if plan[0] == a {
            1nat
        } else {
            0nat
        }) + count_of(plan.drop_first(), a)
    }
}

} // verus!
