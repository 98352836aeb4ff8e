//! The single-slot cell that holds the target currently forwarded to.
//!
//! The supervisor is the only writer. Every connection handler reads the
//! cell once at the start of its own unit of work, so a write is seen by the
//! units of work that begin after it and by none that began before.

use crate::config::{ForwardTarget, TargetView};
use vstd::prelude::*;

verus! {

/// Holds at most one forward target; empty until the first write.
pub struct TargetRegistry {
    slot: Option<ForwardTarget>,
}

impl View for TargetRegistry {
    type V = Option<TargetView>;

    closed spec fn view(&self) -> Option<TargetView> {
        match self.slot {
            None => None,
            Some(target) => Some(target@),
        }
    }
}

impl TargetRegistry {
    /// A registry that no target has been written to yet.
    pub fn new() -> (registry: Self)
        ensures
            registry@ is None,
    {
        TargetRegistry { slot: None }
    }

    /// True iff a target has been written.
    pub fn is_defined(&self) -> (defined: bool)
        ensures
            defined == (self@ is Some),
    {
        self.slot.is_some()
    }

    /// Replaces the whole content by `target`.
    pub fn set_target(&mut self, target: ForwardTarget)
        ensures
            final(self)@ == Some(target@),
    {
        self.slot = Some(target);
    }

    /// The target written last. To read before the first write is a fault of
    /// the caller.
    pub fn get_target(&self) -> (target: ForwardTarget)
        requires
            self@ is Some,
        ensures
            self@ == Some(target@),
    {
        match &self.slot {
            Some(target) => target.clone(),
            None => vstd::pervasive::unreached(),
        }
    }

    /// The target written last, or `None` before the first write.
    pub fn current(&self) -> (target: Option<ForwardTarget>)
        ensures
            self@ is None ==> target is None,
            self@ is Some ==> target is Some && self@ == Some(target->0@),
    {
        match &self.slot {
            Some(target) => Some(target.clone()),
            None => None,
        }
    }
}

} // verus!
