use vstd::prelude::*;
use vstd::string::*;
use crate::reload::{ReloadError, ReloadHandle};

verus! {

/// The process-wide single-assignment slot that publishes the log layer's
/// [`ReloadHandle`] once installation has completed.
///
/// Lifecycle: `Empty` at process start, populated exactly once shortly after
/// installation, and never changed or emptied again.  A read before
/// population reports "not yet available" — never an error.
pub struct ReloadRegistry {
    /// The slot: `None` while population has not happened yet.
    pub slot: Option<ReloadHandle>,
}

/// The one transition of the registry: an empty slot takes the handle, a
/// populated slot is left exactly as it is.
pub open spec fn spec_populate(r: ReloadRegistry, h: ReloadHandle) -> ReloadRegistry {
    if r.slot is Some {
        r
    } else {
        ReloadRegistry { slot: Some(h) }
    }
}

impl ReloadRegistry {
    /// Whether the follow-up population step has run.
    pub open spec fn is_populated(self) -> bool {
        self.slot is Some
    }

    /// The empty registry, as it stands at process start.
    pub fn new() -> (r: ReloadRegistry)
        ensures
            !r.is_populated(),
    {
        ReloadRegistry { slot: None }
    }

    /// Store `h` if the slot is still empty; a populated slot never changes
    /// value.
    pub fn populate(&mut self, h: ReloadHandle)
        ensures
            *final(self) == spec_populate(*old(self), h),
            final(self).is_populated(),
    {
        if self.slot.is_none() {
            self.slot = Some(h);
        }
    }

    /// The populated handle, or `None` while the population step has not run
    /// yet.  Callers must treat `None` as "not yet ready", not as an error.
    pub fn get_reload_handle(&self) -> (r: Option<&ReloadHandle>)
        ensures
            match r {
                Some(h) => self.slot == Some(*h),
                None => self.slot is None,
            },
    {
        self.slot.as_ref()
    }

    /// Parse `directive` under the construction fallback rule and replace
    /// the filter inside the populated handle.
    ///
    /// Before population there is no reload target, and the call fails with
    /// the distinguishable `TargetUnavailable` — never silently dropped.
    pub fn modify(&mut self, directive: &str) -> (r: Result<(), ReloadError>)
        ensures
            old(self).slot is None ==> r == Err::<(), ReloadError>(ReloadError::TargetUnavailable)
                && *final(self) == *old(self),
            old(self).slot is Some ==> r is Ok && (final(self).slot matches Some(h)
                && h.current.models(directive.spec_bytes())),
    {
        if self.slot.is_none() {
            return Err(ReloadError::TargetUnavailable);
        }
        let mut h = self.slot.take().unwrap();
        let r = h.modify(directive);
        self.slot = Some(h);
        r
    }
}

/// Law: the registry is single-assignment.  Populating an already-populated
/// registry changes nothing — the first handle wins — and population leaves
/// the registry populated forever: it never reverts to empty.
pub proof fn lemma_registry_single_assignment(
    r: ReloadRegistry,
    h1: ReloadHandle,
    h2: ReloadHandle,
)
    ensures
        spec_populate(spec_populate(r, h1), h2) == spec_populate(r, h1),
        spec_populate(r, h1).is_populated(),
        r.is_populated() ==> spec_populate(r, h1) == r,
{
}

} // verus!
