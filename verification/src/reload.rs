use vstd::prelude::*;
use vstd::string::*;
use crate::filter::{LevelFilter, lemma_well_formed_level_decision};
use crate::directive::spec_level_of;
use crate::severity::Severity;

verus! {

/// Why a filter replacement could not be carried out.
#[derive(Clone, Copy, PartialEq, Eq, Structural, Debug)]
pub enum ReloadError {
    /// The reload target is gone, or not yet available.
    TargetUnavailable,
}

/// A handle over the mutable cell holding exactly one current
/// [`LevelFilter`].
///
/// Every record evaluated through the handle observes one fully-updated
/// filter: a decision is a pure function of the filter value current at the
/// moment it is taken, so no record can see a filter mid-replacement, and a
/// later swap never changes a decision already taken.
pub struct ReloadHandle {
    /// The filter every record is currently evaluated against.
    pub current: LevelFilter,
}

impl ReloadHandle {
    /// A handle whose cell initially holds `initial`.
    pub fn new(initial: LevelFilter) -> (h: ReloadHandle)
        ensures
            h.current == initial,
    {
        ReloadHandle { current: initial }
    }

    /// Parse `directive` under the same fallback rule as construction and
    /// replace the current filter with the result, as one atomic publish.
    ///
    /// There is no teardown API, so the reload target cannot have gone away:
    /// the replacement always succeeds.
    pub fn modify(&mut self, directive: &str) -> (r: Result<(), ReloadError>)
        ensures
            r is Ok,
            final(self).current.models(directive.spec_bytes()),
    {
        self.current = LevelFilter::new(directive);
        Ok(())
    }

    /// The pass/suppress decision of the current filter for a record with
    /// the given target and severity.
    pub fn enabled(&self, target: &str, sev: Severity) -> (r: bool)
        ensures
            r == self.current.spec_enabled(target.spec_bytes(), sev),
    {
        self.current.enabled(target, sev)
    }
}

/// Law: once the handle's filter models the directive `trace`, every record
/// — at any target and any severity — passes.  Records whose decision was
/// taken against an earlier filter value are unaffected: a decision is a
/// function of the filter it was taken against, and a swap replaces only
/// the handle's current value.
pub proof fn lemma_trace_enables_all(h: ReloadHandle, bs: Seq<u8>)
    requires
        h.current.models(bs),
        spec_level_of(bs) == Some(Severity::Trace),
    ensures
        forall|target: Seq<u8>, sev: Severity| #[trigger] h.current.spec_enabled(target, sev),
{
    lemma_well_formed_level_decision(h.current, bs, Severity::Trace);
}

} // verus!
