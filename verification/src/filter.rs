use vstd::prelude::*;
use vstd::slice::{slice_subrange, slice_to_vec};
use vstd::string::*;
use crate::severity::Severity;
use crate::directive::{
    default_level, spec_parse, well_formed, spec_level_of, level_of, find_byte, lemma_find_byte,
};

verus! {

/// A `target=level` rule taken from a directive: records whose target lies
/// at or under `target` in the module path are filtered at `level`.
#[derive(Debug)]
pub struct TargetRule {
    pub target: Vec<u8>,
    pub level: Severity,
}

/// `pre` names the module path `t`, or an ancestor of it: `t` equals `pre`
/// or extends it past a `::` separator.
pub open spec fn path_prefix(pre: Seq<u8>, t: Seq<u8>) -> bool {
    &&& pre.len() <= t.len()
    &&& t.take(pre.len() as int) == pre
    &&& (pre.len() == t.len() || (pre.len() + 2 <= t.len() && t[pre.len() as int] == 58u8
        && t[pre.len() as int + 1] == 58u8))
}

/// A predicate over (target, severity) pairs, constructed from a textual
/// verbosity directive.
///
/// Construction never fails: a malformed directive yields the documented
/// default filter (`Info` over all targets).
#[derive(Debug)]
pub struct LevelFilter {
    /// Level applied to records no rule matches.
    pub default_level: Severity,
    /// Optional per-target rule; it takes precedence over `default_level`
    /// on the targets it matches.
    pub rule: Option<TargetRule>,
}

impl LevelFilter {
    /// What a filter constructed from the directive bytes `bs` must hold.
    pub open spec fn models(self, bs: Seq<u8>) -> bool {
        match spec_parse(bs) {
            Some((None, l)) => self.default_level == l && self.rule is None,
            Some((Some(t), l)) => {
                &&& self.default_level == default_level()
                &&& self.rule matches Some(r) && r.target@ == t && r.level == l
            },
            None => self.default_level == default_level() && self.rule is None,
        }
    }

    /// The level this filter applies to records with the given target.
    pub open spec fn spec_level_for(self, target: Seq<u8>) -> Severity {
        match self.rule {
            Some(r) => if path_prefix(r.target@, target) {
                r.level
            } else {
                self.default_level
            },
            None => self.default_level,
        }
    }

    /// The pass/suppress decision: a record passes exactly when its severity
    /// is at least the level the filter applies to its target.
    pub open spec fn spec_enabled(self, target: Seq<u8>, sev: Severity) -> bool {
        sev.spec_at_least(self.spec_level_for(target))
    }

    /// The default filter: `Info` over all targets.
    pub fn default_filter() -> (f: LevelFilter)
        ensures
            f.default_level == default_level(),
            f.rule is None,
    {
        LevelFilter { default_level: Severity::Info, rule: None }
    }

    /// Build a filter from a directive.
    ///
    /// Never fails: if `directive` is malformed, the documented default
    /// filter (`Info`, all targets) is returned instead.
    pub fn new(directive: &str) -> (f: LevelFilter)
        ensures
            f.models(directive.spec_bytes()),
    {
        let v: &[u8] = directive.as_bytes();
        Self::from_bytes(v)
    }

    /// Build a filter from the bytes of a directive.
    pub fn from_bytes(v: &[u8]) -> (f: LevelFilter)
        ensures
            f.models(v@),
    {
        match find_byte(v, 61u8) {
            None => match level_of(v) {
                Some(l) => LevelFilter { default_level: l, rule: None },
                None => Self::default_filter(),
            },
            Some(i) => {
                if i < 1 {
                    Self::default_filter()
                } else {
                    let n: usize = v.len();
                    proof {
                        lemma_find_byte(v@, 61u8);
                        assert(i < v@.len());
                    }
                    let rest: &[u8] = slice_subrange(v, i + 1, n);
                    assert(rest@ =~= v@.skip(i + 1));
                    match level_of(rest) {
                        Some(l) => {
                            let tgt: &[u8] = slice_subrange(v, 0, i);
                            assert(tgt@ =~= v@.take(i as int));
                            LevelFilter {
                                default_level: Severity::Info,
                                rule: Some(TargetRule { target: slice_to_vec(tgt), level: l }),
                            }
                        },
                        None => Self::default_filter(),
                    }
                }
            },
        }
    }

    /// Decide whether a record with the given target and severity passes
    /// this filter.
    pub fn enabled(&self, target: &str, sev: Severity) -> (r: bool)
        ensures
            r == self.spec_enabled(target.spec_bytes(), sev),
    {
        let tb: &[u8] = target.as_bytes();
        let level = match &self.rule {
            Some(rule) => {
                if is_path_prefix(&rule.target, tb) {
                    rule.level
                } else {
                    self.default_level
                }
            },
            None => self.default_level,
        };
        sev.at_least(level)
    }
}

fn is_path_prefix(pre: &Vec<u8>, t: &[u8]) -> (r: bool)
    ensures
        r == path_prefix(pre@, t@),
{
    if pre.len() > t.len() {
        return false;
    }
    let mut i: usize = 0;
    while i < pre.len()
        invariant
            pre@.len() <= t@.len(),
            0 <= i <= pre@.len(),
            forall|j: int| 0 <= j < i ==> pre@[j] == t@[j],
        decreases pre@.len() - i,
    {
        if pre[i] != t[i] {
            assert(t@.take(pre@.len() as int)[i as int] != pre@[i as int]);
            return false;
        }
        i += 1;
    }
    assert(t@.take(pre@.len() as int) =~= pre@);
    if pre.len() == t.len() {
        return true;
    }
    if t.len() - pre.len() >= 2 {
        t[pre.len()] == 58u8 && t[pre.len() + 1] == 58u8
    } else {
        false
    }
}

/// Law: a malformed directive yields exactly the documented default filter,
/// and construction never fails.
pub proof fn lemma_malformed_yields_default(f: LevelFilter, bs: Seq<u8>)
    requires
        f.models(bs),
        !well_formed(bs),
    ensures
        f.default_level == default_level(),
        f.rule is None,
        forall|target: Seq<u8>, sev: Severity| #[trigger] f.spec_enabled(target, sev)
            == sev.spec_at_least(default_level()),
{
}

/// Law: for a well-formed bare-level directive, the filter's pass/suppress
/// decision on every target follows the total order of severities: a record
/// passes exactly when its severity is at least the directive's level.
pub proof fn lemma_well_formed_level_decision(f: LevelFilter, bs: Seq<u8>, l: Severity)
    requires
        f.models(bs),
        spec_level_of(bs) == Some(l),
    ensures
        forall|target: Seq<u8>, sev: Severity| #[trigger] f.spec_enabled(target, sev) == (
        sev.rank() >= l.rank()),
{
    crate::directive::lemma_keyword_has_no_separator(bs);
    assert(spec_parse(bs) == Some((None::<Seq<u8>>, l)));
}

/// Law: for a well-formed `target=level` directive, the decision on every
/// target the rule matches follows the severity order at the rule's level,
/// and on every other target at the default level.
pub proof fn lemma_target_directive_decision(f: LevelFilter, bs: Seq<u8>, t: Seq<u8>, l: Severity)
    requires
        f.models(bs),
        spec_parse(bs) == Some((Some(t), l)),
    ensures
        forall|target: Seq<u8>, sev: Severity| path_prefix(t, target)
            ==> #[trigger] f.spec_enabled(target, sev) == (sev.rank() >= l.rank()),
        forall|target: Seq<u8>, sev: Severity| !path_prefix(t, target)
            ==> #[trigger] f.spec_enabled(target, sev) == (sev.rank()
            >= default_level().rank()),
{
}

} // verus!
