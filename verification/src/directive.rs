use vstd::prelude::*;
use crate::severity::Severity;

verus! {

/// The default verbosity level substituted for a malformed directive:
/// `Info`, over all targets.
pub open spec fn default_level() -> Severity {
    Severity::Info
}

/// ASCII lower-casing of one byte.
pub open spec fn spec_lower(b: u8) -> u8 {
    if 65u8 <= b && b <= 90u8 {
        (b + 32) as u8
    } else {
        b
    }
}

fn lower_byte(b: u8) -> (r: u8)
    ensures
        r == spec_lower(b),
{
    if 65u8 <= b && b <= 90u8 {
        b + 32
    } else {
        b
    }
}

/// Case-insensitive equality of `bs` against an already-lower-case keyword.
pub open spec fn ci_eq(bs: Seq<u8>, kw: Seq<u8>) -> bool {
    bs.len() == kw.len() && (forall|i: int| 0 <= i < bs.len() ==> spec_lower(bs[i]) == kw[i])
}

pub open spec fn kw_trace() -> Seq<u8> {
    seq![116u8, 114u8, 97u8, 99u8, 101u8]
}

pub open spec fn kw_debug() -> Seq<u8> {
    seq![100u8, 101u8, 98u8, 117u8, 103u8]
}

pub open spec fn kw_info() -> Seq<u8> {
    seq![105u8, 110u8, 102u8, 111u8]
}

pub open spec fn kw_warn() -> Seq<u8> {
    seq![119u8, 97u8, 114u8, 110u8]
}

pub open spec fn kw_error() -> Seq<u8> {
    seq![101u8, 114u8, 114u8, 111u8, 114u8]
}

/// The severity named by `bs`, compared ASCII-case-insensitively against the
/// five level keywords; `None` if `bs` names no level.
pub open spec fn spec_level_of(bs: Seq<u8>) -> Option<Severity> {
    if ci_eq(bs, kw_trace()) {
        Some(Severity::Trace)
    } else if ci_eq(bs, kw_debug()) {
        Some(Severity::Debug)
    } else if ci_eq(bs, kw_info()) {
        Some(Severity::Info)
    } else if ci_eq(bs, kw_warn()) {
        Some(Severity::Warn)
    } else if ci_eq(bs, kw_error()) {
        Some(Severity::Error)
    } else {
        None
    }
}

/// Index of the first occurrence of `b` in `bs`, if any.
pub open spec fn spec_find_byte(bs: Seq<u8>, b: u8) -> Option<int>
    decreases bs.len(),
{
    if bs.len() == 0 {
        None
    } else if bs[0] == b {
        Some(0)
    } else {
        match spec_find_byte(bs.drop_first(), b) {
            Some(i) => Some(i + 1),
            None => None,
        }
    }
}

/// `spec_find_byte` returns `None` exactly when `b` does not occur, and
/// otherwise the least index holding `b`.
pub proof fn lemma_find_byte(bs: Seq<u8>, b: u8)
    ensures
        spec_find_byte(bs, b) is None <==> (forall|i: int| 0 <= i < bs.len() ==> bs[i] != b),
        spec_find_byte(bs, b) matches Some(i) ==> 0 <= i < bs.len() && bs[i] == b && (forall|j: int|
            0 <= j < i ==> bs[j] != b),
    decreases bs.len(),
{
    if bs.len() > 0 && bs[0] != b {
        lemma_find_byte(bs.drop_first(), b);
        assert(forall|j: int| 1 <= j < bs.len() ==> bs[j] == bs.drop_first()[j - 1]);
    }
}

/// The meaning of one well-formed directive: an optional target the rule is
/// restricted to, and the level it sets.  `None` overall means the directive
/// is malformed.
///
/// Grammar: a directive is either a bare level keyword (`trace`, `debug`,
/// `info`, `warn`, `error`, ASCII-case-insensitive), or `target=level` with a
/// non-empty target before the first `=` and a level keyword after it.
pub open spec fn spec_parse(bs: Seq<u8>) -> Option<(Option<Seq<u8>>, Severity)> {
    match spec_find_byte(bs, 61u8) {
        None => match spec_level_of(bs) {
            Some(l) => Some((None, l)),
            None => None,
        },
        Some(i) => {
            if i < 1 {
                None
            } else {
                match spec_level_of(bs.skip(i + 1)) {
                    Some(l) => Some((Some(bs.take(i)), l)),
                    None => None,
                }
            }
        },
    }
}

/// A directive is well formed when it parses.
pub open spec fn well_formed(bs: Seq<u8>) -> bool {
    spec_parse(bs) is Some
}

/// Find the first occurrence of `b` in `v`.
pub fn find_byte(v: &[u8], b: u8) -> (r: Option<usize>)
    ensures
        match r {
            Some(i) => spec_find_byte(v@, b) == Some(i as int),
            None => spec_find_byte(v@, b) is None,
        },
{
    proof {
        lemma_find_byte(v@, b);
    }
    let mut i: usize = 0;
    while i < v.len()
        invariant
            0 <= i <= v@.len(),
            forall|j: int| 0 <= j < i ==> v@[j] != b,
            spec_find_byte(v@, b) is None <==> (forall|k: int| 0 <= k < v@.len() ==> v@[k] != b),
            spec_find_byte(v@, b) matches Some(fi) ==> 0 <= fi < v@.len() && v@[fi] == b
                && (forall|j: int| 0 <= j < fi ==> v@[j] != b),
        decreases v@.len() - i,
    {
        if v[i] == b {
            return Some(i);
        }
        i += 1;
    }
    None
}

fn ci_eq_kw(v: &[u8], kw: &Vec<u8>) -> (r: bool)
    ensures
        r == ci_eq(v@, kw@),
{
    if v.len() != kw.len() {
        return false;
    }
    let mut i: usize = 0;
    while i < v.len()
        invariant
            v@.len() == kw@.len(),
            0 <= i <= v@.len(),
            forall|j: int| 0 <= j < i ==> spec_lower(v@[j]) == kw@[j],
        decreases v@.len() - i,
    {
        if lower_byte(v[i]) != kw[i] {
            return false;
        }
        i += 1;
    }
    true
}

/// Decide which level, if any, `v` names.
pub fn level_of(v: &[u8]) -> (r: Option<Severity>)
    ensures
        r == spec_level_of(v@),
{
    let t: Vec<u8> = vec![116u8, 114u8, 97u8, 99u8, 101u8];
    assert(t@ =~= kw_trace());
    if ci_eq_kw(v, &t) {
        return Some(Severity::Trace);
    }
    let d: Vec<u8> = vec![100u8, 101u8, 98u8, 117u8, 103u8];
    assert(d@ =~= kw_debug());
    if ci_eq_kw(v, &d) {
        return Some(Severity::Debug);
    }
    let n: Vec<u8> = vec![105u8, 110u8, 102u8, 111u8];
    assert(n@ =~= kw_info());
    if ci_eq_kw(v, &n) {
        return Some(Severity::Info);
    }
    let w: Vec<u8> = vec![119u8, 97u8, 114u8, 110u8];
    assert(w@ =~= kw_warn());
    if ci_eq_kw(v, &w) {
        return Some(Severity::Warn);
    }
    let e: Vec<u8> = vec![101u8, 114u8, 114u8, 111u8, 114u8];
    assert(e@ =~= kw_error());
    if ci_eq_kw(v, &e) {
        return Some(Severity::Error);
    }
    None
}

/// Law: every directive that names a bare level keyword contains neither
/// `=` nor `,`, so it always takes the bare-level branch of the grammar.
pub proof fn lemma_keyword_has_no_separator(bs: Seq<u8>)
    requires
        spec_level_of(bs) is Some,
    ensures
        spec_find_byte(bs, 61u8) is None,
{
    let kw = if ci_eq(bs, kw_trace()) {
        kw_trace()
    } else if ci_eq(bs, kw_debug()) {
        kw_debug()
    } else if ci_eq(bs, kw_info()) {
        kw_info()
    } else if ci_eq(bs, kw_warn()) {
        kw_warn()
    } else {
        kw_error()
    };
    assert(ci_eq(bs, kw));
    assert(kw.len() == 4 || kw.len() == 5);
    assert(97 <= kw[0] && kw[0] <= 122);
    assert(97 <= kw[1] && kw[1] <= 122);
    assert(97 <= kw[2] && kw[2] <= 122);
    assert(97 <= kw[3] && kw[3] <= 122);
    assert(kw.len() == 5 ==> 97 <= kw[4] && kw[4] <= 122);
    assert forall|i: int| 0 <= i < bs.len() implies bs[i] != 61u8 by {
        assert(spec_lower(bs[i]) == kw[i]);
        assert(97 <= kw[i] && kw[i] <= 122);
    }
    lemma_find_byte(bs, 61u8);
}

} // verus!
