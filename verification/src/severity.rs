use vstd::prelude::*;

verus! {

/// Severity of a log record or span.
///
/// Severities are totally ordered: `Trace < Debug < Info < Warn < Error`.
/// A filter set to some level passes exactly the records whose severity is
/// at least that level.
#[derive(Clone, Copy, PartialEq, Eq, Structural, Debug)]
pub enum Severity {
    Trace,
    Debug,
    Info,
    Warn,
    Error,
}

impl Severity {
    /// Position of this severity in the total order (least verbose-passing
    /// level first).
    pub open spec fn rank(self) -> int {
        match self {
            Severity::Trace => 0,
            Severity::Debug => 1,
            Severity::Info => 2,
            Severity::Warn => 3,
            Severity::Error => 4,
        }
    }

    /// `self` is at least as severe as `other`.
    pub open spec fn spec_at_least(self, other: Severity) -> bool {
        self.rank() >= other.rank()
    }

    /// Decide `self >= other` in the severity order.
    pub fn at_least(self, other: Severity) -> (r: bool)
        ensures
            r == self.spec_at_least(other),
    {
        self.rank_exec() >= other.rank_exec()
    }

    fn rank_exec(self) -> (r: u8)
        ensures
            r as int == self.rank(),
    {
        match self {
            Severity::Trace => 0,
            Severity::Debug => 1,
            Severity::Info => 2,
            Severity::Warn => 3,
            Severity::Error => 4,
        }
    }

    /// The upper-case label of this severity as it appears in the JSON
    /// wire schema, as bytes.
    pub open spec fn spec_label(self) -> Seq<u8> {
        match self {
            Severity::Trace => seq![84u8, 82u8, 65u8, 67u8, 69u8],
            Severity::Debug => seq![68u8, 69u8, 66u8, 85u8, 71u8],
            Severity::Info => seq![73u8, 78u8, 70u8, 79u8],
            Severity::Warn => seq![87u8, 65u8, 82u8, 78u8],
            Severity::Error => seq![69u8, 82u8, 82u8, 79u8, 82u8],
        }
    }

    /// The upper-case label of this severity, as bytes.
    pub fn label_bytes(self) -> (r: Vec<u8>)
        ensures
            r@ == self.spec_label(),
    {
        match self {
            Severity::Trace => {
                let v: Vec<u8> = vec![84u8, 82u8, 65u8, 67u8, 69u8];
                assert(v@ =~= self.spec_label());
                v
            },
            Severity::Debug => {
                let v: Vec<u8> = vec![68u8, 69u8, 66u8, 85u8, 71u8];
                assert(v@ =~= self.spec_label());
                v
            },
            Severity::Info => {
                let v: Vec<u8> = vec![73u8, 78u8, 70u8, 79u8];
                assert(v@ =~= self.spec_label());
                v
            },
            Severity::Warn => {
                let v: Vec<u8> = vec![87u8, 65u8, 82u8, 78u8];
                assert(v@ =~= self.spec_label());
                v
            },
            Severity::Error => {
                let v: Vec<u8> = vec![69u8, 82u8, 82u8, 79u8, 82u8];
                assert(v@ =~= self.spec_label());
                v
            },
        }
    }
}

/// Law: `spec_at_least` is a total order on severities (reflexive,
/// antisymmetric on ranks, transitive, and total).
pub proof fn lemma_severity_total_order(a: Severity, b: Severity, c: Severity)
    ensures
        a.spec_at_least(a),
        a.spec_at_least(b) && b.spec_at_least(a) ==> a.rank() == b.rank(),
        a.spec_at_least(b) && b.spec_at_least(c) ==> a.spec_at_least(c),
        a.spec_at_least(b) || b.spec_at_least(a),
{
}

} // verus!
