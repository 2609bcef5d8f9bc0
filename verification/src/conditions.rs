use vstd::prelude::*;

use crate::paths::{ends_with, within_dir, FsPath};
use crate::paths::{bytes_eq, path_ends_with, path_within_dir};

verus! {

/// How a candidate file is reached from its importer. The one
/// classification this library's rules test for is `UrlUndefined`, a URL
/// reference of undefined sub-type: such references are resource loads, not
/// code module loads, and are excluded from certain transforms.
#[derive(Debug, Clone, Copy, PartialEq, Eq, Structural)]
pub enum ReferenceKind {
    /// An ordinary module import.
    Module,
    /// A URL reference of undefined sub-type.
    UrlUndefined,
    /// A URL reference of any other sub-type.
    UrlOther,
}

/// The facts known about one candidate file at evaluation time: its
/// normalized path and its reference classification. Built once per
/// candidate by the surrounding pipeline.
#[derive(Debug, PartialEq, Eq)]
pub struct ResourceFact {
    pub path: FsPath,
    pub reference: ReferenceKind,
}

/// A boolean condition tree over the facts of a candidate file. An empty
/// `All` is vacuously true; an empty `Any` is vacuously false. Trees are
/// immutable once built, so one tree may be evaluated against many
/// candidates.
#[derive(Debug, PartialEq, Eq)]
pub enum ConditionNode {
    /// Every child condition holds (conjunction).
    All(Vec<ConditionNode>),
    /// At least one child condition holds (disjunction).
    Any(Vec<ConditionNode>),
    /// The child condition does not hold.
    Not(Box<ConditionNode>),
    /// The candidate's path is byte-equal to the given path.
    PathEquals(FsPath),
    /// The candidate's path ends with the given textual suffix.
    PathEndsWith(Vec<u8>),
    /// The candidate's path is the given directory or nested anywhere
    /// beneath it.
    PathWithinDirectory(FsPath),
    /// The candidate's reference classification equals the given kind.
    ReferenceKindIs(ReferenceKind),
}

/// What it means for `fact` to satisfy the condition tree `c`.
pub open spec fn condition_holds(c: ConditionNode, fact: ResourceFact) -> bool
    decreases c,
{
    match c {
        ConditionNode::All(cs) => all_hold(cs@, fact),
        ConditionNode::Any(cs) => any_holds(cs@, fact),
        ConditionNode::Not(c0) => !condition_holds(*c0, fact),
        ConditionNode::PathEquals(p) => fact.path@ == p@,
        ConditionNode::PathEndsWith(suffix) => ends_with(fact.path@, suffix@),
        ConditionNode::PathWithinDirectory(dir) => within_dir(fact.path@, dir@),
        ConditionNode::ReferenceKindIs(kind) => fact.reference == kind,
    }
}

/// Every condition in `s` is satisfied by `fact`.
pub open spec fn all_hold(s: Seq<ConditionNode>, fact: ResourceFact) -> bool
    decreases s,
{
    if s.len() == 0 {
        true
    } else {
        condition_holds(s[0], fact) && all_hold(s.drop_first(), fact)
    }
}

/// At least one condition in `s` is satisfied by `fact`.
pub open spec fn any_holds(s: Seq<ConditionNode>, fact: ResourceFact) -> bool
    decreases s,
{
    if s.len() == 0 {
        false
    } else {
        condition_holds(s[0], fact) || any_holds(s.drop_first(), fact)
    }
}

/// A conjunction is satisfied exactly when each of its children is.
pub proof fn lemma_all_hold_iff(s: Seq<ConditionNode>, fact: ResourceFact)
    ensures
        all_hold(s, fact) <==> (forall|i: int|
            0 <= i < s.len() ==> condition_holds(#[trigger] s[i], fact)),
    decreases s.len(),
{
    if s.len() > 0 {
        lemma_all_hold_iff(s.drop_first(), fact);
        if condition_holds(s[0], fact) && (forall|i: int|
            0 <= i < s.drop_first().len() ==> condition_holds(#[trigger] s.drop_first()[i], fact)) {
            assert forall|i: int| 0 <= i < s.len() implies condition_holds(
                #[trigger] s[i],
                fact,
            ) by {
                if i > 0 {
                    assert(s[i] == s.drop_first()[i - 1]);
                }
            }
        }
        if forall|i: int| 0 <= i < s.len() ==> condition_holds(#[trigger] s[i], fact) {
            assert forall|i: int| 0 <= i < s.drop_first().len() implies condition_holds(
                #[trigger] s.drop_first()[i],
                fact,
            ) by {
                assert(s.drop_first()[i] == s[i + 1]);
            }
        }
    }
}

/// A disjunction is satisfied exactly when some child is.
pub proof fn lemma_any_holds_iff(s: Seq<ConditionNode>, fact: ResourceFact)
    ensures
        any_holds(s, fact) <==> (exists|i: int|
            0 <= i < s.len() && condition_holds(#[trigger] s[i], fact)),
    decreases s.len(),
{
    if s.len() > 0 {
        lemma_any_holds_iff(s.drop_first(), fact);
        if condition_holds(s[0], fact) {
            assert(0 <= 0 < s.len() && condition_holds(s[0], fact));
        } else if any_holds(s.drop_first(), fact) {
            let i = choose|i: int|
                0 <= i < s.drop_first().len() && condition_holds(#[trigger] s.drop_first()[i], fact);
            assert(s[i + 1] == s.drop_first()[i]);
        }
        if exists|i: int| 0 <= i < s.len() && condition_holds(#[trigger] s[i], fact) {
            let i = choose|i: int| 0 <= i < s.len() && condition_holds(#[trigger] s[i], fact);
            if i > 0 {
                assert(s.drop_first()[i - 1] == s[i]);
            }
        }
    }
}

impl ConditionNode {
    /// Conjunction of `conditions`; vacuously true when the list is empty.
    pub fn all(conditions: Vec<ConditionNode>) -> (r: ConditionNode)
        ensures
            r == ConditionNode::All(conditions),
    {
        ConditionNode::All(conditions)
    }

    /// Disjunction of `conditions`; vacuously false when the list is empty.
    pub fn any(conditions: Vec<ConditionNode>) -> (r: ConditionNode)
        ensures
            r == ConditionNode::Any(conditions),
    {
        ConditionNode::Any(conditions)
    }

    /// Negation of `condition`.
    pub fn not(condition: ConditionNode) -> (r: ConditionNode)
        ensures
            r == ConditionNode::Not(Box::new(condition)),
    {
        ConditionNode::Not(Box::new(condition))
    }
}

/// Evaluates the condition tree `c` against the candidate facts `fact`,
/// with short-circuiting: `All` stops at the first unsatisfied child, `Any`
/// at the first satisfied one. Pure and total for every tree.
pub fn evaluate(c: &ConditionNode, fact: &ResourceFact) -> (r: bool)
    ensures
        r == condition_holds(*c, *fact),
    decreases *c,
{
    match c {
        ConditionNode::All(cs) => {
            let n = cs.len();
            let mut i: usize = 0;
            while i < n
                invariant
                    *c == ConditionNode::All(*cs),
                    n == cs@.len(),
                    0 <= i <= n,
                    forall|j: int| 0 <= j < i ==> condition_holds(#[trigger] cs@[j], *fact),
                decreases n - i,
            {
                proof {
                    assert(*cs == (*c)->All_0);
                    assert(decreases_to!(*c => (*c)->All_0));
                    assert(decreases_to!(*cs => cs@));
                    assert(decreases_to!(cs@ => cs@[i as int]));
                }
                if !evaluate(&cs[i], fact) {
                    proof {
                        lemma_all_hold_iff(cs@, *fact);
                    }
                    return false;
                }
                i += 1;
            }
            proof {
                lemma_all_hold_iff(cs@, *fact);
            }
            true
        },
        ConditionNode::Any(cs) => {
            let n = cs.len();
            let mut i: usize = 0;
            while i < n
                invariant
                    *c == ConditionNode::Any(*cs),
                    n == cs@.len(),
                    0 <= i <= n,
                    forall|j: int| 0 <= j < i ==> !condition_holds(#[trigger] cs@[j], *fact),
                decreases n - i,
            {
                proof {
                    assert(*cs == (*c)->Any_0);
                    assert(decreases_to!(*c => (*c)->Any_0));
                    assert(decreases_to!(*cs => cs@));
                    assert(decreases_to!(cs@ => cs@[i as int]));
                }
                if evaluate(&cs[i], fact) {
                    proof {
                        lemma_any_holds_iff(cs@, *fact);
                    }
                    return true;
                }
                i += 1;
            }
            proof {
                lemma_any_holds_iff(cs@, *fact);
            }
            false
        },
        ConditionNode::Not(c0) => !evaluate(c0, fact),
        ConditionNode::PathEquals(p) => bytes_eq(&fact.path.bytes, &p.bytes),
        ConditionNode::PathEndsWith(suffix) => path_ends_with(&fact.path.bytes, suffix),
        ConditionNode::PathWithinDirectory(dir) => path_within_dir(&fact.path.bytes, &dir.bytes),
        ConditionNode::ReferenceKindIs(kind) => fact.reference == *kind,
    }
}

} // verus!
