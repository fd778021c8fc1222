use vstd::prelude::*;

use crate::formula::Formula;

verus! {

/// An ordered collection of formulas, intended to hold literals,
/// checked for trivial unsatisfiability.
pub struct Clause(Vec<Formula>);

/// Two formulas that contradict each other: either `b` is the explicit
/// negation wrapper around `a`, or both are bare literals and `b` is
/// the sign-negated counterpart of `a`.
pub open spec fn spec_complementary(a: Formula, b: Formula) -> bool {
    b.spec_is_not_of(a) || spec_opposite_literals(a, b)
}

/// Both formulas are bare literals and the second carries the
/// sign-flipped id of the first.
pub open spec fn spec_opposite_literals(a: Formula, b: Formula) -> bool {
    a is Literal && b is Literal && b->Literal_0 == a->Literal_0.spec_not()
}

/// A collection contains a contradiction when some ordered pair of its
/// members is complementary.
pub open spec fn spec_has_contradiction(s: Seq<Formula>) -> bool {
    exists|i: int, j: int|
        0 <= i < s.len() && 0 <= j < s.len() && spec_complementary(s[i], s[j])
}

/// Whether `b` contradicts `a`: the explicit negation wrapper of `a`,
/// or the opposite literal of a literal `a`.
fn complementary(a: &Formula, b: &Formula) -> (r: bool)
    ensures
        r == spec_complementary(*a, *b),
{
    if b.is_not_of(a) {
        true
    } else {
        match (a, b) {
            (Formula::Literal(la), Formula::Literal(lb)) => la.not() == *lb,
            _ => false,
        }
    }
}

impl View for Clause {
    type V = Seq<Formula>;

    closed spec fn view(&self) -> Seq<Formula> {
        self.0@
    }
}

impl Clause {
    /// A clause holding the given formulas, in the given order.
    pub fn new(vec: Vec<Formula>) -> (r: Clause)
        ensures
            r@ == vec@,
    {
        Clause(vec)
    }

    /// Naive quadratic scan for a contradiction: some member together
    /// with its negation. A pair is recognised when one member is the
    /// explicit negation wrapper of the other, and, for bare literals,
    /// when their ids are opposite.
    pub fn is_contradiction(&self) -> (r: bool)
        ensures
            r == spec_has_contradiction(self@),
    {
        let n = self.0.len();
        let mut i: usize = 0;
        while i < n
            invariant
                n == self@.len(),
                i <= n,
                forall|k: int, j: int|
                    0 <= k < i && 0 <= j < n ==> !spec_complementary(self@[k], self@[j]),
            decreases n - i,
        {
            let mut j: usize = 0;
            while j < n
                invariant
                    n == self@.len(),
                    i < n,
                    j <= n,
                    forall|k: int, l: int|
                        0 <= k < i && 0 <= l < n ==> !spec_complementary(self@[k], self@[l]),
                    forall|l: int| 0 <= l < j ==> !spec_complementary(self@[i as int], self@[l]),
                decreases n - j,
            {
                if complementary(&self.0[i], &self.0[j]) {
                    return true;
                }
                j = j + 1;
            }
            i = i + 1;
        }
        false
    }
}

/// A clause that holds, at any two positions, a formula and its
/// explicit negation wrapper is reported as a contradiction.
pub proof fn lemma_wrapper_pair_is_contradiction(s: Seq<Formula>, i: int, j: int)
    requires
        0 <= i < s.len(),
        0 <= j < s.len(),
        s[j].spec_is_not_of(s[i]),
    ensures
        spec_has_contradiction(s),
{
    assert(spec_complementary(s[i], s[j]));
}

/// A clause of bare literals, no one of which is the sign-negated
/// counterpart of another or of itself, is never reported as a
/// contradiction; in particular a clause that repeats one literal, or
/// holds two literals of unrelated ids, is no contradiction.
pub proof fn lemma_unrelated_literals_no_contradiction(s: Seq<Formula>)
    requires
        forall|i: int| 0 <= i < s.len() ==> s[i] is Literal,
        forall|i: int, j: int|
            0 <= i < s.len() && 0 <= j < s.len() ==> !spec_opposite_literals(s[i], s[j]),
    ensures
        !spec_has_contradiction(s),
{
    assert forall|i: int, j: int|
        0 <= i < s.len() && 0 <= j < s.len() implies !spec_complementary(s[i], s[j]) by {
        assert(s[j] is Literal);
        assert(!s[j].spec_is_not_of(s[i]));
    }
}

} // verus!
