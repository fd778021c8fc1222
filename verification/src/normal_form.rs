use vstd::prelude::*;

use std::rc::Rc;

use crate::error::LogicError;
use crate::formula::Formula;
use crate::formula::rc_clone;
use crate::literal::Literal;

verus! {

/// An ordered disjunction of literals: one CNF clause, its literals in
/// the order the flattening walk collected them.
#[derive(Debug, Clone, PartialEq, Eq)]
pub struct CnfDisjunction(pub Vec<Literal>);

/// A conjunctive normal form: an ordered conjunction of
/// [`CnfDisjunction`] clauses, left sub-tree before right sub-tree.
#[derive(Debug, Clone, PartialEq, Eq)]
pub struct Cnf(pub Vec<CnfDisjunction>);

impl View for CnfDisjunction {
    type V = Seq<Literal>;

    open spec fn view(&self) -> Seq<Literal> {
        self.0@
    }
}

impl View for Cnf {
    type V = Seq<Seq<Literal>>;

    open spec fn view(&self) -> Seq<Seq<Literal>> {
        disjunction_views(self.0@)
    }
}

impl Formula {
    /// Negation normal form of a formula: negation pushed down to the
    /// literals by double-negation elimination and De Morgan's laws. A
    /// `FormulaNot` that already wraps a bare literal is left as it
    /// stands.
    pub open spec fn spec_nnf(self) -> Formula
        decreases self, 0int,
    {
        match self {
            Formula::Literal(_) => self,
            Formula::FormulaNot(g) => g.spec_nnf_of_not(),
            Formula::Or(a, b) => Formula::Or(Rc::new(a.spec_nnf()), Rc::new(b.spec_nnf())),
            Formula::And(a, b) => Formula::And(Rc::new(a.spec_nnf()), Rc::new(b.spec_nnf())),
        }
    }

    /// Negation normal form of `FormulaNot(self)`: the double negation
    /// collapses, a disjunction or conjunction turns by De Morgan into
    /// its dual over negated children, and a bare literal under the
    /// wrapper is left wrapped.
    pub open spec fn spec_nnf_of_not(self) -> Formula
        decreases self, 1int,
    {
        match self {
            Formula::Literal(_) => Formula::FormulaNot(Rc::new(self)),
            Formula::FormulaNot(p) => p.spec_nnf(),
            Formula::Or(p, q) => Formula::And(
                Rc::new(p.spec_nnf_negated()),
                Rc::new(q.spec_nnf_negated()),
            ),
            Formula::And(p, q) => Formula::Or(
                Rc::new(p.spec_nnf_negated()),
                Rc::new(q.spec_nnf_negated()),
            ),
        }
    }

    /// Negation normal form of the canonical negation of `self`; for a
    /// literal that is the sign-flipped literal, for anything else the
    /// normal form of the wrapped negation.
    pub open spec fn spec_nnf_negated(self) -> Formula
        decreases self, 2int,
    {
        match self {
            Formula::Literal(l) => Formula::Literal(l.spec_not()),
            _ => self.spec_nnf_of_not(),
        }
    }

    /// A formula is in negation normal form when every `FormulaNot`
    /// wraps a bare literal.
    pub open spec fn is_nnf(self) -> bool
        decreases self,
    {
        match self {
            Formula::Literal(_) => true,
            Formula::FormulaNot(g) => *g is Literal,
            Formula::Or(a, b) => a.is_nnf() && b.is_nnf(),
            Formula::And(a, b) => a.is_nnf() && b.is_nnf(),
        }
    }

    /// Converts the formula into negation normal form by recursively
    /// applying double-negation elimination and De Morgan's laws.
    pub fn to_nnf(&self) -> (r: Formula)
        ensures
            r == self.spec_nnf(),
        decreases *self, 0int,
    {
        match self {
            Formula::Literal(_) => self.clone(),
            Formula::FormulaNot(g) => (&**g).nnf_of_not(),
            Formula::Or(a, b) => Formula::Or(
                Rc::new((&**a).to_nnf()),
                Rc::new((&**b).to_nnf()),
            ),
            Formula::And(a, b) => Formula::And(
                Rc::new((&**a).to_nnf()),
                Rc::new((&**b).to_nnf()),
            ),
        }
    }

    /// Negation normal form of this formula's explicit negation.
    fn nnf_of_not(&self) -> (r: Formula)
        ensures
            r == self.spec_nnf_of_not(),
        decreases *self, 1int,
    {
        match self {
            Formula::Literal(_) => Formula::FormulaNot(Rc::new(self.clone())),
            Formula::FormulaNot(p) => (&**p).to_nnf(),
            Formula::Or(p, q) => Formula::And(
                Rc::new((&**p).nnf_negated()),
                Rc::new((&**q).nnf_negated()),
            ),
            Formula::And(p, q) => Formula::Or(
                Rc::new((&**p).nnf_negated()),
                Rc::new((&**q).nnf_negated()),
            ),
        }
    }

    /// Negation normal form of this formula's canonical negation.
    fn nnf_negated(&self) -> (r: Formula)
        ensures
            r == self.spec_nnf_negated(),
        decreases *self, 2int,
    {
        match self {
            Formula::Literal(l) => Formula::Literal(l.not()),
            _ => self.nnf_of_not(),
        }
    }
}

impl Formula {
    /// The number of nodes in the tree.
    pub open spec fn size(self) -> nat
        decreases self,
    {
        match self {
            Formula::Literal(_) => 1,
            Formula::FormulaNot(g) => 1 + g.size(),
            Formula::Or(a, b) => 1 + a.size() + b.size(),
            Formula::And(a, b) => 1 + a.size() + b.size(),
        }
    }

    /// One pass of the CNF distribution rules. A disjunction with a
    /// conjunction on either side is distributed, left side first:
    /// (P and Q) or B becomes (P or B) and (Q or B), and symmetrically
    /// on the right. A disjunction with no conjunction directly under
    /// it is left as it stands, and a conjunction is rewritten in both
    /// children. Anything else is returned unchanged.
    pub open spec fn spec_cnf_rule(self) -> Formula
        decreases self.size(),
        via Self::spec_cnf_rule_decreases
    {
        match self {
            Formula::Or(a, b) => if *a is And {
                Formula::And(
                    Rc::new(Formula::Or(a->And_0, b).spec_cnf_rule()),
                    Rc::new(Formula::Or(a->And_1, b).spec_cnf_rule()),
                )
            } else if *b is And {
                Formula::And(
                    Rc::new(Formula::Or(a, b->And_0).spec_cnf_rule()),
                    Rc::new(Formula::Or(a, b->And_1).spec_cnf_rule()),
                )
            } else {
                self
            },
            Formula::And(a, b) => Formula::And(
                Rc::new(a.spec_cnf_rule()),
                Rc::new(b.spec_cnf_rule()),
            ),
            _ => self,
        }
    }

    #[via_fn]
    proof fn spec_cnf_rule_decreases(self) {
        match &self {
            Formula::Or(a, b) => {
                assert(self.size() == 1 + a.size() + b.size());
                match &**a {
                    Formula::And(p, q) => {
                        assert(a.size() == 1 + p.size() + q.size());
                        assert(Formula::Or(*p, *b).size() == 1 + p.size() + b.size());
                        assert(Formula::Or(*q, *b).size() == 1 + q.size() + b.size());
                    },
                    _ => {
                        match &**b {
                            Formula::And(q, r) => {
                                assert(b.size() == 1 + q.size() + r.size());
                                assert(Formula::Or(*a, *q).size() == 1 + a.size() + q.size());
                                assert(Formula::Or(*a, *r).size() == 1 + a.size() + r.size());
                            },
                            _ => {},
                        }
                    },
                }
            },
            _ => {},
        }
    }

    /// An Or-tree over bare literals: the shape of one CNF clause.
    pub open spec fn is_clause(self) -> bool
        decreases self,
    {
        match self {
            Formula::Literal(_) => true,
            Formula::Or(a, b) => a.is_clause() && b.is_clause(),
            _ => false,
        }
    }

    /// An And-tree whose leaves are all disjunctions of literals: the
    /// only shape the flattening step accepts.
    pub open spec fn is_clause_conjunction(self) -> bool
        decreases self,
    {
        match self {
            Formula::And(a, b) => a.is_clause_conjunction() && b.is_clause_conjunction(),
            Formula::Or(a, b) => a.is_clause() && b.is_clause(),
            _ => false,
        }
    }

    /// The literals of an Or-tree, collected left to right.
    pub open spec fn clause_literals(self) -> Seq<Literal>
        decreases self,
    {
        match self {
            Formula::Literal(l) => seq![l],
            Formula::Or(a, b) => a.clause_literals() + b.clause_literals(),
            _ => Seq::empty(),
        }
    }

    /// The clauses of an And-tree of disjunctions, collected left to
    /// right, depth first: each Or leaf contributes the one clause made
    /// of its literals.
    pub open spec fn conjunction_clauses(self) -> Seq<Seq<Literal>>
        decreases self,
    {
        match self {
            Formula::And(a, b) => a.conjunction_clauses() + b.conjunction_clauses(),
            Formula::Or(a, b) => seq![a.clause_literals() + b.clause_literals()],
            _ => Seq::empty(),
        }
    }

    /// Whether CNF conversion of this formula succeeds: after NNF
    /// conversion and distribution the tree must be a conjunction of
    /// disjunctions of literals.
    pub open spec fn cnf_ok(self) -> bool {
        self.spec_nnf().spec_cnf_rule().is_clause_conjunction()
    }

    /// The clauses CNF conversion of this formula produces.
    pub open spec fn spec_cnf(self) -> Seq<Seq<Literal>> {
        self.spec_nnf().spec_cnf_rule().conjunction_clauses()
    }

    /// Applies the CNF distribution rules throughout the tree.
    fn cnf_rule(&self) -> (r: Formula)
        ensures
            r == self.spec_cnf_rule(),
        decreases self.size(),
    {
        match self {
            Formula::Or(a, b) => match &**a {
                Formula::And(p, q) => {
                    let left = Formula::Or(rc_clone(p), rc_clone(b));
                    let right = Formula::Or(rc_clone(q), rc_clone(b));
                    proof {
                        assert(self.size() == 1 + (**a).size() + (**b).size());
                        assert((**a).size() == 1 + (**p).size() + (**q).size());
                        assert(left.size() == 1 + (**p).size() + (**b).size());
                        assert(right.size() == 1 + (**q).size() + (**b).size());
                    }
                    Formula::And(Rc::new(left.cnf_rule()), Rc::new(right.cnf_rule()))
                },
                _ => match &**b {
                    Formula::And(q, r) => {
                        let left = Formula::Or(rc_clone(a), rc_clone(q));
                        let right = Formula::Or(rc_clone(a), rc_clone(r));
                        proof {
                            assert(self.size() == 1 + (**a).size() + (**b).size());
                            assert((**b).size() == 1 + (**q).size() + (**r).size());
                            assert(left.size() == 1 + (**a).size() + (**q).size());
                            assert(right.size() == 1 + (**a).size() + (**r).size());
                        }
                        Formula::And(Rc::new(left.cnf_rule()), Rc::new(right.cnf_rule()))
                    },
                    _ => Formula::Or(rc_clone(a), rc_clone(b)),
                },
            },
            Formula::And(a, b) => Formula::And(
                Rc::new((&**a).cnf_rule()),
                Rc::new((&**b).cnf_rule()),
            ),
            _ => self.clone(),
        }
    }

    /// Collects the literals of an Or-tree into `or_literals`, left to
    /// right. Any node other than a disjunction or a literal means the
    /// tree is not a clause, which is reported as an internal
    /// invariant violation.
    fn separate_or(&self, or_literals: &mut Vec<Literal>) -> (r: Result<(), LogicError>)
        ensures
            r is Ok <==> self.is_clause(),
            r is Ok ==> final(or_literals)@ == old(or_literals)@ + self.clause_literals(),
            r matches Err(e) ==> e == LogicError::InternalInvariantViolation,
        decreases *self,
    {
        match self {
            Formula::Literal(l) => {
                or_literals.push(*l);
                proof {
                    assert(or_literals@ =~= old(or_literals)@ + self.clause_literals());
                }
                Ok(())
            },
            Formula::Or(a, b) => {
                match (&**a).separate_or(or_literals) {
                    Ok(_) => {},
                    Err(e) => {
                        return Err(e);
                    },
                }
                match (&**b).separate_or(or_literals) {
                    Ok(_) => {},
                    Err(e) => {
                        return Err(e);
                    },
                }
                proof {
                    assert(or_literals@ =~= old(or_literals)@ + self.clause_literals());
                }
                Ok(())
            },
            _ => Err(LogicError::InternalInvariantViolation),
        }
    }

    /// Walks the And-spine of a distributed tree and appends one
    /// [`CnfDisjunction`] per Or leaf, left to right. Any other leaf
    /// shape is reported as an internal invariant violation.
    fn separate_and(&self, literals: &mut Vec<CnfDisjunction>) -> (r: Result<(), LogicError>)
        ensures
            r is Ok <==> self.is_clause_conjunction(),
            r is Ok ==> disjunction_views(final(literals)@) == disjunction_views(old(literals)@)
                + self.conjunction_clauses(),
            r matches Err(e) ==> e == LogicError::InternalInvariantViolation,
        decreases *self,
    {
        match self {
            Formula::Or(a, b) => {
                let mut or_literals: Vec<Literal> = Vec::new();
                match (&**a).separate_or(&mut or_literals) {
                    Ok(_) => {},
                    Err(e) => {
                        return Err(e);
                    },
                }
                match (&**b).separate_or(&mut or_literals) {
                    Ok(_) => {},
                    Err(e) => {
                        return Err(e);
                    },
                }
                let cnf_literal = CnfDisjunction(or_literals);
                literals.push(cnf_literal);
                proof {
                    assert(disjunction_views(literals@) =~= disjunction_views(old(literals)@)
                        + self.conjunction_clauses());
                }
                Ok(())
            },
            Formula::And(a, b) => {
                match (&**a).separate_and(literals) {
                    Ok(_) => {},
                    Err(e) => {
                        return Err(e);
                    },
                }
                match (&**b).separate_and(literals) {
                    Ok(_) => {},
                    Err(e) => {
                        return Err(e);
                    },
                }
                proof {
                    assert(disjunction_views(literals@) =~= disjunction_views(old(literals)@)
                        + self.conjunction_clauses());
                }
                Ok(())
            },
            _ => Err(LogicError::InternalInvariantViolation),
        }
    }

    /// Converts the formula to conjunctive normal form: NNF conversion
    /// first, then distribution of disjunction over conjunction, then
    /// flattening into an explicit conjunction of disjunctions of
    /// literals. Succeeds exactly when the distributed tree has that
    /// two-level shape; on any other shape the flattening reports an
    /// internal invariant violation, as it does for a bare literal or
    /// a leftover negation wrapper.
    ///
    /// Distribution can grow the output exponentially in the size of
    /// the input for deeply nested alternating shapes; that growth is
    /// inherent to this algorithm and is not bounded here, so callers
    /// with large formulas should bound their inputs themselves.
    pub fn to_cnf(&self) -> (r: Result<Cnf, LogicError>)
        ensures
            r is Ok <==> self.cnf_ok(),
            r matches Ok(cnf) ==> cnf@ == self.spec_cnf(),
            r matches Err(e) ==> e == LogicError::InternalInvariantViolation,
    {
        let nnf = self.to_nnf();
        let cnf = nnf.cnf_rule();

        let mut literals: Vec<CnfDisjunction> = Vec::new();
        match cnf.separate_and(&mut literals) {
            Ok(_) => {
                proof {
                    assert(Cnf(literals)@ =~= self.spec_cnf());
                }
                Ok(Cnf(literals))
            },
            Err(e) => Err(e),
        }
    }
}

/// One pass of the distribution rules reaches a fixed point: applying
/// them to their own result changes nothing, so no further rewriting
/// of the distributed tree is ever needed.
pub proof fn lemma_cnf_rule_idempotent(f: &Formula)
    ensures
        f.spec_cnf_rule().spec_cnf_rule() == f.spec_cnf_rule(),
    decreases f.size(), 1int,
{
    match f {
        Formula::Or(a, b) => {
            assert(f.size() == 1 + a.size() + b.size());
            lemma_cnf_rule_or_idempotent(a, b);
        },
        Formula::And(a, b) => {
            assert(f.size() == 1 + a.size() + b.size());
            lemma_cnf_rule_idempotent(&**a);
            lemma_cnf_rule_idempotent(&**b);
        },
        _ => {},
    }
}

/// Fixed point of the distribution rules at a disjunction node, by
/// induction over the distribution's own recursion.
proof fn lemma_cnf_rule_or_idempotent(a: &Rc<Formula>, b: &Rc<Formula>)
    ensures
        Formula::Or(*a, *b).spec_cnf_rule().spec_cnf_rule() == Formula::Or(*a, *b).spec_cnf_rule(),
    decreases 1 + a.size() + b.size(), 0int,
{
    match &**a {
        Formula::And(p, q) => {
            assert(a.size() == 1 + p.size() + q.size());
            lemma_cnf_rule_or_idempotent(p, b);
            lemma_cnf_rule_or_idempotent(q, b);
        },
        _ => {
            match &**b {
                Formula::And(q, r) => {
                    assert(b.size() == 1 + q.size() + r.size());
                    lemma_cnf_rule_or_idempotent(a, q);
                    lemma_cnf_rule_or_idempotent(a, r);
                },
                _ => {},
            }
        },
    }
}

/// The views of a sequence of CNF clauses, in order.
pub open spec fn disjunction_views(s: Seq<CnfDisjunction>) -> Seq<Seq<Literal>> {
    s.map_values(|d: CnfDisjunction| d@)
}

/// The result of NNF conversion is in negation normal form: no
/// negation is left on anything but a bare literal. The same holds of
/// the normal forms of a negation.
pub proof fn lemma_nnf_is_nnf(f: &Formula)
    ensures
        f.spec_nnf().is_nnf(),
        f.spec_nnf_of_not().is_nnf(),
        f.spec_nnf_negated().is_nnf(),
    decreases f,
{
    match f {
        Formula::Literal(_) => {},
        Formula::FormulaNot(g) => {
            lemma_nnf_is_nnf(&**g);
        },
        Formula::Or(a, b) => {
            lemma_nnf_is_nnf(&**a);
            lemma_nnf_is_nnf(&**b);
        },
        Formula::And(a, b) => {
            lemma_nnf_is_nnf(&**a);
            lemma_nnf_is_nnf(&**b);
        },
    }
}

/// A formula already in negation normal form is left unchanged by NNF
/// conversion.
pub proof fn lemma_nnf_fixed_point(f: &Formula)
    requires
        f.is_nnf(),
    ensures
        f.spec_nnf() == *f,
    decreases f,
{
    match f {
        Formula::Literal(_) => {},
        Formula::FormulaNot(g) => {
            assert(**g is Literal);
            assert(f.spec_nnf() == (**g).spec_nnf_of_not());
            assert((**g).spec_nnf_of_not() == Formula::FormulaNot(Rc::new(**g)));
            assert(f.spec_nnf() == Formula::FormulaNot(Rc::new(**g)));
            assert(*f == Formula::FormulaNot(Rc::new(**g)));
        },
        Formula::Or(a, b) => {
            lemma_nnf_fixed_point(&**a);
            lemma_nnf_fixed_point(&**b);
        },
        Formula::And(a, b) => {
            lemma_nnf_fixed_point(&**a);
            lemma_nnf_fixed_point(&**b);
        },
    }
}

/// On a well-formed formula, where negation never wraps a bare
/// literal, NNF conversion eliminates every negation wrapper: the
/// result is negation-free, its negated literals carried by their
/// signs alone, and it is well formed in turn. The second and third
/// conclusions say the same of the normal forms of a negation.
pub proof fn lemma_nnf_preserves_wf(f: &Formula)
    ensures
        f.wf() ==> f.spec_nnf().negation_free() && f.spec_nnf().wf(),
        f.wf() && !(*f is Literal) ==> f.spec_nnf_of_not().negation_free()
            && f.spec_nnf_of_not().wf(),
        f.wf() ==> f.spec_nnf_negated().negation_free() && f.spec_nnf_negated().wf(),
    decreases f,
{
    match f {
        Formula::Literal(l) => {
            if l.wf() {
                crate::literal::lemma_not_preserves_wf(*l);
            }
        },
        Formula::FormulaNot(g) => {
            lemma_nnf_preserves_wf(&**g);
        },
        Formula::Or(a, b) => {
            lemma_nnf_preserves_wf(&**a);
            lemma_nnf_preserves_wf(&**b);
        },
        Formula::And(a, b) => {
            lemma_nnf_preserves_wf(&**a);
            lemma_nnf_preserves_wf(&**b);
        },
    }
}

/// NNF conversion is idempotent: converting a second time changes
/// nothing.
pub proof fn lemma_nnf_idempotent(f: &Formula)
    ensures
        f.spec_nnf().spec_nnf() == f.spec_nnf(),
{
    lemma_nnf_is_nnf(f);
    lemma_nnf_fixed_point(&f.spec_nnf());
}

} // verus!

