use vstd::prelude::*;

use std::rc::Rc;

use crate::error::LogicError;
use crate::literal::Literal;

verus! {

/// A formula F may be:
///
/// F = p | -p | not A | A or B | A and B
///
/// with p a [`Literal`] and A, B formulas. Sub-formulas are held behind
/// reference-counted pointers, so a transformation shares the sub-trees
/// it does not rewrite instead of copying them.
#[derive(Debug)]
pub enum Formula {
    Literal(Literal),
    /// The negation of a non-literal formula. A negated literal is not
    /// wrapped here: it is stored as `Formula::Literal` with the sign
    /// of its id flipped, so each literal negation has exactly one
    /// representation. The constructors keep this invariant; the
    /// variant itself does not force it.
    FormulaNot(Rc<Formula>),
    Or(Rc<Formula>, Rc<Formula>),
    And(Rc<Formula>, Rc<Formula>),
}

/// Relies on std's `Rc::clone`: the clone is a new handle onto the same
/// shared allocation, so it carries the same value.
#[verifier::external_body]
pub(crate) fn rc_clone(rc: &Rc<Formula>) -> (r: Rc<Formula>)
    ensures
        *r == **rc,
{
    rc.clone()
}

/// Structural equality of two formula trees: same variants, equal
/// children, literals equal by id.
fn formula_eq(a: &Formula, b: &Formula) -> (r: bool)
    ensures
        r == (*a == *b),
    decreases *a,
{
    match (a, b) {
        (Formula::Literal(x), Formula::Literal(y)) => x == y,
        (Formula::FormulaNot(x), Formula::FormulaNot(y)) => formula_eq(&**x, &**y),
        (Formula::Or(x0, x1), Formula::Or(y0, y1)) => formula_eq(&**x0, &**y0) && formula_eq(
            &**x1,
            &**y1,
        ),
        (Formula::And(x0, x1), Formula::And(y0, y1)) => formula_eq(&**x0, &**y0) && formula_eq(
            &**x1,
            &**y1,
        ),
        _ => false,
    }
}

impl PartialEq for Formula {
    /// Formula equality is structural.
    fn eq(&self, other: &Formula) -> bool {
        formula_eq(self, other)
    }
}

impl vstd::std_specs::cmp::PartialEqSpecImpl for Formula {
    open spec fn obeys_eq_spec() -> bool {
        true
    }

    open spec fn eq_spec(&self, other: &Formula) -> bool {
        *self == *other
    }
}

impl Clone for Formula {
    /// The clone shares this formula's sub-trees; only the root node is
    /// rebuilt.
    fn clone(&self) -> (r: Formula)
        ensures
            r == *self,
    {
        match self {
            Formula::Literal(l) => Formula::Literal(*l),
            Formula::FormulaNot(g) => Formula::FormulaNot(rc_clone(g)),
            Formula::Or(a, b) => Formula::Or(rc_clone(a), rc_clone(b)),
            Formula::And(a, b) => Formula::And(rc_clone(a), rc_clone(b)),
        }
    }
}

impl From<Literal> for Formula {
    /// A literal, as a formula.
    fn from(value: Literal) -> Formula {
        Formula::Literal(value)
    }
}

impl vstd::std_specs::convert::FromSpecImpl<Literal> for Formula {
    open spec fn obeys_from_spec() -> bool {
        true
    }

    open spec fn from_spec(value: Literal) -> Formula {
        Formula::Literal(value)
    }
}

impl Formula {
    /// The canonical negation: a literal flips its sign and stays a
    /// literal; any other formula is wrapped in `FormulaNot`.
    pub open spec fn spec_not(self) -> Formula {
        match self {
            Formula::Literal(l) => Formula::Literal(l.spec_not()),
            _ => Formula::FormulaNot(Rc::new(self)),
        }
    }

    /// The disjunction of two formulas.
    pub open spec fn spec_or(self, other: Formula) -> Formula {
        Formula::Or(Rc::new(self), Rc::new(other))
    }

    /// The conjunction of two formulas.
    pub open spec fn spec_and(self, other: Formula) -> Formula {
        Formula::And(Rc::new(self), Rc::new(other))
    }

    /// Material implication, rewritten at construction: A implies B is
    /// (not A) or B.
    pub open spec fn spec_implies(self, other: Formula) -> Formula {
        self.spec_not().spec_or(other)
    }

    /// True exactly when `self` is the explicit `FormulaNot` wrapper
    /// around a formula structurally equal to `other`. Intentionally
    /// narrow: a literal and its sign-negated counterpart are not such
    /// a pair.
    pub open spec fn spec_is_not_of(self, other: Formula) -> bool {
        match self {
            Formula::FormulaNot(g) => *g == other,
            _ => false,
        }
    }

    /// All literals in the tree are well formed, and no `FormulaNot`
    /// wraps a bare literal: negated literals are represented by their
    /// sign alone.
    pub open spec fn wf(self) -> bool
        decreases self,
    {
        match self {
            Formula::Literal(l) => l.wf(),
            Formula::FormulaNot(g) => !(*g is Literal) && g.wf(),
            Formula::Or(a, b) => a.wf() && b.wf(),
            Formula::And(a, b) => a.wf() && b.wf(),
        }
    }

    /// No `FormulaNot` node appears anywhere in the tree.
    pub open spec fn negation_free(self) -> bool
        decreases self,
    {
        match self {
            Formula::Literal(_) => true,
            Formula::FormulaNot(_) => false,
            Formula::Or(a, b) => a.negation_free() && b.negation_free(),
            Formula::And(a, b) => a.negation_free() && b.negation_free(),
        }
    }

    /// The formula holding the literal with the given id; the id zero
    /// is rejected as `InvalidLiteral`, every other id accepted.
    pub fn literal(literal: i64) -> (r: Result<Formula, LogicError>)
        ensures
            r is Ok <==> literal != 0,
            r matches Ok(f) ==> f matches Formula::Literal(l) && l.spec_id() == literal,
            r matches Ok(f) ==> f.wf(),
            r matches Err(e) ==> e == LogicError::InvalidLiteral,
    {
        match Literal::from(literal) {
            Ok(l) => Ok(Formula::Literal(l)),
            Err(e) => Err(e),
        }
    }

    /// The canonical negation of this formula. A literal flips its
    /// sign; everything else gains a `FormulaNot` wrapper, which keeps
    /// the one-representation invariant for negated literals.
    pub fn not(&self) -> (r: Formula)
        ensures
            r == self.spec_not(),
    {
        match self {
            Formula::Literal(l) => Formula::Literal(l.not()),
            _ => Formula::FormulaNot(Rc::new(self.clone())),
        }
    }

    /// The disjunction of this formula and `other`.
    pub fn or(&self, other: Formula) -> (r: Formula)
        ensures
            r == self.spec_or(other),
    {
        Formula::Or(Rc::new(self.clone()), Rc::new(other))
    }

    /// The conjunction of this formula and `other`.
    pub fn and(&self, other: Formula) -> (r: Formula)
        ensures
            r == self.spec_and(other),
    {
        Formula::And(Rc::new(self.clone()), Rc::new(other))
    }

    /// Material implication: `self` implies `other`, built as
    /// (not self) or other.
    pub fn implies(&self, other: Formula) -> (r: Formula)
        ensures
            r == self.spec_implies(other),
    {
        self.not().or(other)
    }

    /// True exactly when this formula is the explicit `FormulaNot`
    /// wrapper around a formula structurally equal to `formula`. A
    /// literal standing beside its sign-negated counterpart is not
    /// recognised here.
    pub fn is_not_of(&self, formula: &Formula) -> (r: bool)
        ensures
            r == self.spec_is_not_of(*formula),
    {
        match self {
            Formula::FormulaNot(g) => formula_eq(&**g, formula),
            _ => false,
        }
    }
}

/// The canonical constructors build well-formed formulas from
/// well-formed parts: negation never wraps a literal, and the binary
/// connectives keep the parts as they are.
pub proof fn lemma_constructors_wf(f: Formula, g: Formula)
    requires
        f.wf(),
        g.wf(),
    ensures
        f.spec_not().wf(),
        f.spec_or(g).wf(),
        f.spec_and(g).wf(),
        f.spec_implies(g).wf(),
{
    if f is Literal {
        crate::literal::lemma_not_preserves_wf(f->Literal_0);
    }
    assert(f.spec_not().wf());
}

} // verus!
