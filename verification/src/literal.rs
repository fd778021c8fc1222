use vstd::prelude::*;

use crate::error::LogicError;

verus! {

/// A literal is a propositional variable or its negation, identified by
/// a non-zero signed id. The literal with id `-n` is the logical
/// opposite of the literal with id `n`; a negative id marks a negated
/// variable. Two literals are equal exactly when their ids are equal,
/// sign included.
#[derive(Clone, Copy, Debug, PartialEq, Eq, Structural)]
pub struct Literal {
    id: i64,
}

/// Sign flip on an id, with the minimum id wrapping onto itself.
pub open spec fn spec_negated_id(id: int) -> int {
    if id == i64::MIN {
        id
    } else {
        -id
    }
}

impl Literal {
    /// The id that identifies this literal.
    pub closed spec fn spec_id(self) -> int {
        self.id as int
    }

    /// A literal is well formed when its id is non-zero.
    pub open spec fn wf(self) -> bool {
        self.spec_id() != 0
    }

    /// The opposite literal: same variable, other polarity.
    pub closed spec fn spec_not(self) -> Literal {
        Literal { id: if self.id == i64::MIN { i64::MIN } else { (-self.id) as i64 } }
    }

    /// Builds the literal with the given id. The id zero names no
    /// variable, so it is rejected; every other id is accepted.
    pub fn from(id: i64) -> (r: Result<Literal, LogicError>)
        ensures
            r is Ok <==> id != 0,
            r matches Ok(l) ==> l.spec_id() == id && l.wf(),
            r matches Err(e) ==> e == LogicError::InvalidLiteral,
    {
        if id == 0 {
            Err(LogicError::InvalidLiteral)
        } else {
            Ok(Literal { id })
        }
    }

    /// Flips the sign of the id. Total: on the one id whose negation
    /// does not fit, the minimum, the id wraps onto itself.
    pub fn not(&self) -> (r: Literal)
        ensures
            r == self.spec_not(),
    {
        if self.id == i64::MIN {
            Literal { id: i64::MIN }
        } else {
            Literal { id: -self.id }
        }
    }

    /// True when this literal is a negated variable, that is, when its
    /// id is negative.
    pub fn is_not(&self) -> (r: bool)
        ensures
            r == (self.spec_id() < 0),
    {
        self.id < 0
    }
}

/// The negated literal carries the sign-flipped id.
pub proof fn lemma_not_id(l: Literal)
    ensures
        l.spec_not().spec_id() == spec_negated_id(l.spec_id()),
{
}

/// Negating twice gives the literal back, for every literal, the one
/// with the minimum id included.
pub proof fn lemma_not_involutive(l: Literal)
    ensures
        l.spec_not().spec_not() == l,
{
}

/// A literal is determined by its id: equal ids mean equal literals.
pub proof fn lemma_id_determines_literal(a: Literal, b: Literal)
    ensures
        a == b <==> a.spec_id() == b.spec_id(),
{
}

/// Negation keeps well-formedness: a non-zero id stays non-zero.
pub proof fn lemma_not_preserves_wf(l: Literal)
    requires
        l.wf(),
    ensures
        l.spec_not().wf(),
{
}

} // verus!
