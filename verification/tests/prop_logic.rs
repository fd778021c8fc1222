use std::rc::Rc;

use prop_logic::clause::Clause;
use prop_logic::error::LogicError;
use prop_logic::formula::Formula;
use prop_logic::literal::Literal;
use prop_logic::normal_form::{Cnf, CnfDisjunction};

#[test]
fn to_nnf() {
    let p = Formula::literal(1).unwrap();
    let q = Formula::literal(2).unwrap();

    let f = p
        .clone()
        .implies(q.clone())
        .implies(p.clone())
        .implies(p.clone());

    assert_eq!(f.to_nnf(), p.not().or(q).and(p.not()).or(p));
}

#[test]
fn to_cnf() {
    let p = Literal::from(1).unwrap();
    let q = Literal::from(2).unwrap();
    let r = Literal::from(3).unwrap();
    let s = Literal::from(4).unwrap();

    let not_p = p.not();
    let not_r = r.not();
    let not_s = s.not();

    let cnf = Cnf(vec![
        CnfDisjunction(vec![not_p, q]),
        CnfDisjunction(vec![not_p, not_r]),
        CnfDisjunction(vec![not_p, not_s]),
        CnfDisjunction(vec![p, q]),
    ]);

    let p: Formula = p.into();
    let q: Formula = q.into();
    let r: Formula = r.into();
    let s: Formula = s.into();

    let f = p
        .clone()
        .and(q.clone().implies(r.clone().or(s.clone())))
        .not()
        .and(p.clone().or(q.clone()));

    assert_eq!(f.to_cnf().unwrap(), cnf);
}

#[test]
fn is_contradiction() {
    let p = Formula::literal(1).unwrap();
    let not_p = p.clone().not();

    let q = Formula::literal(2).unwrap();
    let not_q = q.clone().not();

    let clause = Clause::new(vec![p.clone(), p.clone()]);
    assert!(!clause.is_contradiction());

    let clause = Clause::new(vec![p.clone(), q.clone()]);
    assert!(!clause.is_contradiction());

    let clause = Clause::new(vec![p.clone(), not_q.clone()]);
    assert!(!clause.is_contradiction());

    let clause = Clause::new(vec![q, not_q]);
    assert!(clause.is_contradiction());

    let clause = Clause::new(vec![p, not_p]);
    assert!(clause.is_contradiction());
}

#[test]
fn literal_from_zero_fails() {
    assert_eq!(Literal::from(0), Err(LogicError::InvalidLiteral));
    assert!(Formula::literal(0).is_err());
}

#[test]
fn literal_double_negation() {
    let l = Literal::from(5).unwrap();
    assert_eq!(l.not().not(), l);
    let m = Literal::from(-7).unwrap();
    assert_eq!(m.not().not(), m);
    assert!(m.is_not());
    assert!(!l.is_not());
}

#[test]
fn literal_min_id_wraps() {
    let l = Literal::from(i64::MIN).unwrap();
    assert_eq!(l.not(), l);
    assert_eq!(l.not().not(), l);
}

#[test]
fn de_morgan_on_conjunction() {
    let p = Formula::literal(1).unwrap();
    let q = Formula::literal(2).unwrap();
    let f = p.clone().and(q.clone()).not();
    assert_eq!(f.to_nnf(), p.not().or(q.not()));
}

#[test]
fn de_morgan_on_disjunction() {
    let p = Formula::literal(1).unwrap();
    let q = Formula::literal(2).unwrap();
    let f = p.clone().or(q.clone()).not();
    assert_eq!(f.to_nnf(), p.not().and(q.not()));
}

#[test]
fn nnf_conversion_is_idempotent() {
    let p = Formula::literal(1).unwrap();
    let q = Formula::literal(2).unwrap();
    let f = p.clone().and(q.clone()).not().or(p.implies(q));
    let once = f.to_nnf();
    assert_eq!(once.to_nnf(), once);
}

#[test]
fn nnf_leaves_wrapped_literal() {
    let l = Literal::from(3).unwrap();
    let f = Formula::FormulaNot(Rc::new(Formula::Literal(l)));
    assert_eq!(f.to_nnf(), Formula::FormulaNot(Rc::new(Formula::Literal(l))));
}

#[test]
fn distribution_of_or_over_and() {
    let p = Literal::from(1).unwrap();
    let q = Literal::from(2).unwrap();
    let r = Literal::from(3).unwrap();

    let fp: Formula = p.into();
    let fq: Formula = q.into();
    let fr: Formula = r.into();
    let f = fp.and(fq).or(fr);

    let expected = Cnf(vec![
        CnfDisjunction(vec![p, r]),
        CnfDisjunction(vec![q, r]),
    ]);
    assert_eq!(f.to_cnf().unwrap(), expected);
}

#[test]
fn cnf_of_bare_literal_is_rejected() {
    let p = Formula::literal(1).unwrap();
    assert_eq!(p.to_cnf(), Err(LogicError::InternalInvariantViolation));
}

#[test]
fn cnf_of_conjunction_of_literals_is_rejected() {
    let p = Formula::literal(1).unwrap();
    let q = Formula::literal(2).unwrap();
    assert_eq!(p.and(q).to_cnf(), Err(LogicError::InternalInvariantViolation));
}

#[test]
fn implication_is_rewritten_at_construction() {
    let p = Formula::literal(1).unwrap();
    let q = Formula::literal(2).unwrap();
    assert_eq!(p.clone().implies(q.clone()), p.not().or(q));
}

#[test]
fn wrapper_pair_is_contradiction() {
    let p = Formula::literal(1).unwrap();
    let q = Formula::literal(2).unwrap();
    let f = p.and(q);
    let clause = Clause::new(vec![f.clone(), f.not()]);
    assert!(clause.is_contradiction());
}

#[test]
fn is_not_of_recognises_only_the_wrapper() {
    let p = Formula::literal(1).unwrap();
    let q = Formula::literal(2).unwrap();
    let f = p.clone().and(q.clone());
    assert!(f.not().is_not_of(&f));
    // A negated literal is stored by its sign, not wrapped, so the
    // wrapper check does not relate it to the plain literal.
    assert!(!p.not().is_not_of(&p));
    assert!(!f.not().is_not_of(&p));
}

#[test]
fn min_id_literal_contradicts_itself() {
    // The minimum id wraps onto itself under negation, so a clause
    // repeating that one literal already holds a literal and its
    // (wrapped) opposite.
    let l = Formula::literal(i64::MIN).unwrap();
    let clause = Clause::new(vec![l.clone(), l]);
    assert!(clause.is_contradiction());
}

#[test]
fn empty_clause_is_no_contradiction() {
    let clause = Clause::new(vec![]);
    assert!(!clause.is_contradiction());
}
