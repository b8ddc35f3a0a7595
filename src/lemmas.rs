use crate::formula::{conjunction_of, disjunction_of, negation_of, Formula};
use std::rc::Rc;
use vstd::prelude::*;

verus! {

/// Falsity holds under no assignment.
pub proof fn lemma_bottom_is_false(truths: Set<Seq<char>>)
    ensures
        !Formula::Bottom.holds(truths),
{
}

/// Truth holds under every assignment.
pub proof fn lemma_top_is_true(truths: Set<Seq<char>>)
    ensures
        negation_of(Formula::Bottom).holds(truths),
{
    lemma_bottom_is_false(truths);
}

/// A variable holds exactly when the assignment makes its name true.
pub proof fn lemma_variable_membership(name: String, truths: Set<Seq<char>>)
    ensures
        (Formula::Variable { name }).holds(truths) == truths.contains(name@),
{
}

/// Negating twice gives back the truth value of the formula.
pub proof fn lemma_double_negation(f: Formula, truths: Set<Seq<char>>)
    ensures
        negation_of(negation_of(f)).holds(truths) == f.holds(truths),
{
    assert(negation_of(f).holds(truths) == !f.holds(truths));
}

/// A disjunction holds when either side holds.
pub proof fn lemma_disjunction_is_or(lhs: Formula, rhs: Formula, truths: Set<Seq<char>>)
    ensures
        disjunction_of(lhs, rhs).holds(truths) == (lhs.holds(truths) || rhs.holds(truths)),
{
}

/// The De Morgan construction of a conjunction holds when both sides hold.
pub proof fn lemma_conjunction_is_and(lhs: Formula, rhs: Formula, truths: Set<Seq<char>>)
    ensures
        conjunction_of(lhs, rhs).holds(truths) == (lhs.holds(truths) && rhs.holds(truths)),
{
    lemma_double_negation(lhs, truths);
    lemma_double_negation(rhs, truths);
    lemma_disjunction_is_or(negation_of(lhs), negation_of(rhs), truths);
}

/// A sub-formula shared by two parents counts in each parent as a private copy
/// of it would: a negation and a disjunction that both point at `shared` have
/// the truth values of the same parents built over `copy`, a formula equal to it.
pub proof fn lemma_shared_subformula(
    shared: Rc<Formula>,
    copy: Formula,
    other: Formula,
    truths: Set<Seq<char>>,
)
    requires
        *shared == copy,
    ensures
        (Formula::Negation { child: shared }).holds(truths) == negation_of(copy).holds(truths),
        (Formula::Disjunction { left: shared, right: Rc::new(other) }).holds(truths)
            == disjunction_of(copy, other).holds(truths),
        (Formula::Negation { child: shared }).holds(truths) == !copy.holds(truths),
        (Formula::Disjunction { left: shared, right: Rc::new(other) }).holds(truths)
            == (copy.holds(truths) || other.holds(truths)),
{
}

} // verus!
