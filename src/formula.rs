use crate::assignment::Assignment;
use std::rc::Rc;
use vstd::prelude::*;

verus! {

/// A propositional formula. Children are shared and never mutated, so one
/// sub-formula may stand under several parents.
pub enum Formula {
    Bottom,
    Variable { name: String },
    Negation { child: Rc<Formula> },
    Disjunction { left: Rc<Formula>, right: Rc<Formula> },
}

impl Formula {
    /// The truth value of the formula when exactly the names in `truths` are true.
    pub open spec fn holds(self, truths: Set<Seq<char>>) -> bool
        decreases self,
    {
        match self {
            Formula::Bottom => false,
            Formula::Variable { name } => truths.contains(name@),
            Formula::Negation { child } => !(*child).holds(truths),
            Formula::Disjunction { left, right } => (*left).holds(truths) || (*right).holds(truths),
        }
    }
}

/// `f` negated.
pub open spec fn negation_of(f: Formula) -> Formula {
    Formula::Negation { child: Rc::new(f) }
}

/// The disjunction of `lhs` and `rhs`.
pub open spec fn disjunction_of(lhs: Formula, rhs: Formula) -> Formula {
    Formula::Disjunction { left: Rc::new(lhs), right: Rc::new(rhs) }
}

/// The conjunction of `lhs` and `rhs` by De Morgan: not (not lhs or not rhs).
pub open spec fn conjunction_of(lhs: Formula, rhs: Formula) -> Formula {
    negation_of(disjunction_of(negation_of(lhs), negation_of(rhs)))
}

/// Falsity.
pub fn bottom() -> (r: Formula)
    ensures
        r == Formula::Bottom,
        forall|truths: Set<Seq<char>>| !#[trigger] r.holds(truths),
{
    Formula::Bottom
}

/// The atomic proposition `name`.
pub fn variable(name: &str) -> (r: Formula)
    ensures
        r matches Formula::Variable { name: n } && n@ == name@,
        forall|truths: Set<Seq<char>>| #[trigger] r.holds(truths) == truths.contains(name@),
{
    Formula::Variable { name: name.to_owned() }
}

/// Truth, written as the negation of falsity.
pub fn top() -> (r: Formula)
    ensures
        r == negation_of(Formula::Bottom),
        forall|truths: Set<Seq<char>>| #[trigger] r.holds(truths),
{
    let r = Formula::Negation { child: Rc::new(Formula::Bottom) };
    assert forall|truths: Set<Seq<char>>| #[trigger] r.holds(truths) by {
        assert(!Formula::Bottom.holds(truths));
    }
    r
}

/// The negation of `f`, which becomes the new node's child.
pub fn make_negation(f: Formula) -> (r: Formula)
    ensures
        r == negation_of(f),
        forall|truths: Set<Seq<char>>| #[trigger] r.holds(truths) == !f.holds(truths),
{
    Formula::Negation { child: Rc::new(f) }
}

/// The disjunction of `lhs` and `rhs`, which become the new node's children.
pub fn make_disjunction(lhs: Formula, rhs: Formula) -> (r: Formula)
    ensures
        r == disjunction_of(lhs, rhs),
        forall|truths: Set<Seq<char>>|
            #[trigger] r.holds(truths) == (lhs.holds(truths) || rhs.holds(truths)),
{
    Formula::Disjunction { left: Rc::new(lhs), right: Rc::new(rhs) }
}

/// The conjunction of `lhs` and `rhs`, built from negation and disjunction alone.
pub fn make_conjunction(lhs: Formula, rhs: Formula) -> (r: Formula)
    ensures
        r == conjunction_of(lhs, rhs),
        forall|truths: Set<Seq<char>>|
            #[trigger] r.holds(truths) == (lhs.holds(truths) && rhs.holds(truths)),
{
    make_negation(make_disjunction(make_negation(lhs), make_negation(rhs)))
}

/// The truth value of `f` under `values`. A name that `values` lacks is false.
pub fn eval(f: &Formula, values: &Assignment) -> (r: bool)
    ensures
        r == f.holds(values@),
    decreases f,
{
    match f {
        Formula::Bottom => false,
        Formula::Variable { name } => values.contains(name.as_str()),
        Formula::Negation { child } => !eval(&**child, values),
        Formula::Disjunction { left, right } => eval(&**left, values) || eval(&**right, values),
    }
}

/// Evaluates a fixed sample formula,
/// `(bottom or (a or not b)) and top`, under the assignment `{b, c}`.
/// The result is false: `b` is true, so `not b` is false, and `a` is false.
pub fn eval_test() -> (r: bool)
    ensures
        r == false,
{
    let mut values = Assignment::new();
    values.insert("b");
    values.insert("c");
    let f = make_conjunction(
        make_disjunction(
            Formula::Bottom,
            make_disjunction(variable("a"), make_negation(variable("b"))),
        ),
        top(),
    );
    proof {
        reveal_strlit("a");
        reveal_strlit("b");
        reveal_strlit("c");
        assert("a"@[0] != "b"@[0] && "a"@[0] != "c"@[0]);
        assert(!values@.contains("a"@));
        assert(values@.contains("b"@));
    }
    eval(&f, &values)
}

} // verus!
