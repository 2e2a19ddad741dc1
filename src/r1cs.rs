//! A rank-1 constraint system: allocated variables, their assignment and
//! the bilinear constraints `A * B = C` recorded over them.

use crate::field::{modulus, FieldElement};
use vstd::arithmetic::div_mod::{lemma_add_mod_noop, lemma_small_mod};
use vstd::prelude::*;

verus! {

/// A handle to an allocated variable. `One` is the reserved constant one.
#[derive(Clone, Copy, Debug, PartialEq, Eq, Structural)]
pub enum Variable {
    One,
    Witness(usize),
    Input(usize),
}

/// Whether a constraint system records only the shape (setup) or also a
/// concrete assignment (proving).
#[derive(Clone, Copy, Debug, PartialEq, Eq, Structural)]
pub enum Mode {
    Setup,
    Prove,
}

#[derive(Clone, Copy, Debug, PartialEq, Eq, Structural)]
pub enum SynthesisError {
    /// A value was needed while proving and none was supplied.
    AssignmentMissing,
}

/// One weighted variable of a linear combination.
#[derive(Clone, Copy, Debug)]
pub struct Term {
    pub var: Variable,
    pub coeff: FieldElement,
}

/// The sum of its terms, each a coefficient times a variable.
pub struct LinearCombination {
    pub terms: Vec<Term>,
}

/// A linear combination as a sequence of (variable, coefficient) pairs.
pub type LcSpec = Seq<(Variable, nat)>;

/// A constraint as the triple (A, B, C).
pub type ConstraintSpec = (LcSpec, LcSpec, LcSpec);

impl View for LinearCombination {
    type V = LcSpec;

    open spec fn view(&self) -> LcSpec {
        self.terms@.map_values(|t: Term| (t.var, t.coeff.value()))
    }
}

/// Asserts `a * b = c` under an assignment.
pub struct Constraint {
    pub a: LinearCombination,
    pub b: LinearCombination,
    pub c: LinearCombination,
}

impl View for Constraint {
    type V = ConstraintSpec;

    open spec fn view(&self) -> ConstraintSpec {
        (self.a@, self.b@, self.c@)
    }
}

/// The value of a variable under witness values `w` and input values `x`;
/// a variable outside them counts as zero.
pub open spec fn var_value(v: Variable, w: Seq<nat>, x: Seq<nat>) -> nat {
    match v {
        Variable::One => 1,
        Variable::Witness(i) => if i < w.len() {
            w[i as int]
        } else {
            0
        },
        Variable::Input(i) => if i < x.len() {
            x[i as int]
        } else {
            0
        },
    }
}

/// The value of a linear combination in the field.
pub open spec fn lc_eval(lc: LcSpec, w: Seq<nat>, x: Seq<nat>) -> nat
    decreases lc.len(),
{
    if lc.len() == 0 {
        0
    } else {
        (lc_eval(lc.drop_last(), w, x) + lc.last().1 * var_value(lc.last().0, w, x)) % modulus()
    }
}

pub open spec fn constraint_holds(c: ConstraintSpec, w: Seq<nat>, x: Seq<nat>) -> bool {
    (lc_eval(c.0, w, x) * lc_eval(c.1, w, x)) % modulus() == lc_eval(c.2, w, x)
}

pub open spec fn all_hold(cs: Seq<ConstraintSpec>, w: Seq<nat>, x: Seq<nat>) -> bool {
    forall|k: int| 0 <= k < cs.len() ==> constraint_holds(#[trigger] cs[k], w, x)
}

/// Every variable of `lc` was allocated among `nw` witnesses and `ni` inputs.
pub open spec fn lc_allocated(lc: LcSpec, nw: nat, ni: nat) -> bool {
    forall|k: int|
        0 <= k < lc.len() ==> match #[trigger] lc[k].0 {
            Variable::One => true,
            Variable::Witness(i) => i < nw,
            Variable::Input(i) => i < ni,
        }
}

pub open spec fn constraint_allocated(c: ConstraintSpec, nw: nat, ni: nat) -> bool {
    lc_allocated(c.0, nw, ni) && lc_allocated(c.1, nw, ni) && lc_allocated(c.2, nw, ni)
}

impl LinearCombination {
    /// The empty sum.
    pub fn new() -> (r: LinearCombination)
        ensures
            r@ == Seq::<(Variable, nat)>::empty(),
    {
        LinearCombination { terms: Vec::new() }
    }

    /// Adds `coeff * var` to the sum.
    pub fn add_term(&mut self, var: Variable, coeff: FieldElement)
        ensures
            final(self)@ == old(self)@.push((var, coeff.value())),
    {
        self.terms.push(Term { var, coeff });
        proof {
            assert(final(self)@ =~= old(self)@.push((var, coeff.value())));
        }
    }
}

/// Variables, constraints and, when proving, the values assigned.
pub struct ConstraintSystem {
    mode: Mode,
    num_witness: usize,
    num_inputs: usize,
    witness_values: Vec<FieldElement>,
    input_values: Vec<FieldElement>,
    constraints: Vec<Constraint>,
}

impl ConstraintSystem {
    pub closed spec fn mode(&self) -> Mode {
        self.mode
    }

    pub closed spec fn num_witness(&self) -> nat {
        self.num_witness as nat
    }

    pub closed spec fn num_inputs(&self) -> nat {
        self.num_inputs as nat
    }

    /// The values of the witness variables, in allocation order.
    pub closed spec fn witness_values(&self) -> Seq<nat> {
        self.witness_values@.map_values(|f: FieldElement| f.value())
    }

    /// The values of the input variables, in allocation order.
    pub closed spec fn input_values(&self) -> Seq<nat> {
        self.input_values@.map_values(|f: FieldElement| f.value())
    }

    pub closed spec fn constraints(&self) -> Seq<ConstraintSpec> {
        self.constraints@.map_values(|c: Constraint| c@)
    }

    /// Constraints mention allocated variables only; a proving system holds
    /// one value per variable, a setup system none.
    pub open spec fn well_formed(&self) -> bool {
        &&& forall|k: int|
            0 <= k < self.constraints().len() ==> constraint_allocated(
                #[trigger] self.constraints()[k],
                self.num_witness(),
                self.num_inputs(),
            )
        &&& self.mode() == Mode::Prove ==> self.witness_values().len() == self.num_witness()
            && self.input_values().len() == self.num_inputs()
        &&& self.mode() == Mode::Setup ==> self.witness_values().len() == 0
            && self.input_values().len() == 0
    }

    /// The assignment satisfies every recorded constraint.
    pub open spec fn satisfied(&self) -> bool {
        all_hold(self.constraints(), self.witness_values(), self.input_values())
    }

    /// An empty system in the given mode.
    pub fn new(mode: Mode) -> (r: ConstraintSystem)
        ensures
            r.mode() == mode,
            r.num_witness() == 0,
            r.num_inputs() == 0,
            r.witness_values() == Seq::<nat>::empty(),
            r.input_values() == Seq::<nat>::empty(),
            r.constraints() == Seq::<ConstraintSpec>::empty(),
            r.well_formed(),
    {
        let r = ConstraintSystem {
            mode,
            num_witness: 0,
            num_inputs: 0,
            witness_values: Vec::new(),
            input_values: Vec::new(),
            constraints: Vec::new(),
        };
        assert(r.witness_values() =~= Seq::<nat>::empty());
        assert(r.input_values() =~= Seq::<nat>::empty());
        assert(r.constraints() =~= Seq::<ConstraintSpec>::empty());
        r
    }
    /// Allocates a private variable. While proving its value must be given;
    /// during setup only its existence is recorded.
    pub fn allocate_witness(&mut self, value: Option<FieldElement>) -> (r: Result<Variable, SynthesisError>)
        requires
            old(self).num_witness() < usize::MAX,
            old(self).well_formed(),
        ensures
            final(self).well_formed(),
            final(self).mode() == old(self).mode(),
            final(self).num_inputs() == old(self).num_inputs(),
            final(self).input_values() == old(self).input_values(),
            final(self).constraints() == old(self).constraints(),
            (old(self).mode() == Mode::Prove && value is None) <==> r is Err,
            r is Err ==> r == Err::<Variable, SynthesisError>(SynthesisError::AssignmentMissing)
                && final(self).num_witness() == old(self).num_witness()
                && final(self).witness_values() == old(self).witness_values(),
            r is Ok ==> r == Ok::<Variable, SynthesisError>(
                Variable::Witness(old(self).num_witness() as usize),
            ) && final(self).num_witness() == old(self).num_witness() + 1,
            r is Ok && old(self).mode() == Mode::Prove ==> final(self).witness_values()
                == old(self).witness_values().push(value->Some_0.value()),
            old(self).mode() == Mode::Setup ==> final(self).witness_values() == old(
                self,
            ).witness_values(),
    {
        let var = Variable::Witness(self.num_witness);
        match self.mode {
            Mode::Setup => {},
            Mode::Prove => match value {
                None => {
                    return Err(SynthesisError::AssignmentMissing);
                },
                Some(v) => {
                    self.witness_values.push(v);
                },
            },
        }
        self.num_witness = self.num_witness + 1;
        proof {
            if old(self).mode() == Mode::Prove {
                assert(final(self).witness_values() =~= old(self).witness_values().push(
                    value->Some_0.value(),
                ));
            } else {
                assert(final(self).witness_values() =~= old(self).witness_values());
            }
            assert(final(self).input_values() =~= old(self).input_values());
            assert(final(self).constraints() =~= old(self).constraints());
            assert forall|k: int| 0 <= k < final(self).constraints().len() implies
                constraint_allocated(
                #[trigger] final(self).constraints()[k],
                final(self).num_witness(),
                final(self).num_inputs(),
            ) by {
                assert(constraint_allocated(
                    old(self).constraints()[k],
                    old(self).num_witness(),
                    old(self).num_inputs(),
                ));
            }
        }
        Ok(var)
    }

    /// Allocates a public input variable; while proving its value is
    /// appended to the public inputs.
    pub fn allocate_input(&mut self, value: Option<FieldElement>) -> (r: Result<Variable, SynthesisError>)
        requires
            old(self).num_inputs() < usize::MAX,
            old(self).well_formed(),
        ensures
            final(self).well_formed(),
            final(self).mode() == old(self).mode(),
            final(self).num_witness() == old(self).num_witness(),
            final(self).witness_values() == old(self).witness_values(),
            final(self).constraints() == old(self).constraints(),
            (old(self).mode() == Mode::Prove && value is None) <==> r is Err,
            r is Err ==> r == Err::<Variable, SynthesisError>(SynthesisError::AssignmentMissing)
                && final(self).num_inputs() == old(self).num_inputs()
                && final(self).input_values() == old(self).input_values(),
            r is Ok ==> r == Ok::<Variable, SynthesisError>(
                Variable::Input(old(self).num_inputs() as usize),
            ) && final(self).num_inputs() == old(self).num_inputs() + 1,
            r is Ok && old(self).mode() == Mode::Prove ==> final(self).input_values() == old(
                self,
            ).input_values().push(value->Some_0.value()),
            old(self).mode() == Mode::Setup ==> final(self).input_values() == old(
                self,
            ).input_values(),
    {
        let var = Variable::Input(self.num_inputs);
        match self.mode {
            Mode::Setup => {},
            Mode::Prove => match value {
                None => {
                    return Err(SynthesisError::AssignmentMissing);
                },
                Some(v) => {
                    self.input_values.push(v);
                },
            },
        }
        self.num_inputs = self.num_inputs + 1;
        proof {
            if old(self).mode() == Mode::Prove {
                assert(final(self).input_values() =~= old(self).input_values().push(
                    value->Some_0.value(),
                ));
            } else {
                assert(final(self).input_values() =~= old(self).input_values());
            }
            assert(final(self).witness_values() =~= old(self).witness_values());
            assert(final(self).constraints() =~= old(self).constraints());
            assert forall|k: int| 0 <= k < final(self).constraints().len() implies
                constraint_allocated(
                #[trigger] final(self).constraints()[k],
                final(self).num_witness(),
                final(self).num_inputs(),
            ) by {
                assert(constraint_allocated(
                    old(self).constraints()[k],
                    old(self).num_witness(),
                    old(self).num_inputs(),
                ));
            }
        }
        Ok(var)
    }

    /// Records the constraint `a * b = c`.
    pub fn enforce(&mut self, a: LinearCombination, b: LinearCombination, c: LinearCombination)
        requires
            old(self).well_formed(),
            constraint_allocated((a@, b@, c@), old(self).num_witness(), old(self).num_inputs()),
        ensures
            final(self).well_formed(),
            final(self).mode() == old(self).mode(),
            final(self).num_witness() == old(self).num_witness(),
            final(self).num_inputs() == old(self).num_inputs(),
            final(self).witness_values() == old(self).witness_values(),
            final(self).input_values() == old(self).input_values(),
            final(self).constraints() == old(self).constraints().push((a@, b@, c@)),
    {
        let ghost abc = (a@, b@, c@);
        self.constraints.push(Constraint { a, b, c });
        proof {
            assert(final(self).constraints() =~= old(self).constraints().push(abc));
            assert(final(self).witness_values() =~= old(self).witness_values());
            assert(final(self).input_values() =~= old(self).input_values());
        }
    }

    /// The value of `v` under this system's assignment.
    fn value_of(&self, v: Variable) -> (r: FieldElement)
        ensures
            r.value() == var_value(v, self.witness_values(), self.input_values()),
    {
        match v {
            Variable::One => FieldElement::one(),
            Variable::Witness(i) => if i < self.witness_values.len() {
                self.witness_values[i]
            } else {
                FieldElement::zero()
            },
            Variable::Input(i) => if i < self.input_values.len() {
                self.input_values[i]
            } else {
                FieldElement::zero()
            },
        }
    }

    /// The value of `lc` under this system's assignment.
    pub fn eval(&self, lc: &LinearCombination) -> (r: FieldElement)
        ensures
            r.value() == lc_eval(lc@, self.witness_values(), self.input_values()),
    {
        let ghost w = self.witness_values();
        let ghost x = self.input_values();
        let mut acc = FieldElement::zero();
        let mut i: usize = 0;
        proof {
            assert(lc@.take(0) =~= Seq::<(Variable, nat)>::empty());
        }
        while i < lc.terms.len()
            invariant
                i <= lc.terms.len(),
                w == self.witness_values(),
                x == self.input_values(),
                acc.value() == lc_eval(lc@.take(i as int), w, x),
            decreases lc.terms.len() - i,
        {
            let t = lc.terms[i];
            let v = self.value_of(t.var);
            let prod = t.coeff.mul(&v);
            let ghost before = acc.value();
            acc = acc.add(&prod);
            proof {
                let pre = lc@.take(i as int);
                let cur = lc@.take(i + 1);
                assert(cur.drop_last() =~= pre);
                assert(cur.last() == (t.var, t.coeff.value()));
                let cv = t.coeff.value() * v.value();
                if pre.len() > 0 {
                    assert(before < modulus());
                } else {
                    assert(before == 0);
                }
                lemma_small_mod(before, modulus());
                lemma_add_mod_noop(before as int, cv as int, modulus() as int);
                lemma_small_mod((cv % modulus()) as nat, modulus());
            }
            i = i + 1;
        }
        proof {
            assert(lc@.take(i as int) =~= lc@);
        }
        acc
    }

    /// Whether the assignment satisfies every recorded constraint.
    pub fn is_satisfied(&self) -> (r: bool)
        ensures
            r == self.satisfied(),
    {
        let mut k: usize = 0;
        while k < self.constraints.len()
            invariant
                k <= self.constraints.len(),
                forall|j: int|
                    0 <= j < k ==> constraint_holds(
                        #[trigger] self.constraints()[j],
                        self.witness_values(),
                        self.input_values(),
                    ),
            decreases self.constraints.len() - k,
        {
            let c = &self.constraints[k];
            let a = self.eval(&c.a);
            let b = self.eval(&c.b);
            let cv = self.eval(&c.c);
            let ab = a.mul(&b);
            if !ab.equals(&cv) {
                proof {
                    assert(self.constraints()[k as int] == c@);
                }
                return false;
            }
            proof {
                assert(self.constraints()[k as int] == c@);
            }
            k = k + 1;
        }
        true
    }

    /// The values of the public inputs, in allocation order.
    pub fn public_inputs(&self) -> (r: Vec<FieldElement>)
        ensures
            r@.map_values(|f: FieldElement| f.value()) == self.input_values(),
    {
        self.input_values.clone()
    }
    pub fn mode_of(&self) -> (r: Mode)
        ensures
            r == self.mode(),
    {
        self.mode
    }

    pub fn witness_count(&self) -> (r: usize)
        ensures
            r == self.num_witness(),
    {
        self.num_witness
    }

    pub fn input_count(&self) -> (r: usize)
        ensures
            r == self.num_inputs(),
    {
        self.num_inputs
    }

    /// The values of the witness variables, in allocation order.
    pub fn witness_assignment(&self) -> (r: Vec<FieldElement>)
        ensures
            r@.map_values(|f: FieldElement| f.value()) == self.witness_values(),
    {
        self.witness_values.clone()
    }

    /// The recorded constraints, in order.
    pub fn constraint_list(&self) -> (r: &Vec<Constraint>)
        ensures
            r@.map_values(|c: Constraint| c@) == self.constraints(),
    {
        &self.constraints
    }
}

} // verus!
