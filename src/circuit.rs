//! The credential relation: knowledge of a pre-image whose square is the
//! public hash value.

use crate::field::{modulus, FieldElement};
use crate::r1cs::{
    all_hold, constraint_holds, lc_eval, ConstraintSpec, ConstraintSystem, LcSpec,
    LinearCombination, Mode, SynthesisError, Variable,
};
use vstd::arithmetic::div_mod::lemma_small_mod;
use vstd::prelude::*;

verus! {

/// The single-variable combination `1 * v`.
pub open spec fn single(v: Variable) -> LcSpec {
    seq![(v, 1nat)]
}

/// The constraint `pre_image * pre_image = hash` over the witness allocated
/// at index `w` and the input allocated at index `x`.
pub open spec fn squaring_constraint(w: usize, x: usize) -> ConstraintSpec {
    (single(Variable::Witness(w)), single(Variable::Witness(w)), single(Variable::Input(x)))
}

/// The circuit: a private pre-image and a public hash, either of which may
/// be absent (as during setup).
pub struct CredentialProofCircuit {
    pub pre_image: Option<FieldElement>,
    pub hash: Option<FieldElement>,
}

impl CredentialProofCircuit {
    /// Declares the relation into `cs`: allocates the pre-image as a
    /// witness, the hash as a public input, and enforces
    /// `pre_image * pre_image = hash`. The constraints added depend on the
    /// shape of `cs` alone, never on the values.
    pub fn synthesize(self, cs: &mut ConstraintSystem) -> (r: Result<(), SynthesisError>)
        requires
            old(cs).well_formed(),
            old(cs).num_witness() < usize::MAX,
            old(cs).num_inputs() < usize::MAX,
        ensures
            final(cs).well_formed(),
            final(cs).mode() == old(cs).mode(),
            r is Ok <==> (old(cs).mode() == Mode::Setup || (self.pre_image is Some
                && self.hash is Some)),
            r is Err ==> r == Err::<(), SynthesisError>(SynthesisError::AssignmentMissing),
            r is Err ==> final(cs).num_inputs() == old(cs).num_inputs() && final(cs).input_values()
                == old(cs).input_values() && final(cs).constraints() == old(cs).constraints(),
            r is Err && self.pre_image is None ==> final(cs).num_witness() == old(
                cs,
            ).num_witness() && final(cs).witness_values() == old(cs).witness_values(),
            r is Err && self.pre_image is Some ==> final(cs).num_witness() == old(
                cs,
            ).num_witness() + 1 && final(cs).witness_values() == old(cs).witness_values().push(
                self.pre_image->Some_0.value(),
            ),
            r is Ok ==> final(cs).num_witness() == old(cs).num_witness() + 1
                && final(cs).num_inputs() == old(cs).num_inputs() + 1
                && final(cs).constraints() == old(cs).constraints().push(
                squaring_constraint(old(cs).num_witness() as usize, old(cs).num_inputs() as usize),
            ),
            r is Ok && old(cs).mode() == Mode::Prove ==> final(cs).witness_values() == old(
                cs,
            ).witness_values().push(self.pre_image->Some_0.value()) && final(cs).input_values()
                == old(cs).input_values().push(self.hash->Some_0.value()),
            old(cs).mode() == Mode::Setup ==> final(cs).witness_values() == old(
                cs,
            ).witness_values() && final(cs).input_values() == old(cs).input_values(),
    {
        let pre_image_var = match cs.allocate_witness(self.pre_image) {
            Ok(v) => v,
            Err(e) => {
                return Err(e);
            },
        };
        let hash_var = match cs.allocate_input(self.hash) {
            Ok(v) => v,
            Err(e) => {
                return Err(e);
            },
        };
        let mut a = LinearCombination::new();
        a.add_term(pre_image_var, FieldElement::one());
        let mut b = LinearCombination::new();
        b.add_term(pre_image_var, FieldElement::one());
        let mut c = LinearCombination::new();
        c.add_term(hash_var, FieldElement::one());
        proof {
            assert(a@ =~= single(pre_image_var));
            assert(b@ =~= single(pre_image_var));
            assert(c@ =~= single(hash_var));
        }
        cs.enforce(a, b, c);
        Ok(())
    }
    /// Whether both values are present, so that a proof can be made.
    pub open spec fn has_assignment(&self) -> bool {
        self.pre_image is Some && self.hash is Some
    }

    /// Declares the relation into a fresh system: a proving system holding
    /// the values when both are present, else a setup system holding the
    /// shape alone. The shape is the same either way.
    pub fn declare(self) -> (r: ConstraintSystem)
        ensures
            r.well_formed(),
            r.mode() == (if self.has_assignment() {
                Mode::Prove
            } else {
                Mode::Setup
            }),
            r.num_witness() == 1,
            r.num_inputs() == 1,
            r.constraints() == seq![squaring_constraint(0, 0)],
            self.has_assignment() ==> r.witness_values() == seq![self.pre_image->Some_0.value()]
                && r.input_values() == seq![self.hash->Some_0.value()],
            !self.has_assignment() ==> r.witness_values() == Seq::<nat>::empty()
                && r.input_values() == Seq::<nat>::empty(),
    {
        let mode = if self.pre_image.is_some() && self.hash.is_some() {
            Mode::Prove
        } else {
            Mode::Setup
        };
        let ghost this = self;
        let mut cs = ConstraintSystem::new(mode);
        let r = self.synthesize(&mut cs);
        proof {
            assert(r is Ok);
            assert(cs.constraints() =~= seq![squaring_constraint(0, 0)]);
            if this.has_assignment() {
                assert(cs.witness_values() =~= seq![this.pre_image->Some_0.value()]);
                assert(cs.input_values() =~= seq![this.hash->Some_0.value()]);
            }
        }
        cs
    }
}

/// A single-term combination with coefficient one evaluates to the value of
/// its variable, when that value is a field element.
proof fn lemma_single_eval(v: Variable, w: Seq<nat>, x: Seq<nat>)
    requires
        crate::r1cs::var_value(v, w, x) < modulus(),
    ensures
        lc_eval(single(v), w, x) == crate::r1cs::var_value(v, w, x),
{
    let lc = single(v);
    assert(lc.drop_last() =~= Seq::<(Variable, nat)>::empty());
    assert(lc_eval(lc.drop_last(), w, x) == 0);
    lemma_small_mod(crate::r1cs::var_value(v, w, x), modulus());
}

/// The squaring constraint holds exactly when the input value is the square
/// of the witness value in the field: an honest assignment satisfies it, and
/// no assignment whose input is not that square does.
pub proof fn lemma_squaring_constraint_exact(w: Seq<nat>, x: Seq<nat>, i: usize, j: usize)
    requires
        i < w.len(),
        j < x.len(),
        w[i as int] < modulus(),
        x[j as int] < modulus(),
    ensures
        constraint_holds(squaring_constraint(i, j), w, x) <==> x[j as int] == (w[i as int]
            * w[i as int]) % modulus(),
{
    lemma_single_eval(Variable::Witness(i), w, x);
    lemma_single_eval(Variable::Input(j), w, x);
}

/// Completeness of the relation: for every pre-image `p` in the field, the
/// assignment that proving records for the circuit with hash `p * p`
/// satisfies its constraint system.
pub proof fn lemma_honest_assignment_satisfies(p: nat)
    requires
        p < modulus(),
    ensures
        all_hold(
            seq![squaring_constraint(0, 0)],
            seq![p],
            seq![(p * p) % modulus()],
        ),
{
    let w = seq![p];
    let x = seq![(p * p) % modulus()];
    lemma_squaring_constraint_exact(w, x, 0, 0);
    assert(constraint_holds(seq![squaring_constraint(0, 0)][0], w, x));
}

/// Soundness of the relation: any assignment of field elements that
/// satisfies the circuit's constraint system has, as its public hash, the
/// square of its pre-image; so a hash that is no square has no satisfying
/// witness at all.
pub proof fn lemma_satisfying_assignment_squares(w: Seq<nat>, x: Seq<nat>)
    requires
        w.len() == 1,
        x.len() == 1,
        w[0] < modulus(),
        x[0] < modulus(),
        all_hold(seq![squaring_constraint(0, 0)], w, x),
    ensures
        x[0] == (w[0] * w[0]) % modulus(),
{
    assert(seq![squaring_constraint(0, 0)][0] == squaring_constraint(0, 0));
    lemma_squaring_constraint_exact(w, x, 0, 0);
}

/// A system with the shape that the circuit declares, holding pre-image `p`
/// and hash `h`, is satisfied exactly when `h` is the square of `p` in the
/// field.
pub proof fn lemma_declared_system_satisfied_iff(cs: ConstraintSystem, p: nat, h: nat)
    requires
        cs.constraints() == seq![squaring_constraint(0, 0)],
        cs.witness_values() == seq![p],
        cs.input_values() == seq![h],
        p < modulus(),
        h < modulus(),
    ensures
        cs.satisfied() <==> h == (p * p) % modulus(),
{
    lemma_squaring_constraint_exact(seq![p], seq![h], 0, 0);
    assert(cs.constraints()[0] == squaring_constraint(0, 0));
}

} // verus!
