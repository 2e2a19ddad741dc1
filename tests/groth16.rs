use bellman::groth16::{
    create_random_proof, generate_random_parameters, prepare_verifying_key, verify_proof,
    Parameters, Proof, VerifyingKey,
};
use bellman::{Circuit, ConstraintSystem as Cs, SynthesisError as BellmanError, VerificationError};
use bls12_381::{Bls12, Scalar};
use credential_proof::circuit::CredentialProofCircuit;
use credential_proof::field::FieldElement;
use credential_proof::r1cs::{LinearCombination, Variable};
use credential_proof::verification::{verdict, CheckFailure, VerifyError};
use rand::thread_rng;

struct Bridge(CredentialProofCircuit);

fn scalar(f: &FieldElement) -> Scalar {
    Scalar::from_bytes(&f.to_bytes()).unwrap()
}

fn lower(
    lc: &LinearCombination,
    one: bellman::Variable,
    w: &[bellman::Variable],
    x: &[bellman::Variable],
) -> bellman::LinearCombination<Scalar> {
    let mut out = bellman::LinearCombination::zero();
    for t in &lc.terms {
        let v = match t.var {
            Variable::One => one,
            Variable::Witness(i) => w[i],
            Variable::Input(i) => x[i],
        };
        out = out + (scalar(&t.coeff), v);
    }
    out
}

impl Circuit<Scalar> for Bridge {
    fn synthesize<CS: Cs<Scalar>>(self, cs: &mut CS) -> Result<(), BellmanError> {
        let model = self.0.declare();
        let wv = model.witness_assignment();
        let xv = model.public_inputs();
        let mut w = Vec::new();
        for i in 0..model.witness_count() {
            let value = wv.get(i).map(scalar).ok_or(BellmanError::AssignmentMissing);
            w.push(cs.alloc(|| format!("witness {}", i), || value)?);
        }
        let mut x = Vec::new();
        for i in 0..model.input_count() {
            let value = xv.get(i).map(scalar).ok_or(BellmanError::AssignmentMissing);
            x.push(cs.alloc_input(|| format!("input {}", i), || value)?);
        }
        for (k, c) in model.constraint_list().iter().enumerate() {
            let a = lower(&c.a, CS::one(), &w, &x);
            let b = lower(&c.b, CS::one(), &w, &x);
            let cc = lower(&c.c, CS::one(), &w, &x);
            cs.enforce(|| format!("constraint {}", k), |lc| lc + &a, |lc| lc + &b, |lc| lc + &cc);
        }
        Ok(())
    }
}

/// A differently shaped circuit: one witness, two inputs, `w * 1 = x0`.
struct OtherShape;

impl Circuit<Scalar> for OtherShape {
    fn synthesize<CS: Cs<Scalar>>(self, cs: &mut CS) -> Result<(), BellmanError> {
        let w = cs.alloc(|| "w", || Ok(Scalar::from(3u64)))?;
        let x0 = cs.alloc_input(|| "x0", || Ok(Scalar::from(3u64)))?;
        let _x1 = cs.alloc_input(|| "x1", || Ok(Scalar::from(4u64)))?;
        cs.enforce(|| "c", |lc| lc + w, |lc| lc + CS::one(), |lc| lc + x0);
        Ok(())
    }
}

/// Another shape with as many inputs: `w * 1 = x`.
struct LinearShape;

impl Circuit<Scalar> for LinearShape {
    fn synthesize<CS: Cs<Scalar>>(self, cs: &mut CS) -> Result<(), BellmanError> {
        let w = cs.alloc(|| "w", || Ok(Scalar::from(9u64)))?;
        let x = cs.alloc_input(|| "x", || Ok(Scalar::from(9u64)))?;
        cs.enforce(|| "c", |lc| lc + w, |lc| lc + CS::one(), |lc| lc + x);
        Ok(())
    }
}

fn circuit(pre_image: Option<u64>, hash: Option<u64>) -> Bridge {
    Bridge(CredentialProofCircuit {
        pre_image: pre_image.map(FieldElement::from_u64),
        hash: hash.map(FieldElement::from_u64),
    })
}

fn setup() -> Parameters<Bls12> {
    generate_random_parameters::<Bls12, _, _>(circuit(None, None), &mut thread_rng()).unwrap()
}

fn prove(params: &Parameters<Bls12>, x: u64, y: u64) -> Proof<Bls12> {
    create_random_proof(circuit(Some(x), Some(y)), params, &mut thread_rng()).unwrap()
}

fn check(vk: &VerifyingKey<Bls12>, proof: &Proof<Bls12>, y: u64) -> Result<bool, VerifyError> {
    let pvk = prepare_verifying_key(vk);
    let outcome = match verify_proof(&pvk, proof, &[Scalar::from(y)]) {
        Ok(()) => Ok(()),
        Err(VerificationError::InvalidVerifyingKey) => Err(CheckFailure::InvalidVerifyingKey),
        Err(VerificationError::InvalidProof) => Err(CheckFailure::InvalidProof),
    };
    verdict(outcome)
}

fn bytes(proof: &Proof<Bls12>) -> Vec<u8> {
    let mut v = Vec::new();
    proof.write(&mut v).unwrap();
    v
}

#[test]
fn proof_of_three_squared_verifies() {
    let params = setup();
    let proof = prove(&params, 3, 9);
    assert_eq!(check(&params.vk, &proof, 9), Ok(true));
    // mismatched public input
    assert_eq!(check(&params.vk, &proof, 10), Ok(false));
}

#[test]
fn missing_witness_gives_assignment_missing() {
    let params = setup();
    let r = create_random_proof(circuit(None, Some(9)), &params, &mut thread_rng());
    assert!(matches!(r, Err(BellmanError::AssignmentMissing)));
}

#[test]
fn false_statement_is_rejected() {
    // 10 is claimed as the square of 3: the prover's assignment is unsatisfied
    let params = setup();
    for _ in 0..3 {
        let proof = create_random_proof(circuit(Some(3), Some(10)), &params, &mut thread_rng());
        if let Ok(p) = proof {
            assert_eq!(check(&params.vk, &p, 10), Ok(false));
        }
    }
}

#[test]
fn key_of_other_shape_never_accepts() {
    let params = setup();
    let proof = prove(&params, 3, 9);
    let other = generate_random_parameters::<Bls12, _, _>(OtherShape, &mut thread_rng()).unwrap();
    assert_eq!(check(&other.vk, &proof, 9), Err(VerifyError::InvalidVerifyingKey));
    let linear = generate_random_parameters::<Bls12, _, _>(LinearShape, &mut thread_rng()).unwrap();
    assert_eq!(check(&linear.vk, &proof, 9), Ok(false));
}

#[test]
fn two_proofs_differ_and_both_verify() {
    let params = setup();
    let p1 = prove(&params, 3, 9);
    let p2 = prove(&params, 3, 9);
    assert_ne!(bytes(&p1), bytes(&p2));
    assert_eq!(check(&params.vk, &p1, 9), Ok(true));
    assert_eq!(check(&params.vk, &p2, 9), Ok(true));
}

#[test]
fn proof_and_key_round_trip_through_bytes() {
    let params = setup();
    let proof = prove(&params, 3, 9);
    let encoded = bytes(&proof);
    assert_eq!(encoded.len(), 192);
    let decoded = Proof::<Bls12>::read(&encoded[..]).unwrap();
    assert!(decoded == proof);
    let mut vk_bytes = Vec::new();
    params.vk.write(&mut vk_bytes).unwrap();
    let vk = VerifyingKey::<Bls12>::read(&vk_bytes[..]).unwrap();
    assert!(vk == params.vk);
    assert_eq!(check(&vk, &decoded, 9), Ok(true));
    assert_eq!(check(&vk, &decoded, 10), Ok(false));
}
