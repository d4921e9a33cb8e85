use halo2_proofs::circuit::{Layouter, Region, SimpleFloorPlanner, Value};
use halo2_proofs::pasta::{EqAffine, Fp};
use halo2_proofs::plonk::{
    create_proof, keygen_pk, keygen_vk, Advice, Circuit, Column, ConstraintSystem, Error, Instance,
};
use halo2_proofs::poly::commitment::Params;
use halo2_proofs::transcript::{Blake2bWrite, Challenge255};
use rand::rngs::SysRng;
use rand_core::UnwrapErr;

use zkcg_verifier::backend::ProofBackend;
use zkcg_verifier::backend_halo2::{snark_keygen_vk, snark_params, Halo2Backend};
use zkcg_verifier::engine::PublicInputs;
use zkcg_verifier::proofs::{verify, ProofInput};

const K: u32 = 5;

/// A minimal circuit that binds one witnessed value to instance row 0,
/// standing in for the deployment's credit-score circuit: a proof only
/// verifies against the threshold it was created for.
#[derive(Clone, Default)]
struct ThresholdCircuit {
    value: Value<Fp>,
}

#[derive(Clone)]
struct ThresholdConfig {
    advice: Column<Advice>,
    instance: Column<Instance>,
}

impl Circuit<Fp> for ThresholdCircuit {
    type Config = ThresholdConfig;
    type FloorPlanner = SimpleFloorPlanner;

    fn without_witnesses(&self) -> Self {
        Self {
            value: Value::unknown(),
        }
    }

    fn configure(meta: &mut ConstraintSystem<Fp>) -> Self::Config {
        let advice = meta.advice_column();
        let instance = meta.instance_column();
        meta.enable_equality(advice);
        meta.enable_equality(instance);
        ThresholdConfig { advice, instance }
    }

    fn synthesize(
        &self,
        config: Self::Config,
        mut layouter: impl Layouter<Fp>,
    ) -> Result<(), Error> {
        let cell = layouter.assign_region(
            || "load threshold",
            |mut region: Region<'_, Fp>| {
                region.assign_advice(|| "threshold", config.advice, 0, || self.value)
            },
        )?;
        layouter.constrain_instance(cell.cell(), config.instance, 0)
    }
}

/// Creates a proof binding `threshold` as the sole public input.
fn prove_threshold(threshold: u64, params: &Params<EqAffine>) -> Vec<u8> {
    let circuit = ThresholdCircuit {
        value: Value::known(Fp::from(threshold)),
    };
    let vk = keygen_vk(params, &circuit).unwrap();
    let pk = keygen_pk(params, vk, &circuit).unwrap();

    let instance = [Fp::from(threshold)];
    let mut transcript = Blake2bWrite::<_, EqAffine, Challenge255<EqAffine>>::init(Vec::new());
    create_proof(
        params,
        &pk,
        &[circuit],
        &[&[&instance]],
        UnwrapErr(SysRng),
        &mut transcript,
    )
    .unwrap();
    transcript.finalize()
}

/// Builds the library's SNARK backend for the test circuit. Parameter
/// generation is deterministic in `K`, so the backend's material agrees
/// with the prover side above.
fn backend() -> Halo2Backend {
    let params = snark_params(K);
    let vk = snark_keygen_vk(&params, &ThresholdCircuit::default()).unwrap();
    Halo2Backend { vk, params }
}

fn inputs_with_threshold(threshold: u64) -> PublicInputs {
    PublicInputs {
        threshold,
        old_state_root: [0u8; 32],
        nonce: 1,
    }
}

#[test]
fn valid_halo2_proof_is_accepted() {
    let params: Params<EqAffine> = Params::new(K);
    let proof = prove_threshold(40, &params);

    let backend = backend();
    assert!(backend.verify(&proof, &inputs_with_threshold(40)).is_ok());
}

#[test]
fn modified_proof_is_rejected() {
    let params: Params<EqAffine> = Params::new(K);
    let mut proof = prove_threshold(40, &params);
    proof[10] ^= 0xFF;

    let backend = backend();
    assert!(backend.verify(&proof, &inputs_with_threshold(40)).is_err());
}

#[test]
fn wrong_public_input_is_rejected() {
    let params: Params<EqAffine> = Params::new(K);
    let proof = prove_threshold(40, &params);

    let backend = backend();
    // The proof was created for threshold 40; verifying against 41 fails.
    assert!(backend.verify(&proof, &inputs_with_threshold(41)).is_err());
}

#[test]
fn empty_proof_is_rejected() {
    let backend = backend();
    assert!(backend.verify(&[], &inputs_with_threshold(40)).is_err());
}

#[test]
fn mismatched_key_material_rejects_without_panicking() {
    // A verifying key derived under parameters of one size, paired with
    // parameters of another, must reject every proof rather than abort.
    let small_params = snark_params(K - 1);
    let right_params = snark_params(K);
    let vk = snark_keygen_vk(&right_params, &ThresholdCircuit::default()).unwrap();
    let mismatched = Halo2Backend {
        vk,
        params: small_params,
    };

    let prover_params: Params<EqAffine> = Params::new(K);
    let proof = prove_threshold(40, &prover_params);

    assert!(mismatched
        .verify(&proof, &inputs_with_threshold(40))
        .is_err());
    assert!(mismatched.verify(&[], &inputs_with_threshold(40)).is_err());
}

#[test]
fn halo2_verify_is_pure() {
    let params: Params<EqAffine> = Params::new(K);
    let proof = prove_threshold(7, &params);
    let backend = backend();
    let inputs = inputs_with_threshold(7);

    assert_eq!(
        backend.verify(&proof, &inputs).is_ok(),
        backend.verify(&proof, &inputs).is_ok()
    );
    let wrong = inputs_with_threshold(8);
    assert_eq!(
        backend.verify(&proof, &wrong).is_err(),
        backend.verify(&proof, &wrong).is_err()
    );
}

#[test]
fn bundled_proof_input_verifies_like_the_backend() {
    let params: Params<EqAffine> = Params::new(K);
    let proof = prove_threshold(12, &params);
    let backend = backend();

    let good = inputs_with_threshold(12);
    let bundled = ProofInput {
        proof_bytes: &proof,
        public_inputs: &good,
    };
    assert!(verify(bundled, &backend).is_ok());

    let bad = inputs_with_threshold(13);
    let bundled_bad = ProofInput {
        proof_bytes: &proof,
        public_inputs: &bad,
    };
    assert!(verify(bundled_bad, &backend).is_err());
}
