// Round-trip tests of the canonical IVC-proof encoding.

use folding_schemes::codec::{deserialize_ivc_proof, serialize_ivc_proof};
use folding_schemes::field::Fr;
use folding_schemes::frontend::CubicFCircuit;
use folding_schemes::ivc::IVC;
use folding_schemes::rng::Rng;
use folding_schemes::transcript::poseidon_test_config;
use folding_schemes::Error;

#[test]
fn test_ivc_proof_round_trip() {
    let mut rng = Rng::new_test();
    let poseidon_config = poseidon_test_config();
    let f_circuit = CubicFCircuit {};
    let z_0 = vec![Fr::from_u64(3)];

    let mut ivc = IVC::new(&mut rng, poseidon_config, f_circuit, z_0).unwrap();
    let ext: Vec<Fr> = Vec::new();
    ivc.prove_step(&ext).unwrap();
    ivc.prove_step(&ext).unwrap();
    let proof = ivc.ivc_proof();

    let bytes = serialize_ivc_proof(&proof);
    let back = deserialize_ivc_proof(&bytes).unwrap();

    assert_eq!(back.i, proof.i);
    assert_eq!(back.z_0.len(), proof.z_0.len());
    assert!(back.z_0[0].equals(&proof.z_0[0]));
    assert!(back.z_i[0].equals(&proof.z_i[0]));
    assert!(back.U_i.u.equals(&proof.U_i.u));
    assert!(back.U_i.cmE.equals(&proof.U_i.cmE));
    assert!(back.U_i.cmW.equals(&proof.U_i.cmW));
    assert!(back.u_i.x[0].equals(&proof.u_i.x[0]));
    assert_eq!(back.W_i.E.len(), proof.W_i.E.len());
    assert_eq!(back.W_i.W.len(), proof.W_i.W.len());
    for k in 0..proof.W_i.W.len() {
        assert!(back.W_i.W[k].equals(&proof.W_i.W[k]));
    }

    // a second serialization is byte-identical
    let bytes2 = serialize_ivc_proof(&back);
    assert_eq!(bytes, bytes2);

    // the deserialized proof still verifies
    let vp = ivc.into_verifier_param();
    folding_schemes::ivc::ivc_verify(&vp, &back).unwrap();
}

#[test]
fn test_ivc_proof_codec_rejects_truncation() {
    let mut rng = Rng::new_test();
    let poseidon_config = poseidon_test_config();
    let f_circuit = CubicFCircuit {};
    let z_0 = vec![Fr::from_u64(3)];
    let mut ivc = IVC::new(&mut rng, poseidon_config, f_circuit, z_0).unwrap();
    let ext: Vec<Fr> = Vec::new();
    ivc.prove_step(&ext).unwrap();
    let proof = ivc.ivc_proof();

    let mut bytes = serialize_ivc_proof(&proof);
    bytes.pop();
    let res = deserialize_ivc_proof(&bytes);
    assert!(matches!(res, Err(Error::SerializationError)));
}

#[test]
fn test_ivc_proof_codec_rejects_trailing_bytes() {
    let mut rng = Rng::new_test();
    let poseidon_config = poseidon_test_config();
    let f_circuit = CubicFCircuit {};
    let z_0 = vec![Fr::from_u64(3)];
    let mut ivc = IVC::new(&mut rng, poseidon_config, f_circuit, z_0).unwrap();
    let ext: Vec<Fr> = Vec::new();
    ivc.prove_step(&ext).unwrap();
    let proof = ivc.ivc_proof();

    let mut bytes = serialize_ivc_proof(&proof);
    bytes.push(0u8);
    let res = deserialize_ivc_proof(&bytes);
    assert!(matches!(res, Err(Error::SerializationError)));
}
