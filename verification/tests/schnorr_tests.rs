use pvss::curve::{EcGroup, G1, G2};
use pvss::schnorr::{SchnorrSignature, SRS};

fn simple_sig<C: EcGroup>() {
    let srs = SRS::<C>::setup().unwrap();
    let schnorr = SchnorrSignature { srs };
    let keypair = schnorr.generate_keypair().unwrap();

    let message = b"hello";

    let signature = schnorr.sign(&keypair.0, &message[..]).unwrap();
    schnorr.verify(&keypair.1, &message[..], &signature).unwrap();
}

#[test]
fn test_simple_sig_g1() {
    simple_sig::<G1>();
}

#[test]
fn test_simple_sig_g2() {
    simple_sig::<G2>();
}

fn simple_sig_wrong_pk<C: EcGroup>() {
    let srs = SRS::<C>::setup().unwrap();
    let schnorr = SchnorrSignature { srs };
    let keypair = schnorr.generate_keypair().unwrap();
    let message = b"hello";

    let signature = schnorr.sign(&keypair.0, &message[..]).unwrap();

    let keypair2 = schnorr.generate_keypair().unwrap();
    schnorr.verify(&keypair2.1, &message[..], &signature).unwrap();
}

#[test]
#[should_panic]
fn test_simple_sig_wrong_pk_g1() {
    simple_sig_wrong_pk::<G1>();
}

#[test]
#[should_panic]
fn test_simple_sig_wrong_pk_g2() {
    simple_sig_wrong_pk::<G2>();
}

fn simple_sig_wrong_message<C: EcGroup>() {
    let srs = SRS::<C>::setup().unwrap();
    let schnorr = SchnorrSignature { srs };
    let keypair = schnorr.generate_keypair().unwrap();
    let message = b"hello";

    let signature = schnorr.sign(&keypair.0, &message[..]).unwrap();

    let wrong_message = b"goodbye";
    schnorr.verify(&keypair.1, &wrong_message[..], &signature).unwrap();
}

#[test]
#[should_panic]
fn test_simple_sig_wrong_message_g1() {
    simple_sig_wrong_message::<G1>();
}

#[test]
#[should_panic]
fn test_simple_sig_wrong_message_g2() {
    simple_sig_wrong_message::<G2>();
}

fn simple_sig_batch<C: EcGroup>() {
    let srs = SRS::<C>::setup().unwrap();
    let schnorr = SchnorrSignature { srs };

    let keypair = schnorr.generate_keypair().unwrap();
    let message = b"hello";
    let signature = schnorr.sign(&keypair.0, &message[..]).unwrap();

    let keypair2 = schnorr.generate_keypair().unwrap();
    let message2 = b"hello2";
    let signature2 = schnorr.sign(&keypair2.0, &message2[..]).unwrap();

    schnorr
        .batch_verify(
            &vec![keypair.1, keypair2.1],
            &vec![message.to_vec(), message2.to_vec()],
            &vec![signature, signature2],
        )
        .unwrap();
}

#[test]
fn test_simple_sig_batch_g1() {
    simple_sig_batch::<G1>();
}

#[test]
fn test_simple_sig_batch_g2() {
    simple_sig_batch::<G2>();
}

fn sig_batch_rejects_bad<C: EcGroup>() {
    let srs = SRS::<C>::setup().unwrap();
    let schnorr = SchnorrSignature { srs };

    let keypair = schnorr.generate_keypair().unwrap();
    let message = b"hello";
    let signature = schnorr.sign(&keypair.0, &message[..]).unwrap();

    let keypair2 = schnorr.generate_keypair().unwrap();
    let message2 = b"hello2";
    let signature2 = schnorr.sign(&keypair2.0, &message2[..]).unwrap();

    // swap the two signatures: the batch must fail
    let r = schnorr.batch_verify(
        &vec![keypair.1, keypair2.1],
        &vec![message.to_vec(), message2.to_vec()],
        &vec![signature2, signature],
    );
    assert!(r.is_err());
}

#[test]
fn test_sig_batch_rejects_swapped_g1() {
    sig_batch_rejects_bad::<G1>();
}

#[test]
fn test_sig_batch_rejects_mismatched_lengths() {
    let srs = SRS::<G1>::setup().unwrap();
    let schnorr = SchnorrSignature { srs };

    let keypair = schnorr.generate_keypair().unwrap();
    let message = b"hello";
    let signature = schnorr.sign(&keypair.0, &message[..]).unwrap();

    let r = schnorr.batch_verify(&vec![keypair.1], &vec![], &vec![signature]);
    assert!(matches!(
        r,
        Err(pvss::errors::SignatureError::BatchVerification(1, 0, 1))
    ));
}
