use ephemera::block::message_pool::MessagePool;
use ephemera::block::types::message::{EphemeraMessage, UnsignedEphemeraMessage};
use ephemera::crypto::Keypair;

#[test]
fn test_sign_ok() {
    let message_signing_keypair = Keypair::generate();

    let message =
        EphemeraMessage::signed("test".to_string(), vec![1, 2, 3], &message_signing_keypair);
    let certificate = message.certificate.clone();
    let raw_message = UnsignedEphemeraMessage::from_message(message);
    let data = raw_message.encode();

    assert!(certificate.public_key.verify(&data, &certificate.signature));
}

#[test]
fn test_sign_fail() {
    let message_signing_keypair = Keypair::generate();

    let message =
        EphemeraMessage::signed("test".to_string(), vec![1, 2, 3], &message_signing_keypair);
    let certificate = message.certificate.clone();

    let modified_message = EphemeraMessage::signed(
        "test_test".to_string(),
        vec![1, 2, 3],
        &message_signing_keypair,
    );
    let raw_message = UnsignedEphemeraMessage::from_message(modified_message);
    let data = raw_message.encode();

    assert!(!certificate.public_key.verify(&data, &certificate.signature));
}

#[test]
fn test_add_remove() {
    let message = EphemeraMessage::signed("label1".to_string(), vec![0], &Keypair::generate());

    let mut pool = MessagePool::new();
    pool.add_message(message.clone());
    pool.remove_messages(&[message]);

    assert_eq!(pool.get_messages().len(), 0);
}

#[test]
fn message_verifies_its_own_signature() {
    let keypair = Keypair::generate();
    let mut message = EphemeraMessage::signed("label".to_string(), vec![4, 5], &keypair);
    assert!(message.verify());
    message.data.push(6);
    assert!(!message.verify());
}

#[test]
fn message_hash_identifies_the_message() {
    let keypair = Keypair::generate();
    let a = EphemeraMessage::signed("a".to_string(), vec![1], &keypair);
    let b = EphemeraMessage::signed("b".to_string(), vec![1], &keypair);
    assert_eq!(a.hash_with_default_hasher(), a.clone().hash_with_default_hasher());
    assert_ne!(a.hash_with_default_hasher(), b.hash_with_default_hasher());
}

#[test]
fn pool_keeps_one_entry_per_hash() {
    let keypair = Keypair::generate();
    let a = EphemeraMessage::signed("a".to_string(), vec![1], &keypair);
    let b = EphemeraMessage::signed("b".to_string(), vec![2], &keypair);
    let mut pool = MessagePool::new();
    pool.add_message(a.clone());
    pool.add_message(a.clone());
    pool.add_message(b.clone());
    assert_eq!(pool.get_messages().len(), 2);
    assert!(pool.contains(&a.hash_with_default_hasher()));
    assert!(pool.remove_hash(&a.hash_with_default_hasher()));
    assert!(!pool.remove_hash(&a.hash_with_default_hasher()));
    assert!(!pool.contains(&a.hash_with_default_hasher()));
    assert_eq!(pool.get_messages(), vec![b]);
}
