use bot_client::client::Client;
use bot_client::crypt::{answer_request, answer_request_with, conclude, Handshake, Refusal};
use bot_client::packet::{Effect, Packet};
use bot_client::receive::encryption_actions;
use bot_client::wire::ReadingError;
use rsa::pkcs8::{DecodePublicKey, EncodePublicKey};

const SECRET: [u8; 16] = [7, 0, 1, 2, 3, 4, 5, 6, 255, 254, 253, 252, 9, 8, 7, 6];

fn server_key() -> (rsa::RsaPrivateKey, Vec<u8>) {
    let key = rsa::RsaPrivateKey::new(&mut rand::rng(), 1024).unwrap();
    let der = key.to_public_key().to_public_key_der().unwrap().into_vec();
    (key, der)
}

fn decrypt(key: &rsa::RsaPrivateKey, cipher: &[u8]) -> Vec<u8> {
    key.decrypt(rsa::Pkcs1v15Encrypt, cipher).unwrap()
}

fn words(r: Result<Handshake, ReadingError>) -> String {
    match r {
        Err(ReadingError::Message(text)) => text,
        other => panic!("no message: {other:?}"),
    }
}

#[test]
fn an_answer_decrypts_to_the_secret_and_the_token() {
    let (key, der) = server_key();
    let token = [1u8, 2, 3, 4];
    let answer = answer_request_with(&der, &token, SECRET).unwrap();
    assert_eq!(answer.secret, SECRET);
    assert_eq!(answer.shared_secret.len(), 128);
    assert_eq!(answer.verify_token.len(), 128);
    assert_ne!(&answer.shared_secret[..16], &SECRET[..]);
    assert_eq!(decrypt(&key, &answer.shared_secret), SECRET);
    assert_eq!(decrypt(&key, &answer.verify_token), token);
}

#[test]
fn an_empty_token_is_answered_too() {
    let (key, der) = server_key();
    let answer = answer_request_with(&der, &[], SECRET).unwrap();
    assert_eq!(decrypt(&key, &answer.verify_token), Vec::<u8>::new());
}

#[test]
fn the_smallest_key_takes_any_short_token() {
    let (key, der) = server_key();
    for n in 0..5u8 {
        let token: Vec<u8> = (0..n).collect();
        let answer = answer_request(&der, &token).unwrap();
        assert_eq!(decrypt(&key, &answer.verify_token), token);
    }
}

#[test]
fn padding_is_fresh_each_time() {
    let (_, der) = server_key();
    let one = answer_request_with(&der, &[5], SECRET).unwrap();
    let two = answer_request_with(&der, &[5], SECRET).unwrap();
    assert_ne!(one.verify_token, two.verify_token);
}

#[test]
fn secrets_are_fresh_each_time() {
    let (key, der) = server_key();
    let one = answer_request(&der, &[5]).unwrap();
    let two = answer_request(&der, &[5]).unwrap();
    assert_ne!(one.secret, two.secret);
    assert_eq!(decrypt(&key, &one.shared_secret), one.secret);
    assert_eq!(decrypt(&key, &two.shared_secret), two.secret);
}

#[test]
fn a_document_without_a_key_is_refused() {
    for document in [&[1u8, 2, 3][..], &[], &[0x30, 0x00], &[0xff; 300]] {
        let said = rsa::RsaPublicKey::from_public_key_der(document).unwrap_err();
        let expected = format!("Failed to parse RSA public key: {said}");
        assert_eq!(words(answer_request_with(document, &[0; 4], SECRET)), expected);
        assert_eq!(words(answer_request(document, &[0; 4])), expected);
    }
}

#[test]
fn the_longest_token_leaves_eleven_bytes() {
    let (key, der) = server_key();
    let fits = [9u8; 117];
    let answer = answer_request_with(&der, &fits, SECRET).unwrap();
    assert_eq!(decrypt(&key, &answer.verify_token), fits);
    assert_eq!(
        words(answer_request_with(&der, &[9u8; 118], SECRET)),
        "Failed to encrypt verify token: message too long"
    );
}

#[test]
fn refusals_name_the_step() {
    let key = conclude(SECRET, Err(Refusal::Key("no key".to_string())));
    assert_eq!(words(key), "Failed to parse RSA public key: no key");
    let secret = conclude(SECRET, Err(Refusal::Secret("too long".to_string())));
    assert_eq!(words(secret), "Failed to encrypt shared secret: too long");
    let token = conclude(SECRET, Err(Refusal::Token(String::new())));
    assert_eq!(words(token), "Failed to encrypt verify token: ");
}

#[test]
fn ciphers_are_handed_on() {
    let h = conclude(SECRET, Ok((vec![1, 2], vec![3]))).unwrap();
    assert_eq!(h.secret, SECRET);
    assert_eq!(h.shared_secret, vec![1, 2]);
    assert_eq!(h.verify_token, vec![3]);
    let actions = encryption_actions(Ok(h)).unwrap();
    assert_eq!(
        actions,
        vec![
            Effect::Send(Packet::EncryptionResponse {
                shared_secret: vec![1, 2],
                verify_token: vec![3],
            }),
            Effect::SetEncryption(SECRET),
        ]
    );
    assert!(matches!(
        encryption_actions(Err(ReadingError::Incomplete)),
        Err(ReadingError::Incomplete)
    ));
}

#[test]
fn a_client_sends_the_ciphers_before_it_encrypts() {
    let (key, der) = server_key();
    let client = Client::new();
    let actions = client.handle_encryption_request(&der, &[4, 3, 2, 1]).unwrap();
    assert_eq!(actions.len(), 2);
    match (&actions[0], &actions[1]) {
        (
            Effect::Send(Packet::EncryptionResponse { shared_secret, verify_token }),
            Effect::SetEncryption(secret),
        ) => {
            assert_eq!(decrypt(&key, shared_secret), secret);
            assert_eq!(decrypt(&key, verify_token), [4, 3, 2, 1]);
        }
        other => panic!("not an answer: {other:?}"),
    }
    assert!(matches!(
        client.handle_encryption_request(&[0], &[]),
        Err(ReadingError::Message(_))
    ));
}
