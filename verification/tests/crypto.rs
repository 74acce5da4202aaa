use telepass::crypto::{decrypt, encrypt, Error};

#[test]
fn encrypt_and_decrypt_work() {
    let payload = "payload";
    let password = "password";

    let output = encrypt(payload, password).expect("Failed to encrypt payload");
    let decrypted_payload = decrypt(output, password).expect("Failed to decrypt payload");

    assert_eq!(payload, decrypted_payload);
}

#[test]
fn encrypt_same_payload_with_different_passwords_gives_different_results() {
    let payload = "payload";

    let first_output = encrypt(payload, "password1").expect("Failed to encrypt payload first time");
    let second_output =
        encrypt(payload, "password2").expect("Failed to encrypt payload second time");

    assert_ne!(first_output.encrypted_payload, second_output.encrypted_payload);
    assert_ne!(first_output.salt, second_output.salt);
}

#[test]
fn encrypt_same_payload_twice_gives_different_results() {
    let payload = "payload";
    let password = "password";

    let first_output = encrypt(payload, password).expect("Failed to encrypt payload first time");
    let second_output = encrypt(payload, password).expect("Failed to encrypt payload second time");

    assert_ne!(first_output.encrypted_payload, second_output.encrypted_payload);
    assert_ne!(first_output.salt, second_output.salt);
}

#[test]
fn decrypt_with_wrong_password_fails() {
    let payload = "payload";

    let output = encrypt(payload, "password1").expect("Failed to encrypt payload");
    decrypt(output, "password2").expect_err("Decryption is expected to fail");
}

#[test]
fn decrypt_with_wrong_payload_fails() {
    let payload = "payload";
    let password = "password";

    let mut output = encrypt(payload, password).expect("Failed to encrypt payload");
    output.encrypted_payload[0] = !output.encrypted_payload[0];
    decrypt(output, password).expect_err("Decryption is expected to fail");
}

#[test]
fn decrypt_with_wrong_salt_fails() {
    let payload = "payload";
    let password = "password";

    let mut output = encrypt(payload, password).expect("Failed to encrypt payload");
    output.salt[0] = !output.salt[0];
    decrypt(output, password).expect_err("Decryption is expected to fail");
}

#[test]
fn decrypt_failure_is_a_decryption_error() {
    let output = encrypt("payload", "right").unwrap();
    assert_eq!(decrypt(output, "wrong"), Err(Error::Decryption));
}

#[test]
fn encrypted_payload_is_longer_than_the_payload_by_the_tag() {
    let output = encrypt("payload", "password").unwrap();
    assert_eq!(output.encrypted_payload.len(), "payload".len() + 16);
    assert_eq!(output.salt.len(), 12);
}
