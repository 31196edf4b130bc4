use backend_conversations::jwt::{read_decoding_key, token_validation, SigningAlgorithm};

const PUBLIC_KEY: &str = "-----BEGIN PUBLIC KEY-----\nMIIBIjANBgkqhkiG9w0BAQEFAAOCAQ8AMIIBCgKCAQEAy2/Ai5ry6tBEBeOpVXjL\ntbe8ElLr5u1ONCpg5aXxQq2dkN/Z5lcmFnlLfQRXReBk7LGLMxaf950KfKc5K9YL\nsehHxTBO60JeHdCavedTevzO07QGGgD6FdCE6JGMU+A3JrYDI0rZEGUNNL30Kx/A\nETO/3icM8AabEZBAtESvF+DbmkijUEFO+KPhawPaTCcaCbfw2Kmcq924/xkU5Kz7\n6n6WJ3kJhRK0ktDB43APO77jaW2UnM3g/saYtBvNkJOh4T55lI8TmwFzNqHu/mEw\nZ1UqCEQdI2XkDHqsgExrpDMzT/CqqfIIXvqbmzfbMAcLwaQDiDJPLBEecW8PMppe\nKQIDAQAB\n-----END PUBLIC KEY-----\n";

#[test]
fn rsa_public_key_is_read() {
    assert!(read_decoding_key(PUBLIC_KEY).is_ok());
}

#[test]
fn garbage_key_gives_error_text() {
    match read_decoding_key("not a key") {
        Ok(_) => panic!("accepted garbage"),
        Err(text) => assert!(!text.is_empty()),
    }
}

#[test]
fn validation_requires_rs256_and_issuer() {
    let rules = token_validation("https://id.example/auth/realms/r");
    assert_eq!(rules.algorithm, SigningAlgorithm::Rs256);
    assert_eq!(rules.issuer, "https://id.example/auth/realms/r");
}
