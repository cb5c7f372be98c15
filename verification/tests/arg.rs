use paper_client::{AsPaperAuthToken, AsPaperKey};

#[test]
fn key_from_text_is_its_bytes() {
	let key: &str = "user:1";
	assert_eq!(key.as_paper_key(), b"user:1");

	let owned = String::from("ключ");
	assert_eq!(owned.as_paper_key(), "ключ".as_bytes());
	assert_eq!((&owned).as_paper_key(), "ключ".as_bytes());
}

#[test]
fn key_from_bytes_is_unchanged() {
	let bytes: &[u8] = &[0, 1, 2];
	assert_eq!(bytes.as_paper_key(), &[0, 1, 2]);

	let numeric = 42u64.to_le_bytes();
	assert_eq!(numeric.as_paper_key(), &[42, 0, 0, 0, 0, 0, 0, 0]);
	assert_eq!((&numeric).as_paper_key(), &[42, 0, 0, 0, 0, 0, 0, 0]);
}

#[test]
fn auth_token_is_its_text() {
	let token: &str = "secret";
	assert_eq!(token.as_paper_auth_token(), "secret");

	let owned = String::from("secret");
	assert_eq!(owned.as_paper_auth_token(), "secret");
	assert_eq!((&owned).as_paper_auth_token(), "secret");
}
