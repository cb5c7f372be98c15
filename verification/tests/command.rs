use paper_client::{Command, PaperPolicy, PaperValue, PolicyRatio};

fn bytes_of(command: &Command) -> Vec<u8> {
	command.to_sheet().serialize().to_vec()
}

#[test]
fn commands_without_arguments() {
	assert_eq!(bytes_of(&Command::Ping), vec![0]);
	assert_eq!(bytes_of(&Command::Version), vec![1]);
	assert_eq!(bytes_of(&Command::Wipe), vec![10]);
	assert_eq!(bytes_of(&Command::Status), vec![13]);
}

#[test]
fn key_commands_carry_a_length_prefixed_key() {
	let key: &[u8] = b"key";
	assert_eq!(bytes_of(&Command::Get(key)), vec![3, 3, 0, 0, 0, b'k', b'e', b'y']);
	assert_eq!(bytes_of(&Command::Del(key)), vec![5, 3, 0, 0, 0, b'k', b'e', b'y']);
	assert_eq!(bytes_of(&Command::Has(key)), vec![6, 3, 0, 0, 0, b'k', b'e', b'y']);
	assert_eq!(bytes_of(&Command::Peek(key)), vec![7, 3, 0, 0, 0, b'k', b'e', b'y']);
	assert_eq!(bytes_of(&Command::Size(key)), vec![9, 3, 0, 0, 0, b'k', b'e', b'y']);
	assert_eq!(bytes_of(&Command::Get(&[])), vec![3, 0, 0, 0, 0]);
}

#[test]
fn set_carries_key_value_and_ttl() {
	let key: &[u8] = b"k";
	let command = Command::SetValue(key, PaperValue::from("vv"), 0x0102_0304);
	assert_eq!(
		bytes_of(&command),
		vec![4, 1, 0, 0, 0, b'k', 2, 0, 0, 0, b'v', b'v', 4, 3, 2, 1]
	);
}

#[test]
fn ttl_and_resize_carry_little_endian_numbers() {
	let key: &[u8] = b"k";
	assert_eq!(bytes_of(&Command::Ttl(key, 300)), vec![8, 1, 0, 0, 0, b'k', 44, 1, 0, 0]);
	assert_eq!(
		bytes_of(&Command::Resize(0x0102_0304_0506_0708)),
		vec![11, 8, 7, 6, 5, 4, 3, 2, 1]
	);
}

#[test]
fn auth_carries_the_token_text() {
	assert_eq!(
		bytes_of(&Command::Auth("tok")),
		vec![2, 3, 0, 0, 0, b't', b'o', b'k']
	);
	assert_eq!(bytes_of(&Command::Auth("é")), vec![2, 2, 0, 0, 0, 0xc3, 0xa9]);
}

#[test]
fn policy_carries_the_policy_text() {
	assert_eq!(
		bytes_of(&Command::Policy(PaperPolicy::Lfu)),
		vec![12, 3, 0, 0, 0, b'l', b'f', b'u']
	);
	let ratio = PolicyRatio::new(0.5f64.to_bits(), String::from("0.5"));
	let mut expected = vec![12, 11, 0, 0, 0];
	expected.extend_from_slice(b"s3-fifo-0.5");
	assert_eq!(bytes_of(&Command::Policy(PaperPolicy::SThreeFifo(ratio))), expected);
	let mut expected = vec![12, 10, 0, 0, 0];
	expected.extend_from_slice(b"lru-hybrid");
	assert_eq!(
		bytes_of(&Command::Policy(PaperPolicy::Other(String::from("lru-hybrid")))),
		expected
	);
}

#[test]
fn request_streams_split_one_way() {
	let key_a: &[u8] = b"ab";
	let key_b: &[u8] = b"a";
	let mut first = bytes_of(&Command::Get(key_a));
	first.extend(bytes_of(&Command::Ping));
	let mut second = bytes_of(&Command::Get(key_b));
	second.extend(bytes_of(&Command::Ping));
	assert_ne!(first, second);
	assert_ne!(bytes_of(&Command::Get(key_a)), bytes_of(&Command::Del(key_a)));
	assert_eq!(bytes_of(&Command::Get(key_a)), bytes_of(&Command::Get(b"ab")));
	assert_ne!(bytes_of(&Command::Resize(1)), bytes_of(&Command::Resize(256)));
}
