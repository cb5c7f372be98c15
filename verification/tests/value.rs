use paper_client::PaperValue;

#[test]
fn value_from_byte_slice_keeps_bytes() {
	let bytes: &[u8] = &[1, 2, 3, 255];
	let value = PaperValue::from(bytes);
	assert_eq!(value.as_bytes(), &[1, 2, 3, 255]);
	assert_eq!(value.len(), 4);
}

#[test]
fn value_from_vec_and_box_keep_bytes() {
	let value = PaperValue::from(vec![9u8, 8, 7]);
	assert_eq!(value.as_bytes(), &[9, 8, 7]);

	let boxed: Box<[u8]> = vec![4u8, 5].into_boxed_slice();
	let value = PaperValue::from(boxed);
	assert_eq!(value.as_bytes(), &[4, 5]);
}

#[test]
fn value_from_text_is_its_utf8() {
	let value = PaperValue::from("héllo");
	assert_eq!(value.as_bytes(), "héllo".as_bytes());

	let owned = String::from("abc");
	assert_eq!(PaperValue::from(&owned).as_bytes(), b"abc");
	assert_eq!(PaperValue::from(owned).as_bytes(), b"abc");
}

#[test]
fn value_back_to_bytes() {
	let value = PaperValue::from("data");
	let slice: &[u8] = (&value).into();
	assert_eq!(slice, b"data");

	let vec: Vec<u8> = PaperValue::from("data").into();
	assert_eq!(vec, b"data".to_vec());

	let boxed: Box<[u8]> = PaperValue::from("data").into();
	assert_eq!(&*boxed, b"data");
}

#[test]
fn value_as_text() {
	let value = PaperValue::from("text");
	let s: &str = (&value).try_into().expect("valid UTF-8");
	assert_eq!(s, "text");

	let owned: String = PaperValue::from("text").try_into().expect("valid UTF-8");
	assert_eq!(owned, "text");
}

#[test]
fn value_invalid_utf8_is_an_error() {
	let value = PaperValue::from(vec![0xffu8, 0xfe]);
	let s: Result<&str, _> = (&value).try_into();
	assert!(s.is_err());
	assert!(value.to_str().is_err());

	let owned: Result<String, _> = PaperValue::from(vec![0xc3u8]).try_into();
	assert!(owned.is_err());
}

#[test]
fn value_debug_text_short_utf8_is_quoted() {
	assert_eq!(PaperValue::from("hello").debug_text(), "PaperValue(\"hello\")");
	assert_eq!(PaperValue::from("").debug_text(), "PaperValue(\"\")");
	assert_eq!(PaperValue::from("0123456789abcdef").debug_text(), "PaperValue(\"0123456789abcdef\")");
}

#[test]
fn value_debug_text_long_or_binary_is_elided() {
	assert_eq!(PaperValue::from("0123456789abcdefg").debug_text(), "PaperValue(...)");
	assert_eq!(PaperValue::from(vec![0xffu8]).debug_text(), "PaperValue(...)");
}

#[test]
fn value_text_error_gives_back_the_bytes() {
	let owned: Result<String, _> = PaperValue::from(vec![b'a', 0xff, b'b']).try_into();
	let error = owned.expect_err("not UTF-8");
	assert_eq!(error.into_bytes(), vec![b'a', 0xff, b'b']);
}

#[test]
fn value_text_round_trip() {
	for text in ["", "plain", "ünïcödé ✓", "0123456789abcdefghij"] {
		let owned: String = PaperValue::from(String::from(text)).try_into().expect("UTF-8");
		assert_eq!(owned, text);
	}
}
