use paper_client::{Command, Field, FieldKind, PaperClientError, PaperPolicy, PaperValue, PolicyRatio};

#[test]
fn ok_reply_reads_one_flag() {
	let c = Command::Wipe;
	assert_eq!(c.reply_next(&vec![]), Some(FieldKind::Bool));
	assert_eq!(c.reply_next(&vec![Field::Bool(true)]), None);
	assert_eq!(c.reply_result(&vec![Field::Bool(true)]), Ok(()));
	assert_eq!(c.reply_next(&vec![Field::Bool(false)]), Some(FieldKind::ServerError));
	let refused = vec![Field::Bool(false), Field::ServerError(PaperClientError::Refused)];
	assert_eq!(c.reply_next(&refused), None);
	assert_eq!(c.reply_result(&refused), Err(PaperClientError::Refused));
	assert_eq!(c.reply_result(&vec![Field::Bool(false)]), Err(PaperClientError::InvalidResponse));
	assert_eq!(c.reply_result(&vec![]), Err(PaperClientError::InvalidResponse));
	assert_eq!(c.reply_result(&vec![Field::U32(1)]), Err(PaperClientError::InvalidResponse));
}

#[test]
fn buf_reply_reads_flag_then_buffer() {
	let key: &[u8] = b"k";
	let c = Command::Get(key);
	assert_eq!(c.buf_reply_next(&vec![]), Some(FieldKind::Bool));
	assert_eq!(c.buf_reply_next(&vec![Field::Bool(true)]), Some(FieldKind::Buf));
	assert_eq!(c.buf_reply_next(&vec![Field::Bool(false)]), Some(FieldKind::ServerError));
	let fields = vec![Field::Bool(true), Field::Buf(PaperValue::from("value"))];
	assert_eq!(c.buf_reply_next(&fields), None);
	match c.buf_reply_result(fields) {
		Ok(v) => assert_eq!(v.as_bytes(), b"value"),
		Err(e) => panic!("unexpected {e:?}"),
	}
	assert!(matches!(
		c.buf_reply_result(vec![Field::Bool(false), Field::ServerError(PaperClientError::Refused)]),
		Err(PaperClientError::Refused)
	));
	assert!(matches!(
		c.buf_reply_result(vec![Field::Bool(true)]),
		Err(PaperClientError::InvalidResponse)
	));
	assert!(matches!(
		c.buf_reply_result(vec![Field::Bool(true), Field::U32(3)]),
		Err(PaperClientError::InvalidResponse)
	));
}

#[test]
fn has_reply_reads_flag_then_flag() {
	let key: &[u8] = b"k";
	let c = Command::Has(key);
	assert_eq!(c.has_reply_next(&vec![Field::Bool(true)]), Some(FieldKind::Bool));
	assert_eq!(c.has_reply_result(&vec![Field::Bool(true), Field::Bool(false)]), Ok(false));
	assert_eq!(c.has_reply_result(&vec![Field::Bool(true), Field::Bool(true)]), Ok(true));
	assert_eq!(
		c.has_reply_result(&vec![Field::Bool(false), Field::ServerError(PaperClientError::Refused)]),
		Err(PaperClientError::Refused)
	);
	assert_eq!(
		c.has_reply_result(&vec![Field::Bool(false), Field::U32(1)]),
		Err(PaperClientError::InvalidResponse)
	);
}

#[test]
fn size_reply_reads_flag_then_number() {
	let key: &[u8] = b"k";
	let c = Command::Size(key);
	assert_eq!(c.size_reply_next(&vec![Field::Bool(true)]), Some(FieldKind::U32));
	assert_eq!(c.size_reply_result(&vec![Field::Bool(true), Field::U32(77)]), Ok(77));
	assert_eq!(
		c.size_reply_result(&vec![Field::Bool(true), Field::U64(77)]),
		Err(PaperClientError::InvalidResponse)
	);
}

fn ratio(x: f64) -> PolicyRatio {
	PolicyRatio::new(x.to_bits(), x.to_string())
}

fn status_fields() -> Vec<Field> {
	vec![
		Field::Bool(true),
		Field::U32(4242),
		Field::U64(1000),
		Field::U64(600),
		Field::U64(12),
		Field::U64(2048),
		Field::U64(4096),
		Field::U64(100),
		Field::U64(50),
		Field::U64(5),
		Field::F64(0.25f64.to_bits()),
		Field::U32(2),
		Field::Policy(PaperPolicy::Lfu),
		Field::Policy(PaperPolicy::TwoQ(ratio(0.1), ratio(0.5))),
		Field::Policy(PaperPolicy::Lfu),
		Field::Bool(false),
		Field::U64(3600),
	]
}

#[test]
fn status_reply_asks_for_each_field_in_turn() {
	let c = Command::Status;
	let all = status_fields();
	let expected = [
		FieldKind::Bool,
		FieldKind::U32,
		FieldKind::U64,
		FieldKind::U64,
		FieldKind::U64,
		FieldKind::U64,
		FieldKind::U64,
		FieldKind::U64,
		FieldKind::U64,
		FieldKind::U64,
		FieldKind::F64,
		FieldKind::U32,
		FieldKind::Policy,
		FieldKind::Policy,
		FieldKind::Policy,
		FieldKind::Bool,
		FieldKind::U64,
	];
	let mut seen: Vec<Field> = Vec::new();
	for (i, field) in all.into_iter().enumerate() {
		assert_eq!(c.status_reply_next(&seen), Some(expected[i]));
		seen.push(field);
	}
	assert_eq!(c.status_reply_next(&seen), None);
}

#[test]
fn status_reply_gives_the_status() {
	let c = Command::Status;
	let status = c.status_reply_result(&status_fields()).expect("a status");
	assert_eq!(status.pid(), 4242);
	assert_eq!(status.max_size(), 1000);
	assert_eq!(status.used_size(), 600);
	assert_eq!(status.num_objects(), 12);
	assert_eq!(status.rss(), 2048);
	assert_eq!(status.hwm(), 4096);
	assert_eq!(status.total_gets(), 100);
	assert_eq!(status.total_sets(), 50);
	assert_eq!(status.total_dels(), 5);
	assert_eq!(f64::from_bits(status.miss_ratio()), 0.25);
	assert_eq!(status.policies().len(), 2);
	assert_eq!(status.policies()[1].to_text(), "2q-0.1-0.5");
	assert!(matches!(status.policy(), PaperPolicy::Lfu));
	assert!(!status.is_auto_policy());
	assert_eq!(status.uptime(), 3600);
}

#[test]
fn status_reply_without_policies() {
	let c = Command::Status;
	let mut fields = status_fields();
	fields.remove(13);
	fields.remove(12);
	fields[11] = Field::U32(0);
	assert_eq!(c.status_reply_next(&fields), None);
	let status = c.status_reply_result(&fields).expect("a status");
	assert_eq!(status.policies().len(), 0);
}

#[test]
fn status_reply_refused_or_malformed() {
	let c = Command::Status;
	assert_eq!(c.status_reply_next(&vec![Field::Bool(false)]), Some(FieldKind::ServerError));
	let refused = vec![Field::Bool(false), Field::ServerError(PaperClientError::InvalidResponse)];
	assert_eq!(c.status_reply_next(&refused), None);
	assert!(matches!(
		c.status_reply_result(&refused),
		Err(PaperClientError::InvalidResponse)
	));
	assert!(matches!(
		c.status_reply_result(&vec![Field::Bool(false), Field::ServerError(PaperClientError::Refused)]),
		Err(PaperClientError::Refused)
	));
	let mut short = status_fields();
	short.pop();
	assert_eq!(c.status_reply_next(&short), Some(FieldKind::U64));
	assert!(matches!(c.status_reply_result(&short), Err(PaperClientError::InvalidResponse)));
	let mut wrong = status_fields();
	wrong[3] = Field::U32(1);
	assert_eq!(c.status_reply_next(&wrong), None);
	assert!(matches!(c.status_reply_result(&wrong), Err(PaperClientError::InvalidResponse)));
	assert!(matches!(c.status_reply_result(&vec![]), Err(PaperClientError::InvalidResponse)));
}
