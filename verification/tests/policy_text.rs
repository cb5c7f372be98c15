use paper_client::{PaperPolicy, PolicyForm, PolicyRatio};

fn ratio(x: f64) -> PolicyRatio {
	PolicyRatio::new(x.to_bits(), x.to_string())
}

/// What reading a piece as an `f64` gives, as the client does it.
fn read_ratio(text: &str) -> Option<PolicyRatio> {
	text.parse::<f64>().ok().map(ratio)
}

/// A policy text read the way the client reads one.
fn read_policy(text: &str) -> PaperPolicy {
	let (first, second) = match PaperPolicy::read_form(text) {
		PolicyForm::Decided(_) => (None, None),
		PolicyForm::TwoQ(k_in, k_out) => (read_ratio(&k_in), read_ratio(&k_out)),
		PolicyForm::SThreeFifo(r) => (read_ratio(&r), None),
	};
	PaperPolicy::from_text(text, first, second)
}

#[test]
fn plain_policy_texts() {
	assert_eq!(PaperPolicy::Auto.to_text(), "auto");
	assert_eq!(PaperPolicy::Lfu.to_text(), "lfu");
	assert_eq!(PaperPolicy::Fifo.to_text(), "fifo");
	assert_eq!(PaperPolicy::Clock.to_text(), "clock");
	assert_eq!(PaperPolicy::Sieve.to_text(), "sieve");
	assert_eq!(PaperPolicy::Lru.to_text(), "lru");
	assert_eq!(PaperPolicy::Mru.to_text(), "mru");
	assert_eq!(PaperPolicy::Arc.to_text(), "arc");
}

#[test]
fn parameterized_policy_texts() {
	assert_eq!(PaperPolicy::TwoQ(ratio(0.25), ratio(0.5)).to_text(), "2q-0.25-0.5");
	assert_eq!(PaperPolicy::SThreeFifo(ratio(0.1)).to_text(), "s3-fifo-0.1");
	assert_eq!(PaperPolicy::Other(String::from("lru-hybrid")).to_text(), "lru-hybrid");
}

#[test]
fn plain_names_read_back() {
	assert!(matches!(read_policy("auto"), PaperPolicy::Auto));
	assert!(matches!(read_policy("lfu"), PaperPolicy::Lfu));
	assert!(matches!(read_policy("fifo"), PaperPolicy::Fifo));
	assert!(matches!(read_policy("clock"), PaperPolicy::Clock));
	assert!(matches!(read_policy("sieve"), PaperPolicy::Sieve));
	assert!(matches!(read_policy("lru"), PaperPolicy::Lru));
	assert!(matches!(read_policy("mru"), PaperPolicy::Mru));
	assert!(matches!(read_policy("arc"), PaperPolicy::Arc));
}

#[test]
fn two_q_reads_its_parameters() {
	match PaperPolicy::read_form("2q-0.25-0.5") {
		PolicyForm::TwoQ(k_in, k_out) => {
			assert_eq!(k_in, "0.25");
			assert_eq!(k_out, "0.5");
		},
		_ => panic!("expected a two-queue form"),
	}
	match read_policy("2q-0.25-0.5") {
		PaperPolicy::TwoQ(k_in, k_out) => {
			assert_eq!(k_in.bits, 0.25f64.to_bits());
			assert_eq!(k_out.bits, 0.5f64.to_bits());
			assert_eq!(k_in.text, "0.25");
		},
		_ => panic!("expected a two-queue policy"),
	}
}

#[test]
fn s_three_fifo_reads_its_parameter() {
	match read_policy("s3-fifo-0.1") {
		PaperPolicy::SThreeFifo(r) => assert_eq!(r.bits, 0.1f64.to_bits()),
		_ => panic!("expected an S3-FIFO policy"),
	}
}

#[test]
fn hybrid_designs_are_carried_verbatim() {
	for name in ["2q-hybrid-0.1", "s3-fifo-hybrid-0.1", "lru-hybrid", "2q-1-2-3", "2q-", "s3-fifo-", "", "LRU"] {
		match read_policy(name) {
			PaperPolicy::Other(text) => assert_eq!(text, name),
			_ => panic!("{name} should be an unknown policy"),
		}
	}
}

#[test]
fn forms_of_prefixed_names() {
	assert!(matches!(PaperPolicy::read_form("2q-1-2-3"), PolicyForm::Decided(PaperPolicy::Other(_))));
	assert!(matches!(PaperPolicy::read_form("2q-hybrid-0.1"), PolicyForm::TwoQ(_, _)));
	assert!(matches!(PaperPolicy::read_form("s3-fifo-a-b"), PolicyForm::Decided(PaperPolicy::Other(_))));
	match PaperPolicy::read_form("s3-fifo-") {
		PolicyForm::SThreeFifo(r) => assert_eq!(r, ""),
		_ => panic!("expected an S3-FIFO form"),
	}
}

#[test]
fn ratios_are_ignored_for_plain_names() {
	assert!(matches!(
		PaperPolicy::from_text("lru", Some(ratio(1.0)), Some(ratio(2.0))),
		PaperPolicy::Lru
	));
	assert!(matches!(
		PaperPolicy::from_text("2q-1-2", Some(ratio(1.0)), None),
		PaperPolicy::Other(_)
	));
}

#[test]
fn policy_text_round_trip() {
	for policy in [
		PaperPolicy::Auto,
		PaperPolicy::Arc,
		PaperPolicy::TwoQ(ratio(0.1), ratio(0.9)),
		PaperPolicy::SThreeFifo(ratio(0.2)),
		PaperPolicy::Other(String::from("s3-fifo-hybrid-0.1")),
	] {
		let text = policy.to_text();
		let back = read_policy(&text);
		assert_eq!(back.to_text(), text);
	}
}

#[test]
fn negative_ratio_does_not_read_back() {
	let policy = PaperPolicy::TwoQ(ratio(-0.5), ratio(0.5));
	assert_eq!(policy.to_text(), "2q--0.5-0.5");
	assert!(matches!(read_policy(&policy.to_text()), PaperPolicy::Other(_)));
}

#[test]
fn policy_copy_is_equal_text() {
	let p = PaperPolicy::TwoQ(ratio(0.3), ratio(0.7));
	assert_eq!(p.copy().to_text(), p.to_text());
}
