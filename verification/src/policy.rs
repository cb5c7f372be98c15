use vstd::prelude::*;
use vstd::string::{StrSliceExecFns, StringExecFns};
use crate::text::{
    begins_with, chars_of, dash_free, has_prefix, only_dash_at, only_dash_in_tail, spells,
    split_at_only_dash, lemma_only_dash_unique,
};

verus! {

/// A floating-point parameter of a policy. It is held as the IEEE-754 bit
/// pattern of the `f64` together with the text that `f64`'s `Display` writes
/// for that value, which is what goes on the wire.
pub struct PolicyRatio {
    pub bits: u64,
    pub text: String,
}

/// What a [`PolicyRatio`] holds.
pub struct RatioView {
    pub bits: u64,
    pub text: Seq<char>,
}

impl View for PolicyRatio {
    type V = RatioView;

    open spec fn view(&self) -> RatioView {
        RatioView { bits: self.bits, text: self.text@ }
    }
}

/// What an optional parameter holds.
pub open spec fn ratio_view(r: Option<PolicyRatio>) -> Option<RatioView> {
    match r {
        Some(r) => Some(r@),
        None => None,
    }
}

impl PolicyRatio {
    /// A parameter from its bit pattern and its text.
    pub fn new(bits: u64, text: String) -> (r: PolicyRatio)
        ensures
            r@ == (RatioView { bits, text: text@ }),
    {
        PolicyRatio { bits, text }
    }
}

/// A cache policy.
///
/// `Other` carries a policy this client does not know: the server's hybrid
/// designs are not enumerated here, so an unrecognized policy round-trips
/// verbatim and the client neither validates nor interprets it.
pub enum PaperPolicy {
    Auto,
    Lfu,
    Fifo,
    Clock,
    Sieve,
    Lru,
    Mru,
    TwoQ(PolicyRatio, PolicyRatio),
    Arc,
    SThreeFifo(PolicyRatio),
    /// A policy this client does not know; carried through unchanged.
    Other(String),
}

/// What a [`PaperPolicy`] holds.
pub enum PolicyView {
    Auto,
    Lfu,
    Fifo,
    Clock,
    Sieve,
    Lru,
    Mru,
    TwoQ(RatioView, RatioView),
    Arc,
    SThreeFifo(RatioView),
    Other(Seq<char>),
}

impl View for PaperPolicy {
    type V = PolicyView;

    open spec fn view(&self) -> PolicyView {
        match self {
            PaperPolicy::Auto => PolicyView::Auto,
            PaperPolicy::Lfu => PolicyView::Lfu,
            PaperPolicy::Fifo => PolicyView::Fifo,
            PaperPolicy::Clock => PolicyView::Clock,
            PaperPolicy::Sieve => PolicyView::Sieve,
            PaperPolicy::Lru => PolicyView::Lru,
            PaperPolicy::Mru => PolicyView::Mru,
            PaperPolicy::TwoQ(k_in, k_out) => PolicyView::TwoQ(k_in@, k_out@),
            PaperPolicy::Arc => PolicyView::Arc,
            PaperPolicy::SThreeFifo(ratio) => PolicyView::SThreeFifo(ratio@),
            PaperPolicy::Other(name) => PolicyView::Other(name@),
        }
    }
}

/// The first step of reading a policy name: either the policy is decided by
/// the text alone, or the text names a parameterized policy whose parameters
/// must first be read as floating-point numbers.
pub enum PolicyForm {
    Decided(PaperPolicy),
    /// `2q-<k_in>-<k_out>`, with the two parameter texts.
    TwoQ(String, String),
    /// `s3-fifo-<ratio>`, with the parameter text.
    SThreeFifo(String),
}

/// What a [`PolicyForm`] holds.
pub enum FormView {
    Decided(PolicyView),
    TwoQ(Seq<char>, Seq<char>),
    SThreeFifo(Seq<char>),
}

impl View for PolicyForm {
    type V = FormView;

    open spec fn view(&self) -> FormView {
        match self {
            PolicyForm::Decided(p) => FormView::Decided(p@),
            PolicyForm::TwoQ(k_in, k_out) => FormView::TwoQ(k_in@, k_out@),
            PolicyForm::SThreeFifo(ratio) => FormView::SThreeFifo(ratio@),
        }
    }
}

/// The text of a policy: its name, with any parameters written after dashes.
pub open spec fn policy_text(p: PolicyView) -> Seq<char> {
    match p {
        PolicyView::Auto => "auto"@,
        PolicyView::Lfu => "lfu"@,
        PolicyView::Fifo => "fifo"@,
        PolicyView::Clock => "clock"@,
        PolicyView::Sieve => "sieve"@,
        PolicyView::Lru => "lru"@,
        PolicyView::Mru => "mru"@,
        PolicyView::TwoQ(k_in, k_out) => "2q-"@ + k_in.text + seq!['-'] + k_out.text,
        PolicyView::Arc => "arc"@,
        PolicyView::SThreeFifo(ratio) => "s3-fifo-"@ + ratio.text,
        PolicyView::Other(name) => name,
    }
}

/// The policy that a name without parameters stands for, if any.
pub open spec fn named_policy(v: Seq<char>) -> Option<PolicyView> {
    if v == "auto"@ {
        Some(PolicyView::Auto)
    } else if v == "lfu"@ {
        Some(PolicyView::Lfu)
    } else if v == "fifo"@ {
        Some(PolicyView::Fifo)
    } else if v == "clock"@ {
        Some(PolicyView::Clock)
    } else if v == "sieve"@ {
        Some(PolicyView::Sieve)
    } else if v == "lru"@ {
        Some(PolicyView::Lru)
    } else if v == "mru"@ {
        Some(PolicyView::Mru)
    } else if v == "arc"@ {
        Some(PolicyView::Arc)
    } else {
        None
    }
}

/// How a policy text is read before any parameter is: a known name decides
/// the policy; `2q-` followed by two dash-separated pieces and `s3-fifo-`
/// followed by one piece without a dash ask for their pieces to be read as
/// numbers; any other text is a policy this client does not know.
pub open spec fn policy_form(v: Seq<char>) -> FormView {
    match named_policy(v) {
        Some(p) => FormView::Decided(p),
        None => if has_prefix(v, "2q-"@) {
            match split_at_only_dash(v.skip("2q-"@.len() as int)) {
                Some((k_in, k_out)) => FormView::TwoQ(k_in, k_out),
                None => FormView::Decided(PolicyView::Other(v)),
            }
        } else if has_prefix(v, "s3-fifo-"@) {
            if dash_free(v.skip("s3-fifo-"@.len() as int)) {
                FormView::SThreeFifo(v.skip("s3-fifo-"@.len() as int))
            } else {
                FormView::Decided(PolicyView::Other(v))
            }
        } else {
            FormView::Decided(PolicyView::Other(v))
        }
    }
}

/// The policy a text stands for, given what reading its pieces as numbers
/// gave: `first` for the first piece the form asks for, `second` for the
/// second (`None` where a piece is not a number). A parameterized name whose
/// pieces are not all numbers is a policy this client does not know.
pub open spec fn policy_from_text(
    v: Seq<char>,
    first: Option<RatioView>,
    second: Option<RatioView>,
) -> PolicyView {
    match policy_form(v) {
        FormView::Decided(p) => p,
        FormView::TwoQ(_, _) => match (first, second) {
            (Some(k_in), Some(k_out)) => PolicyView::TwoQ(k_in, k_out),
            _ => PolicyView::Other(v),
        },
        FormView::SThreeFifo(_) => match first {
            Some(ratio) => PolicyView::SThreeFifo(ratio),
            None => PolicyView::Other(v),
        },
    }
}

fn text_of(lit: &str) -> (s: String)
    ensures
        s@ == lit@,
{
    String::from_str(lit)
}

fn ratio_copy(r: &PolicyRatio) -> (c: PolicyRatio)
    ensures
        c@ == r@,
{
    PolicyRatio { bits: r.bits, text: r.text.clone() }
}

impl PaperPolicy {
    /// A copy of the policy.
    pub fn copy(&self) -> (c: PaperPolicy)
        ensures
            c@ == self@,
    {
        match self {
            PaperPolicy::Auto => PaperPolicy::Auto,
            PaperPolicy::Lfu => PaperPolicy::Lfu,
            PaperPolicy::Fifo => PaperPolicy::Fifo,
            PaperPolicy::Clock => PaperPolicy::Clock,
            PaperPolicy::Sieve => PaperPolicy::Sieve,
            PaperPolicy::Lru => PaperPolicy::Lru,
            PaperPolicy::Mru => PaperPolicy::Mru,
            PaperPolicy::TwoQ(k_in, k_out) => PaperPolicy::TwoQ(ratio_copy(k_in), ratio_copy(k_out)),
            PaperPolicy::Arc => PaperPolicy::Arc,
            PaperPolicy::SThreeFifo(ratio) => PaperPolicy::SThreeFifo(ratio_copy(ratio)),
            PaperPolicy::Other(name) => PaperPolicy::Other(name.clone()),
        }
    }

    /// The policy's text, as `Display` writes it.
    pub fn to_text(&self) -> (s: String)
        ensures
            s@ == policy_text(self@),
    {
        match self {
            PaperPolicy::Auto => text_of("auto"),
            PaperPolicy::Lfu => text_of("lfu"),
            PaperPolicy::Fifo => text_of("fifo"),
            PaperPolicy::Clock => text_of("clock"),
            PaperPolicy::Sieve => text_of("sieve"),
            PaperPolicy::Lru => text_of("lru"),
            PaperPolicy::Mru => text_of("mru"),
            PaperPolicy::TwoQ(k_in, k_out) => {
                let mut s = text_of("2q-");
                s.append(k_in.text.as_str());
                let dash = text_of("-");
                proof {
                    reveal_strlit("-");
                }
                s.append(dash.as_str());
                s.append(k_out.text.as_str());
                s
            },
            PaperPolicy::Arc => text_of("arc"),
            PaperPolicy::SThreeFifo(ratio) => {
                let mut s = text_of("s3-fifo-");
                s.append(ratio.text.as_str());
                s
            },
            PaperPolicy::Other(name) => name.clone(),
        }
    }

    /// The first step of reading a policy text (see [`policy_form`]): decides
    /// the policy, or hands back the pieces to be read as numbers.
    pub fn read_form(value: &str) -> (f: PolicyForm)
        ensures
            f@ == policy_form(value@),
    {
        let cs = chars_of(value);
        if spells(&cs, "auto") {
            return PolicyForm::Decided(PaperPolicy::Auto);
        }
        if spells(&cs, "lfu") {
            return PolicyForm::Decided(PaperPolicy::Lfu);
        }
        if spells(&cs, "fifo") {
            return PolicyForm::Decided(PaperPolicy::Fifo);
        }
        if spells(&cs, "clock") {
            return PolicyForm::Decided(PaperPolicy::Clock);
        }
        if spells(&cs, "sieve") {
            return PolicyForm::Decided(PaperPolicy::Sieve);
        }
        if spells(&cs, "lru") {
            return PolicyForm::Decided(PaperPolicy::Lru);
        }
        if spells(&cs, "mru") {
            return PolicyForm::Decided(PaperPolicy::Mru);
        }
        if spells(&cs, "arc") {
            return PolicyForm::Decided(PaperPolicy::Arc);
        }
        let n: usize = cs.len();
        if begins_with(&cs, "2q-") {
            let start: usize = chars_of("2q-").len();
            let ghost tail = value@.skip(start as int);
            match only_dash_in_tail(&cs, start) {
                Some(i) => {
                    proof {
                        let j = choose|j: int| only_dash_at(tail, j);
                        lemma_only_dash_unique(tail, i as int, j);
                        assert(tail.take(i as int) =~= value@.subrange(start as int, start + i));
                        assert(tail.skip(i + 1) =~= value@.subrange(start + i + 1, n as int));
                    }
                    let k_in = value.substring_char(start, start + i).to_owned();
                    let k_out = value.substring_char(start + i + 1, n).to_owned();
                    return PolicyForm::TwoQ(k_in, k_out);
                },
                None => {
                    return PolicyForm::Decided(PaperPolicy::Other(value.to_owned()));
                },
            }
        }
        if begins_with(&cs, "s3-fifo-") {
            let start: usize = chars_of("s3-fifo-").len();
            let ghost tail = value@.skip(start as int);
            if dash_free_tail(&cs, start) {
                proof {
                    assert(tail =~= value@.subrange(start as int, n as int));
                }
                let ratio = value.substring_char(start, n).to_owned();
                return PolicyForm::SThreeFifo(ratio);
            } else {
                return PolicyForm::Decided(PaperPolicy::Other(value.to_owned()));
            }
        }
        PolicyForm::Decided(PaperPolicy::Other(value.to_owned()))
    }

    /// Reads a policy text (see [`policy_from_text`]). `first` and `second` are
    /// what reading the pieces that [`PaperPolicy::read_form`] hands back as
    /// `f64` numbers gave, in order; they are not looked at for a text that
    /// names no parameterized policy.
    pub fn from_text(value: &str, first: Option<PolicyRatio>, second: Option<PolicyRatio>) -> (p:
        PaperPolicy)
        ensures
            p@ == policy_from_text(value@, ratio_view(first), ratio_view(second)),
    {
        match PaperPolicy::read_form(value) {
            PolicyForm::Decided(p) => p,
            PolicyForm::TwoQ(_, _) => match (first, second) {
                (Some(k_in), Some(k_out)) => PaperPolicy::TwoQ(k_in, k_out),
                _ => PaperPolicy::Other(value.to_owned()),
            },
            PolicyForm::SThreeFifo(_) => match first {
                Some(ratio) => PaperPolicy::SThreeFifo(ratio),
                None => PaperPolicy::Other(value.to_owned()),
            },
        }
    }
}

/// Whether the tail `cs[from..]` holds no dash.
fn dash_free_tail(cs: &Vec<char>, from: usize) -> (r: bool)
    requires
        from <= cs@.len(),
    ensures
        r == dash_free(cs@.skip(from as int)),
{
    let n: usize = cs.len();
    let mut i: usize = from;
    while i < n
        invariant
            n == cs@.len(),
            from <= i <= n,
            forall|k: int| from <= k < i ==> cs@[k] != '-',
        decreases n - i,
    {
        if cs[i] == '-' {
            assert(cs@.skip(from as int)[i - from] == '-');
            return false;
        }
        i = i + 1;
    }
    true
}

/// True for the policies that take no parameter and are not `Other`.
pub open spec fn is_plain_named(p: PolicyView) -> bool {
    match p {
        PolicyView::TwoQ(_, _) | PolicyView::SThreeFifo(_) | PolicyView::Other(_) => false,
        _ => true,
    }
}

/// The eight plain names, told apart by their lengths and first two characters.
proof fn lemma_plain_names_spelled()
    ensures
        "auto"@.len() == 4 && "auto"@[0] == 'a' && "auto"@[1] == 'u',
        "lfu"@.len() == 3 && "lfu"@[0] == 'l' && "lfu"@[1] == 'f',
        "fifo"@.len() == 4 && "fifo"@[0] == 'f' && "fifo"@[1] == 'i',
        "clock"@.len() == 5 && "clock"@[0] == 'c' && "clock"@[1] == 'l',
        "sieve"@.len() == 5 && "sieve"@[0] == 's' && "sieve"@[1] == 'i',
        "lru"@.len() == 3 && "lru"@[0] == 'l' && "lru"@[1] == 'r',
        "mru"@.len() == 3 && "mru"@[0] == 'm' && "mru"@[1] == 'r',
        "arc"@.len() == 3 && "arc"@[0] == 'a' && "arc"@[1] == 'r',
{
    reveal_strlit("auto");
    reveal_strlit("lfu");
    reveal_strlit("fifo");
    reveal_strlit("clock");
    reveal_strlit("sieve");
    reveal_strlit("lru");
    reveal_strlit("mru");
    reveal_strlit("arc");
}

/// Every known policy without parameters reads back from its own text,
/// whatever the number reader would have said.
pub proof fn lemma_plain_policy_round_trip(
    p: PolicyView,
    first: Option<RatioView>,
    second: Option<RatioView>,
)
    requires
        is_plain_named(p),
    ensures
        policy_from_text(policy_text(p), first, second) == p,
{
    lemma_plain_names_spelled();
}

/// A text that begins with `2`, or with `s3`, is none of the plain names.
proof fn lemma_not_plain_name(t: Seq<char>)
    requires
        t.len() > 1,
        t[0] == '2' || (t[0] == 's' && t[1] == '3'),
    ensures
        named_policy(t) is None,
{
    lemma_plain_names_spelled();
}

/// A two-queue policy reads back from its text when the number reader gives
/// back its two parameters from their texts, and neither text holds a dash
/// (a negative parameter does: its text is read as a policy this client does
/// not know).
pub proof fn lemma_two_q_round_trip(k_in: RatioView, k_out: RatioView)
    requires
        dash_free(k_in.text),
        dash_free(k_out.text),
    ensures
        policy_form(policy_text(PolicyView::TwoQ(k_in, k_out))) == FormView::TwoQ(
            k_in.text,
            k_out.text,
        ),
        policy_from_text(policy_text(PolicyView::TwoQ(k_in, k_out)), Some(k_in), Some(k_out))
            == PolicyView::TwoQ(k_in, k_out),
{
    reveal_strlit("2q-");
    let t = policy_text(PolicyView::TwoQ(k_in, k_out));
    let pre = "2q-"@;
    assert(t[0] == '2');
    assert(t[1] == 'q');
    lemma_not_plain_name(t);
    assert(t.take(3) =~= pre);
    let tail = t.skip(3);
    assert(tail =~= k_in.text + seq!['-'] + k_out.text);
    let i = k_in.text.len() as int;
    assert(tail.take(i) =~= k_in.text);
    assert(tail.skip(i + 1) =~= k_out.text);
    assert(only_dash_at(tail, i));
    let j = choose|j: int| only_dash_at(tail, j);
    lemma_only_dash_unique(tail, i, j);
}

/// An S3-FIFO policy reads back from its text when the number reader gives
/// back its parameter from its text, and that text holds no dash.
pub proof fn lemma_s_three_fifo_round_trip(ratio: RatioView, second: Option<RatioView>)
    requires
        dash_free(ratio.text),
    ensures
        policy_form(policy_text(PolicyView::SThreeFifo(ratio))) == FormView::SThreeFifo(
            ratio.text,
        ),
        policy_from_text(policy_text(PolicyView::SThreeFifo(ratio)), Some(ratio), second)
            == PolicyView::SThreeFifo(ratio),
{
    reveal_strlit("2q-");
    reveal_strlit("s3-fifo-");
    let t = policy_text(PolicyView::SThreeFifo(ratio));
    assert(t[0] == 's');
    assert(t[1] == '3');
    lemma_not_plain_name(t);
    assert("2q-"@[0] == '2');
    assert(!has_prefix(t, "2q-"@));
    assert(t.take(8) =~= "s3-fifo-"@);
    assert(t.skip(8) =~= ratio.text);
}

/// A policy this client does not know is carried through verbatim: its text
/// is its name, and that name reads back as the same unknown policy whenever
/// it is not a known name and the number reader accepts none of the pieces
/// it is asked to read.
pub proof fn lemma_unknown_policy_round_trip(
    name: Seq<char>,
    first: Option<RatioView>,
    second: Option<RatioView>,
)
    requires
        named_policy(name) is None,
        policy_form(name) is TwoQ ==> first is None || second is None,
        policy_form(name) is SThreeFifo ==> first is None,
    ensures
        policy_text(PolicyView::Other(name)) == name,
        policy_from_text(policy_text(PolicyView::Other(name)), first, second)
            == PolicyView::Other(name),
{
}

/// How a policy text is read, stated on the text itself: a plain policy comes
/// only from its exact name (so a hybrid design such as `fifo-hybrid` is not
/// FIFO); a two-queue policy only from `2q-` followed by two dash-free pieces
/// that the number reader read; an S3-FIFO policy only from `s3-fifo-`
/// followed by one dash-free piece that it read; and any other outcome is an
/// unknown policy that carries the text verbatim.
pub proof fn lemma_policy_reading_exact(
    v: Seq<char>,
    first: Option<RatioView>,
    second: Option<RatioView>,
)
    ensures
        (policy_from_text(v, first, second) == PolicyView::Auto) <==> v == "auto"@,
        (policy_from_text(v, first, second) == PolicyView::Lfu) <==> v == "lfu"@,
        (policy_from_text(v, first, second) == PolicyView::Fifo) <==> v == "fifo"@,
        (policy_from_text(v, first, second) == PolicyView::Clock) <==> v == "clock"@,
        (policy_from_text(v, first, second) == PolicyView::Sieve) <==> v == "sieve"@,
        (policy_from_text(v, first, second) == PolicyView::Lru) <==> v == "lru"@,
        (policy_from_text(v, first, second) == PolicyView::Mru) <==> v == "mru"@,
        (policy_from_text(v, first, second) == PolicyView::Arc) <==> v == "arc"@,
        policy_from_text(v, first, second) matches PolicyView::Other(name) ==> name == v,
        policy_from_text(v, first, second) matches PolicyView::TwoQ(k_in, k_out) ==> {
            &&& first == Some(k_in)
            &&& second == Some(k_out)
            &&& exists|x: Seq<char>, y: Seq<char>|
                dash_free(x) && dash_free(y) && v == "2q-"@ + x + seq!['-'] + y
        },
        policy_from_text(v, first, second) matches PolicyView::SThreeFifo(ratio) ==> {
            &&& first == Some(ratio)
            &&& exists|x: Seq<char>| dash_free(x) && v == "s3-fifo-"@ + x
        },
        policy_form(v) matches FormView::Decided(p) ==> policy_from_text(v, first, second) == p,
        policy_form(v) matches FormView::TwoQ(x, y) ==> dash_free(x) && dash_free(y) && v == "2q-"@
            + x + seq!['-'] + y,
        policy_form(v) matches FormView::SThreeFifo(x) ==> dash_free(x) && v == "s3-fifo-"@ + x,
{
    lemma_plain_names_spelled();
    reveal_strlit("2q-");
    reveal_strlit("s3-fifo-");
    match policy_form(v) {
        FormView::TwoQ(x, y) => {
            let tail = v.skip(3);
            let i = choose|i: int| only_dash_at(tail, i);
            assert(v.take(3) == "2q-"@);
            assert(x == tail.take(i) && y == tail.skip(i + 1));
            assert(tail =~= x + seq!['-'] + y);
            assert(v =~= "2q-"@ + x + seq!['-'] + y);
        },
        FormView::SThreeFifo(x) => {
            assert(v.take(8) == "s3-fifo-"@);
            assert(v =~= "s3-fifo-"@ + x);
        },
        FormView::Decided(p) => {},
    }
}

} // verus!
