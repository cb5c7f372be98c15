use vstd::prelude::*;
use crate::command::Command;
use crate::policy::{PaperPolicy, PolicyView};
use crate::reply::{
    fields_view, kind, kind_of, refusal, refusal_exec, opens_with_success, result_view, Field, FieldKind, FieldView,
    PaperClientError,
};

verus! {

/// The state of the cache server, as its status reply reports it. The miss
/// ratio is held as the bit pattern of the `f64` the server sends.
pub struct Status {
    pid: u32,
    max_size: u64,
    used_size: u64,
    num_objects: u64,
    rss: u64,
    hwm: u64,
    total_gets: u64,
    total_sets: u64,
    total_dels: u64,
    miss_ratio: u64,
    policies: Vec<PaperPolicy>,
    policy: PaperPolicy,
    is_auto_policy: bool,
    uptime: u64,
}

/// What a [`Status`] holds.
pub struct StatusView {
    pub pid: u32,
    pub max_size: u64,
    pub used_size: u64,
    pub num_objects: u64,
    pub rss: u64,
    pub hwm: u64,
    pub total_gets: u64,
    pub total_sets: u64,
    pub total_dels: u64,
    pub miss_ratio: u64,
    pub policies: Seq<PolicyView>,
    pub policy: PolicyView,
    pub is_auto_policy: bool,
    pub uptime: u64,
}

impl View for Status {
    type V = StatusView;

    closed spec fn view(&self) -> StatusView {
        StatusView {
            pid: self.pid,
            max_size: self.max_size,
            used_size: self.used_size,
            num_objects: self.num_objects,
            rss: self.rss,
            hwm: self.hwm,
            total_gets: self.total_gets,
            total_sets: self.total_sets,
            total_dels: self.total_dels,
            miss_ratio: self.miss_ratio,
            policies: self.policies@.map_values(|p: PaperPolicy| p@),
            policy: self.policy@,
            is_auto_policy: self.is_auto_policy,
            uptime: self.uptime,
        }
    }
}

/// The kind of the field at position `i` of a successful status reply that
/// lists `count` available policies: the success flag, the pid, eight
/// counters, the miss ratio, the number of policies, the policies, the
/// current policy, whether it was chosen automatically, and the uptime.
pub open spec fn status_kind(i: int, count: int) -> FieldKind {
    if i == 0 {
        FieldKind::Bool
    } else if i == 1 {
        FieldKind::U32
    } else if i <= 9 {
        FieldKind::U64
    } else if i == 10 {
        FieldKind::F64
    } else if i == 11 {
        FieldKind::U32
    } else if i <= 12 + count {
        FieldKind::Policy
    } else if i == 13 + count {
        FieldKind::Bool
    } else {
        FieldKind::U64
    }
}

/// The number of fields of a successful status reply that lists `count` policies.
pub open spec fn status_len(count: int) -> int {
    15 + count
}

/// The number of policies a status reply announces (0 until it is read).
pub open spec fn status_count(fs: Seq<FieldView>) -> int {
    if fs.len() >= 12 && fs[11] is U32 {
        fs[11]->U32_0 as int
    } else {
        0
    }
}

/// Every field read so far has the kind its position calls for.
pub open spec fn status_well_kinded(fs: Seq<FieldView>) -> bool {
    forall|i: int|
        0 <= i < fs.len() && i < status_len(status_count(fs)) ==> kind_of(#[trigger] fs[i])
            == status_kind(i, status_count(fs))
}

/// The field still to be read of a status reply: after the failure indicator,
/// the server's error; `None` once the reply is complete, refused or malformed.
pub open spec fn status_next(fs: Seq<FieldView>) -> Option<FieldKind> {
    if fs.len() == 0 {
        Some(FieldKind::Bool)
    } else if fs.len() == 1 && fs[0] == FieldView::Bool(false) {
        Some(FieldKind::ServerError)
    } else if !opens_with_success(fs) || !status_well_kinded(fs) {
        None
    } else if fs.len() < status_len(status_count(fs)) {
        Some(status_kind(fs.len() as int, status_count(fs)))
    } else {
        None
    }
}

/// The status that the fields of a complete, well-formed status reply give.
pub open spec fn status_of_fields(fs: Seq<FieldView>) -> StatusView {
    let c = status_count(fs);
    StatusView {
        pid: fs[1]->U32_0,
        max_size: fs[2]->U64_0,
        used_size: fs[3]->U64_0,
        num_objects: fs[4]->U64_0,
        rss: fs[5]->U64_0,
        hwm: fs[6]->U64_0,
        total_gets: fs[7]->U64_0,
        total_sets: fs[8]->U64_0,
        total_dels: fs[9]->U64_0,
        miss_ratio: fs[10]->F64_0,
        policies: Seq::new(c as nat, |i: int| fs[12 + i]->Policy_0),
        policy: fs[12 + c]->Policy_0,
        is_auto_policy: fs[13 + c]->Bool_0,
        uptime: fs[14 + c]->U64_0,
    }
}

/// The outcome of a status reply: the server's error on the failure indicator, a
/// malformed reply when a field is missing or of the wrong kind, and
/// otherwise the status its fields give.
pub open spec fn status_reply(fs: Seq<FieldView>) -> Result<StatusView, PaperClientError> {
    if fs.len() == 0 {
        Err(PaperClientError::InvalidResponse)
    } else if fs[0] == FieldView::Bool(false) {
        Err(refusal(fs))
    } else if !opens_with_success(fs) || !status_well_kinded(fs) || fs.len() < status_len(
        status_count(fs),
    ) {
        Err(PaperClientError::InvalidResponse)
    } else {
        Ok(status_of_fields(fs))
    }
}

fn status_kind_exec(i: u64, count: u64) -> (k: FieldKind)
    requires
        count <= u32::MAX,
    ensures
        k == status_kind(i as int, count as int),
{
    if i == 0 {
        FieldKind::Bool
    } else if i == 1 {
        FieldKind::U32
    } else if i <= 9 {
        FieldKind::U64
    } else if i == 10 {
        FieldKind::F64
    } else if i == 11 {
        FieldKind::U32
    } else if i <= 12 + count {
        FieldKind::Policy
    } else if i == 13 + count {
        FieldKind::Bool
    } else {
        FieldKind::U64
    }
}

/// The number of policies the fields announce, and whether the reply so far
/// opens with success and has every field of the kind its position calls for.
fn status_scan(fields: &Vec<Field>) -> (r: (u64, bool))
    ensures
        r.0 == status_count(fields_view(fields@)),
        r.1 == (opens_with_success(fields_view(fields@)) && status_well_kinded(
            fields_view(fields@),
        )),
{
    let ghost fs = fields_view(fields@);
    let n: usize = fields.len();
    let count: u64 = if n >= 12 {
        match &fields[11] {
            Field::U32(c) => *c as u64,
            _ => 0,
        }
    } else {
        0
    };
    let ok: bool = n > 0 && match &fields[0] {
        Field::Bool(b) => *b,
        _ => false,
    };
    if !ok {
        return (count, false);
    }
    let mut i: usize = 0;
    while i < n && (i as u64) < 15 + count
        invariant
            n == fields@.len(),
            fs == fields_view(fields@),
            count == status_count(fs),
            count <= u32::MAX,
            0 <= i <= n,
            forall|j: int| 0 <= j < i && j < status_len(count as int) ==> kind_of(#[trigger] fs[j])
                == status_kind(j, count as int),
        decreases n - i,
    {
        if kind(&fields[i]) != status_kind_exec(i as u64, count) {
            assert(kind_of(fs[i as int]) != status_kind(i as int, count as int));
            return (count, false);
        }
        i = i + 1;
    }
    (count, true)
}

impl Status {
    /// A status from the values its reply carries.
    pub fn new(
        pid: u32,
        max_size: u64,
        used_size: u64,
        num_objects: u64,
        rss: u64,
        hwm: u64,
        total_gets: u64,
        total_sets: u64,
        total_dels: u64,
        miss_ratio: u64,
        policies: Vec<PaperPolicy>,
        policy: PaperPolicy,
        is_auto_policy: bool,
        uptime: u64,
    ) -> (s: Status)
        ensures
            s@ == (StatusView {
                pid,
                max_size,
                used_size,
                num_objects,
                rss,
                hwm,
                total_gets,
                total_sets,
                total_dels,
                miss_ratio,
                policies: policies@.map_values(|p: PaperPolicy| p@),
                policy: policy@,
                is_auto_policy,
                uptime,
            }),
    {
        Status {
            pid,
            max_size,
            used_size,
            num_objects,
            rss,
            hwm,
            total_gets,
            total_sets,
            total_dels,
            miss_ratio,
            policies,
            policy,
            is_auto_policy,
            uptime,
        }
    }
    /// The server's process id.
    pub fn pid(&self) -> (r: u32)
        ensures
            r == self@.pid,
    {
        self.pid
    }

    /// The cache's capacity, in bytes.
    pub fn max_size(&self) -> (r: u64)
        ensures
            r == self@.max_size,
    {
        self.max_size
    }

    /// The bytes in use.
    pub fn used_size(&self) -> (r: u64)
        ensures
            r == self@.used_size,
    {
        self.used_size
    }

    /// The number of objects held.
    pub fn num_objects(&self) -> (r: u64)
        ensures
            r == self@.num_objects,
    {
        self.num_objects
    }

    /// The server's resident set size.
    pub fn rss(&self) -> (r: u64)
        ensures
            r == self@.rss,
    {
        self.rss
    }

    /// The server's high-water mark of memory.
    pub fn hwm(&self) -> (r: u64)
        ensures
            r == self@.hwm,
    {
        self.hwm
    }

    /// The number of gets served.
    pub fn total_gets(&self) -> (r: u64)
        ensures
            r == self@.total_gets,
    {
        self.total_gets
    }

    /// The number of sets served.
    pub fn total_sets(&self) -> (r: u64)
        ensures
            r == self@.total_sets,
    {
        self.total_sets
    }

    /// The number of deletions served.
    pub fn total_dels(&self) -> (r: u64)
        ensures
            r == self@.total_dels,
    {
        self.total_dels
    }

    /// The miss ratio, as the bit pattern of its `f64`.
    pub fn miss_ratio(&self) -> (r: u64)
        ensures
            r == self@.miss_ratio,
    {
        self.miss_ratio
    }

    /// Whether the current policy was chosen automatically.
    pub fn is_auto_policy(&self) -> (r: bool)
        ensures
            r == self@.is_auto_policy,
    {
        self.is_auto_policy
    }

    /// The server's uptime.
    pub fn uptime(&self) -> (r: u64)
        ensures
            r == self@.uptime,
    {
        self.uptime
    }

    /// The policies the server offers.
    pub fn policies(&self) -> (r: &Vec<PaperPolicy>)
        ensures
            r@.map_values(|p: PaperPolicy| p@) == self@.policies,
    {
        &self.policies
    }

    /// The policy in use.
    pub fn policy(&self) -> (r: &PaperPolicy)
        ensures
            r@ == self@.policy,
    {
        &self.policy
    }
}

impl<'a> Command<'a> {
    /// The field still to be read of a status reply (see [`status_next`]).
    pub fn status_reply_next(&self, fields: &Vec<Field>) -> (k: Option<FieldKind>)
        ensures
            k == status_next(fields_view(fields@)),
    {
        if fields.len() == 0 {
            return Some(FieldKind::Bool);
        }
        if fields.len() == 1 {
            match &fields[0] {
                Field::Bool(false) => {
                    return Some(FieldKind::ServerError);
                },
                _ => {},
            }
        }
        let (count, ok) = status_scan(fields);
        if !ok {
            return None;
        }
        if (fields.len() as u64) < 15 + count {
            Some(status_kind_exec(fields.len() as u64, count))
        } else {
            None
        }
    }

    /// The outcome of a status reply (see [`status_reply`]).
    pub fn status_reply_result(&self, fields: &Vec<Field>) -> (r: Result<Status, PaperClientError>)
        ensures
            result_view(r) == status_reply(fields_view(fields@)),
    {
        let ghost fs = fields_view(fields@);
        if fields.len() == 0 {
            return Err(PaperClientError::InvalidResponse);
        }
        match &fields[0] {
            Field::Bool(false) => {
                return Err(refusal_exec(fields));
            },
            _ => {},
        }
        let (count, ok) = status_scan(fields);
        if !ok || (fields.len() as u64) < 15 + count {
            return Err(PaperClientError::InvalidResponse);
        }
        let c: usize = count as usize;
        assert forall|j: int| 0 <= j < status_len(count as int) implies kind_of(#[trigger] fs[j])
            == status_kind(j, count as int) by {}
        let n: usize = fields.len();
        let mut policies: Vec<PaperPolicy> = Vec::new();
        let mut j: usize = 0;
        while j < c
            invariant
                n == fields@.len(),
                fs == fields_view(fields@),
                c == count,
                count == status_count(fs),
                12 + c + 3 <= fields@.len(),
                forall|k: int| 0 <= k < status_len(count as int) ==> kind_of(#[trigger] fs[k])
                    == status_kind(k, count as int),
                0 <= j <= c,
                policies@.len() == j,
                forall|k: int|
                    0 <= k < j ==> (#[trigger] policies@[k])@ == fs[12 + k]->Policy_0,
            decreases c - j,
        {
            assert(kind_of(fs[12 + j]) == FieldKind::Policy);
            match &fields[12 + j] {
                Field::Policy(p) => {
                    policies.push(p.copy());
                },
                _ => {
                    assert(false);
                    return Err(PaperClientError::InvalidResponse);
                },
            }
            j = j + 1;
        }
        assert(kind_of(fs[1]) == FieldKind::U32);
        assert(kind_of(fs[2]) == FieldKind::U64);
        assert(kind_of(fs[3]) == FieldKind::U64);
        assert(kind_of(fs[4]) == FieldKind::U64);
        assert(kind_of(fs[5]) == FieldKind::U64);
        assert(kind_of(fs[6]) == FieldKind::U64);
        assert(kind_of(fs[7]) == FieldKind::U64);
        assert(kind_of(fs[8]) == FieldKind::U64);
        assert(kind_of(fs[9]) == FieldKind::U64);
        assert(kind_of(fs[10]) == FieldKind::F64);
        assert(kind_of(fs[12 + c]) == FieldKind::Policy);
        assert(kind_of(fs[13 + c]) == FieldKind::Bool);
        assert(kind_of(fs[14 + c]) == FieldKind::U64);
        match (
            &fields[1],
            &fields[2],
            &fields[3],
            &fields[4],
            &fields[5],
            &fields[6],
            &fields[7],
            &fields[8],
            &fields[9],
            &fields[10],
        ) {
            (
                Field::U32(pid),
                Field::U64(max_size),
                Field::U64(used_size),
                Field::U64(num_objects),
                Field::U64(rss),
                Field::U64(hwm),
                Field::U64(total_gets),
                Field::U64(total_sets),
                Field::U64(total_dels),
                Field::F64(miss_ratio),
            ) => match (&fields[12 + c], &fields[13 + c], &fields[14 + c]) {
                (Field::Policy(policy), Field::Bool(is_auto_policy), Field::U64(uptime)) => {
                    let s = Status::new(
                        *pid,
                        *max_size,
                        *used_size,
                        *num_objects,
                        *rss,
                        *hwm,
                        *total_gets,
                        *total_sets,
                        *total_dels,
                        *miss_ratio,
                        policies,
                        policy.copy(),
                        *is_auto_policy,
                        *uptime,
                    );
                    assert(s@.policies =~= status_of_fields(fs).policies);
                    Ok(s)
                },
                _ => {
                    assert(false);
                    Err(PaperClientError::InvalidResponse)
                },
            },
            _ => {
                assert(false);
                Err(PaperClientError::InvalidResponse)
            },
        }
    }
}

/// The fields a server sends for a status: the success flag, then each value
/// in the order the reply lists them.
pub open spec fn status_fields(s: StatusView) -> Seq<FieldView> {
    seq![
        FieldView::Bool(true),
        FieldView::U32(s.pid),
        FieldView::U64(s.max_size),
        FieldView::U64(s.used_size),
        FieldView::U64(s.num_objects),
        FieldView::U64(s.rss),
        FieldView::U64(s.hwm),
        FieldView::U64(s.total_gets),
        FieldView::U64(s.total_sets),
        FieldView::U64(s.total_dels),
        FieldView::F64(s.miss_ratio),
        FieldView::U32(s.policies.len() as u32),
    ] + s.policies.map_values(|p: PolicyView| FieldView::Policy(p)) + seq![
        FieldView::Policy(s.policy),
        FieldView::Bool(s.is_auto_policy),
        FieldView::U64(s.uptime),
    ]
}

/// Reading a status gives back the status that was sent: at every point the
/// reader asks for exactly the next field the server sent, it stops after the
/// last one, and the outcome is that status.
pub proof fn lemma_status_reply_round_trip(s: StatusView)
    requires
        s.policies.len() <= u32::MAX,
    ensures
        forall|k: int|
            0 <= k < status_fields(s).len() ==> status_next(#[trigger] status_fields(s).take(k))
                == Some(kind_of(status_fields(s)[k])),
        status_next(status_fields(s)) is None,
        status_reply(status_fields(s)) == Ok::<StatusView, PaperClientError>(s),
{
    let f = status_fields(s);
    let n = s.policies.len() as int;
    assert(f.len() == 15 + n);
    assert forall|i: int| 0 <= i < f.len() implies kind_of(#[trigger] f[i]) == status_kind(i, n) by {
        if 12 <= i < 12 + n {
            assert(f[i] == FieldView::Policy(s.policies[i - 12]));
        }
    }
    assert(status_count(f) == n);
    assert forall|k: int| 0 <= k < f.len() implies status_next(#[trigger] f.take(k)) == Some(
        kind_of(f[k]),
    ) by {
        let t = f.take(k);
        if k > 0 {
            assert(t[0] == f[0]);
            if k >= 12 {
                assert(t[11] == f[11]);
                assert(status_count(t) == n);
            } else {
                assert(status_count(t) == 0);
            }
            assert forall|i: int|
                0 <= i < t.len() && i < status_len(status_count(t)) implies kind_of(#[trigger] t[i])
                == status_kind(i, status_count(t)) by {
                assert(t[i] == f[i]);
            }
        }
    }
    let sv = status_of_fields(f);
    assert(sv.policies =~= s.policies);
}

/// A status reply that opens with the failure indicator goes on with the
/// server's error; nothing more is read after it, and the reply's outcome is
/// that error.
pub proof fn lemma_status_refusal(e: PaperClientError)
    ensures
        status_next(seq![FieldView::Bool(false)]) == Some(FieldKind::ServerError),
        status_next(seq![FieldView::Bool(false), FieldView::ServerError(e)]) is None,
        status_reply(seq![FieldView::Bool(false), FieldView::ServerError(e)]) == Err::<
            StatusView,
            PaperClientError,
        >(e),
{
}

} // verus!
