use vstd::prelude::*;
use crate::command::Command;
use crate::policy::{PaperPolicy, PolicyView};
use crate::value::PaperValue;

verus! {

/// Errors of the client.
#[derive(PartialEq, Eq, Structural, Clone, Copy, Debug)]
pub enum PaperClientError {
    /// The server's answer does not have the shape the request calls for.
    InvalidResponse,
    /// The server refused the request: the error it sent after its failure indicator.
    Refused,
}

/// The result of a request.
pub type PaperClientResult<T> = Result<T, PaperClientError>;

/// The kinds of field a reply is made of, as `paper_utils`'s stream reader
/// reads them: a flag (`read_bool`), integers (`read_u32`, `read_u64`), a
/// float (`read_f64`), a length-prefixed buffer (`read_buf`), a policy
/// (`read_string`, then the policy's text read as a policy), and the error
/// the server sends after its failure indicator (read by the error reader).
#[derive(PartialEq, Eq, Structural, Clone, Copy, Debug)]
pub enum FieldKind {
    Bool,
    U32,
    U64,
    F64,
    Buf,
    Policy,
    ServerError,
}

/// A field read from a reply. A float is held as the bit pattern of the `f64`.
pub enum Field {
    Bool(bool),
    U32(u32),
    U64(u64),
    F64(u64),
    Buf(PaperValue),
    Policy(PaperPolicy),
    ServerError(PaperClientError),
}

/// What a [`Field`] holds.
pub enum FieldView {
    Bool(bool),
    U32(u32),
    U64(u64),
    F64(u64),
    Buf(Seq<u8>),
    Policy(PolicyView),
    ServerError(PaperClientError),
}

impl View for Field {
    type V = FieldView;

    open spec fn view(&self) -> FieldView {
        match self {
            Field::Bool(b) => FieldView::Bool(*b),
            Field::U32(v) => FieldView::U32(*v),
            Field::U64(v) => FieldView::U64(*v),
            Field::F64(v) => FieldView::F64(*v),
            Field::Buf(v) => FieldView::Buf(v@),
            Field::Policy(p) => FieldView::Policy(p@),
            Field::ServerError(e) => FieldView::ServerError(*e),
        }
    }
}

/// The kind of a field.
pub open spec fn kind_of(f: FieldView) -> FieldKind {
    match f {
        FieldView::Bool(_) => FieldKind::Bool,
        FieldView::U32(_) => FieldKind::U32,
        FieldView::U64(_) => FieldKind::U64,
        FieldView::F64(_) => FieldKind::F64,
        FieldView::Buf(_) => FieldKind::Buf,
        FieldView::Policy(_) => FieldKind::Policy,
        FieldView::ServerError(_) => FieldKind::ServerError,
    }
}

/// What a sequence of fields holds.
pub open spec fn fields_view(fields: Seq<Field>) -> Seq<FieldView> {
    fields.map_values(|f: Field| f@)
}

/// What a result holds.
pub open spec fn result_view<T: View>(r: Result<T, PaperClientError>) -> Result<
    T::V,
    PaperClientError,
> {
    match r {
        Ok(v) => Ok(v@),
        Err(e) => Err(e),
    }
}

/// Every reply opens with a flag; `true` is the server's success indicator.
pub open spec fn opens_with_success(fs: Seq<FieldView>) -> bool {
    fs.len() > 0 && fs[0] == FieldView::Bool(true)
}

/// The field still to be read of a reply that is a flag followed, on
/// success, by one field of kind `payload` (by nothing when `payload` is
/// `None`) and, on failure, by the server's error; `None` once nothing more
/// is to be read.
pub open spec fn flagged_next(fs: Seq<FieldView>, payload: Option<FieldKind>) -> Option<
    FieldKind,
> {
    if fs.len() == 0 {
        Some(FieldKind::Bool)
    } else if fs.len() == 1 && opens_with_success(fs) {
        payload
    } else if fs.len() == 1 && fs[0] == FieldView::Bool(false) {
        Some(FieldKind::ServerError)
    } else {
        None
    }
}

/// The outcome of a reply that opens with the failure indicator: the error
/// the server sent after it, or a malformed reply when that error is missing.
pub open spec fn refusal(fs: Seq<FieldView>) -> PaperClientError {
    if fs.len() >= 2 && fs[1] is ServerError {
        fs[1]->ServerError_0
    } else {
        PaperClientError::InvalidResponse
    }
}

/// How a reply's fields end: the server's error when its flag is the failure
/// indicator, a malformed reply when a field is missing or of the wrong kind,
/// and otherwise success, with the payload at position 1.
pub open spec fn flagged_outcome(fs: Seq<FieldView>, payload: Option<FieldKind>) -> Result<
    (),
    PaperClientError,
> {
    if fs.len() == 0 {
        Err(PaperClientError::InvalidResponse)
    } else if fs[0] == FieldView::Bool(false) {
        Err(refusal(fs))
    } else if fs[0] != FieldView::Bool(true) {
        Err(PaperClientError::InvalidResponse)
    } else {
        match payload {
            None => Ok(()),
            Some(k) => if fs.len() >= 2 && kind_of(fs[1]) == k {
                Ok(())
            } else {
                Err(PaperClientError::InvalidResponse)
            },
        }
    }
}

/// The outcome of a reply that carries a buffer.
pub open spec fn buf_reply(fs: Seq<FieldView>) -> Result<Seq<u8>, PaperClientError> {
    match flagged_outcome(fs, Some(FieldKind::Buf)) {
        Err(e) => Err(e),
        Ok(_) => Ok(fs[1]->Buf_0),
    }
}

/// The outcome of a reply that carries a flag.
pub open spec fn has_reply(fs: Seq<FieldView>) -> Result<bool, PaperClientError> {
    match flagged_outcome(fs, Some(FieldKind::Bool)) {
        Err(e) => Err(e),
        Ok(_) => Ok(fs[1]->Bool_0),
    }
}

/// The outcome of a reply that carries a `u32`.
pub open spec fn size_reply(fs: Seq<FieldView>) -> Result<u32, PaperClientError> {
    match flagged_outcome(fs, Some(FieldKind::U32)) {
        Err(e) => Err(e),
        Ok(_) => Ok(fs[1]->U32_0),
    }
}

pub(crate) fn kind(f: &Field) -> (k: FieldKind)
    ensures
        k == kind_of(f@),
{
    match f {
        Field::Bool(_) => FieldKind::Bool,
        Field::U32(_) => FieldKind::U32,
        Field::U64(_) => FieldKind::U64,
        Field::F64(_) => FieldKind::F64,
        Field::Buf(_) => FieldKind::Buf,
        Field::Policy(_) => FieldKind::Policy,
        Field::ServerError(_) => FieldKind::ServerError,
    }
}

fn is_flag(f: &Field, b: bool) -> (r: bool)
    ensures
        r == (f@ == FieldView::Bool(b)),
{
    match f {
        Field::Bool(x) => *x == b,
        _ => false,
    }
}

fn flagged_next_exec(fields: &Vec<Field>, payload: Option<FieldKind>) -> (k: Option<FieldKind>)
    ensures
        k == flagged_next(fields_view(fields@), payload),
{
    if fields.len() == 0 {
        Some(FieldKind::Bool)
    } else if fields.len() == 1 && is_flag(&fields[0], true) {
        payload
    } else if fields.len() == 1 && is_flag(&fields[0], false) {
        Some(FieldKind::ServerError)
    } else {
        None
    }
}

/// The error a reply that opens with the failure indicator ends with.
pub(crate) fn refusal_exec(fields: &Vec<Field>) -> (e: PaperClientError)
    ensures
        e == refusal(fields_view(fields@)),
{
    if fields.len() >= 2 {
        match &fields[1] {
            Field::ServerError(e) => *e,
            _ => PaperClientError::InvalidResponse,
        }
    } else {
        PaperClientError::InvalidResponse
    }
}

fn flagged_outcome_exec(fields: &Vec<Field>, payload: Option<FieldKind>) -> (r: Result<
    (),
    PaperClientError,
>)
    ensures
        r == flagged_outcome(fields_view(fields@), payload),
{
    if fields.len() == 0 {
        Err(PaperClientError::InvalidResponse)
    } else if is_flag(&fields[0], false) {
        Err(refusal_exec(fields))
    } else if !is_flag(&fields[0], true) {
        Err(PaperClientError::InvalidResponse)
    } else {
        match payload {
            None => Ok(()),
            Some(k) => if fields.len() >= 2 && kind(&fields[1]) == k {
                Ok(())
            } else {
                Err(PaperClientError::InvalidResponse)
            },
        }
    }
}

impl<'a> Command<'a> {
    /// The field still to be read of a reply that is only the success flag.
    pub fn reply_next(&self, fields: &Vec<Field>) -> (k: Option<FieldKind>)
        ensures
            k == flagged_next(fields_view(fields@), None),
    {
        flagged_next_exec(fields, None)
    }

    /// The outcome of a reply that is only the success flag.
    pub fn reply_result(&self, fields: &Vec<Field>) -> (r: Result<(), PaperClientError>)
        ensures
            r == flagged_outcome(fields_view(fields@), None),
    {
        flagged_outcome_exec(fields, None)
    }

    /// The field still to be read of a reply that carries a buffer.
    pub fn buf_reply_next(&self, fields: &Vec<Field>) -> (k: Option<FieldKind>)
        ensures
            k == flagged_next(fields_view(fields@), Some(FieldKind::Buf)),
    {
        flagged_next_exec(fields, Some(FieldKind::Buf))
    }

    /// The outcome of a reply that carries a buffer: the buffer as a value.
    pub fn buf_reply_result(&self, fields: Vec<Field>) -> (r: Result<PaperValue, PaperClientError>)
        ensures
            result_view(r) == buf_reply(fields_view(fields@)),
    {
        match flagged_outcome_exec(&fields, Some(FieldKind::Buf)) {
            Err(e) => Err(e),
            Ok(_) => {
                let mut fields = fields;
                let ghost fs = fields@;
                let f = fields.swap_remove(1);
                assert(f == fs[1]);
                match f {
                    Field::Buf(v) => Ok(v),
                    _ => Err(PaperClientError::InvalidResponse),
                }
            },
        }
    }

    /// The field still to be read of a reply that carries a flag.
    pub fn has_reply_next(&self, fields: &Vec<Field>) -> (k: Option<FieldKind>)
        ensures
            k == flagged_next(fields_view(fields@), Some(FieldKind::Bool)),
    {
        flagged_next_exec(fields, Some(FieldKind::Bool))
    }

    /// The outcome of a reply that carries a flag: that flag.
    pub fn has_reply_result(&self, fields: &Vec<Field>) -> (r: Result<bool, PaperClientError>)
        ensures
            r == has_reply(fields_view(fields@)),
    {
        match flagged_outcome_exec(fields, Some(FieldKind::Bool)) {
            Err(e) => Err(e),
            Ok(_) => match &fields[1] {
                Field::Bool(b) => Ok(*b),
                _ => Err(PaperClientError::InvalidResponse),
            },
        }
    }

    /// The field still to be read of a reply that carries a `u32`.
    pub fn size_reply_next(&self, fields: &Vec<Field>) -> (k: Option<FieldKind>)
        ensures
            k == flagged_next(fields_view(fields@), Some(FieldKind::U32)),
    {
        flagged_next_exec(fields, Some(FieldKind::U32))
    }

    /// The outcome of a reply that carries a `u32`: that number.
    pub fn size_reply_result(&self, fields: &Vec<Field>) -> (r: Result<u32, PaperClientError>)
        ensures
            r == size_reply(fields_view(fields@)),
    {
        match flagged_outcome_exec(fields, Some(FieldKind::U32)) {
            Err(e) => Err(e),
            Ok(_) => match &fields[1] {
                Field::U32(v) => Ok(*v),
                _ => Err(PaperClientError::InvalidResponse),
            },
        }
    }
}

/// A reply that opens with the failure indicator goes on with the server's
/// error, whatever its payload would have been; nothing more is read after
/// that error, and the reply's outcome is that error.
pub proof fn lemma_flagged_refusal(e: PaperClientError, payload: Option<FieldKind>)
    ensures
        flagged_next(seq![FieldView::Bool(false)], payload) == Some(FieldKind::ServerError),
        flagged_next(seq![FieldView::Bool(false), FieldView::ServerError(e)], payload) is None,
        flagged_outcome(seq![FieldView::Bool(false), FieldView::ServerError(e)], payload) == Err::<
            (),
            PaperClientError,
        >(e),
        buf_reply(seq![FieldView::Bool(false), FieldView::ServerError(e)]) == Err::<
            Seq<u8>,
            PaperClientError,
        >(e),
        has_reply(seq![FieldView::Bool(false), FieldView::ServerError(e)]) == Err::<
            bool,
            PaperClientError,
        >(e),
        size_reply(seq![FieldView::Bool(false), FieldView::ServerError(e)]) == Err::<
            u32,
            PaperClientError,
        >(e),
{
}

/// A successful reply is read as the success flag, then its payload field
/// (if it has one), and then nothing more; its outcome is that payload.
pub proof fn lemma_flagged_reply_round_trip(payload: FieldView)
    ensures
        flagged_next(Seq::empty(), Some(kind_of(payload))) == Some(FieldKind::Bool),
        flagged_next(seq![FieldView::Bool(true)], Some(kind_of(payload))) == Some(
            kind_of(payload),
        ),
        flagged_next(seq![FieldView::Bool(true), payload], Some(kind_of(payload))) is None,
        flagged_next(seq![FieldView::Bool(true)], None) is None,
        flagged_outcome(seq![FieldView::Bool(true)], None) == Ok::<(), PaperClientError>(()),
        payload is Buf ==> buf_reply(seq![FieldView::Bool(true), payload]) == Ok::<
            Seq<u8>,
            PaperClientError,
        >(payload->Buf_0),
        payload is Bool ==> has_reply(seq![FieldView::Bool(true), payload]) == Ok::<
            bool,
            PaperClientError,
        >(payload->Bool_0),
        payload is U32 ==> size_reply(seq![FieldView::Bool(true), payload]) == Ok::<
            u32,
            PaperClientError,
        >(payload->U32_0),
{
}

} // verus!
