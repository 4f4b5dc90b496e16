use aws_lambda_events::event::s3::S3Event;
use vstd::prelude::*;

verus! {

/// The kinds of failure of one invocation.
#[derive(Clone, Copy, Debug, PartialEq, Eq, Structural)]
pub enum ErrorKind {
    /// The payload is not a storage notification event.
    MalformedEvent,
    /// The storage service did not deliver the object's bytes.
    FetchFailed,
}

/// A failed invocation: its kind, and the message of the failure beneath it.
#[derive(Clone, Debug)]
pub struct PipelineError {
    pub kind: ErrorKind,
    pub message: String,
}

/// One object-creation notification, as delivered: either coordinate may be
/// absent.
#[derive(Clone, Debug)]
pub struct ObjectRecord {
    pub bucket_name: Option<String>,
    pub object_key: Option<String>,
}

/// The records of one notification event, in delivery order.
#[derive(Clone, Debug)]
pub struct NotificationEvent {
    pub records: Vec<ObjectRecord>,
}

/// Where an object is stored.
#[derive(Clone, Debug)]
pub struct ObjectLocation {
    pub bucket: String,
    pub key: String,
}

/// What an invocation does after its event has been read.
#[derive(Clone, Debug)]
pub enum Plan {
    /// The event names no object: answer with an empty result.
    RespondEmpty,
    /// Fetch this one object and report on it.
    Fetch(ObjectLocation),
}

/// A field that may be absent, read leniently as text: absent is empty.
pub open spec fn text_or_empty(field: Option<String>) -> Seq<char> {
    match field {
        Some(s) => s@,
        None => Seq::empty(),
    }
}

/// The location that a record names, with absent fields read as empty.
pub open spec fn names_location(rec: ObjectRecord, loc: ObjectLocation) -> bool {
    &&& loc.bucket@ == text_or_empty(rec.bucket_name)
    &&& loc.key@ == text_or_empty(rec.object_key)
}

/// The plan for an event: nothing to fetch when it holds no record, else
/// the object of its first record and no other.
pub open spec fn plans(event: NotificationEvent, plan: Plan) -> bool {
    if event.records.len() == 0 {
        plan is RespondEmpty
    } else {
        &&& plan is Fetch
        &&& names_location(event.records[0], plan->Fetch_0)
    }
}

/// A field that may be absent, as its text when present.
pub open spec fn field_view(field: Option<String>) -> Option<Seq<char>> {
    match field {
        Some(s) => Some(s@),
        None => None,
    }
}

/// `records` holds, in order, the bucket names and object keys of `fields`.
pub open spec fn records_match(
    records: Seq<ObjectRecord>,
    fields: Seq<(Option<Seq<char>>, Option<Seq<char>>)>,
) -> bool {
    &&& records.len() == fields.len()
    &&& forall|i: int|
        0 <= i < records.len() ==> {
            &&& #[trigger] field_view(records[i].bucket_name) == fields[i].0
            &&& field_view(records[i].object_key) == fields[i].1
        }
}

/// The bucket name and object key of each record of the storage notification
/// event that the JSON text `text` holds; `None` where the text does not hold
/// one.
pub uninterp spec fn s3_records_of(text: Seq<char>) -> Option<
    Seq<(Option<Seq<char>>, Option<Seq<char>>)>,
>;

/// Relies on `serde_json::from_str` reading the text as an `aws_lambda_events`
/// `S3Event`: the outcome depends on the text alone, and each record keeps its
/// bucket name and object key as they were read.
#[verifier::external_body]
fn read_s3_event(raw: &str) -> (r: Result<Vec<ObjectRecord>, String>)
    ensures
        match s3_records_of(raw@) {
            Some(fields) => r is Ok && records_match(r->Ok_0@, fields),
            None => r is Err,
        },
{
    serde_json::from_str::<S3Event>(raw).map(
        |event|
            event.records.into_iter().map(
                |rec| ObjectRecord { bucket_name: rec.s3.bucket.name, object_key: rec.s3.object.key },
            ).collect(),
    ).map_err(|e| e.to_string())
}

/// Reads a payload, given as JSON text, as a notification event.
pub fn parse_event(raw: &str) -> (r: Result<NotificationEvent, PipelineError>)
    ensures
        match s3_records_of(raw@) {
            Some(fields) => r is Ok && records_match(r->Ok_0.records@, fields),
            None => r is Err && r->Err_0.kind == ErrorKind::MalformedEvent,
        },
{
    match read_s3_event(raw) {
        Ok(records) => Ok(NotificationEvent { records }),
        Err(message) => Err(PipelineError { kind: ErrorKind::MalformedEvent, message }),
    }
}

/// A field that may be absent, as text: absent is empty.
pub fn field_or_empty(field: &Option<String>) -> (r: String)
    ensures
        r@ == text_or_empty(*field),
{
    match field {
        Some(s) => s.clone(),
        None => String::new(),
    }
}

/// Decides what to do with an event: only its first record is looked at.
pub fn select_first(event: &NotificationEvent) -> (plan: Plan)
    ensures
        plans(*event, plan),
{
    if event.records.len() == 0 {
        Plan::RespondEmpty
    } else {
        let rec = &event.records[0];
        Plan::Fetch(
            ObjectLocation {
                bucket: field_or_empty(&rec.bucket_name),
                key: field_or_empty(&rec.object_key),
            },
        )
    }
}

} // verus!
