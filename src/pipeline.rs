use crate::event::{
    plans, text_or_empty, ErrorKind, NotificationEvent, ObjectLocation, PipelineError, Plan,
};
use crate::text::{
    count_words_in_bytes, lemma_word_count_counts_runs, lossy_utf8, word_count, word_starts,
};
use vstd::prelude::*;
use vstd::utf8::{decode_utf8, valid_utf8};

verus! {

/// Why the storage service could not deliver an object.
#[derive(Clone, Debug)]
pub struct FetchError {
    pub message: String,
}

/// The report on one processed object.
#[derive(Clone, Debug)]
pub struct ResultRecord {
    pub file_name: String,
    pub word_count: usize,
}

/// The words counted in an object's content.
pub open spec fn content_word_count(content: Seq<u8>) -> nat {
    word_count(lossy_utf8(content))
}

/// What finishing an invocation gives for the object at `loc`, once the
/// storage service has answered with `fetched`: any fetch error fails the
/// invocation with its message; fetched bytes are reported under the
/// object's key.
pub open spec fn completes_with(
    loc: ObjectLocation,
    fetched: Result<Vec<u8>, FetchError>,
    r: Result<ResultRecord, PipelineError>,
) -> bool {
    match fetched {
        Ok(content) => {
            &&& r is Ok
            &&& r->Ok_0.file_name@ == loc.key@
            &&& r->Ok_0.word_count == content_word_count(content@)
            &&& valid_utf8(content@) ==> r->Ok_0.word_count == word_count(decode_utf8(content@))
        },
        Err(e) => {
            &&& r is Err
            &&& r->Err_0.kind == ErrorKind::FetchFailed
            &&& r->Err_0.message@ == e.message@
        },
    }
}

/// Finishes an invocation from the storage service's answer for `loc`.
pub fn complete(loc: ObjectLocation, fetched: Result<Vec<u8>, FetchError>) -> (r: Result<
    ResultRecord,
    PipelineError,
>)
    ensures
        completes_with(loc, fetched, r),
{
    match fetched {
        Ok(content) => {
            let count = count_words_in_bytes(content.as_slice());
            Ok(ResultRecord { file_name: loc.key, word_count: count })
        },
        Err(e) => Err(PipelineError { kind: ErrorKind::FetchFailed, message: e.message }),
    }
}

/// Finishing twice for the same key with the same content gives the same
/// report.
pub proof fn lemma_complete_idempotent(
    loc1: ObjectLocation,
    loc2: ObjectLocation,
    content1: Vec<u8>,
    content2: Vec<u8>,
    r1: Result<ResultRecord, PipelineError>,
    r2: Result<ResultRecord, PipelineError>,
)
    requires
        loc1.key@ == loc2.key@,
        content1@ == content2@,
        completes_with(loc1, Ok(content1), r1),
        completes_with(loc2, Ok(content2), r2),
    ensures
        r1 is Ok,
        r2 is Ok,
        r1->Ok_0.file_name@ == r2->Ok_0.file_name@,
        r1->Ok_0.word_count == r2->Ok_0.word_count,
{
}

/// For an event with one record, the invocation fetches that record's object
/// and reports, under its key, the number of maximal non-whitespace runs in
/// the fetched content.
pub proof fn lemma_single_record_reports_runs(
    event: NotificationEvent,
    plan: Plan,
    content: Vec<u8>,
    r: Result<ResultRecord, PipelineError>,
)
    requires
        event.records.len() == 1,
        plans(event, plan),
        plan is Fetch ==> completes_with(plan->Fetch_0, Ok(content), r),
    ensures
        plan is Fetch,
        r is Ok,
        r->Ok_0.file_name@ == text_or_empty(event.records[0].object_key),
        r->Ok_0.word_count == word_starts(lossy_utf8(content@)).len(),
{
    lemma_word_count_counts_runs(lossy_utf8(content@));
}

} // verus!
