use vstd::prelude::*;
use crate::content_type::{content_type_for, guessed_content_type, html_content_type, UNKNOWN_CONTENT_TYPE};
use crate::decision::{decide, decide_entry, decision_of, entry_decision_of, Decision};
use crate::key::ENTRY_DOCUMENT;
use crate::report::FileError;
use crate::snapshot::Snapshot;
use crate::timestamp::Timestamp;

verus! {

/// Most uploads in flight at once during the upload pass.
pub const UPLOAD_CONCURRENCY: usize = 20;

/// An object to send: the key it goes under and its content type.
pub struct UploadRequest {
    pub key: String,
    pub content_type: String,
}

/// What the upload pass does with the file under `key`, modified at
/// `local_modified`: nothing (`Ok(None)`), send it (`Ok(Some(..))`), or
/// fail this file when it must be sent and has no known content type.
pub fn plan_file(key: &str, snapshot: &Snapshot, local_modified: Timestamp) -> (r: Result<
    Option<UploadRequest>,
    FileError,
>)
    requires
        snapshot.wf(),
    ensures
        decision_of(key@, snapshot@, local_modified) != Decision::Upload ==> r matches Ok(None),
        decision_of(key@, snapshot@, local_modified) == Decision::Upload ==> match guessed_content_type(
            key@,
        ) {
            Some(t) => r matches Ok(Some(req)) && req.key@ == key@ && req.content_type@ == t,
            None => r matches Err(e) && e.key@ == key@ && e.cause@ == UNKNOWN_CONTENT_TYPE@,
        },
{
    if decide(key, snapshot, local_modified) != Decision::Upload {
        return Ok(None);
    }
    match content_type_for(key) {
        Ok(content_type) => Ok(Some(UploadRequest { key: String::from_str(key), content_type })),
        Err(e) => Err(e),
    }
}

/// Whether the entry document, modified at `local_modified`, is sent, and
/// how: under its own key, as HTML.
pub fn plan_entry(snapshot: &Snapshot, local_modified: Timestamp) -> (r: Option<UploadRequest>)
    requires
        snapshot.wf(),
    ensures
        r is None <==> entry_decision_of(snapshot@, local_modified) == Decision::SkipUpToDate,
        r matches Some(req) ==> req.key@ == ENTRY_DOCUMENT@ && req.content_type@ == "text/html"@,
{
    if decide_entry(snapshot, local_modified) == Decision::SkipUpToDate {
        return None;
    }
    Some(UploadRequest { key: String::from_str(ENTRY_DOCUMENT), content_type: html_content_type() })
}

} // verus!
