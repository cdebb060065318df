use vstd::prelude::*;
use crate::decision::Decision;
use crate::phase::Event;

verus! {

/// A failure confined to one file, with the key of that file.
pub struct FileError {
    pub key: String,
    pub cause: String,
}

/// What became of one file in the upload pass.
pub enum FileOutcome {
    Skipped(Decision),
    Uploaded,
    Failed(FileError),
}

/// The errors among `outcomes`, in order.
pub open spec fn failures_of(outcomes: Seq<FileOutcome>) -> Seq<FileError>
    decreases outcomes.len(),
{
    if outcomes.len() == 0 {
        Seq::empty()
    } else {
        let prev = failures_of(outcomes.drop_last());
        match outcomes.last() {
            FileOutcome::Failed(e) => prev.push(e),
            _ => prev,
        }
    }
}

/// The report line of one failure.
pub open spec fn failure_line(e: FileError) -> Seq<char> {
    "- "@ + e.key@ + ": "@ + e.cause@ + "\n"@
}

/// The report of `errors`: one line each, in order.
pub open spec fn failure_report(errors: Seq<FileError>) -> Seq<char>
    decreases errors.len(),
{
    if errors.len() == 0 {
        Seq::empty()
    } else {
        failure_report(errors.drop_last()) + failure_line(errors.last())
    }
}

impl FileError {
    pub fn new(key: String, cause: String) -> (r: FileError)
        ensures
            r.key == key,
            r.cause == cause,
    {
        FileError { key, cause }
    }

    pub fn duplicate(&self) -> (r: FileError)
        ensures
            r == *self,
    {
        FileError { key: self.key.clone(), cause: self.cause.clone() }
    }
}

/// The failures of an upload pass, in the order of its outcomes. Every
/// outcome is looked at: one failure does not hide the next.
pub fn collect_failures(outcomes: &Vec<FileOutcome>) -> (r: Vec<FileError>)
    ensures
        r@ == failures_of(outcomes@),
{
    let mut r: Vec<FileError> = Vec::new();
    let n = outcomes.len();
    let mut i: usize = 0;
    while i < n
        invariant
            n == outcomes@.len(),
            i <= n,
            r@ == failures_of(outcomes@.take(i as int)),
        decreases n - i,
    {
        assert(outcomes@.take(i + 1).drop_last() =~= outcomes@.take(i as int));
        match &outcomes[i] {
            FileOutcome::Failed(e) => r.push(e.duplicate()),
            _ => {},
        }
        i = i + 1;
    }
    assert(outcomes@.take(n as int) =~= outcomes@);
    r
}

/// The result of an upload pass: success when no file failed, otherwise
/// every failure.
pub fn pass_result(outcomes: &Vec<FileOutcome>) -> (r: Result<(), Vec<FileError>>)
    ensures
        r is Ok <==> failures_of(outcomes@).len() == 0,
        r matches Err(errors) ==> errors@ == failures_of(outcomes@),
{
    let failures = collect_failures(outcomes);
    if failures.len() == 0 {
        Ok(())
    } else {
        Err(failures)
    }
}

/// The event that ends an upload pass with these failures.
pub fn pass_event(failures: &Vec<FileError>) -> (r: Event)
    ensures
        r == (Event::UploadsFinished { failures: failures@.len() as usize }),
{
    Event::UploadsFinished { failures: failures.len() }
}

/// A multi-line report of `errors`, one `- key: cause` line each.
pub fn render_failures(errors: &Vec<FileError>) -> (r: String)
    ensures
        r@ == failure_report(errors@),
{
    let mut out = String::new();
    let n = errors.len();
    let mut i: usize = 0;
    while i < n
        invariant
            n == errors@.len(),
            i <= n,
            out@ == failure_report(errors@.take(i as int)),
        decreases n - i,
    {
        assert(errors@.take(i + 1).drop_last() =~= errors@.take(i as int));
        let e = &errors[i];
        out.append("- ");
        out.append(e.key.as_str());
        out.append(": ");
        out.append(e.cause.as_str());
        out.append("\n");
        assert(out@ =~= failure_report(errors@.take(i as int)) + failure_line(*e));
        i = i + 1;
    }
    assert(errors@.take(n as int) =~= errors@);
    out
}

} // verus!
