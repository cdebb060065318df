use vstd::prelude::*;

verus! {

/// Where a deploy run stands.
#[derive(Clone, Copy, Debug, PartialEq, Eq, Structural)]
pub enum Phase {
    /// Nothing done yet: the configuration is checked first.
    Start,
    /// Building the snapshot of the store.
    Listing,
    /// Sending every file but the entry document.
    Uploading,
    /// Sending the entry document.
    PublishingEntry,
    Done,
    Aborted,
}

/// What the driver of a run reports after the work of a phase.
#[derive(Clone, Copy, Debug, PartialEq, Eq, Structural)]
pub enum Event {
    ConfigChecked,
    ConfigMissing,
    ListingSucceeded,
    ListingFailed,
    /// The upload pass ended with this many failed files.
    UploadsFinished { failures: usize },
    EntryPublished,
    EntryFailed,
}

/// The phase that follows `p` on event `e`. Runs only move forward; an
/// event that does not belong to the phase aborts the run, and the two
/// terminal phases absorb every event.
pub open spec fn next_of(p: Phase, e: Event) -> Phase {
    match p {
        Phase::Start => if e == Event::ConfigChecked {
            Phase::Listing
        } else {
            Phase::Aborted
        },
        Phase::Listing => if e == Event::ListingSucceeded {
            Phase::Uploading
        } else {
            Phase::Aborted
        },
        Phase::Uploading => if e == (Event::UploadsFinished { failures: 0 }) {
            Phase::PublishingEntry
        } else {
            Phase::Aborted
        },
        Phase::PublishingEntry => if e == Event::EntryPublished {
            Phase::Done
        } else {
            Phase::Aborted
        },
        Phase::Done => Phase::Done,
        Phase::Aborted => Phase::Aborted,
    }
}

/// The phase reached from `p` through the events `evs`, in order.
pub open spec fn run_of(p: Phase, evs: Seq<Event>) -> Phase
    decreases evs.len(),
{
    if evs.len() == 0 {
        p
    } else {
        next_of(run_of(p, evs.drop_last()), evs.last())
    }
}

pub open spec fn is_terminal(p: Phase) -> bool {
    p == Phase::Done || p == Phase::Aborted
}

/// The phase that follows `phase` on `event`.
pub fn next_phase(phase: Phase, event: Event) -> (r: Phase)
    ensures
        r == next_of(phase, event),
{
    match phase {
        Phase::Start => if event == Event::ConfigChecked {
            Phase::Listing
        } else {
            Phase::Aborted
        },
        Phase::Listing => if event == Event::ListingSucceeded {
            Phase::Uploading
        } else {
            Phase::Aborted
        },
        Phase::Uploading => match event {
            Event::UploadsFinished { failures } => if failures == 0 {
                Phase::PublishingEntry
            } else {
                Phase::Aborted
            },
            _ => Phase::Aborted,
        },
        Phase::PublishingEntry => if event == Event::EntryPublished {
            Phase::Done
        } else {
            Phase::Aborted
        },
        Phase::Done => Phase::Done,
        Phase::Aborted => Phase::Aborted,
    }
}

/// Whether no event moves the run out of `phase`.
pub fn is_finished(phase: Phase) -> (r: bool)
    ensures
        r == is_terminal(phase),
        r ==> forall|e: Event| next_of(phase, e) == phase,
{
    phase == Phase::Done || phase == Phase::Aborted
}

/// Running through `a` and then `b` is running through `a + b`.
pub proof fn lemma_run_concat(p: Phase, a: Seq<Event>, b: Seq<Event>)
    ensures
        run_of(p, a + b) == run_of(run_of(p, a), b),
    decreases b.len(),
{
    if b.len() == 0 {
        assert(a + b =~= a);
    } else {
        assert((a + b).drop_last() =~= a + b.drop_last());
        lemma_run_concat(p, a, b.drop_last());
    }
}

/// A finished run stays finished, whatever is reported after.
pub proof fn lemma_terminal_stays(p: Phase, evs: Seq<Event>)
    requires
        is_terminal(p),
    ensures
        run_of(p, evs) == p,
    decreases evs.len(),
{
    if evs.len() > 0 {
        lemma_terminal_stays(p, evs.drop_last());
    }
}

/// The entry document phase is entered only from the upload pass, and only
/// when that pass ended with no failure.
pub proof fn lemma_entry_only_after_clean_uploads(p: Phase, e: Event)
    ensures
        next_of(p, e) == Phase::PublishingEntry ==> p == Phase::Uploading && e == (Event::UploadsFinished {
            failures: 0,
        }),
{
}

/// Once the upload pass reports a failure, the entry document phase is never
/// reached, whatever is reported after.
pub proof fn lemma_failed_uploads_never_publish(failures: usize, evs: Seq<Event>)
    requires
        failures > 0,
    ensures
        forall|i: int|
            0 <= i <= evs.len() ==> run_of(
                next_of(Phase::Uploading, Event::UploadsFinished { failures }),
                #[trigger] evs.take(i),
            ) == Phase::Aborted,
{
    assert forall|i: int| 0 <= i <= evs.len() implies run_of(
        next_of(Phase::Uploading, Event::UploadsFinished { failures }),
        #[trigger] evs.take(i),
    ) == Phase::Aborted by {
        lemma_terminal_stays(Phase::Aborted, evs.take(i));
    }
}

/// One more event is one more step.
proof fn lemma_run_step(p: Phase, evs: Seq<Event>, i: int)
    requires
        0 <= i < evs.len(),
    ensures
        run_of(p, evs.take(i + 1)) == next_of(run_of(p, evs.take(i)), evs[i]),
{
    assert(evs.take(i + 1).drop_last() =~= evs.take(i));
}

/// Along any run from the start, the step that enters the entry document
/// phase ends an upload pass with no failure.
pub proof fn lemma_entry_phase_entered_cleanly(evs: Seq<Event>, i: int)
    requires
        0 <= i <= evs.len(),
        run_of(Phase::Start, evs.take(i)) == Phase::PublishingEntry,
    ensures
        i > 0,
        run_of(Phase::Start, evs.take(i - 1)) == Phase::Uploading,
        evs[i - 1] == (Event::UploadsFinished { failures: 0 }),
{
    assert(evs.take(0) =~= Seq::<Event>::empty());
    if i > 0 {
        lemma_run_step(Phase::Start, evs, i - 1);
    }
}

/// Along any run, the entry document phase holds at one step at most: once
/// left, it is never entered again.
pub proof fn lemma_entry_phase_once(p: Phase, evs: Seq<Event>, i: int, j: int)
    requires
        0 <= i < j <= evs.len(),
        run_of(p, evs.take(i)) == Phase::PublishingEntry,
    ensures
        run_of(p, evs.take(j)) != Phase::PublishingEntry,
{
    let rest = evs.subrange(i + 1, j);
    assert(evs.take(j) =~= evs.take(i + 1) + rest);
    lemma_run_concat(p, evs.take(i + 1), rest);
    lemma_run_step(p, evs, i);
    lemma_terminal_stays(run_of(p, evs.take(i + 1)), rest);
}

} // verus!
