use vstd::prelude::*;

verus! {

/// The highest frame index a run may render: frames 0 through 100, a hard
/// cap of 101 data frames per run.
pub const MAX_FRAME_INDEX: u16 = 100;

/// Where a run stands: still about to render frame `i`, or finished for
/// good. A run never leaves `Ended`: the sequence is not restartable.
#[derive(Clone, Copy, Debug, PartialEq, Eq, Structural)]
pub enum RunnerState {
    /// The next step works on frame index `i`.
    Running(u16),
    /// The run is over; nothing more is ever produced.
    Ended,
}

/// The kind of an emitted event, stripped of its payload.
#[derive(Clone, Copy, Debug, PartialEq, Eq, Structural)]
pub enum EventKind {
    /// A data event carrying one rendered frame.
    Update,
    /// The terminal event.
    End,
}

/// The sequence of event kinds that the frame driver emits from index `i`
/// onward, for a guest that never faults and whose completion answers are
/// given by `done`. This mirrors the driver's step rule exactly: past the
/// cap, or when the guest reports completion, the terminal event closes the
/// run; otherwise one data event goes out and the index advances by one.
pub open spec fn model_run(done: spec_fn(int) -> bool, i: int) -> Seq<EventKind>
    decreases 101 - i,
{
    if i < 0 || i > 100 || done(i) {
        seq![EventKind::End]
    } else {
        seq![EventKind::Update] + model_run(done, i + 1)
    }
}

/// Law: every run is a block of data events closed by exactly one terminal
/// event: the terminal event is always present, always last, never repeated,
/// and a run that starts at index `i` has at most `102 - i` items.
pub proof fn lemma_run_form(done: spec_fn(int) -> bool, i: int)
    requires
        0 <= i <= 101,
    ensures
        1 <= model_run(done, i).len() <= 102 - i,
        model_run(done, i).last() == EventKind::End,
        forall|j: int| 0 <= j < model_run(done, i).len() - 1
            ==> model_run(done, i)[j] == EventKind::Update,
    decreases 101 - i,
{
    if i > 100 || done(i) {
    } else {
        lemma_run_form(done, i + 1);
        assert forall|j: int| 0 <= j < model_run(done, i).len() - 1
            implies model_run(done, i)[j] == EventKind::Update by {
            if j > 0 {
                assert(model_run(done, i)[j] == model_run(done, i + 1)[j - 1]);
            }
        }
    }
}

/// Law: a guest that first signals completion at index `k` (0 <= k <= 100)
/// produces exactly `k` data events, one for each index below `k`, followed
/// by exactly one terminal event: `k + 1` items in all, never more than 102.
pub proof fn lemma_completion_at_k(done: spec_fn(int) -> bool, k: int)
    requires
        0 <= k <= 100,
        done(k),
        forall|j: int| 0 <= j < k ==> !(#[trigger] done(j)),
    ensures
        model_run(done, 0).len() == k + 1,
        model_run(done, 0).len() <= 102,
        forall|j: int| 0 <= j < k ==> model_run(done, 0)[j] == EventKind::Update,
        model_run(done, 0)[k] == EventKind::End,
{
    lemma_completion_tail(done, 0, k);
}

/// A run that has reached index `i`, with completion first signalled at
/// index `k`, still has `k - i` data events and the terminal event ahead.
proof fn lemma_completion_tail(done: spec_fn(int) -> bool, i: int, k: int)
    requires
        0 <= i <= k <= 100,
        done(k),
        forall|j: int| i <= j < k ==> !(#[trigger] done(j)),
    ensures
        model_run(done, i).len() == k - i + 1,
        forall|j: int| 0 <= j < k - i ==> model_run(done, i)[j] == EventKind::Update,
        model_run(done, i)[k - i] == EventKind::End,
    decreases k - i,
{
    if i == k {
    } else {
        lemma_completion_tail(done, i + 1, k);
        assert forall|j: int| 0 <= j < k - i
            implies model_run(done, i)[j] == EventKind::Update by {
            if j > 0 {
                assert(model_run(done, i)[j] == model_run(done, i + 1)[j - 1]);
            }
        }
        assert(model_run(done, i)[k - i] == model_run(done, i + 1)[k - i - 1]);
    }
}

/// Law: a guest that never signals completion at any index up to the cap is
/// cut off after the cap: exactly 101 data events, for indices 0 through
/// 100, followed by exactly one terminal event — 102 items in all.
pub proof fn lemma_never_done(done: spec_fn(int) -> bool)
    requires
        forall|j: int| 0 <= j <= 100 ==> !(#[trigger] done(j)),
    ensures
        model_run(done, 0).len() == 102,
        forall|j: int| 0 <= j < 101 ==> model_run(done, 0)[j] == EventKind::Update,
        model_run(done, 0)[101] == EventKind::End,
{
    lemma_never_done_tail(done, 0);
}

/// A run that has reached index `i` under a guest that never signals
/// completion still has `101 - i` data events and the terminal event ahead.
proof fn lemma_never_done_tail(done: spec_fn(int) -> bool, i: int)
    requires
        0 <= i <= 101,
        forall|j: int| i <= j <= 100 ==> !(#[trigger] done(j)),
    ensures
        model_run(done, i).len() == 102 - i,
        forall|j: int| 0 <= j < 101 - i ==> model_run(done, i)[j] == EventKind::Update,
        model_run(done, i)[101 - i] == EventKind::End,
    decreases 101 - i,
{
    if i == 101 {
    } else {
        lemma_never_done_tail(done, i + 1);
        assert forall|j: int| 0 <= j < 101 - i
            implies model_run(done, i)[j] == EventKind::Update by {
            if j > 0 {
                assert(model_run(done, i)[j] == model_run(done, i + 1)[j - 1]);
            }
        }
        assert(model_run(done, i)[101 - i] == model_run(done, i + 1)[101 - i - 1]);
    }
}

} // verus!
