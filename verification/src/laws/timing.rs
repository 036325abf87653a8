//! Laws of the times that a run of a scan records.
use vstd::prelude::*;

use crate::outside::RecordedTime;
use crate::physical_plan::scan_stream::{PollOutcome, ScanMetricStream, ScanProgress};

verus! {

/// From a fresh stream on, through any polls, the metrics hold these times: the time to the first
/// batch holds the time since the start once if a batch came, and nothing otherwise; the time of
/// the scan holds the time since the start once if an error or the end came, and nothing
/// otherwise. The stream after each poll is what a poll makes of the one before.
pub proof fn lemma_times_after_polls(
    streams: Seq<ScanMetricStream>,
    outcomes: Seq<PollOutcome>,
)
    requires
        streams.len() == outcomes.len() + 1,
        streams[0]@ == ScanProgress::fresh(),
        streams[0].spec_time_to_first_batch().recorded() == Seq::<RecordedTime>::empty(),
        streams[0].spec_scan_elapsed().recorded() == Seq::<RecordedTime>::empty(),
        forall|i: int|
            0 <= i < outcomes.len() ==> streams[i + 1]@ == streams[i]@.with(
                streams[i]@.at_poll(#[trigger] outcomes[i]),
            ) && streams[i + 1].same_but_recorded(&streams[i], streams[i]@.at_poll(outcomes[i])),
    ensures
        ({
            let start = RecordedTime::Since(streams[0].spec_started());
            let last = streams.last();
            &&& last.spec_started() == streams[0].spec_started()
            &&& last.spec_time_to_first_batch().label()
                == streams[0].spec_time_to_first_batch().label()
            &&& last.spec_scan_elapsed().label() == streams[0].spec_scan_elapsed().label()
            &&& last@.first_batch_recorded <==> outcomes.contains(PollOutcome::Batch)
            &&& last@.finished <==> outcomes.contains(PollOutcome::Error) || outcomes.contains(
                PollOutcome::End,
            )
            &&& last.spec_time_to_first_batch().recorded() == if outcomes.contains(
                PollOutcome::Batch,
            ) {
                seq![start]
            } else {
                seq![]
            }
            &&& last.spec_scan_elapsed().recorded() == if outcomes.contains(PollOutcome::Error)
                || outcomes.contains(PollOutcome::End) {
                seq![start]
            } else {
                seq![]
            }
        }),
    decreases outcomes.len(),
{
    if outcomes.len() > 0 {
        let n = outcomes.len() - 1;
        let earlier = outcomes.drop_last();
        let before = streams.drop_last();
        assert forall|i: int| 0 <= i < earlier.len() implies before[i + 1]@ == before[i]@.with(
            before[i]@.at_poll(#[trigger] earlier[i]),
        ) && before[i + 1].same_but_recorded(&before[i], before[i]@.at_poll(earlier[i])) by {
            assert(earlier[i] == outcomes[i]);
        }
        lemma_times_after_polls(before, earlier);
        assert(before.last() == streams[n]);
        assert(streams.last() == streams[n + 1]);
        assert(outcomes[n] == outcomes.last());
        assert forall|o: PollOutcome| #[trigger]
            outcomes.contains(o) <==> earlier.contains(o) || outcomes.last() == o by {
            if earlier.contains(o) {
                let i = choose|i: int| 0 <= i < earlier.len() && earlier[i] == o;
                assert(outcomes[i] == o);
            }
            if outcomes.contains(o) && outcomes.last() != o {
                let i = choose|i: int| 0 <= i < outcomes.len() && outcomes[i] == o;
                assert(earlier[i] == o);
            }
        }
        let start = RecordedTime::Since(streams[0].spec_started());
        assert(Seq::<RecordedTime>::empty().push(start) =~= seq![start]);
    }
}

/// Once a stream is finished or dropped, whatever its polls have brought, its metrics hold the
/// time since its start exactly once as the time of the scan, and once as the time to the first
/// batch if a batch came, else not at all.
pub proof fn lemma_times_after_the_end(
    streams: Seq<ScanMetricStream>,
    outcomes: Seq<PollOutcome>,
    ended: ScanMetricStream,
)
    requires
        streams.len() == outcomes.len() + 1,
        streams[0]@ == ScanProgress::fresh(),
        streams[0].spec_time_to_first_batch().recorded() == Seq::<RecordedTime>::empty(),
        streams[0].spec_scan_elapsed().recorded() == Seq::<RecordedTime>::empty(),
        forall|i: int|
            0 <= i < outcomes.len() ==> streams[i + 1]@ == streams[i]@.with(
                streams[i]@.at_poll(#[trigger] outcomes[i]),
            ) && streams[i + 1].same_but_recorded(&streams[i], streams[i]@.at_poll(outcomes[i])),
        ended@ == streams.last()@.with(streams.last()@.at_finish()),
        ended.same_but_recorded(&streams.last(), streams.last()@.at_finish()),
    ensures
        ({
            let start = RecordedTime::Since(streams[0].spec_started());
            &&& ended@.finished
            &&& ended.spec_scan_elapsed().recorded() == seq![start]
            &&& ended.spec_time_to_first_batch().recorded() == if outcomes.contains(
                PollOutcome::Batch,
            ) {
                seq![start]
            } else {
                seq![]
            }
        }),
{
    lemma_times_after_polls(streams, outcomes);
    let start = RecordedTime::Since(streams[0].spec_started());
    assert(Seq::<RecordedTime>::empty().push(start) =~= seq![start]);
}

/// What a poll or the end records, told from what was recorded before: the first batch at the
/// first batch, the end at the first error or end, and nothing at any other time.
pub proof fn lemma_progress(progress: ScanProgress, outcome: PollOutcome)
    ensures
        !ScanProgress::fresh().first_batch_recorded,
        !ScanProgress::fresh().finished,
        progress.with(progress.at_poll(outcome)).first_batch_recorded <==> (
        progress.first_batch_recorded || outcome == PollOutcome::Batch),
        progress.with(progress.at_poll(outcome)).finished <==> (progress.finished || outcome
            == PollOutcome::Error || outcome == PollOutcome::End),
        progress.with(progress.at_finish()).finished,
        progress.with(progress.at_finish()).first_batch_recorded == progress.first_batch_recorded,
        progress.at_poll(outcome) is None <==> progress.with(progress.at_poll(outcome)) == progress,
        progress.at_finish() is None <==> progress.finished,
{
}

} // verus!
