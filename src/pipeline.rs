use vstd::prelude::*;
use crate::forward::ForwardError;
use crate::journal::{json_parses, line_outcome_spec, process_line};
use crate::record::{event_result_model, normalize_spec, EventModel, NormalizedEvent, ParseError, RawLogModel};

verus! {

/// Counts of what became of the lines read so far.
#[derive(Clone, Copy, Debug, PartialEq, Eq)]
pub struct PipelineTally {
    pub lines: u64,
    pub skipped: u64,
    pub observed: u64,
    pub delivered: u64,
    pub failed_deliveries: u64,
}

impl PipelineTally {
    /// Every line read is counted under exactly one fate.
    pub open spec fn wf(&self) -> bool {
        self.lines == self.skipped + self.observed + self.delivered + self.failed_deliveries
    }

    pub fn new() -> (r: PipelineTally)
        ensures
            r.wf(),
            r.lines == 0 && r.skipped == 0 && r.observed == 0,
            r.delivered == 0 && r.failed_deliveries == 0,
    {
        PipelineTally { lines: 0, skipped: 0, observed: 0, delivered: 0, failed_deliveries: 0 }
    }

    /// Counts a line that gave no event.
    pub fn note_skipped(&mut self)
        requires
            old(self).wf(),
            old(self).lines < u64::MAX,
        ensures
            final(self).wf(),
            final(self).lines == old(self).lines + 1,
            final(self).skipped == old(self).skipped + 1,
            final(self).observed == old(self).observed,
            final(self).delivered == old(self).delivered,
            final(self).failed_deliveries == old(self).failed_deliveries,
    {
        self.lines = self.lines + 1;
        self.skipped = self.skipped + 1;
    }

    /// Counts a line whose event was only observed.
    pub fn note_observed(&mut self)
        requires
            old(self).wf(),
            old(self).lines < u64::MAX,
        ensures
            final(self).wf(),
            final(self).lines == old(self).lines + 1,
            final(self).skipped == old(self).skipped,
            final(self).observed == old(self).observed + 1,
            final(self).delivered == old(self).delivered,
            final(self).failed_deliveries == old(self).failed_deliveries,
    {
        self.lines = self.lines + 1;
        self.observed = self.observed + 1;
    }

    /// Counts a line whose event was sent, by how the delivery went.
    pub fn note_delivery(&mut self, result: &Result<(), ForwardError>)
        requires
            old(self).wf(),
            old(self).lines < u64::MAX,
        ensures
            final(self).wf(),
            final(self).lines == old(self).lines + 1,
            final(self).skipped == old(self).skipped,
            final(self).observed == old(self).observed,
            final(self).delivered == old(self).delivered + (if result is Ok {
                1int
            } else {
                0int
            }),
            final(self).failed_deliveries == old(self).failed_deliveries + (if result is Ok {
                0int
            } else {
                1int
            }),
    {
        self.lines = self.lines + 1;
        match result {
            Ok(_) => {
                self.delivered = self.delivered + 1;
            },
            Err(_) => {
                self.failed_deliveries = self.failed_deliveries + 1;
            },
        }
    }
}

/// Processes a batch of journal lines one by one. Every line gets an outcome of its
/// own, in order: the outcome that the line gives alone.
pub fn process_lines(lines: &Vec<String>) -> (r: Vec<Result<NormalizedEvent, ParseError>>)
    ensures
        r@.len() == lines@.len(),
        forall|i: int|
            0 <= i < lines@.len() ==> event_result_model(#[trigger] r@[i]) == line_outcome_spec(
                lines@[i]@,
            ),
{
    let mut r: Vec<Result<NormalizedEvent, ParseError>> = Vec::new();
    let mut k: usize = 0;
    while k < lines.len()
        invariant
            k <= lines@.len(),
            r@.len() == k,
            forall|i: int|
                0 <= i < k ==> event_result_model(#[trigger] r@[i]) == line_outcome_spec(
                    lines@[i]@,
                ),
        decreases lines@.len() - k,
    {
        let o = process_line(lines[k].as_str());
        r.push(o);
        k = k + 1;
    }
    r
}

/// The outcomes of a batch of journal lines, one per line.
pub open spec fn line_outcomes_spec(lines: Seq<Seq<char>>) -> Seq<Result<EventModel, ParseError>> {
    lines.map_values(|text: Seq<char>| line_outcome_spec(text))
}

/// A malformed line is isolated: putting any text, JSON or not, in place of the line
/// at `j` leaves the number of outcomes and every other line's outcome as they were,
/// and gives `MalformedLine` at `j` where the text is not JSON.
pub proof fn lemma_line_failure_isolated(lines: Seq<Seq<char>>, j: int, other: Seq<char>)
    requires
        0 <= j < lines.len(),
    ensures
        line_outcomes_spec(lines.update(j, other)).len() == lines.len(),
        line_outcomes_spec(lines.update(j, other))[j] == line_outcome_spec(other),
        !json_parses(other) ==> line_outcomes_spec(lines.update(j, other))[j] == Err::<
            EventModel,
            ParseError,
        >(ParseError::MalformedLine),
        forall|i: int|
            0 <= i < lines.len() && i != j ==> #[trigger] line_outcomes_spec(lines.update(j, other))[i]
                == line_outcomes_spec(lines)[i],
{
}

/// The outcomes of a batch of entries, one per entry.
pub open spec fn outcomes_spec(recs: Seq<RawLogModel>) -> Seq<Result<EventModel, ParseError>> {
    recs.map_values(|raw: RawLogModel| normalize_spec(raw))
}

/// A bad entry is isolated: putting any entry in place of the one at `j` leaves the
/// number of outcomes and every other entry's outcome as they were.
pub proof fn lemma_failure_isolated(recs: Seq<RawLogModel>, j: int, other: RawLogModel)
    requires
        0 <= j < recs.len(),
    ensures
        outcomes_spec(recs.update(j, other)).len() == recs.len(),
        outcomes_spec(recs.update(j, other))[j] == normalize_spec(other),
        forall|i: int|
            0 <= i < recs.len() && i != j ==> #[trigger] outcomes_spec(recs.update(j, other))[i]
                == outcomes_spec(recs)[i],
{
}

} // verus!
