//! Change detection over the stream of sampled colors.

use vstd::prelude::*;
use crate::color::Color;

verus! {

/// Remembers the color seen last and reports a sample only when it differs
/// from that color. A tracker that has seen nothing is unset; after its first
/// sample it always holds the latest one.
#[derive(Debug)]
pub struct ColorTracker {
    last: Option<Color>,
}

/// What a tracker that holds `held` reports for `candidate`: the candidate,
/// unless it is the color already held.
pub open spec fn reported(held: Option<Color>, candidate: Color) -> Option<Color> {
    if held == Some(candidate) {
        None
    } else {
        Some(candidate)
    }
}

/// The reports that a tracker holding `held` gives for `samples`, observed in
/// order.
pub open spec fn reports_from(held: Option<Color>, samples: Seq<Color>) -> Seq<Option<Color>>
    decreases samples.len(),
{
    if samples.len() == 0 {
        seq![]
    } else {
        seq![reported(held, samples[0])] + reports_from(Some(samples[0]), samples.drop_first())
    }
}

impl View for ColorTracker {
    type V = Option<Color>;

    /// The color held, if any.
    closed spec fn view(&self) -> Option<Color> {
        self.last
    }
}

impl ColorTracker {
    /// A tracker that has seen no sample yet.
    pub fn new() -> (tracker: ColorTracker)
        ensures
            tracker@ is None,
    {
        ColorTracker { last: None }
    }

    /// The color held: the latest sample observed, or nothing before the
    /// first.
    pub fn last(&self) -> (held: Option<Color>)
        ensures
            held == self@,
    {
        self.last
    }

    /// Takes in a sample. The tracker then holds it. The sample is reported
    /// back when it is the first one or differs from the one held before;
    /// a repetition of the held color reports nothing.
    pub fn observe(&mut self, candidate: Color) -> (report: Option<Color>)
        ensures
            final(self)@ == Some(candidate),
            report == reported(old(self)@, candidate),
        no_unwind
    {
        match self.last {
            Some(previous) => {
                if candidate == previous {
                    None
                } else {
                    self.last = Some(candidate);
                    Some(candidate)
                }
            },
            None => {
                self.last = Some(candidate);
                Some(candidate)
            },
        }
    }
}

/// A fresh tracker fed any sequence of samples gives one report per sample. It
/// reports the first sample and every later sample that differs from the one
/// just before it, and nothing for a sample equal to the one just before it.
pub proof fn lemma_reports_changes(samples: Seq<Color>)
    ensures
        reports_from(None, samples).len() == samples.len(),
        forall|i: int|
            0 <= i < samples.len() ==> #[trigger] reports_from(None, samples)[i] == (if i == 0
                || samples[i] != samples[i - 1] {
                Some(samples[i])
            } else {
                None
            }),
{
    lemma_reports_from(None, samples);
}

/// The reports of a tracker in any state: the first sample is judged against
/// the color held, every later one against its predecessor.
pub proof fn lemma_reports_from(held: Option<Color>, samples: Seq<Color>)
    ensures
        reports_from(held, samples).len() == samples.len(),
        forall|i: int|
            0 <= i < samples.len() ==> #[trigger] reports_from(held, samples)[i] == reported(
                if i == 0 {
                    held
                } else {
                    Some(samples[i - 1])
                },
                samples[i],
            ),
    decreases samples.len(),
{
    if samples.len() > 0 {
        let rest = samples.drop_first();
        lemma_reports_from(Some(samples[0]), rest);
        assert forall|i: int| 0 <= i < samples.len() implies #[trigger] reports_from(
            held,
            samples,
        )[i] == reported(
            if i == 0 {
                held
            } else {
                Some(samples[i - 1])
            },
            samples[i],
        ) by {
            if i > 0 {
                assert(reports_from(held, samples)[i] == reports_from(Some(samples[0]), rest)[i - 1]);
                assert(rest[i - 1] == samples[i]);
                if i > 1 {
                    assert(rest[i - 2] == samples[i - 1]);
                }
            }
        }
    }
}

/// One more sample adds one report to those before it: the sample judged
/// against its predecessor, or against the color held where it is the first.
pub proof fn lemma_reports_push(held: Option<Color>, samples: Seq<Color>, next: Color)
    ensures
        reports_from(held, samples.push(next)) == reports_from(held, samples).push(
            reported(
                if samples.len() == 0 {
                    held
                } else {
                    Some(samples.last())
                },
                next,
            ),
        ),
{
    let longer = samples.push(next);
    lemma_reports_from(held, samples);
    lemma_reports_from(held, longer);
    assert forall|i: int| 0 <= i < samples.len() implies reports_from(held, longer)[i]
        == reports_from(held, samples)[i] by {
        assert(longer[i] == samples[i]);
        if i > 0 {
            assert(longer[i - 1] == samples[i - 1]);
        }
    }
    assert(reports_from(held, longer) =~= reports_from(held, samples).push(
        reported(
            if samples.len() == 0 {
                held
            } else {
                Some(samples.last())
            },
            next,
        ),
    ));
}

} // verus!
