//! Book-keeping of the milestone ranges that are still to be synchronised.
//!
//! Each of the three lists is kept with its lowest range last, so that the
//! lowest range is the one that `pop` takes.

use vstd::prelude::*;
use core::ops::Range;

verus! {

/// The milestone ranges already handled and those still to be handled.
#[derive(Debug, Clone)]
pub struct SyncData {
    /// The completed (synced and logged) milestones data
    pub completed: Vec<Range<u32>>,
    /// Synced milestones data but unlogged
    pub synced_but_unlogged: Vec<Range<u32>>,
    /// Gaps/missings milestones data
    pub gaps: Vec<Range<u32>>,
}

/// Whether the lowest range that is not completed is a gap: there is a gap,
/// and either nothing is unlogged or the lowest gap starts before the lowest
/// unlogged range.
pub open spec fn lowest_is_gap(gaps: Seq<Range<u32>>, unlogged: Seq<Range<u32>>) -> bool {
    gaps.len() > 0 && (unlogged.len() == 0 || gaps.last().start < unlogged.last().start)
}

/// The lowest range that is not completed, if there is any.
pub open spec fn lowest(gaps: Seq<Range<u32>>, unlogged: Seq<Range<u32>>) -> Option<Range<u32>> {
    if lowest_is_gap(gaps, unlogged) {
        Some(gaps.last())
    } else if unlogged.len() > 0 {
        Some(unlogged.last())
    } else {
        None
    }
}

/// The gaps that are left once the lowest range that is not completed has
/// been taken.
pub open spec fn gaps_left(gaps: Seq<Range<u32>>, unlogged: Seq<Range<u32>>) -> Seq<Range<u32>> {
    if lowest_is_gap(gaps, unlogged) {
        gaps.drop_last()
    } else {
        gaps
    }
}

/// The unlogged ranges that are left once the lowest range that is not
/// completed has been taken.
pub open spec fn unlogged_left(gaps: Seq<Range<u32>>, unlogged: Seq<Range<u32>>) -> Seq<
    Range<u32>,
> {
    if !lowest_is_gap(gaps, unlogged) && unlogged.len() > 0 {
        unlogged.drop_last()
    } else {
        unlogged
    }
}

/// What is left, and what has been taken, once `range` has been extended by
/// every range that follows it without a hole: as long as the lowest range
/// that is left starts where `range` ends, it is taken and `range` ends where
/// it ends.
pub open spec fn merged(gaps: Seq<Range<u32>>, unlogged: Seq<Range<u32>>, range: Range<u32>) -> (
    Seq<Range<u32>>,
    Seq<Range<u32>>,
    Range<u32>,
)
    decreases gaps.len() + unlogged.len(),
{
    match lowest(gaps, unlogged) {
        Some(next) => if next.start == range.end {
            merged(
                gaps_left(gaps, unlogged),
                unlogged_left(gaps, unlogged),
                Range { start: range.start, end: next.end },
            )
        } else {
            (gaps, unlogged, range)
        },
        None => (gaps, unlogged, range),
    }
}

impl SyncData {
    /// Takes the lowest gap.
    pub fn take_lowest_gap(&mut self) -> (range: Option<Range<u32>>)
        ensures
            range == if old(self).gaps@.len() > 0 {
                Some(old(self).gaps@.last())
            } else {
                None
            },
            final(self).gaps@ == if old(self).gaps@.len() > 0 {
                old(self).gaps@.drop_last()
            } else {
                old(self).gaps@
            },
            final(self).synced_but_unlogged@ == old(self).synced_but_unlogged@,
            final(self).completed@ == old(self).completed@,
    {
        self.gaps.pop()
    }

    /// Takes the lowest range that is synced but not logged.
    pub fn take_lowest_unlogged(&mut self) -> (range: Option<Range<u32>>)
        ensures
            range == if old(self).synced_but_unlogged@.len() > 0 {
                Some(old(self).synced_but_unlogged@.last())
            } else {
                None
            },
            final(self).synced_but_unlogged@ == if old(self).synced_but_unlogged@.len() > 0 {
                old(self).synced_but_unlogged@.drop_last()
            } else {
                old(self).synced_but_unlogged@
            },
            final(self).gaps@ == old(self).gaps@,
            final(self).completed@ == old(self).completed@,
    {
        self.synced_but_unlogged.pop()
    }

    /// Takes the lowest range that is not completed, be it a gap or unlogged.
    /// Where both lists have a lowest range, the gap is taken if it starts
    /// first, the unlogged range otherwise.
    pub fn take_lowest_gap_or_unlogged(&mut self) -> (range: Option<Range<u32>>)
        ensures
            range == lowest(old(self).gaps@, old(self).synced_but_unlogged@),
            final(self).gaps@ == gaps_left(old(self).gaps@, old(self).synced_but_unlogged@),
            final(self).synced_but_unlogged@ == unlogged_left(
                old(self).gaps@,
                old(self).synced_but_unlogged@,
            ),
            final(self).completed@ == old(self).completed@,
    {
        let gaps: usize = self.gaps.len();
        let unlogged: usize = self.synced_but_unlogged.len();
        if gaps > 0 && unlogged > 0 {
            if self.gaps[gaps - 1].start < self.synced_but_unlogged[unlogged - 1].start {
                self.gaps.pop()
            } else {
                self.synced_but_unlogged.pop()
            }
        } else if gaps > 0 {
            self.gaps.pop()
        } else if unlogged > 0 {
            self.synced_but_unlogged.pop()
        } else {
            None
        }
    }

    /// Takes the lowest range that is not completed, extended by every range
    /// that follows it without a hole.
    pub fn take_lowest_uncomplete(&mut self) -> (range: Option<Range<u32>>)
        ensures
            match lowest(old(self).gaps@, old(self).synced_but_unlogged@) {
                None => {
                    &&& range is None
                    &&& final(self).gaps@ == old(self).gaps@
                    &&& final(self).synced_but_unlogged@ == old(self).synced_but_unlogged@
                },
                Some(first) => {
                    let (gaps, unlogged, whole) = merged(
                        gaps_left(old(self).gaps@, old(self).synced_but_unlogged@),
                        unlogged_left(old(self).gaps@, old(self).synced_but_unlogged@),
                        first,
                    );
                    &&& range == Some(whole)
                    &&& final(self).gaps@ == gaps
                    &&& final(self).synced_but_unlogged@ == unlogged
                },
            },
            final(self).completed@ == old(self).completed@,
    {
        match self.take_lowest_gap_or_unlogged() {
            None => None,
            Some(first) => {
                let ghost goal = merged(self.gaps@, self.synced_but_unlogged@, first);
                let ghost taken = first;
                let mut pre_range = first;
                loop
                    invariant
                        self.completed@ == old(self).completed@,
                        lowest(old(self).gaps@, old(self).synced_but_unlogged@) == Some(taken),
                        goal == merged(
                            gaps_left(old(self).gaps@, old(self).synced_but_unlogged@),
                            unlogged_left(old(self).gaps@, old(self).synced_but_unlogged@),
                            taken,
                        ),
                        goal == merged(self.gaps@, self.synced_but_unlogged@, pre_range),
                    decreases self.gaps@.len() + self.synced_but_unlogged@.len(),
                {
                    let next_end: u32 = match self.get_lowest_gap_or_unlogged() {
                        None => {
                            return Some(pre_range);
                        },
                        Some(next_range) => {
                            if next_range.start != pre_range.end {
                                return Some(pre_range);
                            }
                            next_range.end
                        },
                    };
                    pre_range = Range { start: pre_range.start, end: next_end };
                    let _ = self.take_lowest_gap_or_unlogged();
                }
            },
        }
    }

    /// The lowest range that is not completed, left where it is.
    pub fn get_lowest_gap_or_unlogged(&self) -> (range: Option<&Range<u32>>)
        ensures
            match range {
                Some(found) => lowest(self.gaps@, self.synced_but_unlogged@) == Some(*found),
                None => lowest(self.gaps@, self.synced_but_unlogged@) is None,
            },
    {
        let gaps: usize = self.gaps.len();
        let unlogged: usize = self.synced_but_unlogged.len();
        if gaps > 0 && unlogged > 0 {
            if self.gaps[gaps - 1].start < self.synced_but_unlogged[unlogged - 1].start {
                Some(&self.gaps[gaps - 1])
            } else {
                Some(&self.synced_but_unlogged[unlogged - 1])
            }
        } else if gaps > 0 {
            Some(&self.gaps[gaps - 1])
        } else if unlogged > 0 {
            Some(&self.synced_but_unlogged[unlogged - 1])
        } else {
            None
        }
    }
}

} // verus!
