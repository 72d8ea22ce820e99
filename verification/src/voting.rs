//! Offset voting: from the nearest-neighbour answers for the keypoints of a
//! new frame, find the one pixel shift along the scroll axis that most of
//! them agree on, or decide that the view did not move or that no shift is
//! reliable.

use crate::geometry::{ScrollDirection, ScrollOffset};
use std::collections::HashMap;
use vstd::prelude::*;

verus! {

/// What the nearest-neighbour search reported for one keypoint of a new
/// frame. The search and the measure of distance are the caller's.
#[derive(Clone, Copy, Debug, PartialEq, Eq, Structural)]
pub struct NeighborMatch {
    /// Position, within the index, of the nearest stored keypoint.
    pub origin: usize,
    /// Whether the descriptor distance to that keypoint is below the
    /// acceptance radius.
    pub close: bool,
}

/// How one keypoint of the new frame takes part in the vote.
pub enum Ballot {
    /// The keypoint supports no shift: it found no neighbour, its neighbour
    /// lies off the scroll axis, or the descriptors are too far apart.
    Abstain,
    /// The shift it suggests lies on the wrong side of the plausibility bound.
    WrongSide,
    /// The keypoint supports this shift, in pixels along the scroll axis.
    Vote(int),
}

/// Displacement from `origin` to `corner` on the axis that scrolling must
/// leave alone.
pub open spec fn cross_shift(
    direction: ScrollDirection,
    origin: ScrollOffset,
    corner: ScrollOffset,
) -> int {
    corner.across(direction) - origin.across(direction)
}

/// Displacement from `origin` to `corner` along the scroll axis.
pub open spec fn scroll_shift(
    direction: ScrollDirection,
    origin: ScrollOffset,
    corner: ScrollOffset,
) -> int {
    corner.along(direction) - origin.along(direction)
}

/// Whether a shift lies on the wrong side of the bound `min_diff`: above a
/// negative bound, or below a positive one. A zero bound rejects nothing.
pub open spec fn beyond_bound(min_diff: int, diff: int) -> bool {
    (min_diff < 0 && min_diff < diff) || (min_diff > 0 && min_diff > diff)
}

/// The ballot of one keypoint at `corner`, given what the search found for it.
pub open spec fn ballot_of(
    direction: ScrollDirection,
    min_diff: int,
    origins: Seq<ScrollOffset>,
    corner: ScrollOffset,
    found: Option<NeighborMatch>,
) -> Ballot {
    match found {
        None => Ballot::Abstain,
        Some(m) => {
            let origin = origins[m.origin as int];
            let diff = scroll_shift(direction, origin, corner);
            if cross_shift(direction, origin, corner) != 0 {
                Ballot::Abstain
            } else if beyond_bound(min_diff, diff) {
                Ballot::WrongSide
            } else if m.close {
                Ballot::Vote(diff)
            } else {
                Ballot::Abstain
            }
        },
    }
}

/// Whether every answer of a search names an entry of an index with
/// `entries` keypoints.
pub open spec fn answers_fit(found: Seq<Option<NeighborMatch>>, entries: int) -> bool {
    forall|i: int|
        0 <= i < found.len() ==> (#[trigger] found[i] matches Some(m) ==> m.origin < entries)
}

/// The ballots of all keypoints of a frame, in keypoint order.
pub open spec fn ballots(
    direction: ScrollDirection,
    min_diff: int,
    origins: Seq<ScrollOffset>,
    corners: Seq<ScrollOffset>,
    found: Seq<Option<NeighborMatch>>,
) -> Seq<Ballot> {
    Seq::new(corners.len(), |i: int| ballot_of(direction, min_diff, origins, corners[i], found[i]))
}

/// How many of the first `n` ballots equal `what`.
pub open spec fn tally(cast: Seq<Ballot>, what: Ballot, n: int) -> int
    decreases n,
{
    if n <= 0 {
        0
    } else {
        tally(cast, what, n - 1) + if cast[n - 1] == what {
            1int
        } else {
            0int
        }
    }
}

/// How many ballots support the shift `diff`.
pub open spec fn support(cast: Seq<Ballot>, diff: int) -> int {
    tally(cast, Ballot::Vote(diff), cast.len() as int)
}

/// How many ballots were rejected for lying on the wrong side of the bound.
pub open spec fn wrong_side(cast: Seq<Ballot>) -> int {
    tally(cast, Ballot::WrongSide, cast.len() as int)
}

/// The view counts as unchanged when more than 72 in 100 keypoints were
/// rejected for lying on the wrong side of the bound.
pub open spec fn is_unchanged(cast: Seq<Ballot>) -> bool {
    100 * wrong_side(cast) > 72 * cast.len()
}

/// A shift wins the vote when at least one keypoint in ten supports it and
/// it has at least twice the support of every other shift.
pub open spec fn dominates(cast: Seq<Ballot>, diff: int) -> bool {
    &&& support(cast, diff) >= 1
    &&& 10 * support(cast, diff) >= cast.len()
    &&& forall|other: int|
        other != diff ==> support(cast, diff) >= 2 * #[trigger] support(cast, other)
}

/// Whether keypoint `i` is the first one that votes for its shift.
pub open spec fn is_first_vote(cast: Seq<Ballot>, i: int) -> bool {
    &&& 0 <= i < cast.len()
    &&& cast[i] is Vote
    &&& forall|j: int| 0 <= j < i ==> cast[j] != cast[i]
}

/// A tally never exceeds the number of ballots looked at.
pub proof fn lemma_tally_bounds(cast: Seq<Ballot>, what: Ballot, n: int)
    ensures
        0 <= tally(cast, what, n),
        n >= 0 ==> tally(cast, what, n) <= n,
    decreases n,
{
    if n > 0 {
        lemma_tally_bounds(cast, what, n - 1);
    }
}

/// A tally grows with the number of ballots looked at.
pub proof fn lemma_tally_monotonic(cast: Seq<Ballot>, what: Ballot, m: int, n: int)
    requires
        m <= n,
    ensures
        tally(cast, what, m) <= tally(cast, what, n),
    decreases n - m,
{
    if m < n {
        lemma_tally_monotonic(cast, what, m, n - 1);
        lemma_tally_bounds(cast, what, m);
    }
}

/// A ballot that was cast is counted.
pub proof fn lemma_tally_counts(cast: Seq<Ballot>, i: int, n: int)
    requires
        0 <= i < n,
    ensures
        tally(cast, cast[i], n) >= 1,
{
    lemma_tally_bounds(cast, cast[i], i);
    lemma_tally_monotonic(cast, cast[i], i + 1, n);
}

/// A positive tally has a ballot behind it.
pub proof fn lemma_tally_witness(cast: Seq<Ballot>, what: Ballot, n: int) -> (i: int)
    requires
        tally(cast, what, n) >= 1,
    ensures
        0 <= i < n,
        cast[i] == what,
    decreases n,
{
    if cast[n - 1] == what {
        n - 1
    } else {
        lemma_tally_witness(cast, what, n - 1)
    }
}

/// Tallies depend only on the ballots looked at.
pub proof fn lemma_tally_prefix(a: Seq<Ballot>, b: Seq<Ballot>, what: Ballot, n: int)
    requires
        n <= a.len(),
        n <= b.len(),
        forall|i: int| 0 <= i < n ==> a[i] == b[i],
    ensures
        tally(a, what, n) == tally(b, what, n),
    decreases n,
{
    if n > 0 {
        lemma_tally_prefix(a, b, what, n - 1);
    }
}

/// The tally over two runs of ballots, one after the other, is the sum of
/// the tallies over each.
pub proof fn lemma_tally_concat(a: Seq<Ballot>, b: Seq<Ballot>, what: Ballot, n: int)
    requires
        0 <= n <= b.len(),
    ensures
        tally(a + b, what, a.len() + n) == tally(a, what, a.len() as int) + tally(b, what, n),
    decreases n,
{
    if n == 0 {
        lemma_tally_prefix(a + b, a, what, a.len() as int);
    } else {
        lemma_tally_concat(a, b, what, n - 1);
        assert((a + b)[a.len() + n - 1] == b[n - 1]);
    }
}

/// At most one shift can win a vote.
pub proof fn lemma_winner_is_unique(cast: Seq<Ballot>, first: int, second: int)
    requires
        dominates(cast, first),
        dominates(cast, second),
    ensures
        first == second,
{
    if first != second {
        assert(support(cast, first) >= 2 * support(cast, second));
        assert(support(cast, second) >= 2 * support(cast, first));
    }
}

/// When every one of the first `n` ballots equals `what`, all are counted.
pub proof fn lemma_tally_all(cast: Seq<Ballot>, what: Ballot, n: int)
    requires
        0 <= n <= cast.len(),
        forall|i: int| 0 <= i < n ==> cast[i] == what,
    ensures
        tally(cast, what, n) == n,
    decreases n,
{
    if n > 0 {
        lemma_tally_all(cast, what, n - 1);
    }
}

/// Keypoints added to a frame do not change the winning shift as long as
/// that shift keeps its share and its margin: if, counting the added
/// ballots too, `diff` still has the support of one keypoint in ten and
/// twice the support of every other shift, it wins the enlarged vote, and
/// nothing else does. If moreover no more than 72 in 100 of all ballots lie
/// on the wrong side, the enlarged vote ends with the same winner as the
/// vote without the added ballots: the first keypoint that voted for
/// `diff`.
pub proof fn lemma_added_ballots_keep_winner(
    cast: Seq<Ballot>,
    added: Seq<Ballot>,
    diff: int,
)
    requires
        dominates(cast, diff),
        10 * (support(cast, diff) + support(added, diff)) >= cast.len() + added.len(),
        forall|other: int|
            other != diff ==> support(cast, diff) + support(added, diff) >= 2 * (#[trigger] support(
                cast,
                other,
            ) + support(added, other)),
    ensures
        dominates(cast + added, diff),
        forall|other: int| #[trigger] dominates(cast + added, other) ==> other == diff,
        wrong_side(cast + added) == wrong_side(cast) + wrong_side(added),
        100 * (wrong_side(cast) + wrong_side(added)) <= 72 * (cast.len() + added.len())
            ==> forall|found: Seq<Option<NeighborMatch>>, outcome: Election| #[trigger]
            elected(cast + added, found, outcome) ==> (outcome matches Election::Winner { new, .. }
                && is_first_vote(cast, new as int) && cast[new as int] == Ballot::Vote(diff)),
{
    let all = cast + added;
    lemma_tally_concat(cast, added, Ballot::Vote(diff), added.len() as int);
    lemma_tally_concat(cast, added, Ballot::WrongSide, added.len() as int);
    lemma_tally_bounds(added, Ballot::Vote(diff), added.len() as int);
    assert forall|other: int| other != diff implies support(all, diff) >= 2 * #[trigger] support(
        all,
        other,
    ) by {
        lemma_tally_concat(cast, added, Ballot::Vote(other), added.len() as int);
        assert(support(cast, diff) + support(added, diff) >= 2 * (support(cast, other) + support(
            added,
            other,
        )));
    }
    assert forall|other: int| #[trigger] dominates(all, other) implies other == diff by {
        lemma_winner_is_unique(all, other, diff);
    }
    assert(wrong_side(all) == wrong_side(cast) + wrong_side(added));
    if 100 * (wrong_side(cast) + wrong_side(added)) <= 72 * (cast.len() + added.len()) {
        assert(!is_unchanged(all));
        assert forall|found: Seq<Option<NeighborMatch>>, outcome: Election| #[trigger]
            elected(all, found, outcome) implies (outcome matches Election::Winner { new, .. }
            && is_first_vote(cast, new as int) && cast[new as int] == Ballot::Vote(diff)) by {
            match outcome {
                Election::Unchanged => {},
                Election::NoReliableMatch => {
                    assert(dominates(all, diff));
                },
                Election::Winner { origin, new } => {
                    assert(dominates(all, all[new as int]->Vote_0));
                    let first = lemma_tally_witness(cast, Ballot::Vote(diff), cast.len() as int);
                    assert(all[first] == cast[first]);
                    assert(new as int <= first);
                    assert(all[new as int] == cast[new as int]);
                    assert forall|j: int| 0 <= j < new implies cast[j] != cast[new as int] by {
                        assert(all[j] == cast[j]);
                    }
                },
            }
        }
    }
}

/// A frame whose keypoints are all matched with keypoints at their own
/// position, under a bound that rejects a shift of zero, counts as
/// unchanged.
pub proof fn lemma_unmoved_keypoints_are_unchanged(
    direction: ScrollDirection,
    min_diff: int,
    origins: Seq<ScrollOffset>,
    corners: Seq<ScrollOffset>,
    found: Seq<Option<NeighborMatch>>,
)
    requires
        min_diff != 0,
        corners.len() >= 1,
        found.len() == corners.len(),
        forall|i: int|
            0 <= i < corners.len() ==> (#[trigger] found[i] matches Some(m) && 0 <= m.origin
                < origins.len() && origins[m.origin as int] == corners[i]),
    ensures
        is_unchanged(ballots(direction, min_diff, origins, corners, found)),
        elected(ballots(direction, min_diff, origins, corners, found), found, Election::Unchanged),
{
    let cast = ballots(direction, min_diff, origins, corners, found);
    assert forall|i: int| 0 <= i < cast.len() implies cast[i] == Ballot::WrongSide by {
        assert(found[i] is Some);
    }
    lemma_tally_all(cast, Ballot::WrongSide, cast.len() as int);
}

/// Two shifts of similar support leave the vote without a winner: when the
/// most supported shift has less than twice the support of another one, no
/// shift wins, and unless the view counts as unchanged the vote ends
/// without a reliable match.
pub proof fn lemma_close_rivals_leave_no_winner(cast: Seq<Ballot>, modal: int, rival: int)
    requires
        modal != rival,
        forall|other: int| #[trigger] support(cast, other) <= support(cast, modal),
        support(cast, modal) < 2 * support(cast, rival),
    ensures
        forall|diff: int| !#[trigger] dominates(cast, diff),
        forall|found: Seq<Option<NeighborMatch>>, outcome: Election| #[trigger]
            elected(cast, found, outcome) ==> outcome == (if is_unchanged(cast) {
                Election::Unchanged
            } else {
                Election::NoReliableMatch
            }),
{
    assert forall|diff: int| !#[trigger] dominates(cast, diff) by {
        if dominates(cast, diff) {
            if diff == modal {
                assert(support(cast, modal) >= 2 * support(cast, rival));
            } else {
                assert(support(cast, diff) >= 2 * support(cast, modal));
                assert(support(cast, diff) <= support(cast, modal));
            }
        }
    }
    assert forall|found: Seq<Option<NeighborMatch>>, outcome: Election| #[trigger]
        elected(cast, found, outcome) implies outcome == (if is_unchanged(cast) {
        Election::Unchanged
    } else {
        Election::NoReliableMatch
    }) by {
        if let Election::Winner { origin, new } = outcome {
            assert(dominates(cast, cast[new as int]->Vote_0));
        }
    }
}

/// A keypoint whose neighbour lies off the scroll axis takes no part in the
/// vote: its ballot is the one of a keypoint that found no neighbour, so it
/// neither supports a shift nor counts as lying on the wrong side.
pub proof fn lemma_cross_axis_pairs_abstain(
    direction: ScrollDirection,
    min_diff: int,
    origins: Seq<ScrollOffset>,
    corner: ScrollOffset,
    found: NeighborMatch,
)
    requires
        cross_shift(direction, origins[found.origin as int], corner) != 0,
    ensures
        ballot_of(direction, min_diff, origins, corner, Some(found)) == Ballot::Abstain,
        ballot_of(direction, min_diff, origins, corner, Some(found)) == ballot_of(
            direction,
            min_diff,
            origins,
            corner,
            None,
        ),
{
}

/// What the vote among the keypoints of a frame decided.
#[derive(Clone, Copy, Debug, PartialEq, Eq, Structural)]
pub enum Election {
    /// Too many keypoints suggest a shift on the wrong side of the bound:
    /// the view did not move, or moved away from the searched edge.
    Unchanged,
    /// No shift has enough support, or two shifts are similarly plausible.
    NoReliableMatch,
    /// One shift won; `new` is the first keypoint of the frame that voted
    /// for it and `origin` the index entry it was matched with.
    Winner { origin: usize, new: usize },
}

/// Whether `outcome` is what the ballots `cast` call for.
pub open spec fn elected(
    cast: Seq<Ballot>,
    found: Seq<Option<NeighborMatch>>,
    outcome: Election,
) -> bool {
    match outcome {
        Election::Unchanged => is_unchanged(cast),
        Election::NoReliableMatch => !is_unchanged(cast) && forall|diff: int| !#[trigger] dominates(
            cast,
            diff,
        ),
        Election::Winner { origin, new } => {
            &&& !is_unchanged(cast)
            &&& is_first_vote(cast, new as int)
            &&& dominates(cast, cast[new as int]->Vote_0)
            &&& found[new as int] matches Some(m) && m.origin == origin
        },
    }
}

/// The ballots leave exactly one outcome.
pub proof fn lemma_election_is_determined(
    cast: Seq<Ballot>,
    found: Seq<Option<NeighborMatch>>,
    first: Election,
    second: Election,
)
    requires
        elected(cast, found, first),
        elected(cast, found, second),
    ensures
        first == second,
{
    if let Election::Winner { origin: o1, new: n1 } = first {
        if let Election::Winner { origin: o2, new: n2 } = second {
            lemma_winner_is_unique(cast, cast[n1 as int]->Vote_0, cast[n2 as int]->Vote_0);
            assert(cast[n1 as int] == cast[n2 as int]);
            if n1 < n2 {
                assert(cast[n1 as int] != cast[n2 as int]);
            }
            if n2 < n1 {
                assert(cast[n2 as int] != cast[n1 as int]);
            }
        }
    }
}

/// Displacement between two keypoints on both axes, ordered as (across,
/// along) for the given scroll direction.
fn shifts(direction: ScrollDirection, origin: ScrollOffset, corner: ScrollOffset) -> (r: (i64, i64))
    ensures
        r.0 == cross_shift(direction, origin, corner),
        r.1 == scroll_shift(direction, origin, corner),
{
    let dx: i64 = corner.x as i64 - origin.x as i64;
    let dy: i64 = corner.y as i64 - origin.y as i64;
    match direction {
        ScrollDirection::Vertical => (dx, dy),
        ScrollDirection::Horizontal => (dy, dx),
    }
}

/// The ballot of one keypoint in executable form: `None` stands for
/// `Abstain`, `Some(None)` for `WrongSide` and `Some(Some(d))` for a vote.
fn cast_ballot(
    direction: ScrollDirection,
    min_diff: i64,
    origins: &Vec<ScrollOffset>,
    corner: ScrollOffset,
    found: Option<NeighborMatch>,
) -> (r: Option<Option<i64>>)
    requires
        found matches Some(m) ==> m.origin < origins.len(),
    ensures
        match r {
            None => ballot_of(direction, min_diff as int, origins@, corner, found)
                == Ballot::Abstain,
            Some(None) => ballot_of(direction, min_diff as int, origins@, corner, found)
                == Ballot::WrongSide,
            Some(Some(d)) => ballot_of(direction, min_diff as int, origins@, corner, found)
                == Ballot::Vote(d as int),
        },
{
    match found {
        None => None,
        Some(m) => {
            let origin = origins[m.origin];
            let (across, along) = shifts(direction, origin, corner);
            if across != 0 {
                None
            } else if (min_diff < 0 && min_diff < along) || (min_diff > 0 && min_diff > along) {
                Some(None)
            } else if m.close {
                Some(Some(along))
            } else {
                None
            }
        },
    }
}

/// Counts the ballots: how many lie on the wrong side, and how many
/// support each shift.
fn count_ballots(
    direction: ScrollDirection,
    min_diff: i64,
    origins: &Vec<ScrollOffset>,
    corners: &Vec<ScrollOffset>,
    found: &Vec<Option<NeighborMatch>>,
) -> (r: (usize, HashMap<i64, usize>))
    requires
        found.len() == corners.len(),
        answers_fit(found@, origins@.len() as int),
    ensures
        r.0 == wrong_side(ballots(direction, min_diff as int, origins@, corners@, found@)),
        forall|d: i64| #[trigger]
            r.1@.contains_key(d) <==> support(
                ballots(direction, min_diff as int, origins@, corners@, found@),
                d as int,
            ) >= 1,
        forall|d: i64| #[trigger]
            r.1@.contains_key(d) ==> r.1@[d] == support(
                ballots(direction, min_diff as int, origins@, corners@, found@),
                d as int,
            ),
{
    broadcast use vstd::std_specs::hash::group_hash_axioms;

    let ghost cast = ballots(direction, min_diff as int, origins@, corners@, found@);
    let n = corners.len();
    let mut wrong: usize = 0;
    let mut counts: HashMap<i64, usize> = HashMap::new();
    let mut i: usize = 0;
    while i < n
        invariant
            n == corners.len(),
            found.len() == n,
            cast == ballots(direction, min_diff as int, origins@, corners@, found@),
            cast.len() == n,
            answers_fit(found@, origins@.len() as int),
            i <= n,
            wrong == tally(cast, Ballot::WrongSide, i as int),
            forall|d: i64| #[trigger]
                counts@.contains_key(d) <==> tally(cast, Ballot::Vote(d as int), i as int) >= 1,
            forall|d: i64| #[trigger]
                counts@.contains_key(d) ==> counts@[d] == tally(
                    cast,
                    Ballot::Vote(d as int),
                    i as int,
                ),
        decreases n - i,
    {
        let ballot = cast_ballot(direction, min_diff, origins, corners[i], found[i]);
        proof {
            lemma_tally_bounds(cast, Ballot::WrongSide, i as int);
            assert(cast[i as int] == ballot_of(
                direction,
                min_diff as int,
                origins@,
                corners@[i as int],
                found@[i as int],
            ));
        }
        match ballot {
            None => {},
            Some(None) => {
                wrong = wrong + 1;
            },
            Some(Some(d)) => {
                proof {
                    lemma_tally_bounds(cast, Ballot::Vote(d as int), i as int);
                }
                let seen: usize = match counts.get(&d) {
                    Some(c) => *c,
                    None => 0,
                };
                counts.insert(d, seen + 1);
                assert forall|e: i64| #[trigger]
                    counts@.contains_key(e) <==> tally(
                        cast,
                        Ballot::Vote(e as int),
                        i as int + 1,
                    ) >= 1 by {
                    lemma_tally_bounds(cast, Ballot::Vote(e as int), i as int);
                }
            },
        }
        i = i + 1;
    }
    (wrong, counts)
}

/// Runs the vote among the keypoints of a new frame.
///
/// `origins` are the keypoints stored in the index that was searched,
/// `corners` the keypoints of the new frame and `found` the answer of the
/// search for each of them. `min_diff` bounds the shifts that are
/// plausible at the searched edge.
pub fn elect(
    direction: ScrollDirection,
    min_diff: i64,
    origins: &Vec<ScrollOffset>,
    corners: &Vec<ScrollOffset>,
    found: &Vec<Option<NeighborMatch>>,
) -> (outcome: Election)
    requires
        found.len() == corners.len(),
        answers_fit(found@, origins@.len() as int),
    ensures
        elected(
            ballots(direction, min_diff as int, origins@, corners@, found@),
            found@,
            outcome,
        ),
{
    broadcast use vstd::std_specs::hash::group_hash_axioms;

    let ghost cast = ballots(direction, min_diff as int, origins@, corners@, found@);
    let n = corners.len();
    let (wrong, counts) = count_ballots(direction, min_diff, origins, corners, found);
    proof {
        lemma_tally_bounds(cast, Ballot::WrongSide, n as int);
    }
    if (wrong as u128) * 100 > (n as u128) * 72 {
        return Election::Unchanged;
    }
    // The most supported shift, with the first keypoint that voted for it.
    let mut best_count: usize = 0;
    let mut best_new: usize = 0;
    let mut best_diff: i64 = 0;
    let mut i: usize = 0;
    while i < n
        invariant
            n == corners.len(),
            found.len() == n,
            cast == ballots(direction, min_diff as int, origins@, corners@, found@),
            cast.len() == n,
            answers_fit(found@, origins@.len() as int),
            forall|d: i64| #[trigger]
                counts@.contains_key(d) <==> support(cast, d as int) >= 1,
            forall|d: i64| #[trigger]
                counts@.contains_key(d) ==> counts@[d] == support(cast, d as int),
            i <= n,
            best_count == 0 ==> forall|j: int| 0 <= j < i ==> !(#[trigger] cast[j] is Vote),
            best_count >= 1 ==> {
                &&& best_new < i
                &&& cast[best_new as int] == Ballot::Vote(best_diff as int)
                &&& best_count == support(cast, best_diff as int)
                &&& forall|j: int|
                    0 <= j < best_new ==> (#[trigger] cast[j] matches Ballot::Vote(e) ==> support(
                        cast,
                        e,
                    ) < best_count)
                &&& forall|j: int|
                    0 <= j < i ==> (#[trigger] cast[j] matches Ballot::Vote(e) ==> support(cast, e)
                        <= best_count)
            },
        decreases n - i,
    {
        let ballot = cast_ballot(direction, min_diff, origins, corners[i], found[i]);
        proof {
            assert(cast[i as int] == ballot_of(
                direction,
                min_diff as int,
                origins@,
                corners@[i as int],
                found@[i as int],
            ));
        }
        if let Some(Some(d)) = ballot {
            proof {
                lemma_tally_counts(cast, i as int, n as int);
            }
            let c: usize = match counts.get(&d) {
                Some(c) => *c,
                None => 0,
            };
            if c > best_count {
                best_count = c;
                best_new = i;
                best_diff = d;
            }
        }
        i = i + 1;
    }
    if best_count == 0 {
        proof {
            assert forall|diff: int| !#[trigger] dominates(cast, diff) by {
                if support(cast, diff) >= 1 {
                    let j = lemma_tally_witness(cast, Ballot::Vote(diff), n as int);
                    assert(cast[j] is Vote);
                }
            }
        }
        return Election::NoReliableMatch;
    }
    // The largest support among the other shifts.
    let mut second_count: usize = 0;
    let ghost mut second_diff: int = 0;
    let mut k: usize = 0;
    while k < n
        invariant
            n == corners.len(),
            found.len() == n,
            cast == ballots(direction, min_diff as int, origins@, corners@, found@),
            cast.len() == n,
            answers_fit(found@, origins@.len() as int),
            forall|d: i64| #[trigger]
                counts@.contains_key(d) <==> support(cast, d as int) >= 1,
            forall|d: i64| #[trigger]
                counts@.contains_key(d) ==> counts@[d] == support(cast, d as int),
            k <= n,
            second_count >= 1 ==> second_diff != best_diff && second_count == support(
                cast,
                second_diff,
            ),
            forall|j: int|
                0 <= j < k ==> (#[trigger] cast[j] matches Ballot::Vote(e) ==> e == best_diff
                    || support(cast, e) <= second_count),
        decreases n - k,
    {
        let ballot = cast_ballot(direction, min_diff, origins, corners[k], found[k]);
        proof {
            assert(cast[k as int] == ballot_of(
                direction,
                min_diff as int,
                origins@,
                corners@[k as int],
                found@[k as int],
            ));
        }
        if let Some(Some(d)) = ballot {
            proof {
                lemma_tally_counts(cast, k as int, n as int);
            }
            if d != best_diff {
                let c: usize = match counts.get(&d) {
                    Some(c) => *c,
                    None => 0,
                };
                if c > second_count {
                    second_count = c;
                    proof {
                        second_diff = d as int;
                    }
                }
            }
        }
        k = k + 1;
    }
    let enough = (best_count as u128) * 10 >= (n as u128);
    let clear = (best_count as u128) >= (second_count as u128) * 2;
    proof {
        lemma_tally_bounds(cast, Ballot::Vote(best_diff as int), n as int);
    }
    if enough && clear {
        proof {
            assert forall|other: int| other != best_diff as int implies support(
                cast,
                best_diff as int,
            ) >= 2 * #[trigger] support(cast, other) by {
                if support(cast, other) >= 1 {
                    let j = lemma_tally_witness(cast, Ballot::Vote(other), n as int);
                    assert(cast[j] matches Ballot::Vote(e) && e == other);
                } else {
                    lemma_tally_bounds(cast, Ballot::Vote(other), n as int);
                }
            }
            assert forall|j: int| 0 <= j < best_new implies cast[j] != cast[best_new as int] by {
                if cast[j] == cast[best_new as int] {
                    assert(cast[j] matches Ballot::Vote(e) && e == best_diff as int);
                }
            }
        }
        match found[best_new] {
            Some(m) => Election::Winner { origin: m.origin, new: best_new },
            None => {
                proof {
                    assert(cast[best_new as int] == ballot_of(
                        direction,
                        min_diff as int,
                        origins@,
                        corners@[best_new as int],
                        found@[best_new as int],
                    ));
                }
                Election::NoReliableMatch
            },
        }
    } else {
        proof {
            assert forall|diff: int| !#[trigger] dominates(cast, diff) by {
                if dominates(cast, diff) {
                    if diff == best_diff as int {
                        if !clear {
                            assert(support(cast, best_diff as int) >= 2 * support(
                                cast,
                                second_diff,
                            ));
                        }
                    } else {
                        let j = lemma_tally_witness(cast, Ballot::Vote(diff), n as int);
                        assert(cast[j] matches Ballot::Vote(e) && e == diff);
                        assert(support(cast, diff) >= 2 * support(cast, best_diff as int));
                    }
                }
            }
        }
        Election::NoReliableMatch
    }
}

} // verus!
