use vstd::prelude::*;

use crate::table::{reroll_step, RerollStep, MAX_PLACEMENT_ATTEMPTS};

verus! {

/// Draw number `i` of a reroll loop was made and judged unrealistic: some
/// outcome of `draw(i)` was rejected by `realistic(i, _)`.
pub open spec fn rejected_at<T, D: Fn(u32) -> T, A: Fn(u32, &T) -> bool>(draw: &D, realistic: &A, i: u32) -> bool {
    exists|t: T| draw.ensures((i,), t) && #[trigger] realistic.ensures((i, &t), false)
}

/// Rerolls a random layout until it is realistic: `draw(i)` makes draw
/// number `i`, placing the cue ball and the object ball at random (clear of
/// cushions, pockets and each other), and `realistic(i, layout)` says
/// whether some pocket offers a makeable cut. After each draw `reroll_step`
/// decides: the first realistic draw is the result; an unrealistic one is
/// followed by another while fewer than `MAX_PLACEMENT_ATTEMPTS` have been
/// judged; after that one more draw is returned unchecked.
///
/// Draws are numbered from 0 and made only with numbers up to
/// `MAX_PLACEMENT_ATTEMPTS` (so at most `MAX_PLACEMENT_ATTEMPTS + 1` draws),
/// and judged only with numbers below it. The result is draw number `k`,
/// every draw before it was rejected, and it was accepted itself unless
/// `k == MAX_PLACEMENT_ATTEMPTS`.
pub fn random_shot_setup<T, D: Fn(u32) -> T, A: Fn(u32, &T) -> bool>(draw: &D, realistic: &A) -> (r: T)
    requires
        forall|i: u32| i <= MAX_PLACEMENT_ATTEMPTS ==> #[trigger] draw.requires((i,)),
        forall|i: u32, t: &T| i < MAX_PLACEMENT_ATTEMPTS ==> #[trigger] realistic.requires((i, t)),
    ensures
        exists|k: u32| {
            &&& k <= MAX_PLACEMENT_ATTEMPTS
            &&& #[trigger] draw.ensures((k,), r)
            &&& k < MAX_PLACEMENT_ATTEMPTS ==> realistic.ensures((k, &r), true)
            &&& forall|i: u32| i < k ==> #[trigger] rejected_at(draw, realistic, i)
        },
{
    let mut attempt: u32 = 0;
    loop
        invariant
            attempt < MAX_PLACEMENT_ATTEMPTS,
            forall|i: u32| i <= MAX_PLACEMENT_ATTEMPTS ==> #[trigger] draw.requires((i,)),
            forall|i: u32, t: &T| i < MAX_PLACEMENT_ATTEMPTS ==> #[trigger] realistic.requires((i, t)),
            forall|i: u32| i < attempt ==> #[trigger] rejected_at(draw, realistic, i),
        decreases MAX_PLACEMENT_ATTEMPTS - attempt,
    {
        let candidate = draw(attempt);
        let accepted = realistic(attempt, &candidate);
        if !accepted {
            assert(rejected_at(draw, realistic, attempt));
        }
        match reroll_step(attempt, accepted) {
            RerollStep::Keep => {
                assert(draw.ensures((attempt,), candidate));
                return candidate;
            },
            RerollStep::Exhausted => {
                let last = draw(MAX_PLACEMENT_ATTEMPTS);
                assert(forall|i: u32| i < MAX_PLACEMENT_ATTEMPTS ==> #[trigger] rejected_at(draw, realistic, i)) by {
                    assert forall|i: u32| i < MAX_PLACEMENT_ATTEMPTS implies #[trigger] rejected_at(draw, realistic, i) by {
                        if i < attempt {
                        } else {
                            assert(i == attempt);
                        }
                    }
                }
                assert(draw.ensures((MAX_PLACEMENT_ATTEMPTS,), last));
                return last;
            },
            RerollStep::Retry => {
                assert forall|i: u32| i < attempt + 1 implies #[trigger] rejected_at(draw, realistic, i) by {
                    if i < attempt {
                    } else {
                        assert(i == attempt);
                    }
                }
                attempt += 1;
            },
        }
    }
}

/// Lengths, distances and angles of the table geometry enter the choices
/// below through order keys: integers that sort exactly as the measured
/// values do, so comparing two keys decides what comparing the two values
/// would.
///
/// The first index holding the smallest key of `keys` (entries without a
/// key take no part); earlier indices win ties.
pub open spec fn is_first_min(keys: Seq<Option<u32>>, i: int) -> bool {
    &&& 0 <= i < keys.len()
    &&& keys[i] is Some
    &&& forall|j: int| 0 <= j < keys.len() && #[trigger] keys[j] is Some ==> {
        &&& j < i ==> keys[j]->0 > keys[i]->0
        &&& i < j ==> keys[j]->0 >= keys[i]->0
    }
}

/// No entry of `keys` holds a key.
pub open spec fn all_absent(keys: Seq<Option<u32>>) -> bool {
    forall|j: int| 0 <= j < keys.len() ==> #[trigger] keys[j] is None
}

/// Scans `keys` in order, keeping the first strictly smaller key seen.
fn first_min(keys: &Vec<Option<u32>>) -> (r: Option<usize>)
    ensures
        r matches Some(i) ==> is_first_min(keys@, i as int),
        r is None ==> all_absent(keys@),
{
    let mut best: Option<usize> = None;
    let mut i: usize = 0;
    while i < keys.len()
        invariant
            i <= keys@.len(),
            best matches Some(b) ==> b < i && is_first_min(keys@.take(i as int), b as int),
            best is None ==> all_absent(keys@.take(i as int)),
        decreases keys@.len() - i,
    {
        let ghost prefix = keys@.take(i as int);
        assert(keys@.take(i + 1) =~= prefix.push(keys@[i as int]));
        if let Some(k) = keys[i] {
            let better = match best {
                None => true,
                Some(b) => k < keys[b].unwrap(),
            };
            if better {
                best = Some(i);
            }
        }
        i += 1;
    }
    assert(keys@.take(keys@.len() as int) =~= keys@);
    best
}

/// What the geometry says about one pocket for the current layout: the
/// order key of its distance from the object ball (`None` when the object
/// ball sits on the pocket itself) and of the cut angle needed to pot into
/// it (`None` when the cue ball could not sit at the required contact point,
/// or the contact point coincides with the cue ball).
#[derive(Clone, Copy, Debug, PartialEq, Eq)]
pub struct PocketMeasure {
    pub distance: Option<u32>,
    pub cut: Option<u32>,
}

/// The pocket chosen for a layout: `pocket` is the one whose departure
/// direction is used (`None` when no pocket was measurable at all), and
/// `cut_from` the pocket whose cut angle is reported (`None` when no pocket
/// had a reachable contact point).
#[derive(Clone, Copy, Debug, PartialEq, Eq)]
pub struct PocketChoice {
    pub pocket: Option<usize>,
    pub cut_from: Option<usize>,
}

pub open spec fn cut_keys(measures: Seq<PocketMeasure>) -> Seq<Option<u32>> {
    measures.map_values(|m: PocketMeasure| m.cut)
}

pub open spec fn distance_keys(measures: Seq<PocketMeasure>) -> Seq<Option<u32>> {
    measures.map_values(|m: PocketMeasure| m.distance)
}

/// The smallest cut found (at `cut_from`) is at most `max_cut`.
pub open spec fn cut_is_makeable(measures: Seq<PocketMeasure>, cut_from: Option<usize>, max_cut: u32) -> bool {
    match cut_from {
        Some(b) => measures[b as int].cut->0 <= max_cut,
        None => false,
    }
}

/// Picks the pocket that gives the easiest pot: the smallest cut angle
/// among pockets with a reachable contact point (the first one on ties),
/// provided that cut is at most `max_cut` (the order key of the largest
/// makeable cut); otherwise it falls back to the nearest pocket (the first
/// one on ties) while still reporting the smallest cut found.
pub fn best_pocket(measures: &Vec<PocketMeasure>, max_cut: u32) -> (c: PocketChoice)
    ensures
        c.cut_from matches Some(b) ==> is_first_min(cut_keys(measures@), b as int),
        c.cut_from is None ==> all_absent(cut_keys(measures@)),
        cut_is_makeable(measures@, c.cut_from, max_cut) ==> c.pocket == c.cut_from,
        !cut_is_makeable(measures@, c.cut_from, max_cut) ==> (match c.pocket {
            Some(n) => is_first_min(distance_keys(measures@), n as int),
            None => all_absent(distance_keys(measures@)),
        }),
        c.cut_from matches Some(b) ==> {
            &&& b < measures@.len()
            &&& measures@[b as int].cut is Some
            &&& forall|j: int| 0 <= j < measures@.len() && #[trigger] measures@[j].cut is Some ==> {
                &&& measures@[b as int].cut->0 <= measures@[j].cut->0
                &&& j < b ==> measures@[b as int].cut->0 < measures@[j].cut->0
            }
        },
        c.cut_from is None ==> forall|j: int| 0 <= j < measures@.len() ==> #[trigger] measures@[j].cut is None,
        (c.cut_from is Some && measures@[c.cut_from->0 as int].cut->0 <= max_cut) ==> c.pocket == c.cut_from,
        !(c.cut_from is Some && measures@[c.cut_from->0 as int].cut->0 <= max_cut) ==> (match c.pocket {
            Some(n) => {
                &&& n < measures@.len()
                &&& measures@[n as int].distance is Some
                &&& forall|j: int| 0 <= j < measures@.len() && #[trigger] measures@[j].distance is Some ==> {
                    &&& measures@[n as int].distance->0 <= measures@[j].distance->0
                    &&& j < n ==> measures@[n as int].distance->0 < measures@[j].distance->0
                }
            },
            None => forall|j: int| 0 <= j < measures@.len() ==> #[trigger] measures@[j].distance is None,
        }),
{
    let mut cuts: Vec<Option<u32>> = Vec::new();
    let mut distances: Vec<Option<u32>> = Vec::new();
    let mut i: usize = 0;
    while i < measures.len()
        invariant
            i <= measures@.len(),
            cuts@ =~= cut_keys(measures@.take(i as int)),
            distances@ =~= distance_keys(measures@.take(i as int)),
        decreases measures@.len() - i,
    {
        assert(measures@.take(i + 1) =~= measures@.take(i as int).push(measures@[i as int]));
        cuts.push(measures[i].cut);
        distances.push(measures[i].distance);
        i += 1;
    }
    assert(measures@.take(measures@.len() as int) =~= measures@);
    let best = first_min(&cuts);
    match best {
        Some(b) => {
            if measures[b].cut.unwrap() <= max_cut {
                let c = PocketChoice { pocket: Some(b), cut_from: Some(b) };
                proof {
                    best_pocket_prefers_the_straightest_makeable_cut(measures@, max_cut, c);
                }
                return c;
            }
        },
        None => {},
    }
    let c = PocketChoice { pocket: first_min(&distances), cut_from: best };
    proof {
        best_pocket_prefers_the_straightest_makeable_cut(measures@, max_cut, c);
    }
    c
}

/// The entry keys of `entries` that lie strictly before `cushion`; the
/// others are dropped (`None`).
pub open spec fn entered_before(entries: Seq<Option<u32>>, cushion: u32) -> Seq<Option<u32>> {
    entries.map_values(|e: Option<u32>| if e matches Some(t) && t < cushion { e } else { None })
}

/// Which pocket a shot's object ball falls into: each entry is the order
/// key of where along its path the ball's center first enters that
/// pocket's circle (`None` if it never does), and `cushion` the key of
/// where it reaches the cushion. Only pockets entered strictly before the
/// cushion count; of those the earliest wins (the first one on ties).
pub fn earliest_pocket(entries: &Vec<Option<u32>>, cushion: u32) -> (r: Option<usize>)
    ensures
        r matches Some(i) ==> is_first_min(entered_before(entries@, cushion), i as int),
        r is None ==> all_absent(entered_before(entries@, cushion)),
        r matches Some(i) ==> {
            &&& i < entries@.len()
            &&& entries@[i as int] is Some
            &&& entries@[i as int]->0 < cushion
            &&& forall|j: int| 0 <= j < entries@.len() && #[trigger] entries@[j] is Some && entries@[j]->0 < cushion ==> {
                &&& entries@[i as int]->0 <= entries@[j]->0
                &&& j < i ==> entries@[i as int]->0 < entries@[j]->0
            }
        },
        r is None ==> forall|j: int| 0 <= j < entries@.len() && #[trigger] entries@[j] is Some ==> entries@[j]->0 >= cushion,
{
    let ghost before = entered_before(entries@, cushion);
    let mut keys: Vec<Option<u32>> = Vec::new();
    let mut i: usize = 0;
    while i < entries.len()
        invariant
            i <= entries@.len(),
            before == entered_before(entries@, cushion),
            keys@ =~= before.take(i as int),
        decreases entries@.len() - i,
    {
        let k = match entries[i] {
            Some(t) => if t < cushion { Some(t) } else { None },
            None => None,
        };
        keys.push(k);
        i += 1;
    }
    assert(keys@ =~= before);
    let r = first_min(&keys);
    proof {
        match r {
            Some(i) => pot_only_before_the_cushion(entries@, cushion, i as int),
            None => {
                assert forall|j: int| 0 <= j < entries@.len() && #[trigger] entries@[j] is Some implies entries@[j]->0 >= cushion by {
                    assert(before[j] is None);
                }
            },
        }
    }
    r
}

/// A shot only pots into a pocket whose circle the ball enters strictly
/// before it reaches the cushion, and of the pockets entered before the
/// cushion none is entered earlier than the one chosen, nor as early by a
/// pocket listed before it.
pub proof fn pot_only_before_the_cushion(entries: Seq<Option<u32>>, cushion: u32, i: int)
    requires
        is_first_min(entered_before(entries, cushion), i),
    ensures
        0 <= i < entries.len(),
        entries[i] is Some,
        entries[i]->0 < cushion,
        forall|j: int| 0 <= j < entries.len() && #[trigger] entries[j] is Some && entries[j]->0 < cushion ==> {
            &&& entries[i]->0 <= entries[j]->0
            &&& j < i ==> entries[i]->0 < entries[j]->0
        },
{
    let before = entered_before(entries, cushion);
    assert(before[i] == entries[i]);
    assert forall|j: int| 0 <= j < entries.len() && #[trigger] entries[j] is Some && entries[j]->0 < cushion implies {
        &&& entries[i]->0 <= entries[j]->0
        &&& j < i ==> entries[i]->0 < entries[j]->0
    } by {
        assert(before[j] == entries[j]);
    }
}

/// What any choice meeting `best_pocket`'s contract is, in terms of the
/// measurements: `cut_from` is the first pocket with the smallest cut key
/// (none when no pocket has a cut); when that cut is at most `max_cut` its
/// pocket is the target, and otherwise the target is the first pocket with
/// the smallest distance key (none when no pocket was measurable).
pub proof fn best_pocket_prefers_the_straightest_makeable_cut(measures: Seq<PocketMeasure>, max_cut: u32, c: PocketChoice)
    requires
        c.cut_from matches Some(b) ==> is_first_min(cut_keys(measures), b as int),
        c.cut_from is None ==> all_absent(cut_keys(measures)),
        cut_is_makeable(measures, c.cut_from, max_cut) ==> c.pocket == c.cut_from,
        !cut_is_makeable(measures, c.cut_from, max_cut) ==> (match c.pocket {
            Some(n) => is_first_min(distance_keys(measures), n as int),
            None => all_absent(distance_keys(measures)),
        }),
    ensures
        c.cut_from matches Some(b) ==> {
            &&& b < measures.len()
            &&& measures[b as int].cut is Some
            &&& forall|j: int| 0 <= j < measures.len() && #[trigger] measures[j].cut is Some ==> {
                &&& measures[b as int].cut->0 <= measures[j].cut->0
                &&& j < b ==> measures[b as int].cut->0 < measures[j].cut->0
            }
        },
        c.cut_from is None ==> forall|j: int| 0 <= j < measures.len() ==> #[trigger] measures[j].cut is None,
        (c.cut_from is Some && measures[c.cut_from->0 as int].cut->0 <= max_cut) ==> c.pocket == c.cut_from,
        !(c.cut_from is Some && measures[c.cut_from->0 as int].cut->0 <= max_cut) ==> (match c.pocket {
            Some(n) => {
                &&& n < measures.len()
                &&& measures[n as int].distance is Some
                &&& forall|j: int| 0 <= j < measures.len() && #[trigger] measures[j].distance is Some ==> {
                    &&& measures[n as int].distance->0 <= measures[j].distance->0
                    &&& j < n ==> measures[n as int].distance->0 < measures[j].distance->0
                }
            },
            None => forall|j: int| 0 <= j < measures.len() ==> #[trigger] measures[j].distance is None,
        }),
{
    let ck = cut_keys(measures);
    let dk = distance_keys(measures);
    assert forall|j: int| 0 <= j < measures.len() implies ck[j] == #[trigger] measures[j].cut && dk[j] == measures[j].distance by {}
    assert(ck.len() == measures.len() && dk.len() == measures.len());
    if !(c.cut_from is Some && measures[c.cut_from->0 as int].cut->0 <= max_cut) {
        if let Some(n) = c.pocket {
            assert forall|j: int| 0 <= j < measures.len() && #[trigger] measures[j].distance is Some implies {
                &&& measures[n as int].distance->0 <= measures[j].distance->0
                &&& j < n ==> measures[n as int].distance->0 < measures[j].distance->0
            } by {
                assert(dk[j] == measures[j].distance);
                assert(dk[n as int] == measures[n as int].distance);
            }
        } else {
            assert forall|j: int| 0 <= j < measures.len() implies #[trigger] measures[j].distance is None by {
                assert(dk[j] == measures[j].distance);
            }
        }
    }
    if let Some(b) = c.cut_from {
        assert forall|j: int| 0 <= j < measures.len() && #[trigger] measures[j].cut is Some implies {
            &&& measures[b as int].cut->0 <= measures[j].cut->0
            &&& j < b ==> measures[b as int].cut->0 < measures[j].cut->0
        } by {
            assert(ck[j] == measures[j].cut);
            assert(ck[b as int] == measures[b as int].cut);
        }
    }
}

} // verus!
