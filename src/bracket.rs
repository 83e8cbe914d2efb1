//! Locating a damage threshold among the samples of a DPS profile.
//!
//! Each sample's cumulative damage (its time times its DPS) is compared
//! with the threshold by the caller; this module works on the outcomes of
//! those comparisons and decides which samples bracket the threshold and
//! which estimate applies.
use vstd::prelude::*;

verus! {

/// How one sample's cumulative damage compares with the threshold.
#[derive(Clone, Copy, Debug, PartialEq, Eq, Structural)]
pub enum Side {
    /// Strictly less than the threshold.
    Below,
    /// Exactly equal to the threshold.
    Equal,
    /// Strictly greater than the threshold.
    Above,
    /// Not comparable (a NaN took part in the comparison).
    Unordered,
}

/// The outcome that `Option<Ordering>` (as `partial_cmp` of a sample's
/// cumulative damage with the threshold returns it) stands for.
pub open spec fn side_spec(o: Option<std::cmp::Ordering>) -> Side {
    match o {
        Some(std::cmp::Ordering::Less) => Side::Below,
        Some(std::cmp::Ordering::Equal) => Side::Equal,
        Some(std::cmp::Ordering::Greater) => Side::Above,
        None => Side::Unordered,
    }
}

impl Side {
    pub fn from_comparison(o: Option<std::cmp::Ordering>) -> (r: Side)
        ensures
            r == side_spec(o),
    {
        match o {
            Some(std::cmp::Ordering::Less) => Side::Below,
            Some(std::cmp::Ordering::Equal) => Side::Equal,
            Some(std::cmp::Ordering::Greater) => Side::Above,
            None => Side::Unordered,
        }
    }
}

/// Scans from the high end for the last sample whose cumulative damage is
/// below the threshold.
pub fn find_lower(sides: &Vec<Side>) -> (r: Option<usize>)
    ensures
        match r {
            None => forall|i: int| 0 <= i < sides@.len() ==> sides@[i] != Side::Below,
            Some(i) => {
                &&& i < sides@.len()
                &&& sides@[i as int] == Side::Below
                &&& forall|j: int| i < j < sides@.len() ==> sides@[j] != Side::Below
            },
        },
{
    let mut k: usize = sides.len();
    while k > 0
        invariant
            k <= sides@.len(),
            forall|j: int| k <= j < sides@.len() ==> sides@[j] != Side::Below,
        decreases k,
    {
        k = k - 1;
        if sides[k] == Side::Below {
            return Some(k);
        }
    }
    None
}

/// Scans from the low end for the first sample whose cumulative damage is
/// above the threshold.
pub fn find_upper(sides: &Vec<Side>) -> (r: Option<usize>)
    ensures
        match r {
            None => forall|i: int| 0 <= i < sides@.len() ==> sides@[i] != Side::Above,
            Some(i) => {
                &&& i < sides@.len()
                &&& sides@[i as int] == Side::Above
                &&& forall|j: int| 0 <= j < i ==> sides@[j] != Side::Above
            },
        },
{
    let mut k: usize = 0;
    while k < sides.len()
        invariant
            k <= sides@.len(),
            forall|j: int| 0 <= j < k ==> sides@[j] != Side::Above,
        decreases sides@.len() - k,
    {
        if sides[k] == Side::Above {
            return Some(k);
        }
        k = k + 1;
    }
    None
}

/// The samples that bracket the threshold.
#[derive(Clone, Copy, Debug, PartialEq, Eq, Structural)]
pub enum Bracket {
    /// `sample` is the first sample whose cumulative damage equals the
    /// threshold.
    Exact { sample: usize },
    /// No sample lies below the threshold; `upper` is the first above it.
    BelowRange { upper: usize },
    /// No sample lies above the threshold; `lower` is the last below it.
    AboveRange { lower: usize },
    /// `lower` is the last sample below and `upper` the first above.
    Within { lower: usize, upper: usize },
}

/// Faults of the threshold solver.
#[derive(Clone, Copy, Debug, PartialEq, Eq, Structural)]
pub enum SolveError {
    /// No sample lies below, at or above the threshold (there are none, or
    /// none compares): the profile cannot be ordered against it.
    UnsortedProfile,
    /// The square-root argument of the constant-acceleration estimate is
    /// negative: the profile is inconsistent with the model.
    NegativeDiscriminant,
}

/// How the crossing time is computed once the bracket is known.
#[derive(Clone, Copy, Debug, PartialEq, Eq, Structural)]
pub enum Estimate {
    /// The time of `sample`, whose cumulative damage is the threshold.
    Exact { sample: usize },
    /// Zero acceleration at the rate of `sample`: `threshold / dps`.
    Plateau { sample: usize },
    /// Constant rate from `lower`:
    /// `lower.time + (threshold - lower.cumulative) / lower.dps`.
    Linear { lower: usize },
    /// Constant acceleration from `lower` towards `upper`.
    Accelerated { lower: usize, upper: usize },
}

/// `i` is the last index of `sides` that lies below the threshold.
pub open spec fn is_last_below(sides: Seq<Side>, i: int) -> bool {
    &&& 0 <= i < sides.len()
    &&& sides[i] == Side::Below
    &&& forall|j: int| i < j < sides.len() ==> sides[j] != Side::Below
}

/// `i` is the first index of `sides` that lies above the threshold.
pub open spec fn is_first_above(sides: Seq<Side>, i: int) -> bool {
    &&& 0 <= i < sides.len()
    &&& sides[i] == Side::Above
    &&& forall|j: int| 0 <= j < i ==> sides[j] != Side::Above
}

/// `i` is the first index of `sides` that equals the threshold.
pub open spec fn is_first_equal(sides: Seq<Side>, i: int) -> bool {
    &&& 0 <= i < sides.len()
    &&& sides[i] == Side::Equal
    &&& forall|j: int| 0 <= j < i ==> sides[j] != Side::Equal
}

/// Some sample has the outcome `s`.
pub open spec fn has_side(sides: Seq<Side>, s: Side) -> bool {
    exists|i: int| 0 <= i < sides.len() && sides[i] == s
}

/// What `locate` yields for the comparison outcomes `sides`: the first
/// exact hit if there is one, else the samples on either side.
pub open spec fn locate_spec(sides: Seq<Side>, r: Result<Bracket, SolveError>) -> bool {
    match r {
        Err(e) => {
            &&& e == SolveError::UnsortedProfile
            &&& !has_side(sides, Side::Below)
            &&& !has_side(sides, Side::Equal)
            &&& !has_side(sides, Side::Above)
        },
        Ok(Bracket::Exact { sample }) => is_first_equal(sides, sample as int),
        Ok(Bracket::BelowRange { upper }) => {
            &&& !has_side(sides, Side::Equal)
            &&& !has_side(sides, Side::Below)
            &&& is_first_above(sides, upper as int)
        },
        Ok(Bracket::AboveRange { lower }) => {
            &&& !has_side(sides, Side::Equal)
            &&& !has_side(sides, Side::Above)
            &&& is_last_below(sides, lower as int)
        },
        Ok(Bracket::Within { lower, upper }) => {
            &&& !has_side(sides, Side::Equal)
            &&& is_last_below(sides, lower as int)
            &&& is_first_above(sides, upper as int)
        },
    }
}

/// Scans from the low end for the first sample whose cumulative damage
/// equals the threshold.
pub fn find_exact(sides: &Vec<Side>) -> (r: Option<usize>)
    ensures
        match r {
            None => !has_side(sides@, Side::Equal),
            Some(i) => is_first_equal(sides@, i as int),
        },
{
    let mut k: usize = 0;
    while k < sides.len()
        invariant
            k <= sides@.len(),
            forall|j: int| 0 <= j < k ==> sides@[j] != Side::Equal,
        decreases sides@.len() - k,
    {
        if sides[k] == Side::Equal {
            return Some(k);
        }
        k = k + 1;
    }
    None
}

/// Finds the sample that meets the threshold exactly, or else the samples
/// that bracket it; reports an unsorted profile when no sample compares
/// with it at all.
pub fn locate(sides: &Vec<Side>) -> (r: Result<Bracket, SolveError>)
    ensures
        locate_spec(sides@, r),
{
    if let Some(sample) = find_exact(sides) {
        return Ok(Bracket::Exact { sample });
    }
    let lower = find_lower(sides);
    let upper = find_upper(sides);
    match (lower, upper) {
        (None, Some(upper)) => Ok(Bracket::BelowRange { upper }),
        (Some(lower), None) => Ok(Bracket::AboveRange { lower }),
        (Some(lower), Some(upper)) => Ok(Bracket::Within { lower, upper }),
        (None, None) => Err(SolveError::UnsortedProfile),
    }
}

/// The estimate for a bracket. `same_rate` tells whether the two samples of
/// a `Within` bracket have equal DPS (zero acceleration between them).
pub open spec fn plan_spec(b: Bracket, same_rate: bool) -> Estimate {
    match b {
        Bracket::Exact { sample } => Estimate::Exact { sample },
        Bracket::BelowRange { upper } => Estimate::Plateau { sample: upper },
        Bracket::AboveRange { lower } => Estimate::Plateau { sample: lower },
        Bracket::Within { lower, upper } => if same_rate {
            Estimate::Linear { lower }
        } else {
            Estimate::Accelerated { lower, upper }
        },
    }
}

/// Chooses the estimate: the sample's own time on an exact hit, zero
/// acceleration outside the sampled range, constant rate between samples
/// of equal DPS, constant acceleration otherwise.
pub fn plan(b: Bracket, same_rate: bool) -> (r: Estimate)
    ensures
        r == plan_spec(b, same_rate),
{
    match b {
        Bracket::Exact { sample } => Estimate::Exact { sample },
        Bracket::BelowRange { upper } => Estimate::Plateau { sample: upper },
        Bracket::AboveRange { lower } => Estimate::Plateau { sample: lower },
        Bracket::Within { lower, upper } => {
            if same_rate {
                Estimate::Linear { lower }
            } else {
                Estimate::Accelerated { lower, upper }
            }
        },
    }
}

/// Position of a comparison outcome in the order Below < Equal < Above.
pub open spec fn rank(s: Side) -> int {
    match s {
        Side::Below => 0,
        Side::Equal => 1,
        Side::Above => 2,
        Side::Unordered => 3,
    }
}

/// The outcomes of comparing a threshold with samples whose cumulative
/// damage strictly increases with their index: every outcome is ordered,
/// they never decrease along the profile, and at most one is `Equal`.
pub open spec fn strictly_increasing(sides: Seq<Side>) -> bool {
    forall|i: int, j: int|
        0 <= i < j < sides.len() ==> {
            &&& #[trigger] sides[i] != Side::Unordered
            &&& #[trigger] sides[j] != Side::Unordered
            &&& rank(sides[i]) <= rank(sides[j])
            &&& !(sides[i] == Side::Equal && sides[j] == Side::Equal)
        }
}

/// A threshold equal to the cumulative damage of sample `k` is met exactly
/// at `k`, whose own time is the estimate.
pub proof fn lemma_exact_sample(
    sides: Seq<Side>,
    k: int,
    r: Result<Bracket, SolveError>,
    same_rate: bool,
)
    requires
        strictly_increasing(sides),
        0 <= k < sides.len(),
        sides[k] == Side::Equal,
        locate_spec(sides, r),
    ensures
        r == Ok::<Bracket, SolveError>(Bracket::Exact { sample: k as usize }),
        plan_spec(r->Ok_0, same_rate) == (Estimate::Exact { sample: k as usize }),
{
    assert(has_side(sides, Side::Equal));
    if let Ok(Bracket::Exact { sample }) = r {
        let s = sample as int;
        if s < k {
            assert(!(sides[s] == Side::Equal && sides[k] == Side::Equal));
        }
    }
}

/// A threshold strictly between the cumulative damage of two adjacent
/// samples `i` and `i + 1` is bracketed by exactly those two samples.
pub proof fn lemma_adjacent_bracket(sides: Seq<Side>, i: int, r: Result<Bracket, SolveError>)
    requires
        strictly_increasing(sides),
        0 <= i,
        i + 1 < sides.len(),
        sides[i] == Side::Below,
        sides[i + 1] == Side::Above,
        locate_spec(sides, r),
    ensures
        r == Ok::<Bracket, SolveError>(
            Bracket::Within { lower: i as usize, upper: (i + 1) as usize },
        ),
{
    assert forall|j: int| 0 <= j < i implies sides[j] == Side::Below by {
        assert(rank(sides[j]) <= rank(sides[i]));
    }
    assert forall|j: int| i + 1 < j < sides.len() implies sides[j] == Side::Above by {
        assert(rank(sides[i + 1]) <= rank(sides[j]));
    }
}

/// Below the first sample's cumulative damage the estimate is a plateau at
/// the first sample's rate; above the last sample's, a plateau at the last
/// sample's rate.
pub proof fn lemma_out_of_range_plateau(
    sides: Seq<Side>,
    r: Result<Bracket, SolveError>,
    same_rate: bool,
)
    requires
        strictly_increasing(sides),
        sides.len() > 0,
        locate_spec(sides, r),
    ensures
        sides[0] == Side::Above ==> r == Ok::<Bracket, SolveError>(Bracket::BelowRange { upper: 0 })
            && plan_spec(r->Ok_0, same_rate) == (Estimate::Plateau { sample: 0 }),
        sides.last() == Side::Below ==> r == Ok::<Bracket, SolveError>(
            Bracket::AboveRange { lower: (sides.len() - 1) as usize },
        ) && plan_spec(r->Ok_0, same_rate) == (Estimate::Plateau {
            sample: (sides.len() - 1) as usize,
        }),
{
    let n = sides.len();
    if sides[0] == Side::Above {
        assert forall|j: int| 0 <= j < n implies sides[j] == Side::Above by {
            if j > 0 {
                assert(rank(sides[0]) <= rank(sides[j]));
            }
        }
    }
    if sides[n - 1] == Side::Below {
        assert forall|j: int| 0 <= j < n implies sides[j] == Side::Below by {
            if j < n - 1 {
                assert(rank(sides[j]) <= rank(sides[n - 1]));
            }
        }
    }
}

} // verus!
