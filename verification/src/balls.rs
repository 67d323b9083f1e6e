//! Ball volumes: which observation is the neighbour of which.
//!
//! The volume of the ball round a query point is twice its distance to a
//! neighbour in the index set. The distances are the caller's work, and so is
//! the search for the nearest neighbours; this module decides which
//! observations form the index set, which are query points, and which of the
//! neighbours that a search returned gives the volume.

use vstd::prelude::*;
use crate::error::MhdeError;

verus! {

/// How many neighbours are asked of the index for each query point.
pub const NEIGHBOURS: usize = 2;

/// The place, among the neighbours in ascending distance, of the one that gives
/// the volume. Where the query point is itself in the index it takes the first
/// place, at distance zero, and this is its nearest other point. Where it is
/// not (split mode), the nearest point of all is passed over just the same.
pub const NEAREST: usize = 1;

/// The two parts of a sample, as half-open ranges of positions in it.
#[derive(Clone, Copy, Debug, PartialEq, Eq, Structural)]
pub struct BallPlan {
    /// First position of the index set.
    pub index_start: usize,
    /// One past the last position of the index set.
    pub index_end: usize,
    /// First position of the query points.
    pub query_start: usize,
    /// One past the last position of the query points.
    pub query_end: usize,
}

impl BallPlan {
    /// The number of points in the index set.
    pub open spec fn index_len(self) -> int {
        self.index_end - self.index_start
    }

    /// The number of query points.
    pub open spec fn query_len(self) -> int {
        self.query_end - self.query_start
    }

    /// The position `at` of the sample is in the index set.
    pub open spec fn indexes(self, at: int) -> bool {
        self.index_start <= at < self.index_end
    }

    /// The position `at` of the sample is a query point.
    pub open spec fn queries(self, at: int) -> bool {
        self.query_start <= at < self.query_end
    }
}

/// A query point and the neighbour that gives its volume, both as positions in
/// the sample: the volume is twice the distance between the two observations.
#[derive(Clone, Copy, Debug, PartialEq, Eq, Structural)]
pub struct Ball {
    /// Position of the query point.
    pub point: usize,
    /// Position of its neighbour.
    pub neighbour: usize,
}

/// A sample of `n` observations is large enough: each part must hold the
/// `NEIGHBOURS` points that a query asks for.
pub open spec fn sufficient(n: usize, split: bool) -> bool {
    if split {
        n >= 2 * NEIGHBOURS
    } else {
        n >= NEIGHBOURS
    }
}

/// The parts of a sample of `n` observations. In split mode the first `n / 2`
/// observations are the index set and the others the query points; otherwise
/// every observation is both.
pub open spec fn plan_of(n: usize, split: bool) -> BallPlan {
    if split {
        BallPlan { index_start: 0, index_end: n / 2, query_start: n / 2, query_end: n }
    } else {
        BallPlan { index_start: 0, index_end: n, query_start: 0, query_end: n }
    }
}

/// The neighbour lists as sequences.
pub open spec fn lists(found: Seq<Vec<usize>>) -> Seq<Seq<usize>> {
    found.map_values(|list: Vec<usize>| list@)
}

/// The lists supply a neighbour for every query point: there is one list for
/// each, it holds `NEIGHBOURS` places at least, and the place that is read
/// names a point of the index set.
pub open spec fn supplied(plan: BallPlan, found: Seq<Seq<usize>>) -> bool {
    &&& found.len() == plan.query_len()
    &&& forall|j: int|
        0 <= j < found.len() ==> (#[trigger] found[j]).len() >= NEIGHBOURS && found[j][NEAREST as int]
            < plan.index_len()
}

/// The ball of the `j`-th query point.
pub open spec fn ball_of(plan: BallPlan, found: Seq<Seq<usize>>, j: int) -> Ball {
    Ball {
        point: (plan.query_start + j) as usize,
        neighbour: (plan.index_start + found[j][NEAREST as int]) as usize,
    }
}

/// The balls of all query points, in the order of the query points.
pub open spec fn balls_of(plan: BallPlan, found: Seq<Seq<usize>>) -> Seq<Ball> {
    Seq::new(plan.query_len() as nat, |j: int| ball_of(plan, found, j))
}

/// Splits a sample of `n` observations into index set and query points.
pub fn partition(n: usize, split: bool) -> (r: Result<BallPlan, MhdeError>)
    ensures
        r is Ok <==> sufficient(n, split),
        r matches Ok(plan) ==> plan == plan_of(n, split),
        r matches Err(e) ==> e == MhdeError::InsufficientSample,
{
    if split {
        if n < 2 * NEIGHBOURS {
            Err(MhdeError::InsufficientSample)
        } else {
            Ok(BallPlan { index_start: 0, index_end: n / 2, query_start: n / 2, query_end: n })
        }
    } else {
        if n < NEIGHBOURS {
            Err(MhdeError::InsufficientSample)
        } else {
            Ok(BallPlan { index_start: 0, index_end: n, query_start: 0, query_end: n })
        }
    }
}

/// In split mode every observation is in exactly one part, the parts are
/// contiguous and the first holds `n / 2` observations; otherwise both parts
/// are the whole sample. Either way each part can answer a query.
pub proof fn lemma_plan_parts(n: usize, split: bool)
    requires
        sufficient(n, split),
    ensures
        forall|at: int|
            0 <= at < n ==> (#[trigger] plan_of(n, split).indexes(at) || plan_of(n, split).queries(
                at,
            )),
        split ==> forall|at: int|
            !(#[trigger] plan_of(n, split).indexes(at) && plan_of(n, split).queries(at)),
        split ==> plan_of(n, split).index_len() == n / 2 && plan_of(n, split).query_len() == n - n
            / 2,
        !split ==> plan_of(n, split).index_len() == n && plan_of(n, split).query_len() == n,
        plan_of(n, split).index_len() >= NEIGHBOURS,
        plan_of(n, split).query_len() >= NEIGHBOURS,
        plan_of(n, split).index_end <= n && plan_of(n, split).query_end <= n,
{
}

/// Pairs every query point of a sample of `n` observations with the neighbour
/// that gives its volume.
///
/// `found[j]` holds what the search for the `NEIGHBOURS` nearest neighbours of
/// the `j`-th query point returned: positions in the index set, nearest first.
/// The result has one ball for each query point, in their order; the neighbour
/// is the one at place `NEAREST`.
pub fn calculate_balls(n: usize, split: bool, found: &Vec<Vec<usize>>) -> (r: Result<
    Vec<Ball>,
    MhdeError,
>)
    ensures
        r is Ok <==> sufficient(n, split) && supplied(plan_of(n, split), lists(found@)),
        r matches Ok(balls) ==> balls@ == balls_of(plan_of(n, split), lists(found@)),
        r matches Err(e) ==> e == (if sufficient(n, split) {
            MhdeError::InsufficientPoints
        } else {
            MhdeError::InsufficientSample
        }),
{
    let plan = match partition(n, split) {
        Ok(plan) => plan,
        Err(e) => {
            return Err(e);
        },
    };
    let index_len = plan.index_end - plan.index_start;
    let query_len = plan.query_end - plan.query_start;
    if found.len() != query_len {
        return Err(MhdeError::InsufficientPoints);
    }
    let ghost rows = lists(found@);
    let mut balls: Vec<Ball> = Vec::new();
    let mut j: usize = 0;
    while j < query_len
        invariant
            sufficient(n, split),
            plan == plan_of(n, split),
            index_len == plan.index_len(),
            query_len == plan.query_len(),
            found.len() == query_len,
            rows == lists(found@),
            0 <= j <= query_len,
            balls@.len() == j,
            forall|i: int|
                0 <= i < j ==> (#[trigger] rows[i]).len() >= NEIGHBOURS && rows[i][NEAREST as int]
                    < index_len,
            forall|i: int| 0 <= i < j ==> #[trigger] balls@[i] == ball_of(plan, rows, i),
        decreases query_len - j,
    {
        let list = &found[j];
        assert(rows[j as int] == list@);
        if list.len() < NEIGHBOURS {
            return Err(MhdeError::InsufficientPoints);
        }
        let at = list[NEAREST];
        if at >= index_len {
            return Err(MhdeError::InsufficientPoints);
        }
        balls.push(Ball { point: plan.query_start + j, neighbour: plan.index_start + at });
        j += 1;
    }
    assert(balls@ =~= balls_of(plan, rows));
    Ok(balls)
}

/// Every ball joins a query point to a point of the index set, so both are
/// positions of the sample; and there is one ball for each query point.
pub proof fn lemma_balls_in_range(n: usize, split: bool, found: Seq<Seq<usize>>)
    requires
        sufficient(n, split),
        supplied(plan_of(n, split), found),
    ensures
        balls_of(plan_of(n, split), found).len() == plan_of(n, split).query_len(),
        forall|j: int|
            0 <= j < plan_of(n, split).query_len() ==> {
                let ball = #[trigger] balls_of(plan_of(n, split), found)[j];
                &&& plan_of(n, split).queries(ball.point as int)
                &&& plan_of(n, split).indexes(ball.neighbour as int)
                &&& ball.point == plan_of(n, split).query_start + j
                &&& ball.point < n
                &&& ball.neighbour < n
            },
{
    let plan = plan_of(n, split);
    assert forall|j: int| 0 <= j < plan.query_len() implies {
        let ball = #[trigger] balls_of(plan, found)[j];
        &&& plan.queries(ball.point as int)
        &&& plan.indexes(ball.neighbour as int)
        &&& ball.point == plan.query_start + j
        &&& ball.point < n
        &&& ball.neighbour < n
    } by {
        assert(found[j].len() >= NEIGHBOURS);
    }
}

} // verus!
