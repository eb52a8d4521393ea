//! Marshaling across the native boundary.
//!
//! Each query is a short, fixed conversation with the native library:
//! invoke the entry point, copy what it returned into owned memory, and
//! release the native-owned buffer through the matching free entry
//! point.  The conversations are written here as state machines whose
//! steps are fully specified; the caller performs each demanded native
//! action and feeds the outcome back as an event.  The machines enforce
//! the ownership discipline: a buffer is released exactly once per
//! successful query, strictly after it was copied, and never on a failed
//! query (where nothing was allocated).

use vstd::prelude::*;
use crate::Error;

verus! {

/// The six double-precision bounds of a volume as IEEE 754 bit patterns,
/// in the order `xmin, ymin, zmin, xmax, ymax, zmax`.  The values are
/// copied out of the native out-parameter; they never alias native
/// memory.
#[derive(Clone, Copy, Debug, PartialEq, Eq, Structural)]
pub struct Bounds {
    pub xmin_bits: u64,
    pub ymin_bits: u64,
    pub zmin_bits: u64,
    pub xmax_bits: u64,
    pub ymax_bits: u64,
    pub zmax_bits: u64,
}

pub open spec fn bounding_box_result_spec(success: bool, raw: Bounds) -> Result<Bounds, Error> {
    if success {
        Ok(raw)
    } else {
        Err(Error::QueryFailed)
    }
}

/// Decide the bounding-box query from the native call's boolean return
/// and the copied out-parameter: the copied bounds are the result
/// exactly when the call reported success; on failure the buffer's
/// content is discarded and never escapes.
pub fn bounding_box_result(success: bool, raw: Bounds) -> (r: Result<Bounds, Error>)
    ensures
        r == bounding_box_result_spec(success, raw),
{
    if success {
        Ok(raw)
    } else {
        Err(Error::QueryFailed)
    }
}

/// The native action a query state machine demands next.
#[derive(Clone, Copy, Debug, PartialEq, Eq, Structural)]
pub enum NativeAction {
    /// Call the query entry point.
    Invoke,
    /// Copy the native-owned data into owned memory.
    CopyOut,
    /// Call the matching free entry point on the native buffer.
    Release,
}

/// The grid-name query, step by step.  The entry point returns a boolean
/// and, on success, a native-owned array of `count` names that must be
/// copied and then released.
pub enum GridNamesQuery {
    /// The entry point is to be invoked.
    Calling,
    /// The call succeeded and reported `count` names; copy them.
    Copying { count: usize },
    /// All names are copied; release the native array.
    Freeing { count: usize, names: Vec<String> },
    /// The query is finished; `reported` is the count the native call
    /// returned (zero when it failed and nothing was allocated).
    Done { result: Result<Vec<String>, Error>, reported: usize },
}

/// What the caller observed while performing the demanded action.
pub enum GridNamesEvent {
    /// The entry point returned `success` and wrote `count`.
    Returned { success: bool, count: usize },
    /// Exactly the reported number of names was copied, each decoded
    /// lossily so that one malformed name never fails the query.
    Copied { names: Vec<String> },
    /// The free entry point ran on the native array.
    Freed,
}

pub open spec fn grid_action_spec(s: GridNamesQuery) -> Option<NativeAction> {
    match s {
        GridNamesQuery::Calling => Some(NativeAction::Invoke),
        GridNamesQuery::Copying { .. } => Some(NativeAction::CopyOut),
        GridNamesQuery::Freeing { .. } => Some(NativeAction::Release),
        GridNamesQuery::Done { .. } => None,
    }
}

/// The native action the query demands next; `None` once it is done.
pub fn grid_action(s: &GridNamesQuery) -> (r: Option<NativeAction>)
    ensures
        r == grid_action_spec(*s),
{
    match s {
        GridNamesQuery::Calling => Some(NativeAction::Invoke),
        GridNamesQuery::Copying { .. } => Some(NativeAction::CopyOut),
        GridNamesQuery::Freeing { .. } => Some(NativeAction::Release),
        GridNamesQuery::Done { .. } => None,
    }
}

/// Which event answers which state: each state accepts exactly the
/// outcome of the action it demands, and a finished query accepts none.
pub open spec fn grid_event_allowed(s: GridNamesQuery, e: GridNamesEvent) -> bool {
    match s {
        GridNamesQuery::Calling => e is Returned,
        GridNamesQuery::Copying { count } => (e matches GridNamesEvent::Copied { names }
            && names@.len() == count),
        GridNamesQuery::Freeing { .. } => e is Freed,
        GridNamesQuery::Done { .. } => false,
    }
}

pub open spec fn grid_step_spec(s: GridNamesQuery, e: GridNamesEvent) -> GridNamesQuery {
    match s {
        GridNamesQuery::Calling => match e {
            GridNamesEvent::Returned { success, count } => if success {
                GridNamesQuery::Copying { count }
            } else {
                GridNamesQuery::Done { result: Err(Error::QueryFailed), reported: 0 }
            },
            _ => s,
        },
        GridNamesQuery::Copying { count } => match e {
            GridNamesEvent::Copied { names } => GridNamesQuery::Freeing { count, names },
            _ => s,
        },
        GridNamesQuery::Freeing { count, names } => match e {
            GridNamesEvent::Freed => GridNamesQuery::Done { result: Ok(names), reported: count },
            _ => s,
        },
        GridNamesQuery::Done { .. } => s,
    }
}

/// Advance the grid-name query by one observed event.
pub fn grid_step(s: GridNamesQuery, e: GridNamesEvent) -> (next: GridNamesQuery)
    requires
        grid_event_allowed(s, e),
    ensures
        next == grid_step_spec(s, e),
{
    match s {
        GridNamesQuery::Calling => match e {
            GridNamesEvent::Returned { success, count } => if success {
                GridNamesQuery::Copying { count }
            } else {
                GridNamesQuery::Done { result: Err(Error::QueryFailed), reported: 0 }
            },
            _ => s,
        },
        GridNamesQuery::Copying { count } => match e {
            GridNamesEvent::Copied { names } => GridNamesQuery::Freeing { count, names },
            _ => s,
        },
        GridNamesQuery::Freeing { count, names } => match e {
            GridNamesEvent::Freed => GridNamesQuery::Done { result: Ok(names), reported: count },
            _ => GridNamesQuery::Freeing { count, names },
        },
        GridNamesQuery::Done { .. } => s,
    }
}

/// What always holds of a grid-name query state: a finished query
/// carries exactly as many copied names as the native call reported, and
/// the only failure it can end in is the native call's own.
pub open spec fn grid_inv(s: GridNamesQuery) -> bool {
    match s {
        GridNamesQuery::Calling => true,
        GridNamesQuery::Copying { .. } => true,
        GridNamesQuery::Freeing { count, names } => names@.len() == count,
        GridNamesQuery::Done { result, reported } => match result {
            Ok(names) => names@.len() == reported,
            Err(e) => e == Error::QueryFailed && reported == 0,
        },
    }
}

/// Law: the grid-name invariant holds at the start of a query and is
/// preserved by every allowed step.
pub proof fn lemma_grid_inv_preserved(s: GridNamesQuery, e: GridNamesEvent)
    requires
        grid_inv(s),
        grid_event_allowed(s, e),
    ensures
        grid_inv(GridNamesQuery::Calling),
        grid_inv(grid_step_spec(s, e)),
{
}

/// Law (copy before free): the release of the native array is demanded
/// only by a state that was reached by finishing the copy — there is no
/// path to the free entry point that skips or precedes copying.
pub proof fn lemma_grid_free_only_after_copy(s: GridNamesQuery, e: GridNamesEvent)
    requires
        grid_event_allowed(s, e),
        grid_action_spec(grid_step_spec(s, e)) == Some(NativeAction::Release),
    ensures
        s is Copying,
        e is Copied,
{
}

/// Law (failure frees nothing): a native failure finishes the query at
/// once with `QueryFailed`; no copy and no release is ever demanded,
/// matching the fact that a failed call allocated nothing.
pub proof fn lemma_grid_failure_frees_nothing(count: usize)
    ensures
        grid_step_spec(
            GridNamesQuery::Calling,
            (GridNamesEvent::Returned { success: false, count }),
        ) == (GridNamesQuery::Done { result: Err::<Vec<String>, Error>(Error::QueryFailed), reported: 0 }),
        grid_action_spec(
            (GridNamesQuery::Done { result: Err::<Vec<String>, Error>(Error::QueryFailed), reported: 0 }),
        ) is None,
{
}

/// Law (free exactly once on success): a successful query runs through
/// copy, then release, then done; the finished state accepts no further
/// event, so the native array can never be released twice.
pub proof fn lemma_grid_success_run(count: usize, names: Vec<String>)
    requires
        names@.len() == count,
    ensures
        grid_step_spec(
            GridNamesQuery::Calling,
            (GridNamesEvent::Returned { success: true, count }),
        ) == (GridNamesQuery::Copying { count }),
        grid_step_spec(
            (GridNamesQuery::Copying { count }),
            (GridNamesEvent::Copied { names }),
        ) == (GridNamesQuery::Freeing { count, names }),
        grid_step_spec(
            (GridNamesQuery::Freeing { count, names }),
            GridNamesEvent::Freed,
        ) == (GridNamesQuery::Done { result: Ok::<Vec<String>, Error>(names), reported: count }),
        grid_action_spec((GridNamesQuery::Freeing { count, names })) == Some(NativeAction::Release),
        forall|e: GridNamesEvent|
            !grid_event_allowed(
                (GridNamesQuery::Done { result: Ok::<Vec<String>, Error>(names), reported: count }),
                e,
            ),
{
}

/// A grid-name query driven through a whole sequence of events, one
/// step each.
pub open spec fn grid_run(s: GridNamesQuery, es: Seq<GridNamesEvent>) -> GridNamesQuery
    decreases es.len(),
{
    if es.len() == 0 {
        s
    } else {
        grid_run(grid_step_spec(s, es[0]), es.drop_first())
    }
}

/// Whether every event of the sequence is allowed where it happens.
pub open spec fn grid_run_valid(s: GridNamesQuery, es: Seq<GridNamesEvent>) -> bool
    decreases es.len(),
{
    es.len() == 0 || (grid_event_allowed(s, es[0]) && grid_run_valid(
        grid_step_spec(s, es[0]),
        es.drop_first(),
    ))
}

/// How often a run performs the release: a `Freed` event consumed by a
/// state that demands the release of the native array.
pub open spec fn grid_releases(s: GridNamesQuery, es: Seq<GridNamesEvent>) -> int
    decreases es.len(),
{
    if es.len() == 0 {
        0
    } else {
        (if s is Freeing && es[0] is Freed {
            1int
        } else {
            0int
        }) + grid_releases(grid_step_spec(s, es[0]), es.drop_first())
    }
}

/// Law (copy-then-free, over whole runs): however a grid-name query is
/// driven, the native array is released at most once; a run that ends
/// with the names in hand released it exactly once, and a run that ends
/// in failure never released anything.
pub proof fn lemma_grid_run_releases(s: GridNamesQuery, es: Seq<GridNamesEvent>)
    requires
        grid_run_valid(s, es),
    ensures
        grid_releases(s, es) <= 1,
        (grid_run(s, es) matches GridNamesQuery::Done { result, .. } && result is Ok)
            ==> grid_releases(s, es) == if s is Done {
            0int
        } else {
            1int
        },
        (grid_run(s, es) matches GridNamesQuery::Done { result, .. } && result is Err)
            ==> grid_releases(s, es) == 0,
    decreases es.len(),
{
    if es.len() > 0 {
        let s1 = grid_step_spec(s, es[0]);
        let es1 = es.drop_first();
        lemma_grid_run_releases(s1, es1);
        assert(grid_run(s, es) == grid_run(s1, es1));
        assert(grid_releases(s, es) == (if s is Freeing && es[0] is Freed {
            1int
        } else {
            0int
        }) + grid_releases(s1, es1));
        if s1 is Done {
            assert(grid_run_valid(s1, es1));
            if es1.len() > 0 {
                assert(grid_event_allowed(s1, es1[0]));
                assert(false);
            }
            assert(grid_run(s1, es1) == s1);
            assert(grid_releases(s1, es1) == 0);
        }
    }
}

/// Law: the grid-name invariant holds at the end of any run of allowed
/// steps that starts in a state satisfying it — in particular, any run
/// of a fresh query that finishes with the names in hand carries exactly
/// as many names as the native call reported.
pub proof fn lemma_grid_run_inv(s: GridNamesQuery, es: Seq<GridNamesEvent>)
    requires
        grid_inv(s),
        grid_run_valid(s, es),
    ensures
        grid_inv(grid_run(s, es)),
    decreases es.len(),
{
    if es.len() > 0 {
        lemma_grid_inv_preserved(s, es[0]);
        lemma_grid_run_inv(grid_step_spec(s, es[0]), es.drop_first());
    }
}

/// The density-to-points query, step by step.  Its entry point has no
/// boolean return: failure is signalled only through a zero point count,
/// and a nonzero count comes with a native-owned buffer of three
/// single-precision coordinates per point (carried here as IEEE 754 bit
/// patterns) that must be copied and then released.
pub enum PointsQuery {
    /// The entry point is to be invoked.
    Calling,
    /// The call reported `count` points; copy `3 * count` coordinates.
    Copying { count: usize },
    /// The coordinates are copied; release the native buffer.
    Freeing { count: usize, points: Vec<u32> },
    /// The query is finished; `reported` is the native point count.
    Done { result: Result<Vec<u32>, Error>, reported: usize },
}

/// What the caller observed while performing the demanded action.
pub enum PointsEvent {
    /// The entry point wrote `count` into its out-parameter.
    Returned { count: usize },
    /// Exactly three coordinates per reported point were copied.
    Copied { points: Vec<u32> },
    /// The free entry point ran on the native buffer.
    Freed,
}

pub open spec fn points_action_spec(s: PointsQuery) -> Option<NativeAction> {
    match s {
        PointsQuery::Calling => Some(NativeAction::Invoke),
        PointsQuery::Copying { .. } => Some(NativeAction::CopyOut),
        PointsQuery::Freeing { .. } => Some(NativeAction::Release),
        PointsQuery::Done { .. } => None,
    }
}

/// The native action the query demands next; `None` once it is done.
pub fn points_action(s: &PointsQuery) -> (r: Option<NativeAction>)
    ensures
        r == points_action_spec(*s),
{
    match s {
        PointsQuery::Calling => Some(NativeAction::Invoke),
        PointsQuery::Copying { .. } => Some(NativeAction::CopyOut),
        PointsQuery::Freeing { .. } => Some(NativeAction::Release),
        PointsQuery::Done { .. } => None,
    }
}

/// Which event answers which state; a finished query accepts none.
pub open spec fn points_event_allowed(s: PointsQuery, e: PointsEvent) -> bool {
    match s {
        PointsQuery::Calling => e is Returned,
        PointsQuery::Copying { count } => (e matches PointsEvent::Copied { points }
            && points@.len() == 3 * count),
        PointsQuery::Freeing { .. } => e is Freed,
        PointsQuery::Done { .. } => false,
    }
}

pub open spec fn points_step_spec(s: PointsQuery, e: PointsEvent) -> PointsQuery {
    match s {
        PointsQuery::Calling => match e {
            PointsEvent::Returned { count } => if count == 0 {
                PointsQuery::Done { result: Err(Error::NoPoints), reported: 0 }
            } else {
                PointsQuery::Copying { count }
            },
            _ => s,
        },
        PointsQuery::Copying { count } => match e {
            PointsEvent::Copied { points } => PointsQuery::Freeing { count, points },
            _ => s,
        },
        PointsQuery::Freeing { count, points } => match e {
            PointsEvent::Freed => PointsQuery::Done { result: Ok(points), reported: count },
            _ => s,
        },
        PointsQuery::Done { .. } => s,
    }
}

/// Advance the density-to-points query by one observed event.
pub fn points_step(s: PointsQuery, e: PointsEvent) -> (next: PointsQuery)
    requires
        points_event_allowed(s, e),
    ensures
        next == points_step_spec(s, e),
{
    match s {
        PointsQuery::Calling => match e {
            PointsEvent::Returned { count } => if count == 0 {
                PointsQuery::Done { result: Err(Error::NoPoints), reported: 0 }
            } else {
                PointsQuery::Copying { count }
            },
            _ => s,
        },
        PointsQuery::Copying { count } => match e {
            PointsEvent::Copied { points } => PointsQuery::Freeing { count, points },
            _ => s,
        },
        PointsQuery::Freeing { count, points } => match e {
            PointsEvent::Freed => PointsQuery::Done { result: Ok(points), reported: count },
            _ => PointsQuery::Freeing { count, points },
        },
        PointsQuery::Done { .. } => s,
    }
}

/// What always holds of a density-to-points query state: a zero count is
/// `NoPoints` and nothing else, and a successful query carries exactly
/// three coordinates per reported point.
pub open spec fn points_inv(s: PointsQuery) -> bool {
    match s {
        PointsQuery::Calling => true,
        PointsQuery::Copying { count } => count > 0,
        PointsQuery::Freeing { count, points } => count > 0 && points@.len() == 3 * count,
        PointsQuery::Done { result, reported } => match result {
            Ok(points) => reported > 0 && points@.len() == 3 * reported,
            Err(e) => e == Error::NoPoints && reported == 0,
        },
    }
}

/// Law: the density-to-points invariant holds at the start of a query
/// and is preserved by every allowed step.  In particular a finished
/// query distinguishes the zero-count outcome (`NoPoints`, nothing
/// allocated) from a nonzero outcome, whose sequence is exactly three
/// times the reported point count long.
pub proof fn lemma_points_inv_preserved(s: PointsQuery, e: PointsEvent)
    requires
        points_inv(s),
        points_event_allowed(s, e),
    ensures
        points_inv(PointsQuery::Calling),
        points_inv(points_step_spec(s, e)),
{
}

/// Law (zero count is `NoPoints`): a zero reported count finishes the
/// query at once as `NoPoints`; no copy and no release is demanded,
/// matching the fact that no buffer was produced.
pub proof fn lemma_points_zero_count()
    ensures
        points_step_spec(PointsQuery::Calling, (PointsEvent::Returned { count: 0 }))
            == (PointsQuery::Done { result: Err::<Vec<u32>, Error>(Error::NoPoints), reported: 0 }),
        points_action_spec(
            (PointsQuery::Done { result: Err::<Vec<u32>, Error>(Error::NoPoints), reported: 0 }),
        ) is None,
{
}

/// Law (three coordinates per point, free exactly once): a nonzero
/// count runs through copy, then release, then done with exactly
/// `3 * count` coordinates; the finished state accepts no further event,
/// so the native buffer can never be released twice.
pub proof fn lemma_points_success_run(count: usize, points: Vec<u32>)
    requires
        count > 0,
        points@.len() == 3 * count,
    ensures
        points_step_spec(PointsQuery::Calling, (PointsEvent::Returned { count }))
            == (PointsQuery::Copying { count }),
        points_step_spec((PointsQuery::Copying { count }), (PointsEvent::Copied { points }))
            == (PointsQuery::Freeing { count, points }),
        points_step_spec((PointsQuery::Freeing { count, points }), PointsEvent::Freed)
            == (PointsQuery::Done { result: Ok::<Vec<u32>, Error>(points), reported: count }),
        points_action_spec((PointsQuery::Freeing { count, points })) == Some(NativeAction::Release),
        forall|e: PointsEvent|
            !points_event_allowed(
                (PointsQuery::Done { result: Ok::<Vec<u32>, Error>(points), reported: count }),
                e,
            ),
{
}

/// A density-to-points query driven through a whole sequence of events.
pub open spec fn points_run(s: PointsQuery, es: Seq<PointsEvent>) -> PointsQuery
    decreases es.len(),
{
    if es.len() == 0 {
        s
    } else {
        points_run(points_step_spec(s, es[0]), es.drop_first())
    }
}

/// Whether every event of the sequence is allowed where it happens.
pub open spec fn points_run_valid(s: PointsQuery, es: Seq<PointsEvent>) -> bool
    decreases es.len(),
{
    es.len() == 0 || (points_event_allowed(s, es[0]) && points_run_valid(
        points_step_spec(s, es[0]),
        es.drop_first(),
    ))
}

/// How often a run performs the release: a `Freed` event consumed by a
/// state that demands the release of the native buffer.
pub open spec fn points_releases(s: PointsQuery, es: Seq<PointsEvent>) -> int
    decreases es.len(),
{
    if es.len() == 0 {
        0
    } else {
        (if s is Freeing && es[0] is Freed {
            1int
        } else {
            0int
        }) + points_releases(points_step_spec(s, es[0]), es.drop_first())
    }
}

/// Law (copy-then-free, over whole runs): however a density-to-points
/// query is driven, the native buffer is released at most once; a run
/// that ends with the points in hand released it exactly once, and a run
/// that ends in `NoPoints` never released anything.
pub proof fn lemma_points_run_releases(s: PointsQuery, es: Seq<PointsEvent>)
    requires
        points_run_valid(s, es),
    ensures
        points_releases(s, es) <= 1,
        (points_run(s, es) matches PointsQuery::Done { result, .. } && result is Ok)
            ==> points_releases(s, es) == if s is Done {
            0int
        } else {
            1int
        },
        (points_run(s, es) matches PointsQuery::Done { result, .. } && result is Err)
            ==> points_releases(s, es) == 0,
    decreases es.len(),
{
    if es.len() > 0 {
        let s1 = points_step_spec(s, es[0]);
        let es1 = es.drop_first();
        lemma_points_run_releases(s1, es1);
        assert(points_run(s, es) == points_run(s1, es1));
        assert(points_releases(s, es) == (if s is Freeing && es[0] is Freed {
            1int
        } else {
            0int
        }) + points_releases(s1, es1));
        if s1 is Done {
            assert(points_run_valid(s1, es1));
            if es1.len() > 0 {
                assert(points_event_allowed(s1, es1[0]));
                assert(false);
            }
            assert(points_run(s1, es1) == s1);
            assert(points_releases(s1, es1) == 0);
        }
    }
}

/// Law: the density-to-points invariant holds at the end of any run of
/// allowed steps that starts in a state satisfying it — in particular,
/// any run of a fresh query that finishes with points in hand carries
/// exactly three coordinates per reported point, and one that finishes
/// without points finishes with `NoPoints`.
pub proof fn lemma_points_run_inv(s: PointsQuery, es: Seq<PointsEvent>)
    requires
        points_inv(s),
        points_run_valid(s, es),
    ensures
        points_inv(points_run(s, es)),
    decreases es.len(),
{
    if es.len() > 0 {
        lemma_points_inv_preserved(s, es[0]);
        lemma_points_run_inv(points_step_spec(s, es[0]), es.drop_first());
    }
}

} // verus!
