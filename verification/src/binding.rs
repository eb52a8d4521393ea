//! The binding table: the five native entry points, resolved either at
//! run time from a loaded library or at link time.
//!
//! A table is complete or it is not built at all: if any required symbol
//! is missing, construction fails as a whole.  The table is built once
//! per process; the outcome of the first attempt — success or failure —
//! is cached and every later request for the table reuses it.

use vstd::prelude::*;
use crate::Error;

verus! {

/// The entry points the native library must provide, by role.
#[derive(Clone, Copy, Debug, PartialEq, Eq, Structural)]
pub enum EntryPoint {
    /// Fills a six-double out-parameter with a file's bounding box.
    GetFileBBox,
    /// Yields a native-owned array of grid names and a count.
    GetGridNames,
    /// Releases the array returned by the grid-name query.
    FreeGridNames,
    /// Yields a native-owned buffer of point coordinates and a count.
    GeneratePoints,
    /// Releases the buffer returned by the point generator.
    FreePoints,
}

pub open spec fn symbol_name_spec(e: EntryPoint) -> Seq<char> {
    match e {
        EntryPoint::GetFileBBox => "DlVDBGetFileBBox"@,
        EntryPoint::GetGridNames => "DlVDBGetGridNames"@,
        EntryPoint::FreeGridNames => "DlVDBFreeGridNames"@,
        EntryPoint::GeneratePoints => "DlVDBGeneratePoints"@,
        EntryPoint::FreePoints => "DlVDBFreePoints"@,
    }
}

/// The exact symbol name each entry point is resolved by.  The names and
/// the C signatures behind them are a fixed contract with the native
/// library: a mismatch is not a recoverable error.
pub fn symbol_name(e: EntryPoint) -> (r: &'static str)
    ensures
        r@ == symbol_name_spec(e),
{
    match e {
        EntryPoint::GetFileBBox => "DlVDBGetFileBBox",
        EntryPoint::GetGridNames => "DlVDBGetGridNames",
        EntryPoint::FreeGridNames => "DlVDBFreeGridNames",
        EntryPoint::GeneratePoints => "DlVDBGeneratePoints",
        EntryPoint::FreePoints => "DlVDBFreePoints",
    }
}

/// Whether each required entry point resolved to a symbol.
#[derive(Clone, Copy, Debug, PartialEq, Eq, Structural)]
pub struct EntryPointResolution {
    pub get_file_bbox: bool,
    pub get_grid_names: bool,
    pub free_grid_names: bool,
    pub generate_points: bool,
    pub free_points: bool,
}

pub open spec fn all_resolved(r: EntryPointResolution) -> bool {
    r.get_file_bbox && r.get_grid_names && r.free_grid_names && r.generate_points
        && r.free_points
}

/// Accept a resolution only when every entry point was found; a single
/// missing symbol fails the whole table, so no partial binding table can
/// ever be observed.
pub fn validate_entry_points(r: &EntryPointResolution) -> (v: Result<(), Error>)
    ensures
        v is Ok <==> all_resolved(*r),
        !all_resolved(*r) ==> v == Err::<(), Error>(Error::MissingEntryPoint),
{
    if r.get_file_bbox && r.get_grid_names && r.free_grid_names && r.generate_points
        && r.free_points {
        Ok(())
    } else {
        Err(Error::MissingEntryPoint)
    }
}

/// The build-time alternative to the dynamic loader: the linker resolved
/// the five entry points, so obtaining the binding table cannot fail at
/// run time.
#[derive(Debug)]
pub struct LinkedApi {}

impl LinkedApi {
    /// A link-time binding table always constructs.
    pub fn new() -> (r: Result<LinkedApi, Error>)
        ensures
            r is Ok,
    {
        Ok(LinkedApi {})
    }
}

/// The lifecycle of the process-wide binding table: before the first
/// attempt, or holding the cached outcome of that attempt.
#[derive(Clone, Copy, Debug, PartialEq, Eq, Structural)]
pub enum BindingInit {
    /// No attempt has finished yet; the next request runs one.
    Pending,
    /// The table was built; every query uses it from now on.
    Ready,
    /// The attempt failed; the error answers every later request too.
    Failed { error: Error },
}

pub open spec fn must_attempt_spec(s: BindingInit) -> bool {
    s is Pending
}

/// Whether a request for the table has to run a load-and-bind attempt:
/// only as long as no attempt has finished.
pub fn must_attempt(s: &BindingInit) -> (r: bool)
    ensures
        r == must_attempt_spec(*s),
{
    match s {
        BindingInit::Pending => true,
        _ => false,
    }
}

pub open spec fn init_step_spec(s: BindingInit, outcome: Result<(), Error>) -> BindingInit {
    match s {
        BindingInit::Pending => match outcome {
            Ok(_) => BindingInit::Ready,
            Err(e) => BindingInit::Failed { error: e },
        },
        _ => s,
    }
}

/// Record the outcome of a load-and-bind attempt.  Only the first
/// outcome counts: once one is cached the state never changes again.
pub fn init_step(s: BindingInit, outcome: Result<(), Error>) -> (next: BindingInit)
    ensures
        next == init_step_spec(s, outcome),
{
    match s {
        BindingInit::Pending => match outcome {
            Ok(_) => BindingInit::Ready,
            Err(e) => BindingInit::Failed { error: e },
        },
        _ => s,
    }
}

/// Law: recording an outcome is idempotent — whatever a second attempt
/// would report, it cannot change the cached state of the table.
pub proof fn lemma_init_idempotent(
    s: BindingInit,
    first: Result<(), Error>,
    second: Result<(), Error>,
)
    ensures
        init_step_spec(init_step_spec(s, first), second) == init_step_spec(s, first),
{
}

/// Law: the table is initialized at most once per process — after any
/// step the machine no longer demands an attempt, and a state that holds
/// a cached outcome is never changed by a step.
pub proof fn lemma_init_at_most_once(s: BindingInit, outcome: Result<(), Error>)
    ensures
        !must_attempt_spec(init_step_spec(s, outcome)),
        !must_attempt_spec(s) ==> init_step_spec(s, outcome) == s,
{
}

/// The table's state after a whole sequence of recorded outcomes.
pub open spec fn init_run(s: BindingInit, outcomes: Seq<Result<(), Error>>) -> BindingInit
    decreases outcomes.len(),
{
    if outcomes.len() == 0 {
        s
    } else {
        init_run(init_step_spec(s, outcomes[0]), outcomes.drop_first())
    }
}

/// How many of the recorded outcomes came from an attempt the machine
/// actually demanded: those recorded while the table was still pending.
pub open spec fn init_attempts(s: BindingInit, outcomes: Seq<Result<(), Error>>) -> int
    decreases outcomes.len(),
{
    if outcomes.len() == 0 {
        0
    } else {
        (if must_attempt_spec(s) {
            1int
        } else {
            0int
        }) + init_attempts(init_step_spec(s, outcomes[0]), outcomes.drop_first())
    }
}

/// Law (one initialization per process): however many handles or queries
/// ask for the binding table, and in whatever order their outcomes are
/// recorded, at most one load-and-bind attempt is ever demanded, and
/// from a state that already holds a cached outcome none is.
pub proof fn lemma_init_run_at_most_once(s: BindingInit, outcomes: Seq<Result<(), Error>>)
    ensures
        init_attempts(s, outcomes) <= 1,
        !must_attempt_spec(s) ==> init_attempts(s, outcomes) == 0 && init_run(s, outcomes) == s,
    decreases outcomes.len(),
{
    if outcomes.len() > 0 {
        lemma_init_run_at_most_once(init_step_spec(s, outcomes[0]), outcomes.drop_first());
    }
}

} // verus!
