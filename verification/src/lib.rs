//! Safe decision layer for a native OpenVDB metadata query library.
//!
//! The native library answers three questions about a volumetric file:
//! its bounding box, the names of its grids, and a point-cloud rendering
//! of a density grid.  Everything that crosses the foreign boundary is
//! driven by the small, fully specified state machines in this crate:
//! which candidate paths the loader tries and in which order, when a
//! binding table counts as complete, and in which order native buffers
//! are copied and released.

use vstd::prelude::*;

pub mod binding;
pub mod locator;
pub mod marshal;

verus! {

/// The ways a query or the one-time library setup can fail.
#[derive(Clone, Copy, Debug, PartialEq, Eq, Structural)]
pub enum Error {
    /// No candidate path yielded a loadable native library.
    LibraryNotFound,
    /// The loaded library lacks one of the required entry points.
    MissingEntryPoint,
    /// The queried file did not exist when the handle was constructed.
    FileNotFound,
    /// A native call reported failure through its boolean return.
    QueryFailed,
    /// The native point generator reported a zero point count.
    NoPoints,
}

/// Relies on `std::path::Path::exists`: whether `path` names an existing
/// filesystem entry.  The answer depends on the state of the disk, so
/// nothing is promised of it.
#[verifier::external_body]
fn path_exists(path: &str) -> (r: bool) {
    std::path::Path::new(path).exists()
}

/// A validated handle for querying one volumetric file.
///
/// It holds nothing but the owned path that is handed to every native
/// call; the native library keeps no per-file state, so dropping the
/// handle needs no native cleanup.  Every query is a pure decision over
/// the stored path and the native reply — no query mutates the handle,
/// so queries may be issued repeatedly and in any order.
pub struct DlOpenVdbQuery {
    file: String,
}

impl DlOpenVdbQuery {
    /// The stored path, as the handle will pass it to the native library.
    pub closed spec fn file_view(&self) -> Seq<char> {
        self.file@
    }

    /// Turn the existence check's answer into a handle or a refusal:
    /// a handle is constructed exactly when the file was there, and a
    /// missing file is `FileNotFound` — in that case no native call is
    /// made on the path, ever, since no handle exists to query.
    pub fn handle_for(file: String, exists: bool) -> (r: Result<DlOpenVdbQuery, Error>)
        ensures
            r is Ok <==> exists,
            exists ==> r->Ok_0.file_view() == file@,
            !exists ==> r == Err::<DlOpenVdbQuery, Error>(Error::FileNotFound),
    {
        if exists {
            Ok(DlOpenVdbQuery { file })
        } else {
            Err(Error::FileNotFound)
        }
    }

    /// Creates a new query handle for a file.  The filesystem is asked
    /// once, here; a handle therefore proves that the file existed at
    /// construction time (the native library may still fail later if the
    /// file changes underneath).
    pub fn new(file: String) -> (r: Result<DlOpenVdbQuery, Error>)
        ensures
            r is Ok ==> r->Ok_0.file_view() == file@,
            r is Err ==> r == Err::<DlOpenVdbQuery, Error>(Error::FileNotFound),
    {
        let exists = path_exists(file.as_str());
        Self::handle_for(file, exists)
    }

    /// The stored path.
    pub fn file(&self) -> (r: &String)
        ensures
            r@ == self.file_view(),
    {
        &self.file
    }

    /// Decide the bounding-box query from the native reply: the copied
    /// out-parameter is the bounding box exactly when the entry point
    /// returned true; otherwise the buffer is discarded and the query
    /// failed.  Takes the handle immutably: repeating the query with the
    /// same reply returns the identical result.
    pub fn bounding_box(&self, success: bool, raw: marshal::Bounds) -> (r: Result<
        marshal::Bounds,
        Error,
    >)
        ensures
            r == marshal::bounding_box_result_spec(success, raw),
    {
        marshal::bounding_box_result(success, raw)
    }

    /// Begin the grid-name query: a fresh conversation that first
    /// demands the native call.  Each query gets its own machine, so
    /// repeated queries never touch an earlier query's buffers.
    pub fn grid_names(&self) -> (q: marshal::GridNamesQuery)
        ensures
            q == marshal::GridNamesQuery::Calling,
            marshal::grid_action_spec(q) == Some(marshal::NativeAction::Invoke),
    {
        marshal::GridNamesQuery::Calling
    }

    /// Begin the density-to-points query for a grid of this file.
    pub fn density_to_points(&self) -> (q: marshal::PointsQuery)
        ensures
            q == marshal::PointsQuery::Calling,
            marshal::points_action_spec(q) == Some(marshal::NativeAction::Invoke),
    {
        marshal::PointsQuery::Calling
    }
}

} // verus!
