//! Locating and loading the native library.
//!
//! The loader tries a fixed sequence of candidate paths: a well-known
//! install location, the bare file name (left to the operating system's
//! standard search), and finally a path built from an install root taken
//! from an environment override.  The first candidate that loads wins.

use vstd::prelude::*;
use crate::Error;

verus! {

/// The platforms the native library ships for; each has its own library
/// file name, install location and install-tree layout.
#[derive(Clone, Copy, Debug, PartialEq, Eq, Structural)]
pub enum Platform {
    Linux,
    MacOs,
    Windows,
}

pub open spec fn library_name_spec(p: Platform) -> Seq<char> {
    match p {
        Platform::Linux => "lib3delight.so"@,
        Platform::MacOs => "lib3delight.dylib"@,
        Platform::Windows => "3Delight.dll"@,
    }
}

/// The platform's file name for the native library.
pub fn library_name(p: Platform) -> (r: &'static str)
    ensures
        r@ == library_name_spec(p),
{
    match p {
        Platform::Linux => "lib3delight.so",
        Platform::MacOs => "lib3delight.dylib",
        Platform::Windows => "3Delight.dll",
    }
}

pub open spec fn install_path_spec(p: Platform) -> Seq<char> {
    match p {
        Platform::Linux => "/usr/local/3delight/lib/lib3delight.so"@,
        Platform::MacOs => "/Applications/3Delight/lib/lib3delight.dylib"@,
        Platform::Windows => "C:/%ProgramFiles%/3Delight/bin/3Delight.dll"@,
    }
}

/// The well-known absolute install location tried first.
pub fn install_path(p: Platform) -> (r: &'static str)
    ensures
        r@ == install_path_spec(p),
{
    match p {
        Platform::Linux => "/usr/local/3delight/lib/lib3delight.so",
        Platform::MacOs => "/Applications/3Delight/lib/lib3delight.dylib",
        Platform::Windows => "C:/%ProgramFiles%/3Delight/bin/3Delight.dll",
    }
}

pub open spec fn platform_subdir_spec(p: Platform) -> Seq<char> {
    match p {
        Platform::Windows => "bin"@,
        _ => "lib"@,
    }
}

/// The subdirectory of an install root that holds the library.
pub fn platform_subdir(p: Platform) -> (r: &'static str)
    ensures
        r@ == platform_subdir_spec(p),
{
    match p {
        Platform::Windows => "bin",
        _ => "lib",
    }
}

pub open spec fn override_path_spec(p: Platform, root: Seq<char>) -> Seq<char> {
    root + "/"@ + platform_subdir_spec(p) + "/"@ + library_name_spec(p)
}

/// The candidate path built from an install root given by the
/// environment override: `<root>/<subdir>/<library file name>`.
pub fn override_path(p: Platform, root: &str) -> (r: String)
    ensures
        r@ == override_path_spec(p, root@),
{
    let mut s = root.to_owned();
    s.append("/");
    s.append(platform_subdir(p));
    s.append("/");
    s.append(library_name(p));
    s
}

/// The `i`-th candidate path of the search order: the install location,
/// then the bare name, then (when the override root is set) the override
/// path.  `None` past the end of the sequence.
pub open spec fn candidate_spec(p: Platform, root: Option<Seq<char>>, i: int) -> Option<Seq<char>> {
    if i == 0 {
        Some(install_path_spec(p))
    } else if i == 1 {
        Some(library_name_spec(p))
    } else if i == 2 && root is Some {
        Some(override_path_spec(p, root->0))
    } else {
        None
    }
}

/// How many candidates the search order has.
pub open spec fn num_candidates_spec(root: Option<Seq<char>>) -> int {
    if root is Some {
        3
    } else {
        2
    }
}

/// The `i`-th candidate path that the loader will try.
pub fn candidate(p: Platform, root: &Option<String>, i: usize) -> (r: Option<String>)
    ensures
        r.deep_view() == candidate_spec(p, root.deep_view(), i as int),
{
    if i == 0 {
        Some(install_path(p).to_owned())
    } else if i == 1 {
        Some(library_name(p).to_owned())
    } else if i == 2 {
        match root {
            Some(root) => Some(override_path(p, root.as_str())),
            None => None,
        }
    } else {
        None
    }
}

/// The index of the first successful load attempt, given the outcome of
/// each attempt in search order.
pub open spec fn first_success(outcomes: Seq<bool>) -> Option<int>
    decreases outcomes.len(),
{
    if outcomes.len() == 0 {
        None
    } else if outcomes[0] {
        Some(0)
    } else {
        match first_success(outcomes.drop_first()) {
            Some(i) => Some(i + 1),
            None => None,
        }
    }
}

/// Pushing one more outcome onto a record with no success so far: the
/// first success is the new attempt or still none.
proof fn lemma_first_success_push(s: Seq<bool>, b: bool)
    requires
        first_success(s) is None,
    ensures
        first_success(s.push(b)) == if b {
            Some(s.len() as int)
        } else {
            None::<int>
        },
    decreases s.len(),
{
    let t = s.push(b);
    assert(t.len() == s.len() + 1);
    assert(t[0] == if s.len() == 0 {
        b
    } else {
        s[0]
    });
    if s.len() == 0 {
        if b {
            assert(first_success(t) == Some(0int));
        } else {
            assert(t.drop_first() =~= Seq::<bool>::empty());
            assert(first_success(t.drop_first()) is None);
            assert(first_success(t) is None);
        }
    } else {
        assert(!s[0]);
        assert(first_success(s.drop_first()) is None);
        lemma_first_success_push(s.drop_first(), b);
        assert(t.drop_first() =~= s.drop_first().push(b));
        if b {
            assert(first_success(t.drop_first()) == Some(s.drop_first().len() as int));
            assert(first_success(t) == Some(s.drop_first().len() + 1int));
        } else {
            assert(first_success(t.drop_first()) is None);
            assert(first_success(t) is None);
        }
    }
}

/// Law (override beats nothing but the bare name): when the well-known
/// install location fails to load and the bare-name search fails too,
/// but the override root is set and its candidate loads — recorded
/// outcomes fail, fail, load — then the path that `DynamicApi::new`'s
/// contract pins to the first success is the path built from the
/// override root, and not the second candidate, the bare library name.
pub proof fn lemma_override_found_after_primary_absent(
    p: Platform,
    root: Seq<char>,
    outcomes: Seq<bool>,
    path: Seq<char>,
)
    requires
        outcomes.len() == 3,
        !outcomes[0],
        !outcomes[1],
        outcomes[2],
        candidate_spec(p, Some(root), outcomes.len() - 1) == Some(path),
    ensures
        first_success(outcomes) == Some(outcomes.len() - 1),
        path == override_path_spec(p, root),
        candidate_spec(p, Some(root), 1) == Some(library_name_spec(p)),
        override_path_spec(p, root) != library_name_spec(p),
        num_candidates_spec(Some(root)) == 3,
{
    let o1 = outcomes.drop_first();
    let o2 = o1.drop_first();
    assert(o1[0] == outcomes[1] && o1[1] == outcomes[2]);
    assert(o2[0] == outcomes[2]);
    assert(first_success(o2) == Some(0int));
    assert(first_success(o1) == Some(1int));
    reveal_strlit("/");
    assert(override_path_spec(p, root).len() >= library_name_spec(p).len() + 2);
}

/// Declares `dlopen::raw::Library`, the loaded-library handle of the
/// `dlopen` crate, as an opaque type: it is only carried, never
/// inspected, by verified code.
#[verifier::external_type_specification]
#[verifier::external_body]
pub struct ExLibrary(dlopen::raw::Library);

/// Relies on `dlopen::raw::Library::open`: asks the platform's dynamic
/// loader for the library at `path`; `None` when it cannot be loaded.
/// Whether a load succeeds depends on the machine, so nothing is
/// promised of the result.
#[verifier::external_body]
fn try_open(path: &str) -> (r: Option<dlopen::raw::Library>) {
    dlopen::raw::Library::open(path).ok()
}

/// A native library found and loaded at run time, together with the
/// candidate path it was loaded from.  Entry points still have to be
/// resolved from it by name.
pub struct DynamicApi {
    library: dlopen::raw::Library,
    path: String,
}

impl DynamicApi {
    /// The candidate path the library was loaded from.
    pub closed spec fn path_view(&self) -> Seq<char> {
        self.path@
    }

    /// Try the candidate paths in search order and keep the first
    /// library that loads.  When every candidate fails this is the
    /// single aggregated failure: no query can succeed without the
    /// library.
    ///
    /// Beside the result comes the record of the load attempts, one
    /// outcome per candidate tried, in search order.  The contract pins
    /// the search to that record: on success the record ends with its
    /// only success and the kept path is the candidate at that index —
    /// earlier candidates all failed, later ones were never tried; on
    /// failure every candidate was tried and none loaded.
    pub fn new(platform: Platform, root: Option<String>) -> (r: (
        Result<DynamicApi, Error>,
        Ghost<Seq<bool>>,
    ))
        ensures
            r.1@.len() <= num_candidates_spec(root.deep_view()),
            r.0 is Ok ==> r.1@.len() >= 1 && first_success(r.1@) == Some(r.1@.len() - 1)
                && candidate_spec(platform, root.deep_view(), r.1@.len() - 1) == Some(
                r.0->Ok_0.path_view(),
            ),
            r.0 is Err ==> r.0 == Err::<DynamicApi, Error>(Error::LibraryNotFound)
                && r.1@.len() == num_candidates_spec(root.deep_view()) && first_success(r.1@)
                is None,
    {
        let ghost mut outcomes = Seq::<bool>::empty();
        let mut i: usize = 0;
        while i < 3
            invariant
                i <= 3,
                outcomes.len() == if (i as int) <= num_candidates_spec(root.deep_view()) {
                    i as int
                } else {
                    num_candidates_spec(root.deep_view())
                },
                first_success(outcomes) is None,
            decreases 3 - i,
        {
            match candidate(platform, &root, i) {
                Some(path) => {
                    match try_open(path.as_str()) {
                        Some(library) => {
                            proof {
                                lemma_first_success_push(outcomes, true);
                                outcomes = outcomes.push(true);
                            }
                            return (Ok(DynamicApi { library, path }), Ghost(outcomes));
                        },
                        None => {
                            proof {
                                lemma_first_success_push(outcomes, false);
                                outcomes = outcomes.push(false);
                            }
                        },
                    }
                },
                None => {},
            }
            i = i + 1;
        }
        (Err(Error::LibraryNotFound), Ghost(outcomes))
    }

    /// The path the library was loaded from.
    pub fn path(&self) -> (r: &String)
        ensures
            r@ == self.path_view(),
    {
        &self.path
    }

    /// The loaded library, for resolving entry points.
    pub fn library(&self) -> &dlopen::raw::Library {
        &self.library
    }
}

} // verus!
