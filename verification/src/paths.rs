//! Path resolution: which locations to probe for the sidecar's runtime and
//! entry-point script, in which order, and which probe wins. The supervisor
//! never touches the disk itself: the host checks existence and hands the
//! answers back as booleans, in candidate order.
//!
//! Relative paths below use `/` as the separator; the host splits them into
//! components and joins them with its platform's path type.

use vstd::prelude::*;

verus! {

/// Whether the host runs from a development tree or a packaged deployment.
#[derive(Clone, Copy, Debug, PartialEq, Eq, Structural)]
pub enum BuildMode {
    Development,
    Packaged,
}

/// The directory a relative candidate path is anchored at. The host supplies
/// the absolute location of each anchor.
#[derive(Clone, Copy, Debug, PartialEq, Eq, Structural)]
pub enum BaseDir {
    /// The current working directory (development runs).
    Cwd,
    /// The build-time project directory (development runs).
    DevProjectDir,
    /// The platform's read-only bundled-resource directory (packaged runs).
    ResourceDir,
    /// The per-installation application data directory.
    DataDir,
    /// The directory holding the host executable.
    ExeDir,
}

/// One probed layout for the sidecar's entry-point script.
#[derive(Clone, Copy, Debug, PartialEq, Eq, Structural)]
pub enum PathCandidate {
    /// Development, run from the repository root.
    DevRepoRoot,
    /// Development, run from a build subdirectory one level down.
    DevOneUp,
    /// Development, run from a build subdirectory two levels down.
    DevTwoUp,
    /// Packaged, inside the updater-managed nested directory.
    PackagedUpdaterDir,
    /// Packaged, adjacent to the host executable.
    PackagedExeDir,
}

impl PathCandidate {
    /// The anchor this candidate is resolved against.
    pub open spec fn base_spec(self) -> BaseDir {
        match self {
            PathCandidate::DevRepoRoot => BaseDir::Cwd,
            PathCandidate::DevOneUp => BaseDir::Cwd,
            PathCandidate::DevTwoUp => BaseDir::Cwd,
            PathCandidate::PackagedUpdaterDir => BaseDir::DataDir,
            PathCandidate::PackagedExeDir => BaseDir::ExeDir,
        }
    }

    pub fn base(&self) -> (b: BaseDir)
        ensures
            b == self.base_spec(),
    {
        match self {
            PathCandidate::DevRepoRoot => BaseDir::Cwd,
            PathCandidate::DevOneUp => BaseDir::Cwd,
            PathCandidate::DevTwoUp => BaseDir::Cwd,
            PathCandidate::PackagedUpdaterDir => BaseDir::DataDir,
            PathCandidate::PackagedExeDir => BaseDir::ExeDir,
        }
    }

    /// The candidate's path relative to its anchor.
    pub open spec fn rel_path_spec(self) -> Seq<char> {
        match self {
            PathCandidate::DevRepoRoot => "backend/app/main.py"@,
            PathCandidate::DevOneUp => "../backend/app/main.py"@,
            PathCandidate::DevTwoUp => "../../backend/app/main.py"@,
            PathCandidate::PackagedUpdaterDir => "_up_/_up_/backend/app/main.py"@,
            PathCandidate::PackagedExeDir => "backend/app/main.py"@,
        }
    }

    pub fn rel_path(&self) -> (r: &'static str)
        ensures
            r@ == self.rel_path_spec(),
    {
        match self {
            PathCandidate::DevRepoRoot => "backend/app/main.py",
            PathCandidate::DevOneUp => "../backend/app/main.py",
            PathCandidate::DevTwoUp => "../../backend/app/main.py",
            PathCandidate::PackagedUpdaterDir => "_up_/_up_/backend/app/main.py",
            PathCandidate::PackagedExeDir => "backend/app/main.py",
        }
    }
}

/// The ordered script layouts probed in each build mode: development covers
/// runs from the repository root, then one, then two build levels down;
/// packaged prefers the updater-managed directory over the executable's own.
pub open spec fn script_candidates_spec(mode: BuildMode) -> Seq<PathCandidate> {
    match mode {
        BuildMode::Development => seq![
            PathCandidate::DevRepoRoot,
            PathCandidate::DevOneUp,
            PathCandidate::DevTwoUp,
        ],
        BuildMode::Packaged => seq![PathCandidate::PackagedUpdaterDir, PathCandidate::PackagedExeDir],
    }
}

/// How many layouts a mode probes.
pub open spec fn script_candidate_count(mode: BuildMode) -> int {
    script_candidates_spec(mode).len() as int
}

pub fn script_candidates(mode: BuildMode) -> (r: Vec<PathCandidate>)
    ensures
        r@ == script_candidates_spec(mode),
{
    let mut v: Vec<PathCandidate> = Vec::new();
    match mode {
        BuildMode::Development => {
            v.push(PathCandidate::DevRepoRoot);
            v.push(PathCandidate::DevOneUp);
            v.push(PathCandidate::DevTwoUp);
        },
        BuildMode::Packaged => {
            v.push(PathCandidate::PackagedUpdaterDir);
            v.push(PathCandidate::PackagedExeDir);
        },
    }
    proof {
        assert(v@ =~= script_candidates_spec(mode));
    }
    v
}

/// Index of the first `true` in a row of probe answers.
pub open spec fn first_true(s: Seq<bool>) -> Option<int>
    decreases s.len(),
{
    if s.len() == 0 {
        None
    } else if s[0] {
        Some(0)
    } else {
        match first_true(s.drop_first()) {
            None => None,
            Some(t) => Some(t + 1),
        }
    }
}

/// `first_true` yields exactly the least index that answered `true`.
pub proof fn lemma_first_true(s: Seq<bool>)
    ensures
        first_true(s) is None ==> forall|t: int| 0 <= t < s.len() ==> !s[t],
        first_true(s) matches Some(w) ==> 0 <= w < s.len() && s[w] && forall|t: int|
            0 <= t < w ==> !s[t],
    decreases s.len(),
{
    if s.len() > 0 && !s[0] {
        let d = s.drop_first();
        lemma_first_true(d);
        match first_true(d) {
            None => {
                assert forall|t: int| 0 <= t < s.len() implies !s[t] by {
                    if t > 0 {
                        assert(!d[t - 1]);
                    }
                }
            },
            Some(w) => {
                assert(s[w + 1] == d[w]);
                assert forall|t: int| 0 <= t < w + 1 implies !s[t] by {
                    if t > 0 {
                        assert(!d[t - 1]);
                    }
                }
            },
        }
    }
}

/// Accept the first candidate whose probe answered `true`.
pub fn first_match(answers: &Vec<bool>) -> (r: Option<usize>)
    ensures
        r matches Some(w) ==> first_true(answers@) == Some(w as int),
        r is None ==> first_true(answers@) is None,
{
    let ghost s = answers@;
    let n: usize = answers.len();
    let mut k: usize = 0;
    while k < n
        invariant
            n == s.len(),
            s == answers@,
            0 <= k <= n,
            forall|t: int| 0 <= t < k ==> !s[t],
        decreases n - k,
    {
        if answers[k] {
            proof {
                lemma_first_true(s);
                if first_true(s) is None {
                    assert(!s[k as int]);
                }
                let w = first_true(s)->Some_0;
                if w < k {
                    assert(!s[w]);
                }
                if w > k {
                    assert(!s[k as int]);
                }
            }
            return Some(k);
        }
        k = k + 1;
    }
    proof {
        lemma_first_true(s);
        match first_true(s) {
            Some(w) => {
                assert(!s[w]);
            },
            None => {},
        }
    }
    None
}

/// Script resolution failed: every candidate layout was probed and none
/// matched. The full probed list makes the failure actionable.
pub struct PathError {
    pub tried: Vec<PathCandidate>,
}

/// Pick the script location: the first candidate, in `script_candidates`
/// order, whose existence probe answered `true`; when none did, report every
/// candidate that was tried.
pub fn resolve_script(mode: BuildMode, exists: &Vec<bool>) -> (r: Result<usize, PathError>)
    requires
        exists@.len() == script_candidate_count(mode),
    ensures
        r matches Ok(w) ==> first_true(exists@) == Some(w as int),
        r matches Err(e) ==> first_true(exists@) is None && e.tried@ == script_candidates_spec(
            mode,
        ),
{
    match first_match(exists) {
        Some(w) => Ok(w),
        None => Err(PathError { tried: script_candidates(mode) }),
    }
}

/// Where the interpreter binary is expected, relative to its anchor: in
/// packaged mode a mandatory bundled interpreter under the resource
/// directory; in development an optional one under the project's
/// dev-resources.
pub open spec fn runtime_rel_path_spec(mode: BuildMode) -> Seq<char> {
    match mode {
        BuildMode::Development => "resources/python/python.exe"@,
        BuildMode::Packaged => "python/python.exe"@,
    }
}

pub fn runtime_rel_path(mode: BuildMode) -> (r: &'static str)
    ensures
        r@ == runtime_rel_path_spec(mode),
{
    match mode {
        BuildMode::Development => "resources/python/python.exe",
        BuildMode::Packaged => "python/python.exe",
    }
}

/// The anchor the runtime path is resolved against in each mode.
pub fn runtime_base(mode: BuildMode) -> (b: BaseDir)
    ensures
        mode is Development ==> b == BaseDir::DevProjectDir,
        mode is Packaged ==> b == BaseDir::ResourceDir,
{
    match mode {
        BuildMode::Development => BaseDir::DevProjectDir,
        BuildMode::Packaged => BaseDir::ResourceDir,
    }
}

} // verus!
