//! Paths as plain data: a path is its ordered sequence of components. The
//! bridge's layout assumptions — ascend two directory levels, descend into
//! the fixed console-project location — are explicit functions over this
//! type, so they can be stated exactly and tested against synthetic trees.
//! Whether a path exists on disk is a fact the caller establishes and passes
//! in; nothing here touches the filesystem.

use vstd::prelude::*;

use crate::errors::BridgeError;
use crate::text::{
    lemma_views_of_take, push_char, trimmed, trimmed_of, views_of,
};

verus! {

/// An absolute path, held as its ordered components (no separators).
#[derive(Debug)]
pub struct DirPath {
    pub components: Vec<String>,
}

impl View for DirPath {
    type V = Seq<Seq<char>>;

    open spec fn view(&self) -> Seq<Seq<char>> {
        views_of(self.components@)
    }
}

/// The components joined, each preceded by a separator: `/a/b/c`.
pub open spec fn slash_join(path: Seq<Seq<char>>) -> Seq<char>
    decreases path.len(),
{
    if path.len() == 0 {
        Seq::empty()
    } else {
        slash_join(path.drop_last()) + seq!['/'] + path.last()
    }
}

/// The textual form of a path: the root alone is `/`, every other path is
/// its components each preceded by `/`.
pub open spec fn render_view(path: Seq<Seq<char>>) -> Seq<char> {
    if path.len() == 0 {
        seq!['/']
    } else {
        slash_join(path)
    }
}

impl DirPath {
    /// Renders the path for display and for handing to the operating system.
    pub fn render(&self) -> (r: String)
        ensures
            r@ == render_view(self@),
    {
        proof {
            reveal_strlit("/");
            assert("/"@ =~= seq!['/']);
        }
        let n = self.components.len();
        if n == 0 {
            let mut r = String::new();
            push_char(&mut r, '/');
            proof {
                assert(r@ =~= seq!['/']);
            }
            return r;
        }
        let mut r = String::new();
        let mut i: usize = 0;
        while i < n
            invariant
                n == self.components.len(),
                i <= n,
                "/"@ =~= seq!['/'],
                r@ == slash_join(self@.take(i as int)),
            decreases n - i,
        {
            r.append("/");
            r.append(self.components[i].as_str());
            proof {
                assert(self@.take(i + 1).drop_last() =~= self@.take(i as int));
                assert(self@.take(i + 1).last() == self.components@[i as int]@);
            }
            i += 1;
        }
        proof {
            assert(self@.take(n as int) =~= self@);
        }
        r
    }

    /// The path two directory levels up, if the path is deep enough to have
    /// one.
    pub fn ascend_two(&self) -> (r: Option<DirPath>)
        ensures
            self@.len() >= 2 ==> (r matches Some(a) && a@ == self@.take(self@.len() - 2)),
            self@.len() < 2 ==> r is None,
    {
        let n = self.components.len();
        if n < 2 {
            return None;
        }
        let mut kept: Vec<String> = Vec::new();
        let mut i: usize = 0;
        while i < n - 2
            invariant
                n == self.components.len(),
                n >= 2,
                i <= n - 2,
                kept@ == self.components@.take(i as int),
            decreases n - 2 - i,
        {
            kept.push(self.components[i].clone());
            proof {
                assert(kept@ =~= self.components@.take(i + 1));
            }
            i += 1;
        }
        proof {
            lemma_views_of_take(self.components@, n - 2);
        }
        Some(DirPath { components: kept })
    }
}

/// The components of the console project's marker file, relative to the
/// directory two levels above the bridge's installation directory.
pub open spec fn project_marker_view() -> Seq<Seq<char>> {
    seq!["LivingTool.Console"@, "LivingTool.Console.csproj"@]
}

/// Where the console project's marker file is expected, given the bridge's
/// installation directory: two levels up, then under the fixed project
/// directory and file name. Meaningful only when the installation directory
/// has at least two ancestor levels.
pub open spec fn candidate_view(install_dir: Seq<Seq<char>>) -> Seq<Seq<char>> {
    install_dir.take(install_dir.len() - 2) + project_marker_view()
}

/// Computes the location where the console project's marker file must stand,
/// so that the caller can check the filesystem there. `None` when the
/// installation directory is too shallow to ascend two levels.
pub fn console_project_candidate(install_dir: &DirPath) -> (r: Option<DirPath>)
    ensures
        install_dir@.len() >= 2 ==> (r matches Some(p) && p@ == candidate_view(install_dir@)),
        install_dir@.len() < 2 ==> r is None,
{
    let base = match install_dir.ascend_two() {
        Some(b) => b,
        None => {
            return None;
        },
    };
    let mut components = base.components;
    components.push(String::from_str("LivingTool.Console"));
    components.push(String::from_str("LivingTool.Console.csproj"));
    let p = DirPath { components };
    proof {
        assert(p@ =~= candidate_view(install_dir@));
    }
    Some(p)
}

/// Locates the console project relative to the bridge's installation
/// directory. `marker_present` is whether the marker file exists at the
/// candidate location returned by [`console_project_candidate`]; the caller
/// checks the filesystem and passes the answer in.
pub fn resolve_console_project_path(install_dir: &DirPath, marker_present: bool) -> (r: Result<
    DirPath,
    BridgeError,
>)
    ensures
        install_dir@.len() < 2 ==> r == Err::<DirPath, BridgeError>(
            BridgeError::SourceDirUnresolved,
        ),
        install_dir@.len() >= 2 && !marker_present ==> (r matches Err(
            BridgeError::ProjectNotFound { attempted },
        ) && attempted@ == render_view(candidate_view(install_dir@))),
        install_dir@.len() >= 2 && marker_present ==> (r matches Ok(p) && p@ == candidate_view(
            install_dir@,
        )),
{
    let candidate = match console_project_candidate(install_dir) {
        Some(p) => p,
        None => {
            return Err(BridgeError::SourceDirUnresolved);
        },
    };
    if !marker_present {
        return Err(BridgeError::ProjectNotFound { attempted: candidate.render() });
    }
    Ok(candidate)
}

/// Whether the caller supplied a working-directory override that is non-blank
/// after trimming.
pub open spec fn override_requested(requested: Option<&String>) -> bool {
    match requested {
        Some(w) => trimmed_of(w@).len() > 0,
        None => false,
    }
}

/// The trimmed form of the caller-supplied working directory.
pub open spec fn override_view(requested: Option<&String>) -> Seq<char> {
    match requested {
        Some(w) => trimmed_of(w@),
        None => Seq::empty(),
    }
}

/// Chooses the directory the subprocess will run in. A non-blank
/// caller-supplied path wins and is used verbatim (trimmed); `requested_exists`
/// is whether that trimmed path exists on disk, checked by the caller. A blank
/// or absent request falls back to the directory two levels above the project
/// path.
pub fn resolve_working_directory(
    requested: Option<&String>,
    requested_exists: bool,
    project_path: &DirPath,
) -> (r: Result<String, BridgeError>)
    ensures
        override_requested(requested) && requested_exists ==> (r matches Ok(d) && d@
            == override_view(requested)),
        override_requested(requested) && !requested_exists ==> (r matches Err(
            BridgeError::WorkingDirectoryMissing { attempted },
        ) && attempted@ == override_view(requested)),
        !override_requested(requested) && project_path@.len() >= 2 ==> (r matches Ok(d) && d@
            == render_view(project_path@.take(project_path@.len() - 2))),
        !override_requested(requested) && project_path@.len() < 2 ==> r == Err::<
            String,
            BridgeError,
        >(BridgeError::DefaultWorkingDirUnresolved),
{
    if let Some(path) = requested {
        let t = trimmed(path.as_str());
        if !t.as_str().is_empty() {
            if !requested_exists {
                return Err(BridgeError::WorkingDirectoryMissing { attempted: t });
            }
            return Ok(t);
        }
    }
    let fallback = match project_path.ascend_two() {
        Some(f) => f,
        None => {
            return Err(BridgeError::DefaultWorkingDirUnresolved);
        },
    };
    Ok(fallback.render())
}

} // verus!
