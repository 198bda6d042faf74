//! The reading side of the channel: each received line decodes to a command,
//! the command's project must be configured, and the script path is resolved
//! strictly inside the script root — a project that could name anything
//! outside it never reaches the filesystem. Every failure is a per-line
//! disposition, never a reason to stop consuming.

use vstd::prelude::*;
use vstd::string::*;

use crate::codec::{action_token, decoded, Action, Command};
use crate::text::str_eq;

verus! {

/// What the executor does with one received line.
#[derive(Debug, Clone, PartialEq, Eq)]
pub enum StepOutcome {
    /// Run the script at this confined path; its exit status is recorded.
    Execute { path: String },
    /// The line does not decode to a command: log and drop it.
    ParseFailure,
    /// The decoded project is not configured: log and drop the command.
    UnknownProject,
    /// The decoded project cannot serve as a safe path component: log and
    /// drop the command before it reaches the filesystem.
    UnsafeProject,
}

/// The mathematical model of a [`StepOutcome`].
pub enum StepModel {
    Execute(Seq<char>),
    ParseFailure,
    UnknownProject,
    UnsafeProject,
}

impl View for StepOutcome {
    type V = StepModel;

    open spec fn view(&self) -> StepModel {
        match self {
            StepOutcome::Execute { path } => StepModel::Execute(path@),
            StepOutcome::ParseFailure => StepModel::ParseFailure,
            StepOutcome::UnknownProject => StepModel::UnknownProject,
            StepOutcome::UnsafeProject => StepModel::UnsafeProject,
        }
    }
}

/// A string fit to stand as a single path component under the script root:
/// not empty, free of separators and of the NUL byte, and not a relative
/// traversal.
pub open spec fn safe_component(s: Seq<char>) -> bool {
    &&& s.len() > 0
    &&& !s.contains('/')
    &&& !s.contains('\\')
    &&& !s.contains('\u{0}')
    &&& s != "."@
    &&& s != ".."@
}

/// The resolved script path: the root, the project, and the action token,
/// joined by single separators.
pub open spec fn script_path(scripts_dir: Seq<char>, project: Seq<char>, action: Action) -> Seq<
    char,
> {
    scripts_dir + "/"@ + project + "/"@ + action_token(action)
}

/// Membership of a project among the configured ones.
pub open spec fn known_project(projects: Seq<String>, p: Seq<char>) -> bool {
    exists|i: int| 0 <= i < projects.len() && projects[i]@ == p
}

/// The disposition of one received line: an undecodable line is a parse
/// failure; a command for an unconfigured project is discarded; a project
/// unfit as a path component is discarded before resolution; only what is
/// left resolves to a script path inside the root.
pub open spec fn step_of(projects: Seq<String>, scripts_dir: Seq<char>, line: Seq<char>) -> StepModel {
    match decoded(line) {
        None => StepModel::ParseFailure,
        Some(c) => if !known_project(projects, c.project) {
            StepModel::UnknownProject
        } else if !safe_component(c.project) {
            StepModel::UnsafeProject
        } else {
            StepModel::Execute(script_path(scripts_dir, c.project, c.action))
        },
    }
}

fn contains_project(projects: &Vec<String>, p: &str) -> (r: bool)
    ensures
        r == known_project(projects@, p@),
{
    let n = projects.len();
    let mut i: usize = 0;
    while i < n
        invariant
            i <= n,
            n == projects@.len(),
            forall|j: int| 0 <= j < i ==> projects@[j]@ != p@,
        decreases n - i,
    {
        if str_eq(projects[i].as_str(), p) {
            return true;
        }
        i += 1;
    }
    false
}

fn is_safe_component(s: &str) -> (r: bool)
    ensures
        r == safe_component(s@),
{
    let n = s.unicode_len();
    if n == 0 {
        return false;
    }
    if str_eq(s, ".") || str_eq(s, "..") {
        return false;
    }
    let mut i: usize = 0;
    while i < n
        invariant
            i <= n,
            n == s@.len(),
            forall|j: int| 0 <= j < i ==> s@[j] != '/' && s@[j] != '\\' && s@[j] != '\u{0}',
        decreases n - i,
    {
        let c = s.get_char(i);
        if c == '/' || c == '\\' || c == '\u{0}' {
            return false;
        }
        i += 1;
    }
    true
}

/// Decide what one received line leads to. Sanity checks only: permission was
/// already enforced on the writing side, so an unknown project is merely
/// logged and dropped by the caller.
pub fn executor_step(projects: &Vec<String>, scripts_dir: &str, line: &str) -> (r: StepOutcome)
    ensures
        r@ == step_of(projects@, scripts_dir@, line@),
{
    let cmd = match Command::decode(line) {
        Ok(c) => c,
        Err(_) => {
            return StepOutcome::ParseFailure;
        },
    };
    if !contains_project(projects, cmd.project.as_str()) {
        return StepOutcome::UnknownProject;
    }
    if !is_safe_component(cmd.project.as_str()) {
        return StepOutcome::UnsafeProject;
    }
    let mut path = String::from_str(scripts_dir);
    path.append("/");
    path.append(cmd.project.as_str());
    path.append("/");
    path.append(cmd.action.token());
    proof {
        assert(path@ =~= script_path(scripts_dir@, cmd@.project, cmd@.action));
    }
    StepOutcome::Execute { path }
}

/// One pass over any sequence of received lines: every line gets its own
/// disposition and processing always reaches the next line, so an
/// undecodable line or an unknown project never terminates the drain.
pub fn process_lines(projects: &Vec<String>, scripts_dir: &str, lines: &Vec<String>) -> (r: Vec<
    StepOutcome,
>)
    ensures
        r@.len() == lines@.len(),
        forall|i: int|
            0 <= i < lines@.len() ==> r@[i]@ == step_of(projects@, scripts_dir@, lines@[i]@),
{
    let mut out: Vec<StepOutcome> = Vec::new();
    let n = lines.len();
    let mut i: usize = 0;
    while i < n
        invariant
            i <= n,
            n == lines@.len(),
            out@.len() == i,
            forall|j: int| 0 <= j < i ==> out@[j]@ == step_of(projects@, scripts_dir@, lines@[j]@),
        decreases n - i,
    {
        let step = executor_step(projects, scripts_dir, lines[i].as_str());
        out.push(step);
        i += 1;
    }
    out
}

/// Confinement of resolution: a script path is produced only for a line that
/// decodes to a command whose project is one safe component, and the path is
/// then exactly `scripts_dir`, the project and the action token joined by
/// single separators — so no project or action string holding a separator or
/// a relative traversal ever resolves to a path outside the root.
pub proof fn lemma_resolution_confined(projects: Seq<String>, scripts_dir: Seq<char>, line: Seq<char>)
    ensures
        (match step_of(projects, scripts_dir, line) {
            StepModel::Execute(p) => decoded(line) matches Some(c) && safe_component(c.project)
                && safe_component(action_token(c.action)) && p == script_path(
                scripts_dir,
                c.project,
                c.action,
            ),
            _ => true,
        }),
{
    reveal_strlit("deploy");
    reveal_strlit(".");
    reveal_strlit("..");
    assert("deploy"@.len() == 6);
    assert(forall|i: int|
        0 <= i < "deploy"@.len() ==> "deploy"@[i] != '/' && "deploy"@[i] != '\\' && "deploy"@[i]
            != '\u{0}');
}

} // verus!
