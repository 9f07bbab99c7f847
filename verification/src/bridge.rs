//! The invocation bridge's front: validates a request, resolves the project
//! and working directory, and produces the exact program-and-argument vector
//! the subprocess must be started with. Starting the subprocess is the
//! caller's job; a request that fails here yields an error and no plan, so no
//! subprocess is ever spawned for it.

use vstd::prelude::*;

use crate::errors::BridgeError;
use crate::paths::{
    candidate_view, render_view, resolve_console_project_path,
    resolve_working_directory, DirPath,
};
use crate::quoting::{command_line_view, format_command_line};
use crate::text::{lemma_views_of_push, trimmed, trimmed_of, views_of};

verus! {

/// One request to run a sub-command of the console program.
#[derive(Debug)]
pub struct ConsoleInvocationRequest {
    /// The sub-command to run; must be non-empty after trimming.
    pub command: String,
    /// Arguments passed verbatim, with no shell interpretation.
    pub args: Vec<String>,
    /// Optional working-directory override.
    pub working_directory: Option<String>,
}

/// Everything needed to start the subprocess, plus the display fields the
/// response will carry. The arguments are structural: they are handed to the
/// operating system one by one, never concatenated into a shell string.
#[derive(Debug)]
pub struct InvocationPlan {
    /// The launcher program to start.
    pub program: String,
    /// Its arguments, in order.
    pub argv: Vec<String>,
    /// The directory the subprocess runs in.
    pub working_directory: String,
    /// The rendered command line, for display only.
    pub command_line: String,
    /// The rendered project path, for the response.
    pub project_path: String,
}

/// Whether the request's command name is blank after trimming; such a request
/// is rejected before any resolution.
pub open spec fn command_blank(request: &ConsoleInvocationRequest) -> bool {
    trimmed_of(request.command@).len() == 0
}

/// Whether the request carries a non-blank working-directory override.
pub open spec fn wants_override(request: &ConsoleInvocationRequest) -> bool {
    request.working_directory matches Some(w) && trimmed_of(w@).len() > 0
}

/// The trimmed override, where one is requested.
pub open spec fn override_target(request: &ConsoleInvocationRequest) -> Seq<char> {
    match request.working_directory {
        Some(w) => trimmed_of(w@),
        None => Seq::empty(),
    }
}

/// The argument vector the subprocess is started with: `run --project
/// <project> -- <command> <args...>`.
pub open spec fn argv_view(
    project: Seq<Seq<char>>,
    command: Seq<char>,
    args: Seq<Seq<char>>,
) -> Seq<Seq<char>> {
    seq!["run"@, "--project"@, render_view(project), "--"@, command] + args
}

/// What a successful plan holds for a given request and installation
/// directory: the resolved project, the exact argument vector, the chosen
/// working directory, and the rendered command line.
pub open spec fn plan_view(
    plan: InvocationPlan,
    install_dir: Seq<Seq<char>>,
    request: &ConsoleInvocationRequest,
) -> bool {
    let project = candidate_view(install_dir);
    let command = trimmed_of(request.command@);
    &&& plan.program@ == "dotnet"@
    &&& views_of(plan.argv@) == argv_view(project, command, views_of(request.args@))
    &&& plan.working_directory@ == if wants_override(request) {
        override_target(request)
    } else {
        render_view(project.take(project.len() - 2))
    }
    &&& plan.command_line@ == command_line_view(project, command, views_of(request.args@))
    &&& plan.project_path@ == render_view(project)
}

/// Validates the request and resolves everything the subprocess start needs.
///
/// The two flags are filesystem facts the caller establishes first:
/// `marker_present` is whether the project marker file exists at the location
/// [`crate::paths::console_project_candidate`] computes from `install_dir`,
/// and `requested_dir_exists` is whether the trimmed working-directory
/// override names an existing directory (it is ignored when no non-blank
/// override was requested).
pub fn prepare_invocation(
    request: &ConsoleInvocationRequest,
    install_dir: &DirPath,
    marker_present: bool,
    requested_dir_exists: bool,
) -> (r: Result<InvocationPlan, BridgeError>)
    ensures
        command_blank(request) ==> r == Err::<InvocationPlan, BridgeError>(
            BridgeError::EmptyCommand,
        ),
        !command_blank(request) && install_dir@.len() < 2 ==> r == Err::<
            InvocationPlan,
            BridgeError,
        >(BridgeError::SourceDirUnresolved),
        !command_blank(request) && install_dir@.len() >= 2 && !marker_present ==> (r matches Err(
            BridgeError::ProjectNotFound { attempted },
        ) && attempted@ == render_view(candidate_view(install_dir@))),
        !command_blank(request) && install_dir@.len() >= 2 && marker_present && wants_override(
            request,
        ) && !requested_dir_exists ==> (r matches Err(
            BridgeError::WorkingDirectoryMissing { attempted },
        ) && attempted@ == override_target(request)),
        !command_blank(request) && install_dir@.len() >= 2 && marker_present && (wants_override(
            request,
        ) ==> requested_dir_exists) ==> (r matches Ok(plan) && plan_view(
            plan,
            install_dir@,
            request,
        )),
{
    let command = trimmed(request.command.as_str());
    if command.as_str().is_empty() {
        return Err(BridgeError::EmptyCommand);
    }
    let project = match resolve_console_project_path(install_dir, marker_present) {
        Ok(p) => p,
        Err(e) => {
            return Err(e);
        },
    };
    let working_directory = match resolve_working_directory(
        request.working_directory.as_ref(),
        requested_dir_exists,
        &project,
    ) {
        Ok(d) => d,
        Err(e) => {
            return Err(e);
        },
    };
    let project_path = project.render();
    let mut argv: Vec<String> = Vec::new();
    argv.push(String::from_str("run"));
    argv.push(String::from_str("--project"));
    argv.push(project_path.clone());
    argv.push(String::from_str("--"));
    argv.push(command.clone());
    proof {
        assert(views_of(argv@) =~= argv_view(
            candidate_view(install_dir@),
            trimmed_of(request.command@),
            views_of(request.args@),
        ).take(5));
    }
    let mut i: usize = 0;
    while i < request.args.len()
        invariant
            i <= request.args.len(),
            views_of(argv@) =~= argv_view(
                candidate_view(install_dir@),
                trimmed_of(request.command@),
                views_of(request.args@),
            ).take(5 + i),
        decreases request.args.len() - i,
    {
        let ghost prev = argv@;
        argv.push(request.args[i].clone());
        proof {
            let full = argv_view(
                candidate_view(install_dir@),
                trimmed_of(request.command@),
                views_of(request.args@),
            );
            lemma_views_of_push(prev, request.args@[i as int]);
            assert(views_of(request.args@)[i as int] == request.args@[i as int]@);
            assert(full[5 + i] == views_of(request.args@)[i as int]);
            assert(full.take(5 + i + 1) =~= full.take(5 + i).push(full[5 + i]));
            assert(views_of(argv@) =~= full.take(5 + i + 1));
        }
        i += 1;
    }
    proof {
        let full = argv_view(
            candidate_view(install_dir@),
            trimmed_of(request.command@),
            views_of(request.args@),
        );
        assert(full.take(5 + request.args@.len() as int) =~= full);
    }
    let command_line = format_command_line(&project, command.as_str(), &request.args);
    Ok(
        InvocationPlan {
            program: String::from_str("dotnet"),
            argv,
            working_directory,
            command_line,
            project_path,
        },
    )
}

} // verus!
