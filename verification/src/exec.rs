//! Commands run in a container: the shells that are tried in turn, the
//! requests made of the runtime, and what counts as success.

use vstd::prelude::*;
use vstd::string::*;
use crate::text::{owned, views};

verus! {

/// A shell that may be found in an image.
#[derive(Clone, Copy, PartialEq, Eq, Structural, Debug)]
pub enum Shell {
    /// The full-featured shell.
    Bash,
    /// The minimal shell.
    Sh,
}

/// What a command in a container is for.
#[derive(Clone, Copy, PartialEq, Eq, Structural, Debug)]
pub enum ExecKind {
    /// A script run as root.
    Script,
    /// A script run as a given user.
    ScriptAsUser,
    /// An interactive shell.
    Interactive,
}

/// No shell ran the command to a good end.
#[derive(Clone, Copy, PartialEq, Eq, Structural, Debug)]
pub struct ExecError {
    pub kind: ExecKind,
}

/// What follows one attempt with a shell.
#[derive(Clone, Copy, PartialEq, Eq, Structural, Debug)]
pub enum Fallback {
    /// The command succeeded.
    Done,
    /// Try again with this shell.
    Retry(Shell),
    /// Every shell was tried in vain.
    Failed(ExecError),
}

/// A command to run in a container, as the runtime is asked for it.
#[derive(Debug, Clone)]
pub struct ExecRequest {
    pub container: String,
    pub command: Vec<String>,
    pub user: Option<String>,
    pub tty: bool,
    pub attach_stdin: bool,
    pub attach_stdout: bool,
    pub attach_stderr: bool,
}

/// The path of a shell in the container.
pub open spec fn shell_path_spec(shell: Shell) -> Seq<char> {
    match shell {
        Shell::Bash => "/bin/bash"@,
        Shell::Sh => "/bin/sh"@,
    }
}

/// The shell that is tried after `shell`, if there is one.
pub open spec fn next_shell_spec(shell: Shell) -> Option<Shell> {
    match shell {
        Shell::Bash => Some(Shell::Sh),
        Shell::Sh => None,
    }
}

/// Whether an exit code reports success: it must be there and be zero.
pub open spec fn exit_ok(code: Option<i64>) -> bool {
    code == Some(0i64)
}

/// What follows an attempt with `shell` that ended with `code`.
pub open spec fn after_attempt_spec(kind: ExecKind, shell: Shell, code: Option<i64>) -> Fallback {
    if exit_ok(code) {
        Fallback::Done
    } else {
        match next_shell_spec(shell) {
            Some(next) => Fallback::Retry(next),
            None => Fallback::Failed(ExecError { kind }),
        }
    }
}

/// The outcome of trying the shells from `shell` on, where `codes` holds the
/// exit codes that the attempts give, in order: the first success wins.
pub open spec fn outcome_spec(kind: ExecKind, shell: Shell, codes: Seq<Option<i64>>) -> Fallback
    decreases codes.len(),
{
    if codes.len() == 0 {
        Fallback::Retry(shell)
    } else {
        match after_attempt_spec(kind, shell, codes[0]) {
            Fallback::Retry(next) => outcome_spec(kind, next, codes.drop_first()),
            other => other,
        }
    }
}

/// The shell that is tried first.
pub fn first_shell() -> (shell: Shell)
    ensures
        shell == Shell::Bash,
{
    Shell::Bash
}

/// The path of a shell in the container.
pub fn shell_path(shell: Shell) -> (path: &'static str)
    ensures
        path@ == shell_path_spec(shell),
{
    match shell {
        Shell::Bash => "/bin/bash",
        Shell::Sh => "/bin/sh",
    }
}

/// Tells whether an exit code reports success.
pub fn exit_succeeded(code: Option<i64>) -> (ok: bool)
    ensures
        ok == exit_ok(code),
{
    match code {
        Some(c) => c == 0,
        None => false,
    }
}

/// Decides what follows an attempt with `shell` that ended with `code`.
pub fn after_attempt(kind: ExecKind, shell: Shell, code: Option<i64>) -> (next: Fallback)
    ensures
        next == after_attempt_spec(kind, shell, code),
{
    if exit_succeeded(code) {
        return Fallback::Done;
    }
    match shell {
        Shell::Bash => Fallback::Retry(Shell::Sh),
        Shell::Sh => Fallback::Failed(ExecError { kind }),
    }
}

/// What the failure says.
pub fn error_message(error: ExecError) -> (message: &'static str)
    ensures
        message@ == match error.kind {
            ExecKind::Script => "`docker exec` failed"@,
            ExecKind::ScriptAsUser => "`docker exec -u` failed"@,
            ExecKind::Interactive => "failed to attach interactive shell"@,
        },
{
    match error.kind {
        ExecKind::Script => "`docker exec` failed",
        ExecKind::ScriptAsUser => "`docker exec -u` failed",
        ExecKind::Interactive => "failed to attach interactive shell",
    }
}

/// The request that runs `script` under `shell`, as `user` where one is
/// given: the output is attached, the input is not, and there is no terminal.
pub fn script_request(container: &str, user: &Option<String>, shell: Shell, script: &str) -> (req: ExecRequest)
    ensures
        req.container@ == container@,
        views(req.command@) == seq![shell_path_spec(shell), "-lc"@, script@],
        req.user == *user,
        !req.tty && !req.attach_stdin && req.attach_stdout && req.attach_stderr,
{
    let mut command: Vec<String> = Vec::new();
    command.push(owned(shell_path(shell)));
    command.push(owned("-lc"));
    command.push(owned(script));
    assert(views(command@) =~= seq![shell_path_spec(shell), "-lc"@, script@]);
    ExecRequest {
        container: owned(container),
        command,
        user: match user {
            Some(u) => Some(u.clone()),
            None => None,
        },
        tty: false,
        attach_stdin: false,
        attach_stdout: true,
        attach_stderr: true,
    }
}

/// The request that opens a login shell on a terminal, with input and output
/// attached.
pub fn interactive_request(container: &str, shell: Shell) -> (req: ExecRequest)
    ensures
        req.container@ == container@,
        views(req.command@) == seq![shell_path_spec(shell), "-l"@],
        req.user is None,
        req.tty && req.attach_stdin && req.attach_stdout && req.attach_stderr,
{
    let mut command: Vec<String> = Vec::new();
    command.push(owned(shell_path(shell)));
    command.push(owned("-l"));
    assert(views(command@) =~= seq![shell_path_spec(shell), "-l"@]);
    ExecRequest {
        container: owned(container),
        command,
        user: None,
        tty: true,
        attach_stdin: true,
        attach_stdout: true,
        attach_stderr: true,
    }
}

/// The kind of a script run as `user`, or as root where none is given.
pub fn script_kind(user: &Option<String>) -> (kind: ExecKind)
    ensures
        kind == if user is Some { ExecKind::ScriptAsUser } else { ExecKind::Script },
{
    match user {
        Some(_) => ExecKind::ScriptAsUser,
        None => ExecKind::Script,
    }
}

/// The first shell that exits with zero decides: the command is done there,
/// whatever a later shell would give; and where both shells fail, the command
/// has failed.
pub proof fn lemma_first_success_wins(kind: ExecKind, first: Option<i64>, second: Option<i64>)
    ensures
        exit_ok(first) ==> outcome_spec(kind, Shell::Bash, seq![first, second]) == Fallback::Done,
        !exit_ok(first) && exit_ok(second) ==> outcome_spec(kind, Shell::Bash, seq![first, second])
            == Fallback::Done,
        !exit_ok(first) && !exit_ok(second) ==> outcome_spec(kind, Shell::Bash, seq![first, second])
            == Fallback::Failed(ExecError { kind }),
{
    let codes = seq![first, second];
    assert(codes.drop_first() =~= seq![second]);
    assert(seq![second].drop_first() =~= Seq::<Option<i64>>::empty());
    assert(codes[0] == first);
    assert(seq![second][0] == second);
    if !exit_ok(first) {
        assert(outcome_spec(kind, Shell::Bash, codes) == outcome_spec(kind, Shell::Sh, seq![second]));
    }
}

} // verus!
