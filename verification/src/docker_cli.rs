//! The runtime driven through its command-line client: the arguments of
//! each call, and what the client's output means.

use vstd::prelude::*;
use vstd::string::*;
use crate::container::PsItem;
use crate::exec::{shell_path, shell_path_spec, Shell};
use crate::text::{
    chars_of, decimal, decimal_spec, join, join_spec, lines, lines_spec, owned, split, split_spec, str_equal, trim,
    trim_spec, views,
};

verus! {

/// A call of the client.
#[derive(Clone, Copy, PartialEq, Eq, Structural, Debug)]
pub enum DockerCall {
    Build,
    Start,
    Stop,
    Remove,
    Run,
    Exec,
    ExecAsUser,
    Attach,
}

/// The arguments of a build.
pub open spec fn build_args_spec(context_dir: Seq<char>, tag: Seq<char>, pull: bool, no_cache: bool) -> Seq<
    Seq<char>,
> {
    seq!["build"@] + (if pull {
        seq!["--pull"@]
    } else {
        Seq::<Seq<char>>::empty()
    }) + (if no_cache {
        seq!["--no-cache"@]
    } else {
        Seq::<Seq<char>>::empty()
    }) + seq!["-t"@, tag, context_dir]
}

/// The arguments that create and start a container.
pub open spec fn run_args_spec(
    container_name: Seq<char>,
    image: Seq<char>,
    project_dir: Seq<char>,
    host_ssh_port: Option<u16>,
) -> Seq<Seq<char>> {
    seq!["run"@, "-d"@, "--name"@, container_name, "-v"@, project_dir + ":/workspace"@, "-w"@, "/workspace"@] + (
    match host_ssh_port {
        Some(port) => seq!["-p"@, decimal_spec(port as nat) + ":22"@],
        None => Seq::<Seq<char>>::empty(),
    }) + seq![image, "/bin/sh"@, "-lc"@, "tail -f /dev/null"@]
}

/// The arguments that remove a container.
pub open spec fn remove_args_spec(name: Seq<char>, force: bool) -> Seq<Seq<char>> {
    if force {
        seq!["rm"@, "-f"@, name]
    } else {
        seq!["rm"@, name]
    }
}

/// The arguments that build an image from a context directory.
pub fn docker_build_with_opts(context_dir: &str, tag: &str, pull: bool, no_cache: bool) -> (args: Vec<String>)
    ensures
        views(args@) == build_args_spec(context_dir@, tag@, pull, no_cache),
{
    let mut args: Vec<String> = Vec::new();
    args.push(owned("build"));
    if pull {
        args.push(owned("--pull"));
    }
    if no_cache {
        args.push(owned("--no-cache"));
    }
    args.push(owned("-t"));
    args.push(owned(tag));
    args.push(owned(context_dir));
    proof {
        assert(views(args@) =~= build_args_spec(context_dir@, tag@, pull, no_cache));
    }
    args
}

/// The arguments that list the running environments, one line each with
/// name, image and status between tabs.
pub fn ps_devenv_args() -> (args: Vec<String>)
    ensures
        views(args@) == seq![
            "ps"@,
            "--filter"@,
            "name=^/devenv-"@,
            "--format"@,
            "{{.Names}}\t{{.Image}}\t{{.Status}}"@,
        ],
{
    let mut args: Vec<String> = Vec::new();
    args.push(owned("ps"));
    args.push(owned("--filter"));
    args.push(owned("name=^/devenv-"));
    args.push(owned("--format"));
    args.push(owned("{{.Names}}\t{{.Image}}\t{{.Status}}"));
    proof {
        assert(views(args@) =~= seq![
            "ps"@,
            "--filter"@,
            "name=^/devenv-"@,
            "--format"@,
            "{{.Names}}\t{{.Image}}\t{{.Status}}"@,
        ]);
    }
    args
}

/// The arguments that list the names of the containers: of all of them, or
/// of the running ones.
pub fn names_args(all: bool) -> (args: Vec<String>)
    ensures
        views(args@) == if all {
            seq!["ps"@, "-a"@, "--format"@, "{{.Names}}"@]
        } else {
            seq!["ps"@, "--format"@, "{{.Names}}"@]
        },
{
    let mut args: Vec<String> = Vec::new();
    args.push(owned("ps"));
    if all {
        args.push(owned("-a"));
    }
    args.push(owned("--format"));
    args.push(owned("{{.Names}}"));
    proof {
        if all {
            assert(views(args@) =~= seq!["ps"@, "-a"@, "--format"@, "{{.Names}}"@]);
        } else {
            assert(views(args@) =~= seq!["ps"@, "--format"@, "{{.Names}}"@]);
        }
    }
    args
}

/// The arguments that start a container.
pub fn docker_start(name: &str) -> (args: Vec<String>)
    ensures
        views(args@) == seq!["start"@, name@],
{
    let mut args: Vec<String> = Vec::new();
    args.push(owned("start"));
    args.push(owned(name));
    proof {
        assert(views(args@) =~= seq!["start"@, name@]);
    }
    args
}

/// The arguments that stop a container.
pub fn docker_stop(name: &str) -> (args: Vec<String>)
    ensures
        views(args@) == seq!["stop"@, name@],
{
    let mut args: Vec<String> = Vec::new();
    args.push(owned("stop"));
    args.push(owned(name));
    proof {
        assert(views(args@) =~= seq!["stop"@, name@]);
    }
    args
}

/// The arguments that remove a container, by force where asked.
pub fn docker_remove_container(name: &str, force: bool) -> (args: Vec<String>)
    ensures
        views(args@) == remove_args_spec(name@, force),
{
    let mut args: Vec<String> = Vec::new();
    args.push(owned("rm"));
    if force {
        args.push(owned("-f"));
    }
    args.push(owned(name));
    proof {
        assert(views(args@) =~= remove_args_spec(name@, force));
    }
    args
}

/// The arguments that create and start the container of an environment:
/// the project directory is mounted at `/workspace`, which is the working
/// directory; the shell port is published where a host port is given; and
/// the command blocks for ever.
pub fn docker_run_detached(container_name: &str, image: &str, project_dir: &str, host_ssh_port: Option<u16>) -> (args:
    Vec<String>)
    ensures
        views(args@) == run_args_spec(container_name@, image@, project_dir@, host_ssh_port),
{
    let mut args: Vec<String> = Vec::new();
    args.push(owned("run"));
    args.push(owned("-d"));
    args.push(owned("--name"));
    args.push(owned(container_name));
    args.push(owned("-v"));
    let mut bind = owned(project_dir);
    bind.append(":/workspace");
    args.push(bind);
    args.push(owned("-w"));
    args.push(owned("/workspace"));
    match host_ssh_port {
        Some(port) => {
            args.push(owned("-p"));
            let mut publish = decimal(port as u32);
            publish.append(":22");
            args.push(publish);
        },
        None => {},
    }
    args.push(owned(image));
    args.push(owned("/bin/sh"));
    args.push(owned("-lc"));
    args.push(owned("tail -f /dev/null"));
    proof {
        assert(views(args@) =~= run_args_spec(container_name@, image@, project_dir@, host_ssh_port));
    }
    args
}

/// The arguments that run a script under a shell in a container.
pub fn docker_exec_shell(container_name: &str, script: &str, shell: Shell) -> (args: Vec<String>)
    ensures
        views(args@) == seq!["exec"@, container_name@, shell_path_spec(shell), "-lc"@, script@],
{
    let mut args: Vec<String> = Vec::new();
    args.push(owned("exec"));
    args.push(owned(container_name));
    args.push(owned(shell_path(shell)));
    args.push(owned("-lc"));
    args.push(owned(script));
    proof {
        assert(views(args@) =~= seq!["exec"@, container_name@, shell_path_spec(shell), "-lc"@, script@]);
    }
    args
}

/// The arguments that run a script under a shell in a container as a user.
pub fn docker_exec_shell_as(container_name: &str, user: &str, script: &str, shell: Shell) -> (args: Vec<String>)
    ensures
        views(args@) == seq!["exec"@, "-u"@, user@, container_name@, shell_path_spec(shell), "-lc"@, script@],
{
    let mut args: Vec<String> = Vec::new();
    args.push(owned("exec"));
    args.push(owned("-u"));
    args.push(owned(user));
    args.push(owned(container_name));
    args.push(owned(shell_path(shell)));
    args.push(owned("-lc"));
    args.push(owned(script));
    proof {
        assert(views(args@) =~= seq![
            "exec"@,
            "-u"@,
            user@,
            container_name@,
            shell_path_spec(shell),
            "-lc"@,
            script@,
        ]);
    }
    args
}

/// The arguments that open a login shell on a terminal in a container.
pub fn docker_exec_interactive_shell(container_name: &str, shell: Shell) -> (args: Vec<String>)
    ensures
        views(args@) == seq!["exec"@, "-it"@, container_name@, shell_path_spec(shell), "-l"@],
{
    let mut args: Vec<String> = Vec::new();
    args.push(owned("exec"));
    args.push(owned("-it"));
    args.push(owned(container_name));
    args.push(owned(shell_path(shell)));
    args.push(owned("-l"));
    proof {
        assert(views(args@) =~= seq!["exec"@, "-it"@, container_name@, shell_path_spec(shell), "-l"@]);
    }
    args
}

/// What is said when a call ends with a failure.
pub fn failure_message(call: DockerCall) -> (message: &'static str)
    ensures
        message@ == match call {
            DockerCall::Build => "docker build failed"@,
            DockerCall::Start => "docker start failed"@,
            DockerCall::Stop => "docker stop failed"@,
            DockerCall::Remove => "docker rm failed"@,
            DockerCall::Run => "docker run failed"@,
            DockerCall::Exec => "docker exec failed"@,
            DockerCall::ExecAsUser => "docker exec -u failed"@,
            DockerCall::Attach => "failed to attach interactive shell"@,
        },
{
    match call {
        DockerCall::Build => "docker build failed",
        DockerCall::Start => "docker start failed",
        DockerCall::Stop => "docker stop failed",
        DockerCall::Remove => "docker rm failed",
        DockerCall::Run => "docker run failed",
        DockerCall::Exec => "docker exec failed",
        DockerCall::ExecAsUser => "docker exec -u failed",
        DockerCall::Attach => "failed to attach interactive shell",
    }
}

/// Whether some line of a listing is `name`, white space around it set aside.
pub open spec fn listed(listing: Seq<char>, name: Seq<char>) -> bool {
    exists|i: int| 0 <= i < lines_spec(listing).len() && trim_spec(#[trigger] lines_spec(listing)[i]) == name
}

/// Tells whether some line of a listing is `name`, white space around it set aside.
fn is_listed(name: &str, listing: &str) -> (found: bool)
    ensures
        found == listed(listing@, name@),
{
    let all = lines(listing);
    let mut i: usize = 0;
    while i < all.len()
        invariant
            i <= all.len(),
            views(all@) == lines_spec(listing@),
            forall|j: int| 0 <= j < i ==> trim_spec(#[trigger] lines_spec(listing@)[j]) != name@,
        decreases all.len() - i,
    {
        let line = trim(all[i].as_str());
        assert(views(all@)[i as int] == all@[i as int]@);
        if str_equal(line.as_str(), name) {
            return true;
        }
        i = i + 1;
    }
    false
}

/// Whether a container of that name is there, given whether the listing of
/// all containers' names succeeded and what it printed. A listing that
/// failed shows no container.
pub fn container_exists(name: &str, succeeded: bool, listing: &str) -> (exists: bool)
    ensures
        exists == (succeeded && listed(listing@, name@)),
{
    succeeded && is_listed(name, listing)
}

/// Whether a container of that name runs, given whether the listing of the
/// running containers' names succeeded and what it printed.
pub fn is_container_running(name: &str, succeeded: bool, listing: &str) -> (running: bool)
    ensures
        running == (succeeded && listed(listing@, name@)),
{
    succeeded && is_listed(name, listing)
}

/// What a line of the list of environments holds: name, image and status,
/// between tabs. A line without image holds nothing, and a status that is
/// missing is empty.
pub open spec fn ps_line_spec(line: Seq<char>) -> Option<(Seq<char>, Seq<char>, Seq<char>)> {
    let fields = split_spec(line, '\t');
    if fields.len() < 2 {
        None
    } else {
        Some((fields[0], fields[1], if fields.len() > 2 {
            fields[2]
        } else {
            Seq::empty()
        }))
    }
}

/// What the lines of the list hold, in their order.
pub open spec fn ps_rows_spec(lines: Seq<Seq<char>>) -> Seq<(Seq<char>, Seq<char>, Seq<char>)>
    decreases lines.len(),
{
    if lines.len() == 0 {
        Seq::empty()
    } else {
        let front = ps_rows_spec(lines.drop_last());
        match ps_line_spec(lines.last()) {
            Some(row) => front.push(row),
            None => front,
        }
    }
}

/// The items as name, image and status.
pub open spec fn rows_view(items: Seq<PsItem>) -> Seq<(Seq<char>, Seq<char>, Seq<char>)> {
    Seq::new(items.len(), |i: int| (items[i].name@, items[i].image@, items[i].status@))
}

/// The running environments, given whether their listing succeeded and what
/// it printed. A listing that failed shows none.
pub fn docker_ps_devenv(succeeded: bool, stdout: &str) -> (items: Vec<PsItem>)
    ensures
        rows_view(items@) == if succeeded {
            ps_rows_spec(lines_spec(stdout@))
        } else {
            Seq::empty()
        },
{
    let mut items: Vec<PsItem> = Vec::new();
    if !succeeded {
        assert(rows_view(items@) =~= Seq::empty());
        return items;
    }
    let all = lines(stdout);
    let mut i: usize = 0;
    proof {
        assert(views(all@).take(0) =~= Seq::<Seq<char>>::empty());
        assert(rows_view(items@) =~= ps_rows_spec(views(all@).take(0)));
    }
    while i < all.len()
        invariant
            i <= all.len(),
            rows_view(items@) == ps_rows_spec(views(all@).take(i as int)),
        decreases all.len() - i,
    {
        let fields = split(all[i].as_str(), '\t');
        let ghost before = items@;
        proof {
            assert(views(all@).take(i as int + 1).drop_last() =~= views(all@).take(i as int));
            assert(views(all@).take(i as int + 1).last() == all@[i as int]@);
        }
        if fields.len() >= 2 {
            let status = if fields.len() > 2 {
                fields[2].clone()
            } else {
                String::new()
            };
            items.push(PsItem { name: fields[0].clone(), image: fields[1].clone(), status });
            proof {
                assert(views(fields@)[0] == fields@[0]@);
                assert(views(fields@)[1] == fields@[1]@);
                if fields.len() > 2 {
                    assert(views(fields@)[2] == fields@[2]@);
                }
                assert(rows_view(items@) =~= rows_view(before).push(ps_line_spec(all@[i as int]@)->Some_0));
            }
        }
        i = i + 1;
    }
    proof {
        assert(views(all@).take(all.len() as int) =~= views(all@));
    }
    items
}

/// Whether an argument is shown between quotes: it holds a blank or a quote.
pub open spec fn needs_quotes(s: Seq<char>) -> bool {
    exists|i: int| 0 <= i < s.len() && (#[trigger] s[i] == ' ' || s[i] == '"' || s[i] == '\'')
}

/// A text with a backslash before each double quote.
pub open spec fn escape_double_quotes(s: Seq<char>) -> Seq<char>
    decreases s.len(),
{
    if s.len() == 0 {
        Seq::empty()
    } else if s.last() == '"' {
        escape_double_quotes(s.drop_last()) + seq!['\\', '"']
    } else {
        escape_double_quotes(s.drop_last()).push(s.last())
    }
}

/// An argument as it is shown in the log of a call.
pub open spec fn quote_arg_spec(s: Seq<char>) -> Seq<char> {
    if needs_quotes(s) {
        seq!['"'] + escape_double_quotes(s) + seq!['"']
    } else {
        s
    }
}

/// The arguments as they are shown.
pub open spec fn quoted(args: Seq<Seq<char>>) -> Seq<Seq<char>> {
    Seq::new(args.len(), |i: int| quote_arg_spec(args[i]))
}

/// An argument as it is shown in the log of a call: between double quotes,
/// with its own double quotes escaped, if it holds a blank or a quote.
pub fn quote_arg(s: &str) -> (shown: String)
    ensures
        shown@ == quote_arg_spec(s@),
{
    let chars = chars_of(s);
    let mut escaped = String::new();
    let mut needs = false;
    let mut i: usize = 0;
    assert(chars@.take(0) =~= Seq::<char>::empty());
    while i < chars.len()
        invariant
            i <= chars.len(),
            chars@ == s@,
            needs == needs_quotes(chars@.take(i as int)),
            escaped@ == escape_double_quotes(chars@.take(i as int)),
        decreases chars.len() - i,
    {
        let ghost prefix = chars@.take(i as int);
        let ghost next = chars@.take(i as int + 1);
        proof {
            assert(next.drop_last() =~= prefix);
            if needs_quotes(prefix) {
                let k = choose|k: int| 0 <= k < prefix.len() && (#[trigger] prefix[k] == ' ' || prefix[k] == '"'
                    || prefix[k] == '\'');
                assert(next[k] == prefix[k]);
            }
            if needs_quotes(next) && !needs_quotes(prefix) {
                let k = choose|k: int| 0 <= k < next.len() && (#[trigger] next[k] == ' ' || next[k] == '"'
                    || next[k] == '\'');
                if k < i {
                    assert(prefix[k] == next[k]);
                }
            }
        }
        let c = chars[i];
        if c == ' ' || c == '"' || c == '\'' {
            assert(next[i as int] == c);
            needs = true;
        }
        if c == '"' {
            escaped.push('\\');
            escaped.push('"');
            proof {
                assert(escaped@ =~= escape_double_quotes(prefix) + seq!['\\', '"']);
            }
        } else {
            escaped.push(c);
        }
        i = i + 1;
    }
    proof {
        assert(chars@.take(chars.len() as int) =~= chars@);
    }
    if needs {
        let mut shown = owned("\"");
        shown.append(escaped.as_str());
        shown.append("\"");
        proof {
            reveal_strlit("\"");
            assert(shown@ =~= quote_arg_spec(s@));
        }
        shown
    } else {
        owned(s)
    }
}

/// A call as it is shown in the log: the program, a blank, and the
/// arguments as they are shown, with blanks between them.
pub fn format_command_for_log(program: &str, args: &Vec<String>) -> (text: String)
    ensures
        text@ == program@ + " "@ + join_spec(quoted(views(args@)), " "@),
{
    let mut shown: Vec<String> = Vec::new();
    let mut i: usize = 0;
    while i < args.len()
        invariant
            i <= args.len(),
            shown.len() == i,
            forall|j: int| 0 <= j < i ==> (#[trigger] shown@[j])@ == quote_arg_spec(args@[j]@),
        decreases args.len() - i,
    {
        shown.push(quote_arg(args[i].as_str()));
        i = i + 1;
    }
    proof {
        assert(views(shown@) =~= quoted(views(args@)));
    }
    let list = join(&shown, " ");
    let mut text = owned(program);
    text.append(" ");
    text.append(list.as_str());
    text
}

} // verus!
