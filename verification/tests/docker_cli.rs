use devenv::docker_cli::{
    container_exists, docker_build_with_opts, docker_exec_interactive_shell, docker_exec_shell,
    docker_exec_shell_as, docker_ps_devenv, docker_remove_container, docker_run_detached, docker_start,
    docker_stop, failure_message, format_command_for_log, is_container_running, names_args, ps_devenv_args,
    quote_arg, DockerCall,
};
use devenv::exec::Shell;
use devenv::text::{lines, split};

fn strings(list: &[&str]) -> Vec<String> {
    list.iter().map(|w| w.to_string()).collect()
}

#[test]
fn build_arguments_carry_the_options() {
    assert_eq!(docker_build_with_opts("/tmp/demo", "devenv-demo:latest", false, false), vec![
        "build",
        "-t",
        "devenv-demo:latest",
        "/tmp/demo"
    ]);
    assert_eq!(docker_build_with_opts("/tmp/demo", "t", true, true), vec![
        "build",
        "--pull",
        "--no-cache",
        "-t",
        "t",
        "/tmp/demo"
    ]);
    assert_eq!(docker_build_with_opts(".", "t", false, true), vec!["build", "--no-cache", "-t", "t", "."]);
}

#[test]
fn arguments_of_the_simple_calls() {
    assert_eq!(docker_start("devenv-demo"), vec!["start", "devenv-demo"]);
    assert_eq!(docker_stop("devenv-demo"), vec!["stop", "devenv-demo"]);
    assert_eq!(docker_remove_container("devenv-demo", false), vec!["rm", "devenv-demo"]);
    assert_eq!(docker_remove_container("devenv-demo", true), vec!["rm", "-f", "devenv-demo"]);
    assert_eq!(
        ps_devenv_args(),
        vec!["ps", "--filter", "name=^/devenv-", "--format", "{{.Names}}\t{{.Image}}\t{{.Status}}"]
    );
    assert_eq!(names_args(true), vec!["ps", "-a", "--format", "{{.Names}}"]);
    assert_eq!(names_args(false), vec!["ps", "--format", "{{.Names}}"]);
}

#[test]
fn run_arguments_mount_the_project() {
    assert_eq!(
        docker_run_detached("devenv-demo", "devenv-demo:latest", "/tmp/demo", Some(2222)),
        vec![
            "run",
            "-d",
            "--name",
            "devenv-demo",
            "-v",
            "/tmp/demo:/workspace",
            "-w",
            "/workspace",
            "-p",
            "2222:22",
            "devenv-demo:latest",
            "/bin/sh",
            "-lc",
            "tail -f /dev/null"
        ]
    );
    assert_eq!(
        docker_run_detached("c", "i", "/p", None),
        vec!["run", "-d", "--name", "c", "-v", "/p:/workspace", "-w", "/workspace", "i", "/bin/sh", "-lc", "tail -f /dev/null"]
    );
}

#[test]
fn exec_arguments_name_the_shell() {
    assert_eq!(docker_exec_shell("c", "make", Shell::Bash), vec!["exec", "c", "/bin/bash", "-lc", "make"]);
    assert_eq!(docker_exec_shell("c", "make", Shell::Sh), vec!["exec", "c", "/bin/sh", "-lc", "make"]);
    assert_eq!(
        docker_exec_shell_as("c", "dev", "make", Shell::Bash),
        vec!["exec", "-u", "dev", "c", "/bin/bash", "-lc", "make"]
    );
    assert_eq!(docker_exec_interactive_shell("c", Shell::Sh), vec!["exec", "-it", "c", "/bin/sh", "-l"]);
}

#[test]
fn failures_of_calls_are_named() {
    assert_eq!(failure_message(DockerCall::Build), "docker build failed");
    assert_eq!(failure_message(DockerCall::Start), "docker start failed");
    assert_eq!(failure_message(DockerCall::Stop), "docker stop failed");
    assert_eq!(failure_message(DockerCall::Remove), "docker rm failed");
    assert_eq!(failure_message(DockerCall::Run), "docker run failed");
    assert_eq!(failure_message(DockerCall::Exec), "docker exec failed");
    assert_eq!(failure_message(DockerCall::ExecAsUser), "docker exec -u failed");
    assert_eq!(failure_message(DockerCall::Attach), "failed to attach interactive shell");
}

#[test]
fn a_container_is_sought_among_the_listed_names() {
    let listing = "devenv-a\n  devenv-b \r\nother\n";
    assert!(container_exists("devenv-a", true, listing));
    assert!(container_exists("devenv-b", true, listing));
    assert!(container_exists("other", true, listing));
    assert!(!container_exists("devenv", true, listing));
    assert!(!container_exists("devenv-a", false, listing));
    assert!(!container_exists("", true, listing));
    assert!(!container_exists("", true, ""));
    assert!(container_exists("", true, "\n"));
    assert!(container_exists("x", true, "x"));
    assert!(is_container_running("devenv-b", true, listing));
    assert!(!is_container_running("devenv-c", true, listing));
    assert!(!is_container_running("devenv-b", false, listing));
}

#[test]
fn listed_environments_are_read_line_by_line() {
    let out = "devenv-a\tdevenv-a:latest\tUp 2 hours\nbroken line\n\ndevenv-b\timg\ndevenv-c\ti\ts\textra\r\n";
    let items: Vec<(String, String, String)> =
        docker_ps_devenv(true, out).into_iter().map(|i| (i.name, i.image, i.status)).collect();
    assert_eq!(
        items,
        vec![
            ("devenv-a".to_string(), "devenv-a:latest".to_string(), "Up 2 hours".to_string()),
            ("devenv-b".to_string(), "img".to_string(), "".to_string()),
            ("devenv-c".to_string(), "i".to_string(), "s".to_string()),
        ]
    );
    assert!(docker_ps_devenv(false, out).is_empty());
    assert!(docker_ps_devenv(true, "").is_empty());
}

#[test]
fn texts_are_split_as_std_splits_them() {
    for text in ["", "a", "a\tb", "\t", "a\t\tb\t", "\ta", "x\ty\tz"] {
        let expected: Vec<String> = text.split('\t').map(|p| p.to_string()).collect();
        assert_eq!(split(text, '\t'), expected);
    }
    for text in ["", "a", "a\n", "a\r\n", "a\r", "\n", "\r\n", "a\n\nb", "a\r\r\nb\r", "a\nb\n\n", "\n\na"] {
        let expected: Vec<String> = text.lines().map(|p| p.to_string()).collect();
        assert_eq!(lines(text), expected);
    }
}

#[test]
fn arguments_with_blanks_or_quotes_are_shown_quoted() {
    assert_eq!(quote_arg("plain"), "plain");
    assert_eq!(quote_arg(""), "");
    assert_eq!(quote_arg("two words"), "\"two words\"");
    assert_eq!(quote_arg("say \"hi\""), "\"say \\\"hi\\\"\"");
    assert_eq!(quote_arg("it's"), "\"it's\"");
    assert_eq!(quote_arg("a\"b"), "\"a\\\"b\"");
    assert_eq!(
        format_command_for_log("docker", &strings(&["exec", "c", "/bin/sh", "-lc", "echo \"x y\""])),
        "docker exec c /bin/sh -lc \"echo \\\"x y\\\"\""
    );
    assert_eq!(format_command_for_log("docker", &Vec::new()), "docker ");
    assert_eq!(format_command_for_log("docker", &strings(&["ps"])), "docker ps");
}
