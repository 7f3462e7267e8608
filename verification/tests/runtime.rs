use devenv::container::{
    container_spec, exists_query, ps_item, ps_items, running_environments_query, running_query,
    without_leading_slashes, ContainerRecord,
};
use devenv::image::{
    archive_name, build_outcome, build_request, command_build_options, plan_archive, start_build_options,
    BuildError, BuildEvent, BuildOptions, EntryKind, WalkEntry,
};
use devenv::lifecycle::ContainerState;
use devenv::start::{aborts_on_failure, first_phase, next_phase, StartContext, StartPhase, Transition};

#[test]
fn the_container_mounts_the_project_and_blocks() {
    let spec = container_spec("devenv-demo", "devenv-demo:latest", "/tmp/demo", Some(2222));
    assert_eq!(spec.name, "devenv-demo");
    assert_eq!(spec.image, "devenv-demo:latest");
    assert_eq!(spec.binds, vec!["/tmp/demo:/workspace"]);
    assert_eq!(spec.command, vec!["/bin/sh", "-lc", "sleep infinity"]);
    assert_eq!(spec.working_dir, "/workspace");
    assert_eq!(spec.ports.len(), 1);
    assert_eq!(spec.ports[0].container_port, "22/tcp");
    assert_eq!(spec.ports[0].host_ip, "0.0.0.0");
    assert_eq!(spec.ports[0].host_port, "2222");
    let spec = container_spec("devenv-demo", "devenv-demo:latest", "/tmp/demo", None);
    assert!(spec.ports.is_empty());
    let spec = container_spec("c", "i", "/p", Some(65535));
    assert_eq!(spec.ports[0].host_port, "65535");
}

#[test]
fn listed_containers_are_shown_without_leading_slash() {
    let record = ContainerRecord {
        names: Some(vec!["/devenv-demo".to_string(), "/other".to_string()]),
        image: Some("devenv-demo:latest".to_string()),
        status: Some("Up 2 hours".to_string()),
    };
    let item = ps_item(&record);
    assert_eq!(item.name, "devenv-demo");
    assert_eq!(item.image, "devenv-demo:latest");
    assert_eq!(item.status, "Up 2 hours");
    let bare = ContainerRecord { names: None, image: None, status: None };
    let item = ps_item(&bare);
    assert_eq!((item.name.as_str(), item.image.as_str(), item.status.as_str()), ("", "", ""));
    let unnamed = ContainerRecord { names: Some(Vec::new()), image: None, status: None };
    assert_eq!(ps_item(&unnamed).name, "");
    let items = ps_items(&vec![record, bare]);
    assert_eq!(items.len(), 2);
    assert_eq!(items[0].name, "devenv-demo");
    assert_eq!(items[1].name, "");
    assert_eq!(without_leading_slashes("//a/b"), "a/b");
    assert_eq!(without_leading_slashes("a"), "a");
    assert_eq!(without_leading_slashes("///"), "");
}

#[test]
fn queries_for_listing() {
    let q = running_environments_query();
    assert!(!q.all);
    assert_eq!(q.name_filter, "devenv-");
    let q = exists_query("devenv-demo");
    assert!(q.all);
    assert_eq!(q.name_filter, "devenv-demo");
    let q = running_query("devenv-demo");
    assert!(!q.all);
    assert_eq!(q.name_filter, "devenv-demo");
}

#[test]
fn build_requests_carry_the_options() {
    assert_eq!(start_build_options(true), BuildOptions { pull: false, no_cache: true });
    assert_eq!(start_build_options(false), BuildOptions { pull: false, no_cache: false });
    assert_eq!(command_build_options(true), BuildOptions { pull: true, no_cache: false });
    let req = build_request("demo", command_build_options(true));
    assert_eq!(req.dockerfile, "Dockerfile");
    assert_eq!(req.tag, "devenv-demo:latest");
    assert!(req.pull);
    assert!(!req.no_cache);
    assert!(req.remove_intermediate);
}

#[test]
fn the_archive_holds_directories_and_files() {
    let entries = vec![
        WalkEntry { relative: "".to_string(), kind: EntryKind::Directory },
        WalkEntry { relative: "Dockerfile".to_string(), kind: EntryKind::File },
        WalkEntry { relative: "dev.sock".to_string(), kind: EntryKind::Other },
        WalkEntry { relative: "src".to_string(), kind: EntryKind::Directory },
        WalkEntry { relative: "src/main.rs".to_string(), kind: EntryKind::File },
    ];
    let items: Vec<(String, bool)> = plan_archive(&entries).into_iter().map(|i| (i.name, i.is_dir)).collect();
    assert_eq!(
        items,
        vec![
            (".".to_string(), true),
            ("Dockerfile".to_string(), false),
            ("src".to_string(), true),
            ("src/main.rs".to_string(), false),
        ]
    );
    assert_eq!(archive_name(""), ".");
    assert_eq!(archive_name("a/b"), "a/b");
    assert!(plan_archive(&Vec::new()).is_empty());
}

#[test]
fn a_build_fails_only_when_the_connection_breaks() {
    assert_eq!(build_outcome(&Vec::new()), Ok(()));
    assert_eq!(build_outcome(&vec![BuildEvent::Progress, BuildEvent::StepError, BuildEvent::Progress]), Ok(()));
    assert_eq!(
        build_outcome(&vec![BuildEvent::Progress, BuildEvent::Transport, BuildEvent::Transport]),
        Err(BuildError { at: 1 })
    );
}

fn context(state: ContainerState, commands: usize) -> StartContext {
    StartContext { state, commands, remote_enabled: false, no_build: false, open: false, attach: false }
}

fn phases(ctx: StartContext, fail_at: Option<StartPhase>) -> (Vec<StartPhase>, Transition) {
    let mut done = Vec::new();
    let mut next = first_phase(ctx);
    while let Transition::Run(phase) = next {
        done.push(phase);
        next = next_phase(ctx, phase, Some(phase) != fail_at);
    }
    (done, next)
}

#[test]
fn the_start_sequence_runs_its_phases_in_order() {
    let (done, end) = phases(context(ContainerState::Absent, 2), None);
    assert_eq!(
        done,
        vec![
            StartPhase::SyncDefinition,
            StartPhase::BuildImage,
            StartPhase::Launch,
            StartPhase::Provision(0),
            StartPhase::Provision(1),
            StartPhase::UpdateIgnoreFile,
            StartPhase::InstallKey,
        ]
    );
    assert_eq!(end, Transition::Finished);
    let all = StartContext {
        state: ContainerState::Stopped,
        commands: 1,
        remote_enabled: true,
        no_build: true,
        open: true,
        attach: true,
    };
    let (done, end) = phases(all, None);
    assert_eq!(
        done,
        vec![
            StartPhase::SyncDefinition,
            StartPhase::Launch,
            StartPhase::Provision(0),
            StartPhase::StartDaemon,
            StartPhase::UpdateIgnoreFile,
            StartPhase::InstallKey,
            StartPhase::OpenEditor,
            StartPhase::Attach,
        ]
    );
    assert_eq!(end, Transition::Finished);
}

#[test]
fn nothing_is_done_for_a_running_container() {
    let (done, end) = phases(context(ContainerState::Running, 3), None);
    assert!(done.is_empty());
    assert_eq!(end, Transition::Finished);
}

#[test]
fn a_failed_provisioning_command_ends_the_sequence() {
    let (done, end) = phases(context(ContainerState::Absent, 3), Some(StartPhase::Provision(1)));
    assert_eq!(
        done,
        vec![
            StartPhase::SyncDefinition,
            StartPhase::BuildImage,
            StartPhase::Launch,
            StartPhase::Provision(0),
            StartPhase::Provision(1),
        ]
    );
    assert_eq!(end, Transition::Aborted(StartPhase::Provision(1)));
}

#[test]
fn some_failures_are_passed_over() {
    let mut ctx = context(ContainerState::Absent, 0);
    ctx.remote_enabled = true;
    ctx.open = true;
    for phase in [StartPhase::StartDaemon, StartPhase::InstallKey, StartPhase::OpenEditor] {
        assert!(!aborts_on_failure(phase));
        assert_eq!(next_phase(ctx, phase, false), next_phase(ctx, phase, true));
    }
    for phase in [
        StartPhase::SyncDefinition,
        StartPhase::BuildImage,
        StartPhase::Launch,
        StartPhase::Provision(0),
        StartPhase::UpdateIgnoreFile,
        StartPhase::Attach,
    ] {
        assert!(aborts_on_failure(phase));
        assert_eq!(next_phase(ctx, phase, false), Transition::Aborted(phase));
    }
    assert_eq!(next_phase(ctx, StartPhase::Launch, true), Transition::Run(StartPhase::StartDaemon));
    assert_eq!(next_phase(ctx, StartPhase::InstallKey, true), Transition::Run(StartPhase::OpenEditor));
    assert_eq!(next_phase(ctx, StartPhase::OpenEditor, true), Transition::Finished);
}
