use devenv::dockerfile::{lines_to_text, render_lines, sync_definition, Dockerfile, SyncAction, UserSpec};

fn strings(list: &[&str]) -> Vec<String> {
    list.iter().map(|w| w.to_string()).collect()
}

const INSTALL: &str = "RUN apt-get update && apt-get install -y --no-install-recommends ";

#[test]
fn debian_with_two_packages_and_no_user() {
    let file = Dockerfile::create("debian:bookworm-slim", &strings(&["git", "make"]), &None);
    let installing: Vec<&str> = file.content.lines().filter(|l| l.ends_with(" git make")).collect();
    assert_eq!(installing, vec!["RUN apt-get update && apt-get install -y --no-install-recommends git make"]);
    assert_eq!(file.content.lines().filter(|l| l.starts_with(INSTALL)).count(), 1);
    assert!(!file.content.contains("useradd"));
    assert!(!file.content.contains("groupadd"));
    assert!(!file.content.contains("/home/"));
}

#[test]
fn renders_the_exact_text_without_packages() {
    let file = Dockerfile::create("debian:bookworm-slim", &Vec::new(), &None);
    let expected = "FROM debian:bookworm-slim\n\
RUN (apt-get update && apt-get install -y --no-install-recommends ca-certificates curl openssh-server sudo) || true\n\
RUN install -d -m 700 /root/.ssh\n\
WORKDIR /workspace\n\
CMD [\"sleep\", \"infinity\"]\n";
    assert_eq!(file.content, expected);
}

#[test]
fn renders_the_exact_text_with_packages_and_user() {
    let user = Some(UserSpec { name: "dev".to_string(), uid: 1001, gid: 100 });
    let file = Dockerfile::create("rust:trixie", &strings(&["git", "make"]), &user);
    let expected = "FROM rust:trixie\n\
RUN (apt-get update && apt-get install -y --no-install-recommends ca-certificates curl openssh-server sudo) || true\n\
RUN apt-get update && apt-get install -y --no-install-recommends git make\n\
RUN groupadd -g 100 dev && useradd -m -s /bin/bash -g 100 -u 1001 dev\n\
RUN install -d -m 700 -o dev -g dev /home/dev/.ssh\n\
RUN install -d -m 700 /root/.ssh\n\
WORKDIR /workspace\n\
CMD [\"sleep\", \"infinity\"]\n";
    assert_eq!(file.content, expected);
}

#[test]
fn rendering_twice_gives_the_same_text() {
    let user = Some(UserSpec { name: "dev".to_string(), uid: 1000, gid: 1000 });
    let a = Dockerfile::create("node:current-bookworm", &strings(&["jq"]), &user);
    let b = Dockerfile::create("node:current-bookworm", &strings(&["jq"]), &user);
    assert_eq!(a.content, b.content);
    assert!(!a.differs_from(&b));
}

#[test]
fn one_more_package_changes_the_install_line_alone() {
    let none = render_lines("debian:bookworm-slim", &Vec::new(), &None);
    let one = render_lines("debian:bookworm-slim", &strings(&["git"]), &None);
    let two = render_lines("debian:bookworm-slim", &strings(&["git", "make"]), &None);
    assert_eq!(none.len(), 5);
    assert_eq!(one.len(), 6);
    assert_eq!(two.len(), 6);
    assert_eq!(one[2], format!("{INSTALL}git"));
    assert_eq!(two[2], format!("{} make", one[2]));
    assert_eq!(one[..2], none[..2]);
    assert_eq!(one[3..], none[2..]);
    assert_eq!(two[..2], one[..2]);
    assert_eq!(two[3..], one[3..]);
}

#[test]
fn a_user_adds_two_directives() {
    let user = Some(UserSpec { name: "dev".to_string(), uid: 1000, gid: 1000 });
    let without = render_lines("debian:bookworm-slim", &strings(&["git"]), &None);
    let with = render_lines("debian:bookworm-slim", &strings(&["git"]), &user);
    assert_eq!(with.len(), without.len() + 2);
    assert_eq!(with[3], "RUN groupadd -g 1000 dev && useradd -m -s /bin/bash -g 1000 -u 1000 dev");
    assert_eq!(with[4], "RUN install -d -m 700 -o dev -g dev /home/dev/.ssh");
    assert_eq!(with[..3], without[..3]);
    assert_eq!(with[5..], without[3..]);
    assert!(!without.contains(&with[3]));
    assert!(!without.contains(&with[4]));
}

#[test]
fn lines_become_a_text_with_line_feeds() {
    assert_eq!(lines_to_text(&Vec::new()), "");
    assert_eq!(lines_to_text(&strings(&["a", "", "b"])), "a\n\nb\n");
}

#[test]
fn the_definition_on_disk_is_only_written_when_missing_or_asked_for() {
    let expected = Dockerfile::create("debian:bookworm-slim", &strings(&["git"]), &None);
    let same = Some(expected.clone());
    let other = Some(Dockerfile { content: "FROM scratch\n".to_string() });
    assert_eq!(sync_definition(&None, &expected, false), SyncAction::Write);
    assert_eq!(sync_definition(&None, &expected, true), SyncAction::Write);
    assert_eq!(sync_definition(&same, &expected, false), SyncAction::Keep);
    assert_eq!(sync_definition(&other, &expected, false), SyncAction::WarnDrift);
    assert_eq!(sync_definition(&other, &expected, true), SyncAction::Write);
    assert_eq!(sync_definition(&same, &expected, true), SyncAction::Write);
    assert!(other.unwrap().differs_from(&expected));
}
