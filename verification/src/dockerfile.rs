//! The build definition of an environment's image, rendered from the base
//! image, the extra packages and the optional non-root user.

use vstd::prelude::*;
use vstd::string::*;
use crate::text::{decimal, decimal_spec, join, join_spec, owned, views};

verus! {

/// The identity of the non-root user that an image provides.
#[derive(Debug, Clone)]
pub struct UserSpec {
    pub name: String,
    pub uid: u32,
    pub gid: u32,
}

/// A rendered build definition.
#[derive(Debug, Clone)]
pub struct Dockerfile {
    pub content: String,
}

/// The directive that names the base image.
pub open spec fn from_line(image: Seq<char>) -> Seq<char> {
    "FROM "@ + image
}

/// The directive that installs the common utilities; it succeeds also where
/// the image has no such package manager.
pub open spec fn common_line() -> Seq<char> {
    "RUN (apt-get update && apt-get install -y --no-install-recommends ca-certificates curl openssh-server sudo) || true"@
}

/// The directive that installs the extra packages, all in one line.
pub open spec fn install_line(packages: Seq<Seq<char>>) -> Seq<char> {
    "RUN apt-get update && apt-get install -y --no-install-recommends "@ + join_spec(packages, " "@)
}

/// The directive that creates the user and its group.
pub open spec fn user_create_line(user: UserSpec) -> Seq<char> {
    "RUN groupadd -g "@ + decimal_spec(user.gid as nat) + " "@ + user.name@ + " && useradd -m -s /bin/bash -g "@
        + decimal_spec(user.gid as nat) + " -u "@ + decimal_spec(user.uid as nat) + " "@ + user.name@
}

/// The directive that creates the user's home and key directories.
pub open spec fn user_home_line(user: UserSpec) -> Seq<char> {
    "RUN install -d -m 700 -o "@ + user.name@ + " -g "@ + user.name@ + " /home/"@ + user.name@ + "/.ssh"@
}

/// The directives up to the user's: base image, common utilities, and the
/// extra packages where there are any.
pub open spec fn head_lines(image: Seq<char>, packages: Seq<Seq<char>>) -> Seq<Seq<char>> {
    if packages.len() == 0 {
        seq![from_line(image), common_line()]
    } else {
        seq![from_line(image), common_line(), install_line(packages)]
    }
}

/// The directives for the user: none without one.
pub open spec fn user_lines(user: Option<UserSpec>) -> Seq<Seq<char>> {
    match user {
        Some(u) => seq![user_create_line(u), user_home_line(u)],
        None => Seq::empty(),
    }
}

/// The directives after the user's: root's key directory, the working
/// directory, and the command that blocks for ever.
pub open spec fn tail_lines() -> Seq<Seq<char>> {
    seq!["RUN install -d -m 700 /root/.ssh"@, "WORKDIR /workspace"@, "CMD [\"sleep\", \"infinity\"]"@]
}

/// All directives of a build definition, in order.
pub open spec fn directives_spec(image: Seq<char>, packages: Seq<Seq<char>>, user: Option<UserSpec>) -> Seq<
    Seq<char>,
> {
    head_lines(image, packages) + user_lines(user) + tail_lines()
}

/// The text of a sequence of lines: each line followed by a line feed.
pub open spec fn text_spec(lines: Seq<Seq<char>>) -> Seq<char>
    decreases lines.len(),
{
    if lines.len() == 0 {
        Seq::empty()
    } else {
        text_spec(lines.drop_last()) + lines.last() + "\n"@
    }
}

/// Renders the directives of a build definition.
pub fn render_lines(image: &str, packages: &Vec<String>, user: &Option<UserSpec>) -> (lines: Vec<String>)
    ensures
        views(lines@) == directives_spec(image@, views(packages@), *user),
{
    let mut lines: Vec<String> = Vec::new();
    let mut from = owned("FROM ");
    from.append(image);
    lines.push(from);
    lines.push(
        owned(
            "RUN (apt-get update && apt-get install -y --no-install-recommends ca-certificates curl openssh-server sudo) || true",
        ),
    );
    if packages.len() > 0 {
        let mut install = owned("RUN apt-get update && apt-get install -y --no-install-recommends ");
        let list = join(packages, " ");
        install.append(list.as_str());
        lines.push(install);
    }
    assert(views(lines@) =~= head_lines(image@, views(packages@)));
    match user {
        Some(u) => {
            let gid = decimal(u.gid);
            let uid = decimal(u.uid);
            let mut create = owned("RUN groupadd -g ");
            create.append(gid.as_str());
            create.append(" ");
            create.append(u.name.as_str());
            create.append(" && useradd -m -s /bin/bash -g ");
            create.append(gid.as_str());
            create.append(" -u ");
            create.append(uid.as_str());
            create.append(" ");
            create.append(u.name.as_str());
            lines.push(create);
            let mut home = owned("RUN install -d -m 700 -o ");
            home.append(u.name.as_str());
            home.append(" -g ");
            home.append(u.name.as_str());
            home.append(" /home/");
            home.append(u.name.as_str());
            home.append("/.ssh");
            lines.push(home);
        },
        None => {},
    }
    assert(views(lines@) =~= head_lines(image@, views(packages@)) + user_lines(*user));
    lines.push(owned("RUN install -d -m 700 /root/.ssh"));
    lines.push(owned("WORKDIR /workspace"));
    lines.push(owned("CMD [\"sleep\", \"infinity\"]"));
    assert(views(lines@) =~= directives_spec(image@, views(packages@), *user));
    lines
}

/// Puts lines together to a text, a line feed after each.
pub fn lines_to_text(lines: &Vec<String>) -> (text: String)
    ensures
        text@ == text_spec(views(lines@)),
{
    let mut out = String::new();
    let mut i: usize = 0;
    while i < lines.len()
        invariant
            i <= lines.len(),
            out@ == text_spec(views(lines@).take(i as int)),
        decreases lines.len() - i,
    {
        proof {
            let next = views(lines@).take(i as int + 1);
            assert(next.drop_last() =~= views(lines@).take(i as int));
            assert(next.last() == lines@[i as int]@);
        }
        out.append(lines[i].as_str());
        out.append("\n");
        i = i + 1;
    }
    proof {
        assert(views(lines@).take(lines.len() as int) =~= views(lines@));
    }
    out
}

impl Dockerfile {
    /// The build definition for a base image, extra packages and an optional user.
    pub fn create(image: &str, packages: &Vec<String>, user: &Option<UserSpec>) -> (file: Dockerfile)
        ensures
            file.content@ == text_spec(directives_spec(image@, views(packages@), *user)),
    {
        let lines = render_lines(image, packages, user);
        Dockerfile { content: lines_to_text(&lines) }
    }

    /// Whether this definition's text is other than that of `expected`.
    pub fn differs_from(&self, expected: &Dockerfile) -> (drift: bool)
        ensures
            drift == (self.content@ != expected.content@),
    {
        !(self.content == expected.content)
    }
}

/// What is done about the build definition on disk.
#[derive(Clone, Copy, PartialEq, Eq, Structural, Debug)]
pub enum SyncAction {
    /// Write the expected definition.
    Write,
    /// Leave the file, and warn that it is other than expected.
    WarnDrift,
    /// Leave the file.
    Keep,
}

/// What is done about the build definition on disk: it is written where
/// there is none or where a rewrite is asked for; otherwise it is never
/// overwritten, and a difference only gives a warning.
pub open spec fn sync_spec(existing: Option<Dockerfile>, expected: Dockerfile, rewrite: bool) -> SyncAction {
    match existing {
        None => SyncAction::Write,
        Some(current) => if rewrite {
            SyncAction::Write
        } else if current.content@ != expected.content@ {
            SyncAction::WarnDrift
        } else {
            SyncAction::Keep
        },
    }
}

/// Decides what is done about the build definition on disk.
pub fn sync_definition(existing: &Option<Dockerfile>, expected: &Dockerfile, rewrite: bool) -> (action: SyncAction)
    ensures
        action == sync_spec(*existing, *expected, rewrite),
{
    match existing {
        None => SyncAction::Write,
        Some(current) => if rewrite {
            SyncAction::Write
        } else if current.differs_from(expected) {
            SyncAction::WarnDrift
        } else {
            SyncAction::Keep
        },
    }
}

/// Equal inputs give the same directives and the same text.
pub proof fn lemma_render_deterministic(
    image1: Seq<char>,
    packages1: Seq<Seq<char>>,
    user1: Option<UserSpec>,
    image2: Seq<char>,
    packages2: Seq<Seq<char>>,
    user2: Option<UserSpec>,
)
    requires
        image1 == image2,
        packages1 == packages2,
        user1 == user2,
    ensures
        directives_spec(image1, packages1, user1) == directives_spec(image2, packages2, user2),
        text_spec(directives_spec(image1, packages1, user1)) == text_spec(directives_spec(image2, packages2, user2)),
{
}

/// One more package changes the install directive alone. Where there was
/// none, the directive for that package comes in after the common utilities;
/// where there was one, the package's name is added to its end after a blank.
pub proof fn lemma_add_package(
    image: Seq<char>,
    packages: Seq<Seq<char>>,
    package: Seq<char>,
    user: Option<UserSpec>,
)
    ensures
        directives_spec(image, packages.push(package), user) == seq![from_line(image), common_line()] + seq![
            install_line(packages.push(package)),
        ] + user_lines(user) + tail_lines(),
        directives_spec(image, packages, user) == seq![from_line(image), common_line()] + (if packages.len() == 0 {
            Seq::<Seq<char>>::empty()
        } else {
            seq![install_line(packages)]
        }) + user_lines(user) + tail_lines(),
        packages.len() == 0 ==> install_line(packages.push(package))
            == "RUN apt-get update && apt-get install -y --no-install-recommends "@ + package,
        packages.len() > 0 ==> install_line(packages.push(package)) == install_line(packages) + " "@ + package,
{
    let more = packages.push(package);
    assert(more.drop_last() =~= packages);
    assert(more.last() == package);
    assert(head_lines(image, more) =~= seq![from_line(image), common_line()] + seq![install_line(more)]);
    assert(head_lines(image, packages) =~= seq![from_line(image), common_line()] + (if packages.len() == 0 {
        Seq::<Seq<char>>::empty()
    } else {
        seq![install_line(packages)]
    }));
    if packages.len() == 0 {
        assert(join_spec(more, " "@) == package);
    } else {
        let prefix = "RUN apt-get update && apt-get install -y --no-install-recommends "@;
        assert(join_spec(more, " "@) == join_spec(packages, " "@) + " "@ + package);
        assert(prefix + (join_spec(packages, " "@) + " "@ + package) =~= prefix + join_spec(packages, " "@) + " "@
            + package);
    }
}

/// With a user the definition holds the two directives that create the user
/// and its directories, between the same directives that it has without one.
pub proof fn lemma_user_directives(image: Seq<char>, packages: Seq<Seq<char>>, user: UserSpec)
    ensures
        directives_spec(image, packages, Some(user)) == head_lines(image, packages) + seq![
            user_create_line(user),
            user_home_line(user),
        ] + tail_lines(),
        directives_spec(image, packages, None) == head_lines(image, packages) + tail_lines(),
        directives_spec(image, packages, Some(user)).len() == directives_spec(image, packages, None).len() + 2,
{
    assert(head_lines(image, packages) + Seq::<Seq<char>>::empty() =~= head_lines(image, packages));
}

/// Without a user no directive of the definition is one that creates a
/// user or a user's directories, whoever the user.
pub proof fn lemma_no_user_directive_without_user(
    image: Seq<char>,
    packages: Seq<Seq<char>>,
    user: UserSpec,
    i: int,
)
    requires
        0 <= i < directives_spec(image, packages, None).len(),
    ensures
        directives_spec(image, packages, None)[i] != user_create_line(user),
        directives_spec(image, packages, None)[i] != user_home_line(user),
{
    reveal_strlit("FROM ");
    reveal_strlit(
        "RUN (apt-get update && apt-get install -y --no-install-recommends ca-certificates curl openssh-server sudo) || true",
    );
    reveal_strlit("RUN apt-get update && apt-get install -y --no-install-recommends ");
    reveal_strlit("RUN groupadd -g ");
    reveal_strlit("RUN install -d -m 700 -o ");
    reveal_strlit("RUN install -d -m 700 /root/.ssh");
    reveal_strlit("WORKDIR /workspace");
    reveal_strlit("CMD [\"sleep\", \"infinity\"]");
    let create = user_create_line(user);
    let home = user_home_line(user);
    assert(create[0] == 'R' && create[4] == 'g');
    assert(home[0] == 'R' && home[4] == 'i' && home[22] == '-');
    let line = directives_spec(image, packages, None)[i];
    let head = head_lines(image, packages);
    if i < head.len() {
        assert(line == head[i]);
        if i == 0 {
            assert(line[0] == 'F');
        } else if i == 1 {
            assert(line[4] == '(');
        } else {
            assert(line[4] == 'a');
        }
    } else {
        let k = i - head.len();
        assert(line == tail_lines()[k]);
        if k == 0 {
            assert(line[4] == 'i' && line[22] == '/');
        } else if k == 1 {
            assert(line[0] == 'W');
        } else {
            assert(line[0] == 'C');
        }
    }
}

} // verus!
