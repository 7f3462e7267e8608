//! The image build: the request made of the runtime, the archive of the
//! build context, and what the stream of build events amounts to.

use vstd::prelude::*;
use vstd::string::*;
use crate::config::{image_tag, image_tag_spec};
use crate::text::owned;

verus! {

/// The options of a build.
#[derive(Clone, Copy, PartialEq, Eq, Structural, Debug)]
pub struct BuildOptions {
    /// Pull newer base layers.
    pub pull: bool,
    /// Build without the cache.
    pub no_cache: bool,
}

/// A build as the runtime is asked for it.
#[derive(Debug, Clone)]
pub struct BuildRequest {
    /// The name of the build definition in the archive.
    pub dockerfile: String,
    pub tag: String,
    pub pull: bool,
    pub no_cache: bool,
    /// Remove the intermediate containers.
    pub remove_intermediate: bool,
}

/// What an entry under the context directory is.
#[derive(Clone, Copy, PartialEq, Eq, Structural, Debug)]
pub enum EntryKind {
    Directory,
    File,
    Other,
}

/// An entry found under the context directory.
#[derive(Debug, Clone)]
pub struct WalkEntry {
    /// The entry's path below the context directory; empty for the directory itself.
    pub relative: String,
    pub kind: EntryKind,
}

/// An entry of the archive.
#[derive(Debug, Clone)]
pub struct ArchiveItem {
    pub name: String,
    pub is_dir: bool,
}

/// One event of the stream of a build.
#[derive(Clone, Copy, PartialEq, Eq, Structural, Debug)]
pub enum BuildEvent {
    /// Progress or log output.
    Progress,
    /// A step reported an error; the build goes on.
    StepError,
    /// The connection to the runtime broke.
    Transport,
}

/// The build failed: the connection broke at the event of this position.
#[derive(Clone, Copy, PartialEq, Eq, Structural, Debug)]
pub struct BuildError {
    pub at: usize,
}

/// The options with which `start` builds: no pull, and no cache where a
/// rebuild is asked for.
pub fn start_build_options(rebuild: bool) -> (options: BuildOptions)
    ensures
        options == (BuildOptions { pull: false, no_cache: rebuild }),
{
    BuildOptions { pull: false, no_cache: rebuild }
}

/// The options with which `build` builds: with the cache, and with a pull
/// where one is asked for.
pub fn command_build_options(pull: bool) -> (options: BuildOptions)
    ensures
        options == (BuildOptions { pull, no_cache: false }),
{
    BuildOptions { pull, no_cache: false }
}

/// The request that builds the image of the environment `name`.
pub fn build_request(name: &str, options: BuildOptions) -> (req: BuildRequest)
    ensures
        req.dockerfile@ == "Dockerfile"@,
        req.tag@ == image_tag_spec(name@),
        req.pull == options.pull,
        req.no_cache == options.no_cache,
        req.remove_intermediate,
{
    BuildRequest {
        dockerfile: owned("Dockerfile"),
        tag: image_tag(name),
        pull: options.pull,
        no_cache: options.no_cache,
        remove_intermediate: true,
    }
}

/// The name of an entry in the archive: its path below the context
/// directory, and `.` for the directory itself.
pub open spec fn archive_name_spec(relative: Seq<char>) -> Seq<char> {
    if relative.len() == 0 {
        "."@
    } else {
        relative
    }
}

/// The entries of the archive with their names and whether each is a
/// directory: every directory and every file that was found, in the order
/// in which they were found, and nothing else.
pub open spec fn archive_spec(entries: Seq<WalkEntry>) -> Seq<(Seq<char>, bool)>
    decreases entries.len(),
{
    if entries.len() == 0 {
        Seq::empty()
    } else {
        let front = archive_spec(entries.drop_last());
        match entries.last().kind {
            EntryKind::Directory => front.push((archive_name_spec(entries.last().relative@), true)),
            EntryKind::File => front.push((archive_name_spec(entries.last().relative@), false)),
            EntryKind::Other => front,
        }
    }
}

/// The archive items as names and kinds.
pub open spec fn items_view(items: Seq<ArchiveItem>) -> Seq<(Seq<char>, bool)> {
    Seq::new(items.len(), |i: int| (items[i].name@, items[i].is_dir))
}

/// The name of an entry in the archive.
pub fn archive_name(relative: &str) -> (name: String)
    ensures
        name@ == archive_name_spec(relative@),
{
    if relative.unicode_len() == 0 {
        owned(".")
    } else {
        owned(relative)
    }
}

/// Which entries go into the archive of the build context, and under which names.
pub fn plan_archive(entries: &Vec<WalkEntry>) -> (items: Vec<ArchiveItem>)
    ensures
        items_view(items@) == archive_spec(entries@),
{
    let mut items: Vec<ArchiveItem> = Vec::new();
    let mut i: usize = 0;
    assert(items_view(items@) =~= archive_spec(entries@.take(0)));
    while i < entries.len()
        invariant
            i <= entries.len(),
            items_view(items@) == archive_spec(entries@.take(i as int)),
        decreases entries.len() - i,
    {
        proof {
            assert(entries@.take(i as int + 1).drop_last() =~= entries@.take(i as int));
        }
        let ghost before = items@;
        match entries[i].kind {
            EntryKind::Directory => {
                items.push(ArchiveItem { name: archive_name(entries[i].relative.as_str()), is_dir: true });
                assert(items_view(items@) =~= items_view(before).push(
                    (archive_name_spec(entries@[i as int].relative@), true),
                ));
            },
            EntryKind::File => {
                items.push(ArchiveItem { name: archive_name(entries[i].relative.as_str()), is_dir: false });
                assert(items_view(items@) =~= items_view(before).push(
                    (archive_name_spec(entries@[i as int].relative@), false),
                ));
            },
            EntryKind::Other => {},
        }
        i = i + 1;
    }
    proof {
        assert(entries@.take(entries.len() as int) =~= entries@);
    }
    items
}

/// Whether the connection broke during the events.
pub open spec fn has_transport_error(events: Seq<BuildEvent>) -> bool {
    exists|i: int| 0 <= i < events.len() && events[i] == BuildEvent::Transport
}

/// Whether the event at `at` is the first at which the connection broke.
pub open spec fn first_transport_error(events: Seq<BuildEvent>, at: int) -> bool {
    &&& 0 <= at < events.len()
    &&& events[at] == BuildEvent::Transport
    &&& forall|j: int| 0 <= j < at ==> events[j] != BuildEvent::Transport
}

/// What the events of a build amount to. Errors of single steps do not fail
/// the build; a broken connection does, and the first one is reported.
pub fn build_outcome(events: &Vec<BuildEvent>) -> (res: Result<(), BuildError>)
    ensures
        (res is Err) == has_transport_error(events@),
        res matches Err(e) ==> first_transport_error(events@, e.at as int),
{
    let mut i: usize = 0;
    while i < events.len()
        invariant
            i <= events.len(),
            forall|j: int| 0 <= j < i ==> events[j] != BuildEvent::Transport,
        decreases events.len() - i,
    {
        if matches!(events[i], BuildEvent::Transport) {
            return Err(BuildError { at: i });
        }
        i = i + 1;
    }
    Ok(())
}

} // verus!
