//! What the runtime is asked about containers and told to create: plain
//! values, which the caller hands to the runtime's client.

use vstd::prelude::*;
use vstd::string::*;
use crate::text::{chars_of, decimal, decimal_spec, owned, string_of, views};

verus! {

/// One line of the list of running environments.
#[derive(Debug, Clone)]
pub struct PsItem {
    pub name: String,
    pub image: String,
    pub status: String,
}

/// A container as the runtime lists it.
#[derive(Debug, Clone)]
pub struct ContainerRecord {
    pub names: Option<Vec<String>>,
    pub image: Option<String>,
    pub status: Option<String>,
}

/// Which containers to list.
#[derive(Debug, Clone)]
pub struct ListQuery {
    /// List stopped containers too.
    pub all: bool,
    /// List the containers whose name holds this text.
    pub name_filter: String,
}

/// A port of the container published on the host.
#[derive(Debug, Clone)]
pub struct PortBinding {
    pub container_port: String,
    pub host_ip: String,
    pub host_port: String,
}

/// A container to create.
#[derive(Debug, Clone)]
pub struct ContainerSpec {
    pub name: String,
    pub image: String,
    /// The host directories mounted into the container.
    pub binds: Vec<String>,
    pub ports: Vec<PortBinding>,
    pub command: Vec<String>,
    pub working_dir: String,
}

/// A text without the slashes at its start.
pub open spec fn strip_leading_slashes(s: Seq<char>) -> Seq<char>
    decreases s.len(),
{
    if s.len() > 0 && s[0] == '/' {
        strip_leading_slashes(s.drop_first())
    } else {
        s
    }
}

/// The name shown for a container: the first of its names without the
/// slashes at its start, or nothing where it has no name.
pub open spec fn shown_name(names: Option<Vec<String>>) -> Seq<char> {
    match names {
        Some(v) => if v@.len() > 0 {
            strip_leading_slashes(v@[0]@)
        } else {
            Seq::empty()
        },
        None => Seq::empty(),
    }
}

/// The text of an optional string, or nothing.
pub open spec fn text_or_empty(s: Option<String>) -> Seq<char> {
    match s {
        Some(v) => v@,
        None => Seq::empty(),
    }
}

/// The bind mount of the project directory.
pub open spec fn bind_spec(project_dir: Seq<char>) -> Seq<char> {
    project_dir + ":/workspace"@
}

/// Removes the slashes at the start of a text.
pub fn without_leading_slashes(s: &str) -> (out: String)
    ensures
        out@ == strip_leading_slashes(s@),
{
    let chars = chars_of(s);
    let mut i: usize = 0;
    proof {
        assert(chars@.subrange(0, chars.len() as int) =~= chars@);
    }
    while i < chars.len() && chars[i] == '/'
        invariant
            i <= chars.len(),
            strip_leading_slashes(chars@) == strip_leading_slashes(chars@.subrange(i as int, chars.len() as int)),
        decreases chars.len() - i,
    {
        proof {
            assert(chars@.subrange(i as int, chars.len() as int).drop_first() =~= chars@.subrange(
                i as int + 1,
                chars.len() as int,
            ));
        }
        i = i + 1;
    }
    string_of(&chars, i, chars.len())
}

/// The line shown for a listed container.
pub fn ps_item(record: &ContainerRecord) -> (item: PsItem)
    ensures
        item.name@ == shown_name(record.names),
        item.image@ == text_or_empty(record.image),
        item.status@ == text_or_empty(record.status),
{
    let name = match &record.names {
        Some(v) => if v.len() > 0 {
            without_leading_slashes(v[0].as_str())
        } else {
            String::new()
        },
        None => String::new(),
    };
    let image = match &record.image {
        Some(s) => s.clone(),
        None => String::new(),
    };
    let status = match &record.status {
        Some(s) => s.clone(),
        None => String::new(),
    };
    PsItem { name, image, status }
}

/// The lines shown for the listed containers, in their order.
pub fn ps_items(records: &Vec<ContainerRecord>) -> (items: Vec<PsItem>)
    ensures
        items.len() == records.len(),
        forall|i: int|
            0 <= i < records.len() ==> {
                &&& (#[trigger] items[i]).name@ == shown_name(records[i].names)
                &&& items[i].image@ == text_or_empty(records[i].image)
                &&& items[i].status@ == text_or_empty(records[i].status)
            },
{
    let mut items: Vec<PsItem> = Vec::new();
    let mut k: usize = 0;
    while k < records.len()
        invariant
            k <= records.len(),
            items.len() == k,
            forall|i: int|
                0 <= i < k ==> {
                    &&& (#[trigger] items[i]).name@ == shown_name(records[i].names)
                    &&& items[i].image@ == text_or_empty(records[i].image)
                    &&& items[i].status@ == text_or_empty(records[i].status)
                },
        decreases records.len() - k,
    {
        items.push(ps_item(&records[k]));
        k = k + 1;
    }
    items
}

/// The query for the running environments.
pub fn running_environments_query() -> (query: ListQuery)
    ensures
        !query.all,
        query.name_filter@ == "devenv-"@,
{
    ListQuery { all: false, name_filter: owned("devenv-") }
}

/// The query that tells whether a container of that name is there: it
/// lists stopped containers too.
pub fn exists_query(name: &str) -> (query: ListQuery)
    ensures
        query.all,
        query.name_filter@ == name@,
{
    ListQuery { all: true, name_filter: owned(name) }
}

/// The query that tells whether a container of that name runs.
pub fn running_query(name: &str) -> (query: ListQuery)
    ensures
        !query.all,
        query.name_filter@ == name@,
{
    ListQuery { all: false, name_filter: owned(name) }
}

/// The container of an environment: the project directory is mounted at
/// `/workspace`, which is the working directory; the shell port is published
/// on `host_ssh_port` where one is given; and the command blocks for ever.
pub fn container_spec(container_name: &str, image: &str, project_dir: &str, host_ssh_port: Option<u16>) -> (spec:
    ContainerSpec)
    ensures
        spec.name@ == container_name@,
        spec.image@ == image@,
        views(spec.binds@) == seq![bind_spec(project_dir@)],
        views(spec.command@) == seq!["/bin/sh"@, "-lc"@, "sleep infinity"@],
        spec.working_dir@ == "/workspace"@,
        match host_ssh_port {
            Some(port) => spec.ports@.len() == 1 && spec.ports@[0].container_port@ == "22/tcp"@
                && spec.ports@[0].host_ip@ == "0.0.0.0"@ && spec.ports@[0].host_port@ == decimal_spec(port as nat),
            None => spec.ports@.len() == 0,
        },
{
    let mut bind = owned(project_dir);
    bind.append(":/workspace");
    let mut binds: Vec<String> = Vec::new();
    binds.push(bind);
    assert(views(binds@) =~= seq![bind_spec(project_dir@)]);
    let mut ports: Vec<PortBinding> = Vec::new();
    match host_ssh_port {
        Some(port) => {
            ports.push(
                PortBinding {
                    container_port: owned("22/tcp"),
                    host_ip: owned("0.0.0.0"),
                    host_port: decimal(port as u32),
                },
            );
        },
        None => {},
    }
    let mut command: Vec<String> = Vec::new();
    command.push(owned("/bin/sh"));
    command.push(owned("-lc"));
    command.push(owned("sleep infinity"));
    assert(views(command@) =~= seq!["/bin/sh"@, "-lc"@, "sleep infinity"@]);
    ContainerSpec {
        name: owned(container_name),
        image: owned(image),
        binds,
        ports,
        command,
        working_dir: owned("/workspace"),
    }
}

} // verus!
