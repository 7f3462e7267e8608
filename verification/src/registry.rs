//! The registry of known environments: a mapping from environment names to
//! project paths in which a name is bound at most once.

use vstd::prelude::*;
use vstd::string::*;
use crate::paths::{join_path, join_path_spec};
use crate::text::{owned, str_equal};

verus! {

/// One binding of an environment name to its project path.
#[derive(Debug, Clone)]
pub struct RegistryEntry {
    pub name: String,
    pub path: String,
}

/// The bindings of all known environments.
#[derive(Debug, Clone)]
pub struct Registry {
    pub entries: Vec<RegistryEntry>,
}

/// Why a registry operation was refused.
#[derive(Debug, Clone)]
pub enum RegistryError {
    /// The name is already bound to the path held here, which differs from the one offered.
    Conflict { name: String, existing: String },
    /// The name is not bound.
    NotFound { name: String },
    /// The stored registry cannot be read as one.
    Corrupt,
}

/// What was found where the registry is stored.
#[derive(Debug, Clone)]
pub enum Stored {
    /// Nothing is stored yet.
    Missing,
    /// What is stored is no registry.
    Malformed,
    /// These bindings are stored.
    Bindings(Vec<RegistryEntry>),
}

/// What an error says.
pub open spec fn message_spec(error: RegistryError) -> Seq<char> {
    match error {
        RegistryError::Conflict { name, existing } => "An environment named '"@ + name@ + "' already exists at "@
            + existing@,
        RegistryError::NotFound { name } => "Environment '"@ + name@ + "' not found in registry"@,
        RegistryError::Corrupt => "Parsing registry.json"@,
    }
}

impl RegistryError {
    /// What the error says.
    pub fn message(&self) -> (text: String)
        ensures
            text@ == message_spec(*self),
    {
        match self {
            RegistryError::Conflict { name, existing } => {
                let mut text = owned("An environment named '");
                text.append(name.as_str());
                text.append("' already exists at ");
                text.append(existing.as_str());
                text
            },
            RegistryError::NotFound { name } => {
                let mut text = owned("Environment '");
                text.append(name.as_str());
                text.append("' not found in registry");
                text
            },
            RegistryError::Corrupt => owned("Parsing registry.json"),
        }
    }
}

/// The mapping that a sequence of entries stands for: the first entry of a name decides.
pub open spec fn bindings(entries: Seq<RegistryEntry>) -> Map<Seq<char>, Seq<char>>
    decreases entries.len(),
{
    if entries.len() == 0 {
        Map::empty()
    } else {
        let rest = bindings(entries.drop_last());
        if rest.contains_key(entries.last().name@) {
            rest
        } else {
            rest.insert(entries.last().name@, entries.last().path@)
        }
    }
}

/// No name occurs in two entries.
pub open spec fn distinct_names(entries: Seq<RegistryEntry>) -> bool {
    forall|i: int, j: int|
        0 <= i < j < entries.len() ==> entries[i].name@ != entries[j].name@
}

/// What `register` makes of a mapping: the binding is added unless the name is
/// bound to another path.
pub open spec fn register_spec(
    m: Map<Seq<char>, Seq<char>>,
    name: Seq<char>,
    path: Seq<char>,
) -> Result<Map<Seq<char>, Seq<char>>, Seq<char>> {
    if m.contains_key(name) && m[name] != path {
        Err(m[name])
    } else {
        Ok(m.insert(name, path))
    }
}

/// What `lookup` finds in a mapping.
pub open spec fn lookup_spec(m: Map<Seq<char>, Seq<char>>, name: Seq<char>) -> Option<Seq<char>> {
    if m.contains_key(name) {
        Some(m[name])
    } else {
        None
    }
}

/// What `unregister` makes of a mapping, and whether the name was bound.
pub open spec fn unregister_spec(m: Map<Seq<char>, Seq<char>>, name: Seq<char>) -> (
    Map<Seq<char>, Seq<char>>,
    bool,
) {
    (m.remove(name), m.contains_key(name))
}

/// Where no name occurs twice, the mapping binds exactly the names of the
/// entries, each to the path of its entry.
pub proof fn lemma_bindings_of_distinct(entries: Seq<RegistryEntry>)
    requires
        distinct_names(entries),
    ensures
        forall|i: int| 0 <= i < entries.len() ==> #[trigger] bindings(entries).contains_key(entries[i].name@)
            && bindings(entries)[entries[i].name@] == entries[i].path@,
        forall|k: Seq<char>| #[trigger] bindings(entries).contains_key(k) ==> exists|i: int|
            0 <= i < entries.len() && entries[i].name@ == k,
    decreases entries.len(),
{
    if entries.len() > 0 {
        let front = entries.drop_last();
        lemma_bindings_of_distinct(front);
        assert forall|i: int| 0 <= i < entries.len() implies #[trigger] bindings(entries).contains_key(entries[i].name@)
            && bindings(entries)[entries[i].name@] == entries[i].path@ by {
            if i < entries.len() - 1 {
                assert(front[i] == entries[i]);
                assert(bindings(front).contains_key(front[i].name@));
            } else {
                if bindings(front).contains_key(entries.last().name@) {
                    let j = choose|j: int| 0 <= j < front.len() && front[j].name@ == entries.last().name@;
                    assert(front[j] == entries[j]);
                }
            }
        }
        assert forall|k: Seq<char>| #[trigger] bindings(entries).contains_key(k) implies exists|i: int|
            0 <= i < entries.len() && entries[i].name@ == k by {
            if bindings(front).contains_key(k) {
                let j = choose|j: int| 0 <= j < front.len() && front[j].name@ == k;
                assert(front[j] == entries[j]);
            } else {
                assert(entries[entries.len() - 1].name@ == k);
            }
        }
    }
}

impl Registry {
    /// The mapping from names to paths that the registry holds.
    pub open spec fn view(&self) -> Map<Seq<char>, Seq<char>> {
        bindings(self.entries@)
    }

    /// Every name is bound once.
    pub open spec fn wf(&self) -> bool {
        distinct_names(self.entries@)
    }

    /// A registry without bindings, as for a store that does not exist yet.
    pub fn new() -> (reg: Registry)
        ensures
            reg.wf(),
            reg@ == Map::<Seq<char>, Seq<char>>::empty(),
    {
        Registry { entries: Vec::new() }
    }

    /// The position of the entry that binds `name`.
    fn find(&self, name: &str) -> (at: Option<usize>)
        requires
            self.wf(),
        ensures
            match at {
                Some(i) => i < self.entries.len() && self.entries[i as int].name@ == name@,
                None => forall|j: int| 0 <= j < self.entries.len() ==> self.entries[j].name@ != name@,
            },
            at.is_some() == self@.contains_key(name@),
    {
        let mut i: usize = 0;
        while i < self.entries.len()
            invariant
                self.wf(),
                i <= self.entries.len(),
                forall|j: int| 0 <= j < i ==> self.entries[j].name@ != name@,
            decreases self.entries.len() - i,
        {
            if str_equal(self.entries[i].name.as_str(), name) {
                proof {
                    lemma_bindings_of_distinct(self.entries@);
                    assert(self@.contains_key(self.entries@[i as int].name@));
                }
                return Some(i);
            }
            i = i + 1;
        }
        proof {
            lemma_bindings_of_distinct(self.entries@);
        }
        None
    }
}

/// Where the registry is stored: below the configuration directory that the
/// user set, else below the platform's, else below the working directory.
pub open spec fn registry_path_spec(set_by_user: Option<String>, platform: Option<String>) -> Seq<char> {
    let base = match set_by_user {
        Some(dir) => dir@,
        None => match platform {
            Some(dir) => dir@,
            None => "."@,
        },
    };
    join_path_spec(join_path_spec(base, "devenv"@), "registry.json"@)
}

/// The path of the file that stores the registry.
pub fn registry_path(set_by_user: &Option<String>, platform: &Option<String>) -> (path: String)
    ensures
        path@ == registry_path_spec(*set_by_user, *platform),
{
    let base = match set_by_user {
        Some(dir) => dir.clone(),
        None => match platform {
            Some(dir) => dir.clone(),
            None => owned("."),
        },
    };
    let dir = join_path(base.as_str(), "devenv");
    join_path(dir.as_str(), "registry.json")
}

/// The registry for what was found in the store. Nothing stored gives the
/// empty registry, and what cannot be read is refused. Where a name is
/// stored twice, its first binding stands.
pub fn load(stored: Stored) -> (res: Result<Registry, RegistryError>)
    ensures
        match stored {
            Stored::Missing => res matches Ok(reg) && reg.wf() && reg@ == Map::<Seq<char>, Seq<char>>::empty(),
            Stored::Malformed => res matches Err(e) && e is Corrupt,
            Stored::Bindings(entries) => res matches Ok(reg) && reg.wf() && reg@ == bindings(entries@),
        },
{
    match stored {
        Stored::Missing => Ok(Registry::new()),
        Stored::Malformed => Err(RegistryError::Corrupt),
        Stored::Bindings(entries) => {
            let mut reg = Registry::new();
            let mut i: usize = 0;
            assert(entries@.take(0) =~= Seq::<RegistryEntry>::empty());
            while i < entries.len()
                invariant
                    i <= entries.len(),
                    reg.wf(),
                    reg@ == bindings(entries@.take(i as int)),
                decreases entries.len() - i,
            {
                proof {
                    assert(entries@.take(i as int + 1).drop_last() =~= entries@.take(i as int));
                }
                if reg.find(entries[i].name.as_str()).is_none() {
                    let ghost before = reg.entries@;
                    reg.entries.push(
                        RegistryEntry { name: entries[i].name.clone(), path: entries[i].path.clone() },
                    );
                    proof {
                        assert(reg.entries@.drop_last() =~= before);
                        lemma_bindings_of_distinct(before);
                    }
                }
                i = i + 1;
            }
            proof {
                assert(entries@.take(entries.len() as int) =~= entries@);
            }
            Ok(reg)
        },
    }
}

/// Binds `name` to `path`. A name that is bound to another path keeps its
/// binding, and the call is refused with that path; binding it again to the
/// path it has changes nothing.
pub fn register_env(reg: &mut Registry, name: &str, path: &str) -> (res: Result<(), RegistryError>)
    requires
        old(reg).wf(),
    ensures
        final(reg).wf(),
        match register_spec(old(reg)@, name@, path@) {
            Ok(m) => res is Ok && final(reg)@ == m,
            Err(existing) => final(reg)@ == old(reg)@ && (res matches Err(
                RegistryError::Conflict { name: n, existing: e },
            ) && n@ == name@ && e@ == existing),
        },
{
    proof {
        lemma_bindings_of_distinct(reg.entries@);
    }
    match reg.find(name) {
        Some(i) => {
            if str_equal(reg.entries[i].path.as_str(), path) {
                assert(reg@.contains_key(reg.entries@[i as int].name@));
                assert(reg@.insert(name@, path@) =~= reg@);
                Ok(())
            } else {
                assert(reg@.contains_key(reg.entries@[i as int].name@));
                Err(RegistryError::Conflict { name: owned(name), existing: reg.entries[i].path.clone() })
            }
        },
        None => {
            let ghost before = reg.entries@;
            reg.entries.push(RegistryEntry { name: owned(name), path: owned(path) });
            proof {
                assert(reg.entries@.drop_last() =~= before);
            }
            Ok(())
        },
    }
}

/// The path that `name` is bound to.
pub fn lookup_env(reg: &Registry, name: &str) -> (res: Result<String, RegistryError>)
    requires
        reg.wf(),
    ensures
        match lookup_spec(reg@, name@) {
            Some(path) => res is Ok && res->Ok_0@ == path,
            None => res matches Err(RegistryError::NotFound { name: n }) && n@ == name@,
        },
{
    proof {
        lemma_bindings_of_distinct(reg.entries@);
    }
    match reg.find(name) {
        Some(i) => {
            assert(reg@.contains_key(reg.entries@[i as int].name@));
            Ok(reg.entries[i].path.clone())
        },
        None => Err(RegistryError::NotFound { name: owned(name) }),
    }
}

/// Removes the binding of `name`, and tells whether there was one.
pub fn unregister_env(reg: &mut Registry, name: &str) -> (existed: bool)
    requires
        old(reg).wf(),
    ensures
        final(reg).wf(),
        (final(reg)@, existed) == unregister_spec(old(reg)@, name@),
{
    proof {
        lemma_bindings_of_distinct(reg.entries@);
    }
    match reg.find(name) {
        Some(i) => {
            let ghost before = reg.entries@;
            let _ = reg.entries.remove(i);
            proof {
                let after = reg.entries@;
                assert(after =~= before.remove(i as int));
                assert(distinct_names(after)) by {
                    assert forall|a: int, b: int| 0 <= a < b < after.len() implies after[a].name@ != after[b].name@ by {
                        let a0 = if a < i { a } else { a + 1 };
                        let b0 = if b < i { b } else { b + 1 };
                        assert(after[a] == before[a0] && after[b] == before[b0]);
                    }
                }
                lemma_bindings_of_distinct(after);
                assert forall|k: Seq<char>| bindings(after).contains_key(k) <==> bindings(before).remove(name@).contains_key(k) by {
                    if bindings(after).contains_key(k) {
                        let j = choose|j: int| 0 <= j < after.len() && after[j].name@ == k;
                        let j0 = if j < i { j } else { j + 1 };
                        assert(after[j] == before[j0]);
                        assert(bindings(before).contains_key(before[j0].name@));
                    }
                    if bindings(before).remove(name@).contains_key(k) {
                        let j = choose|j: int| 0 <= j < before.len() && before[j].name@ == k;
                        let j1 = if j < i { j } else { j - 1 };
                        assert(after[j1] == before[j]);
                        assert(bindings(after).contains_key(after[j1].name@));
                    }
                }
                assert forall|k: Seq<char>| bindings(after).contains_key(k) implies bindings(after)[k] == bindings(before).remove(name@)[k] by {
                    let j = choose|j: int| 0 <= j < after.len() && after[j].name@ == k;
                    let j0 = if j < i { j } else { j + 1 };
                    assert(after[j] == before[j0]);
                    assert(bindings(after).contains_key(after[j].name@));
                    assert(bindings(before).contains_key(before[j0].name@));
                }
                assert(bindings(after) =~= bindings(before).remove(name@));
                assert(bindings(before).contains_key(before[i as int].name@));
            }
            true
        },
        None => {
            assert(reg@.remove(name@) =~= reg@);
            false
        },
    }
}

/// The mapping after a call of `register`: a call that is refused leaves it
/// as it was.
pub open spec fn after_register(
    m: Map<Seq<char>, Seq<char>>,
    name: Seq<char>,
    path: Seq<char>,
) -> Map<Seq<char>, Seq<char>> {
    match register_spec(m, name, path) {
        Ok(next) => next,
        Err(_) => m,
    }
}

/// To register a name with one path and then with another is refused the
/// second time, unless the name was bound to that other path before both
/// calls; the binding that stands is named in the refusal.
pub proof fn lemma_register_other_path_conflicts(
    m: Map<Seq<char>, Seq<char>>,
    name: Seq<char>,
    first: Seq<char>,
    second: Seq<char>,
)
    requires
        first != second,
        !(m.contains_key(name) && m[name] == second),
    ensures
        register_spec(after_register(m, name, first), name, second) == Err::<Map<Seq<char>, Seq<char>>, Seq<char>>(
            after_register(m, name, first)[name],
        ),
        register_spec(m, name, first) is Ok ==> after_register(m, name, first)[name] == first,
{
}

/// To register a name twice with the same path succeeds both times, and the
/// second call changes nothing, wherever the first call is accepted.
pub proof fn lemma_register_same_path_is_idempotent(m: Map<Seq<char>, Seq<char>>, name: Seq<char>, path: Seq<char>)
    requires
        register_spec(m, name, path) is Ok,
    ensures
        register_spec(after_register(m, name, path), name, path) == Ok::<Map<Seq<char>, Seq<char>>, Seq<char>>(
            after_register(m, name, path),
        ),
{
    let after = m.insert(name, path);
    assert(after.insert(name, path) =~= after);
}

/// After `name` is unregistered a lookup of it finds nothing, and to unregister
/// a name that is not bound reports so and leaves the mapping as it was.
pub proof fn lemma_lookup_after_unregister(m: Map<Seq<char>, Seq<char>>, name: Seq<char>)
    ensures
        lookup_spec(unregister_spec(m, name).0, name) is None,
        !m.contains_key(name) ==> unregister_spec(m, name) == (m, false),
{
    if !m.contains_key(name) {
        assert(m.remove(name) =~= m);
    }
}

} // verus!
