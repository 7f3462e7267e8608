//! The choice of a base image from the files that a project holds.

use vstd::prelude::*;
use vstd::string::*;
use crate::text::{chars_of, matches_at, owned, str_equal};

verus! {

/// One entry found under a project directory.
#[derive(Debug, Clone)]
pub struct DirEntry {
    /// The entry's own name, without the directories above it.
    pub name: String,
    /// How far below the project directory the entry lies: 1 for its children.
    pub depth: usize,
    /// Whether the entry is a regular file.
    pub is_file: bool,
}

/// Whether the project directory itself holds an entry of that name.
pub open spec fn has_root_entry(entries: Seq<DirEntry>, name: Seq<char>) -> bool {
    exists|i: int| 0 <= i < entries.len() && entries[i].depth == 1 && #[trigger] entries[i].name@ == name
}

/// Whether a file name has the extension `ext`: it ends with a dot and `ext`,
/// and something stands before the dot.
pub open spec fn has_extension_spec(name: Seq<char>, ext: Seq<char>) -> bool {
    name.len() > ext.len() + 1 && name[name.len() - ext.len() - 1] == '.' && name.subrange(
        name.len() - ext.len(),
        name.len() as int,
    ) == ext
}

/// Whether an entry is a file with the extension `ext`, at most two levels
/// below the project directory.
pub open spec fn is_file_with_extension(entry: DirEntry, ext: Seq<char>) -> bool {
    entry.is_file && entry.depth <= 2 && has_extension_spec(entry.name@, ext)
}

/// Whether some file at most two levels down has the extension `ext`.
pub open spec fn has_file_with_extension(entries: Seq<DirEntry>, ext: Seq<char>) -> bool {
    exists|i: int| 0 <= i < entries.len() && #[trigger] is_file_with_extension(entries[i], ext)
}

/// Whether the project holds a Gradle build file.
pub open spec fn has_gradle_spec(entries: Seq<DirEntry>) -> bool {
    has_root_entry(entries, "build.gradle"@) || has_root_entry(entries, "build.gradle.kts"@)
}

/// The base image for a project: the first of the known kinds of project
/// whose marker is found decides.
pub open spec fn detect_spec(entries: Seq<DirEntry>) -> Option<Seq<char>> {
    if has_root_entry(entries, "Cargo.toml"@) {
        Some("rust:trixie"@)
    } else if has_root_entry(entries, "package.json"@) {
        Some("node:current-bookworm"@)
    } else if has_root_entry(entries, "pyproject.toml"@) || has_root_entry(entries, "requirements.txt"@) {
        Some("python:bookworm"@)
    } else if has_root_entry(entries, "go.mod"@) {
        Some("golang:bookworm"@)
    } else if has_root_entry(entries, "Gemfile"@) {
        Some("ruby:bookworm"@)
    } else if has_root_entry(entries, "pom.xml"@) || has_gradle_spec(entries) {
        Some("eclipse-temurin:latest"@)
    } else if has_file_with_extension(entries, "csproj"@) {
        Some("mcr.microsoft.com/dotnet/sdk:8.0"@)
    } else if has_root_entry(entries, "composer.json"@) {
        Some("php:bookworm"@)
    } else if has_root_entry(entries, "mix.exs"@) {
        Some("elixir:slim"@)
    } else {
        None
    }
}

/// Tells whether the project directory itself holds an entry of that name.
pub fn has_entry(entries: &Vec<DirEntry>, name: &str) -> (found: bool)
    ensures
        found == has_root_entry(entries@, name@),
{
    let mut i: usize = 0;
    while i < entries.len()
        invariant
            i <= entries.len(),
            forall|j: int| 0 <= j < i ==> !(entries[j].depth == 1 && #[trigger] entries[j].name@ == name@),
        decreases entries.len() - i,
    {
        if entries[i].depth == 1 && str_equal(entries[i].name.as_str(), name) {
            assert(entries@[i as int].name@ == name@);
            return true;
        }
        i = i + 1;
    }
    false
}

/// Tells whether a file name has the extension `ext`.
pub fn name_has_extension(name: &str, ext: &str) -> (has: bool)
    ensures
        has == has_extension_spec(name@, ext@),
{
    let n = chars_of(name);
    let e = chars_of(ext);
    if n.len() <= e.len() || n.len() - e.len() < 2 {
        return false;
    }
    let at: usize = n.len() - e.len();
    n[at - 1] == '.' && matches_at(&n, at, &e)
}

/// Tells whether some file at most two levels down has the extension `ext`.
pub fn has_extension(entries: &Vec<DirEntry>, ext: &str) -> (found: bool)
    ensures
        found == has_file_with_extension(entries@, ext@),
{
    let mut i: usize = 0;
    while i < entries.len()
        invariant
            i <= entries.len(),
            forall|j: int| 0 <= j < i ==> !#[trigger] is_file_with_extension(entries[j], ext@),
        decreases entries.len() - i,
    {
        if entries[i].is_file && entries[i].depth <= 2 && name_has_extension(entries[i].name.as_str(), ext) {
            assert(is_file_with_extension(entries@[i as int], ext@));
            return true;
        }
        i = i + 1;
    }
    false
}

/// Tells whether the project holds a Gradle build file.
pub fn has_gradle_files(entries: &Vec<DirEntry>) -> (found: bool)
    ensures
        found == has_gradle_spec(entries@),
{
    has_entry(entries, "build.gradle") || has_entry(entries, "build.gradle.kts")
}

/// Chooses a base image for a project from the entries found in it.
pub fn detect_base_image(entries: &Vec<DirEntry>) -> (image: Option<String>)
    ensures
        match detect_spec(entries@) {
            Some(name) => image matches Some(s) && s@ == name,
            None => image is None,
        },
{
    if has_entry(entries, "Cargo.toml") {
        return Some(owned("rust:trixie"));
    }
    if has_entry(entries, "package.json") {
        return Some(owned("node:current-bookworm"));
    }
    if has_entry(entries, "pyproject.toml") || has_entry(entries, "requirements.txt") {
        return Some(owned("python:bookworm"));
    }
    if has_entry(entries, "go.mod") {
        return Some(owned("golang:bookworm"));
    }
    if has_entry(entries, "Gemfile") {
        return Some(owned("ruby:bookworm"));
    }
    if has_entry(entries, "pom.xml") || has_gradle_files(entries) {
        return Some(owned("eclipse-temurin:latest"));
    }
    if has_extension(entries, "csproj") {
        return Some(owned("mcr.microsoft.com/dotnet/sdk:8.0"));
    }
    if has_entry(entries, "composer.json") {
        return Some(owned("php:bookworm"));
    }
    if has_entry(entries, "mix.exs") {
        return Some(owned("elixir:slim"));
    }
    None
}

} // verus!
