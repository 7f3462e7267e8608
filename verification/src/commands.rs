//! What the commands decide before they turn to the runtime.

use vstd::prelude::*;
use vstd::string::*;
use crate::lifecycle::ContainerState;
use crate::paths::{join_path, join_path_spec};
use crate::text::owned;

verus! {

/// Why no shell can be attached.
#[derive(Clone, Copy, PartialEq, Eq, Structural, Debug)]
pub enum AttachRefusal {
    /// There is no container.
    DoesNotExist,
    /// The container does not run.
    NotRunning,
}

/// Whether a shell can be attached: only to a running container.
pub fn plan_attach(state: ContainerState) -> (res: Result<(), AttachRefusal>)
    ensures
        res == match state {
            ContainerState::Running => Ok::<(), AttachRefusal>(()),
            ContainerState::Stopped => Err::<(), AttachRefusal>(AttachRefusal::NotRunning),
            ContainerState::Absent => Err::<(), AttachRefusal>(AttachRefusal::DoesNotExist),
        },
{
    match state {
        ContainerState::Running => Ok(()),
        ContainerState::Stopped => Err(AttachRefusal::NotRunning),
        ContainerState::Absent => Err(AttachRefusal::DoesNotExist),
    }
}

/// The command that starts the environment, as the user would type it.
pub open spec fn start_hint_spec(name: Option<String>) -> Seq<char> {
    match name {
        Some(n) => "devenv start "@ + n@,
        None => "devenv start"@,
    }
}

/// What a refusal says.
pub open spec fn refusal_spec(refusal: AttachRefusal, env: Seq<char>, name: Option<String>) -> Seq<char> {
    match refusal {
        AttachRefusal::DoesNotExist => "Environment '"@ + env + "' does not exist."@,
        AttachRefusal::NotRunning => "Environment '"@ + env + "' is not running. Use '"@ + start_hint_spec(name)
            + "' first."@,
    }
}

/// The command that starts the environment, with the name where the user gave one.
pub fn start_hint(name: &Option<String>) -> (hint: String)
    ensures
        hint@ == start_hint_spec(*name),
{
    match name {
        Some(n) => {
            let mut hint = owned("devenv start ");
            hint.append(n.as_str());
            hint
        },
        None => owned("devenv start"),
    }
}

/// What a refusal says of the environment `env`, which the user named by `name` or not at all.
pub fn refusal_message(refusal: AttachRefusal, env: &str, name: &Option<String>) -> (text: String)
    ensures
        text@ == refusal_spec(refusal, env@, *name),
{
    match refusal {
        AttachRefusal::DoesNotExist => {
            let mut text = owned("Environment '");
            text.append(env);
            text.append("' does not exist.");
            text
        },
        AttachRefusal::NotRunning => {
            let hint = start_hint(name);
            let mut text = owned("Environment '");
            text.append(env);
            text.append("' is not running. Use '");
            text.append(hint.as_str());
            text.append("' first.");
            text
        },
    }
}

/// What `init` does in a project directory before it registers the
/// environment and builds its image.
#[derive(Clone, Copy, PartialEq, Eq, Structural, Debug)]
pub struct InitPlan {
    /// Create the configuration; an existing one is used as it is.
    pub create_config: bool,
    /// Write the build definition; an existing one is left unchanged.
    pub write_definition: bool,
}

/// The project path does not exist.
#[derive(Clone, Copy, PartialEq, Eq, Structural, Debug)]
pub struct PathMissing;

/// Decides what `init` does: nothing for a path that does not exist, and
/// otherwise it creates what is missing and overwrites nothing.
pub fn plan_init(path_exists: bool, config_exists: bool, definition_exists: bool) -> (res: Result<
    InitPlan,
    PathMissing,
>)
    ensures
        !path_exists ==> res == Err::<InitPlan, PathMissing>(PathMissing),
        path_exists ==> res == Ok::<InitPlan, PathMissing>(
            InitPlan { create_config: !config_exists, write_definition: !definition_exists },
        ),
{
    if !path_exists {
        return Err(PathMissing);
    }
    Ok(InitPlan { create_config: !config_exists, write_definition: !definition_exists })
}

/// Where a project keeps the key pair that this tool made for it.
#[derive(Debug, Clone)]
pub struct KeyPaths {
    pub directory: String,
    pub private_key: String,
    pub public_key: String,
}

/// The paths of a project's own key pair.
pub fn key_paths(project_dir: &str) -> (paths: KeyPaths)
    ensures
        paths.directory@ == join_path_spec(project_dir@, ".devenv"@),
        paths.private_key@ == join_path_spec(paths.directory@, "zed_ed25519"@),
        paths.public_key@ == join_path_spec(paths.directory@, "zed_ed25519.pub"@),
{
    let directory = join_path(project_dir, ".devenv");
    let private_key = join_path(directory.as_str(), "zed_ed25519");
    let public_key = join_path(directory.as_str(), "zed_ed25519.pub");
    KeyPaths { directory, private_key, public_key }
}

/// The comment of a project's own key.
pub fn key_label(env_name: &str) -> (label: String)
    ensures
        label@ == "devenv-"@ + env_name@ + " zed"@,
{
    let mut label = owned("devenv-");
    label.append(env_name);
    label.append(" zed");
    label
}

/// Whether a key pair has to be made: unless both of its files are there.
pub fn needs_new_keys(private_exists: bool, public_exists: bool) -> (needed: bool)
    ensures
        needed == (!private_exists || !public_exists),
{
    !private_exists || !public_exists
}

/// The path of the public key to authorise: the configured one, else the
/// project's own where its pair is there or could be made, else none.
pub fn public_key_path(configured: &Option<String>, paths: &KeyPaths, pair_available: bool) -> (path: Option<
    String,
>)
    ensures
        path == match *configured {
            Some(p) => Some(p),
            None => if pair_available {
                Some(paths.public_key)
            } else {
                None::<String>
            },
        },
{
    match configured {
        Some(p) => Some(p.clone()),
        None => if pair_available {
            Some(paths.public_key.clone())
        } else {
            None
        },
    }
}

} // verus!
