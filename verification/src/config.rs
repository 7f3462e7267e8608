//! The declarative configuration of an environment and what is derived from
//! it: the names of its container and image, the published port, the users
//! that commands run as, and the script that installs a public key.

use vstd::prelude::*;
use vstd::string::*;
use crate::detect::{detect_base_image, detect_spec, DirEntry};
use crate::dockerfile::UserSpec;
use crate::paths::{file_name, file_name_spec, join_path, join_path_spec};
use crate::text::{chars_of, owned, str_equal, trim, trim_spec};

verus! {

/// Access for a remote editor over a published shell port.
#[derive(Debug, Clone)]
pub struct ZedRemote {
    pub enabled: bool,
    /// The port published on the host; 2222 where none is given.
    pub ssh_port: Option<u16>,
    /// The user in the container; root where none is given.
    pub ssh_user: Option<String>,
}

/// The settings of one environment.
#[derive(Debug, Clone)]
pub struct DevEnvConfig {
    /// The unique name of the environment.
    pub name: String,
    /// The base image.
    pub image: String,
    /// The path of a private key to mount into the container.
    pub ssh_private_key: Option<String>,
    /// Extra packages to install.
    pub packages: Vec<String>,
    /// Commands to run once the container has started.
    pub commands: Vec<String>,
    pub zed_remote: Option<ZedRemote>,
    /// The path of a public key to authorise in the container.
    pub ssh_public_key: Option<String>,
    pub user_name: Option<String>,
    pub user_uid: Option<u32>,
    pub user_gid: Option<u32>,
    /// Run the provisioning commands as the non-root user where there is one.
    pub provision_as_non_root: bool,
}

/// A configuration and the path of the file that holds it.
#[derive(Debug, Clone)]
pub struct Config {
    pub devenv: DevEnvConfig,
    pub path: String,
}

/// Why a configuration cannot be created.
#[derive(Clone, Copy, PartialEq, Eq, Structural, Debug)]
pub enum ConfigError {
    /// The project path is no directory.
    NotADirectory,
    /// The directory holds a configuration already.
    AlreadyExists,
}

/// A copy of an optional string.
fn clone_opt(s: &Option<String>) -> (copy: Option<String>)
    ensures
        copy == *s,
{
    match s {
        Some(v) => Some(v.clone()),
        None => None,
    }
}

/// The name of the container of the environment `name`.
pub open spec fn container_name_spec(name: Seq<char>) -> Seq<char> {
    "devenv-"@ + name
}

/// The tag of the image of the environment `name`.
pub open spec fn image_tag_spec(name: Seq<char>) -> Seq<char> {
    "devenv-"@ + name + ":latest"@
}

/// The name of the container of the environment `name`.
pub fn container_name(name: &str) -> (full: String)
    ensures
        full@ == container_name_spec(name@),
{
    let mut full = owned("devenv-");
    full.append(name);
    full
}

/// The tag of the image of the environment `name`.
pub fn image_tag(name: &str) -> (tag: String)
    ensures
        tag@ == image_tag_spec(name@),
{
    let mut tag = owned("devenv-");
    tag.append(name);
    tag.append(":latest");
    tag
}

/// The host port to publish for the remote shell: the configured one, or 2222,
/// where remote access is enabled; none where it is not.
pub open spec fn ssh_port_spec(zed: Option<ZedRemote>) -> Option<u16> {
    match zed {
        Some(z) => if z.enabled {
            match z.ssh_port {
                Some(p) => Some(p),
                None => Some(2222u16),
            }
        } else {
            None
        },
        None => None,
    }
}

/// The host port to publish for the remote shell.
pub fn ssh_port(zed: &Option<ZedRemote>) -> (port: Option<u16>)
    ensures
        port == ssh_port_spec(*zed),
{
    match zed {
        Some(z) => if z.enabled {
            match z.ssh_port {
                Some(p) => Some(p),
                None => Some(2222),
            }
        } else {
            None
        },
        None => None,
    }
}

/// Whether remote access is configured and enabled.
pub fn remote_enabled(zed: &Option<ZedRemote>) -> (enabled: bool)
    ensures
        enabled == (zed matches Some(z) && z.enabled),
{
    match zed {
        Some(z) => z.enabled,
        None => false,
    }
}

/// The remote user of a configuration, if one is given.
pub open spec fn remote_user(zed: Option<ZedRemote>) -> Option<String> {
    match zed {
        Some(z) => z.ssh_user,
        None => None,
    }
}

/// The first of two optional values that is there.
pub open spec fn first_of(a: Option<String>, b: Option<String>) -> Option<String> {
    match a {
        Some(_) => a,
        None => b,
    }
}

/// The user that provisioning commands run as: the configured user, else the
/// remote user, if provisioning as non-root is asked for and that user is not
/// root; otherwise none, and the commands run as root.
pub open spec fn provision_user_spec(cfg: DevEnvConfig) -> Option<String> {
    match first_of(cfg.user_name, remote_user(cfg.zed_remote)) {
        Some(u) => if cfg.provision_as_non_root && u@ != "root"@ {
            Some(u)
        } else {
            None
        },
        None => None,
    }
}

/// The remote user of a configuration, if one is given.
fn remote_user_of(zed: &Option<ZedRemote>) -> (user: Option<String>)
    ensures
        user == remote_user(*zed),
{
    match zed {
        Some(z) => clone_opt(&z.ssh_user),
        None => None,
    }
}

/// The user that provisioning commands run as, if it is not root.
pub fn provision_user(cfg: &DevEnvConfig) -> (user: Option<String>)
    ensures
        user == provision_user_spec(*cfg),
{
    let candidate = match &cfg.user_name {
        Some(u) => Some(u.clone()),
        None => remote_user_of(&cfg.zed_remote),
    };
    match candidate {
        Some(u) => if cfg.provision_as_non_root && !str_equal(u.as_str(), "root") {
            Some(u)
        } else {
            None
        },
        None => None,
    }
}

/// The user whose key is authorised: the remote user, else the configured
/// user, else root.
pub open spec fn key_user_spec(cfg: DevEnvConfig) -> Seq<char> {
    match first_of(remote_user(cfg.zed_remote), cfg.user_name) {
        Some(u) => u@,
        None => "root"@,
    }
}

/// The user whose key is authorised.
pub fn key_user(cfg: &DevEnvConfig) -> (user: String)
    ensures
        user@ == key_user_spec(*cfg),
{
    match remote_user_of(&cfg.zed_remote) {
        Some(u) => u,
        None => match &cfg.user_name {
            Some(u) => u.clone(),
            None => owned("root"),
        },
    }
}

/// The home directory of a user in the container.
pub open spec fn home_dir_spec(user: Seq<char>) -> Seq<char> {
    if user == "root"@ {
        "/root"@
    } else {
        "/home/"@ + user
    }
}

/// The home directory of a user in the container.
pub fn home_dir(user: &str) -> (home: String)
    ensures
        home@ == home_dir_spec(user@),
{
    if str_equal(user, "root") {
        owned("/root")
    } else {
        let mut home = owned("/home/");
        home.append(user);
        home
    }
}

/// A text in which each single quote is closed, escaped and opened again, so
/// that the text can stand between single quotes in a shell script.
pub open spec fn escape_quotes_spec(s: Seq<char>) -> Seq<char>
    decreases s.len(),
{
    if s.len() == 0 {
        Seq::empty()
    } else if s.last() == '\'' {
        escape_quotes_spec(s.drop_last()) + seq!['\'', '\\', '\'', '\'']
    } else {
        escape_quotes_spec(s.drop_last()).push(s.last())
    }
}

/// Escapes the single quotes of a text for a shell script.
pub fn escape_quotes(s: &str) -> (escaped: String)
    ensures
        escaped@ == escape_quotes_spec(s@),
{
    let chars = chars_of(s);
    let mut out = String::new();
    let mut i: usize = 0;
    while i < chars.len()
        invariant
            i <= chars.len(),
            out@ == escape_quotes_spec(chars@.take(i as int)),
        decreases chars.len() - i,
    {
        proof {
            assert(chars@.take(i as int + 1).drop_last() =~= chars@.take(i as int));
        }
        if chars[i] == '\'' {
            out.push('\'');
            out.push('\\');
            out.push('\'');
            out.push('\'');
            proof {
                assert(out@ =~= escape_quotes_spec(chars@.take(i as int)) + seq!['\'', '\\', '\'', '\'']);
            }
        } else {
            out.push(chars[i]);
        }
        i = i + 1;
    }
    proof {
        assert(chars@.take(chars.len() as int) =~= chars@);
    }
    out
}

/// The script that makes `key` the one authorised key of `user`.
pub open spec fn authorized_keys_script_spec(user: Seq<char>, key: Seq<char>) -> Seq<char> {
    let home = home_dir_spec(user);
    "install -d -m 700 "@ + home + "/.ssh && printf '%s\\n' '"@ + escape_quotes_spec(trim_spec(key)) + "' > "@
        + home + "/.ssh/authorized_keys && chown -R "@ + user + ":"@ + user + " "@ + home
        + "/.ssh && chmod 600 "@ + home + "/.ssh/authorized_keys"@
}

/// The script that makes `key` the one authorised key of `user`: the key is
/// taken without the white space around it, and its single quotes are escaped.
pub fn authorized_keys_script(user: &str, key: &str) -> (script: String)
    ensures
        script@ == authorized_keys_script_spec(user@, key@),
{
    let home = home_dir(user);
    let trimmed = trim(key);
    let escaped = escape_quotes(trimmed.as_str());
    let mut script = owned("install -d -m 700 ");
    script.append(home.as_str());
    script.append("/.ssh && printf '%s\\n' '");
    script.append(escaped.as_str());
    script.append("' > ");
    script.append(home.as_str());
    script.append("/.ssh/authorized_keys && chown -R ");
    script.append(user);
    script.append(":");
    script.append(user);
    script.append(" ");
    script.append(home.as_str());
    script.append("/.ssh && chmod 600 ");
    script.append(home.as_str());
    script.append("/.ssh/authorized_keys");
    script
}

/// The script that starts the shell daemon in the container, by whichever
/// way the image offers; it never fails.
pub fn start_sshd_script() -> (script: &'static str)
    ensures
        script@
            == "mkdir -p /run/sshd && (service ssh start || (which /usr/sbin/sshd && /usr/sbin/sshd) || (which sshd && sshd) || true)"@,
{
    "mkdir -p /run/sshd && (service ssh start || (which /usr/sbin/sshd && /usr/sbin/sshd) || (which sshd && sshd) || true)"
}

/// The user that the image provides: the configured name, with the ids 1000
/// where none are given.
pub open spec fn image_user_spec(cfg: DevEnvConfig) -> Option<UserSpec> {
    match cfg.user_name {
        Some(name) => Some(
            UserSpec {
                name,
                uid: match cfg.user_uid {
                    Some(id) => id,
                    None => 1000u32,
                },
                gid: match cfg.user_gid {
                    Some(id) => id,
                    None => 1000u32,
                },
            },
        ),
        None => None,
    }
}

/// The user that the image provides.
pub fn image_user(cfg: &DevEnvConfig) -> (user: Option<UserSpec>)
    ensures
        user == image_user_spec(*cfg),
{
    match &cfg.user_name {
        Some(name) => Some(
            UserSpec {
                name: name.clone(),
                uid: match cfg.user_uid {
                    Some(id) => id,
                    None => 1000,
                },
                gid: match cfg.user_gid {
                    Some(id) => id,
                    None => 1000,
                },
            },
        ),
        None => None,
    }
}

/// The path of the configuration file for a project: the path itself where
/// it names that file, else the file `devenv.toml` below it.
pub open spec fn make_path_spec(path: Seq<char>) -> Seq<char> {
    if file_name_spec(path) == Some("devenv.toml"@) {
        path
    } else {
        join_path_spec(path, "devenv.toml"@)
    }
}

/// The path of the configuration file for a project directory or for the
/// file itself.
pub fn make_path(path: &str) -> (file: String)
    ensures
        file@ == make_path_spec(path@),
{
    match file_name(path) {
        Some(name) => if str_equal(name.as_str(), "devenv.toml") {
            owned(path)
        } else {
            join_path(path, "devenv.toml")
        },
        None => join_path(path, "devenv.toml"),
    }
}

/// The name of a new environment: that of its directory, or `new_project`
/// where the directory has none.
pub open spec fn default_name_spec(cwd: Seq<char>) -> Seq<char> {
    match file_name_spec(cwd) {
        Some(name) => name,
        None => "new_project"@,
    }
}

/// The image of a new environment: the one that fits the project, or a plain
/// Debian.
pub open spec fn default_image_spec(entries: Seq<DirEntry>) -> Seq<char> {
    match detect_spec(entries) {
        Some(image) => image,
        None => "debian:bookworm-slim"@,
    }
}

impl DevEnvConfig {
    /// Whether all settings but the name and the image are unset.
    pub open spec fn is_plain(&self) -> bool {
        &&& self.ssh_private_key is None
        &&& self.packages@.len() == 0
        &&& self.commands@.len() == 0
        &&& self.zed_remote is None
        &&& self.ssh_public_key is None
        &&& self.user_name is None
        &&& self.user_uid is None
        &&& self.user_gid is None
        &&& !self.provision_as_non_root
    }
}

impl Default for DevEnvConfig {
    /// Settings with an empty name and image and nothing else set.
    fn default() -> (cfg: DevEnvConfig)
        ensures
            cfg.name@.len() == 0,
            cfg.image@.len() == 0,
            cfg.is_plain(),
    {
        DevEnvConfig {
            name: String::new(),
            image: String::new(),
            ssh_private_key: None,
            packages: Vec::new(),
            commands: Vec::new(),
            zed_remote: None,
            ssh_public_key: None,
            user_name: None,
            user_uid: None,
            user_gid: None,
            provision_as_non_root: false,
        }
    }
}

impl Config {
    /// The configuration of a new environment in the directory `cwd`, which
    /// holds `entries`. It is refused where `cwd` is no directory or holds a
    /// configuration already.
    pub fn create(cwd: &str, is_dir: bool, config_exists: bool, entries: &Vec<DirEntry>) -> (res: Result<
        Config,
        ConfigError,
    >)
        ensures
            !is_dir ==> res == Err::<Config, ConfigError>(ConfigError::NotADirectory),
            is_dir && config_exists ==> res == Err::<Config, ConfigError>(ConfigError::AlreadyExists),
            is_dir && !config_exists ==> res is Ok && res->Ok_0.path@ == make_path_spec(cwd@)
                && res->Ok_0.devenv.name@ == default_name_spec(cwd@) && res->Ok_0.devenv.image@
                == default_image_spec(entries@) && res->Ok_0.devenv.is_plain(),
    {
        if !is_dir {
            return Err(ConfigError::NotADirectory);
        }
        if config_exists {
            return Err(ConfigError::AlreadyExists);
        }
        let name = match file_name(cwd) {
            Some(n) => n,
            None => owned("new_project"),
        };
        let image = match detect_base_image(entries) {
            Some(i) => i,
            None => owned("debian:bookworm-slim"),
        };
        Ok(
            Config {
                devenv: DevEnvConfig {
                    name,
                    image,
                    ssh_private_key: None,
                    packages: Vec::new(),
                    commands: Vec::new(),
                    zed_remote: None,
                    ssh_public_key: None,
                    user_name: None,
                    user_uid: None,
                    user_gid: None,
                    provision_as_non_root: false,
                },
                path: make_path(cwd),
            },
        )
    }
}

} // verus!
