//! The command line: the words after the program's name are read into a
//! command with its options.

use vstd::prelude::*;
use vstd::string::*;
use crate::text::{chars_of, matches_at, owned, str_equal, string_of, views};

verus! {

/// The options of `start` and `restart`.
#[derive(Debug, Clone)]
pub struct StartArgs {
    /// The environment's name; it is taken from the working directory where
    /// none is given.
    pub name: Option<String>,
    /// The editor to open the project in.
    pub open: Option<String>,
    /// Attach a shell once the environment has started.
    pub attach: bool,
    /// Build the image anew.
    pub rebuild: bool,
    /// Do not build the image.
    pub no_build: bool,
}

/// The options of `build`.
#[derive(Debug, Clone)]
pub struct BuildArgs {
    pub name: Option<String>,
    /// Write the build definition anew.
    pub rebuild: bool,
    /// Pull newer base layers.
    pub pull: bool,
}

/// A command with its options.
#[derive(Debug, Clone)]
pub enum Commands {
    Init { path: Option<String> },
    List,
    Start(StartArgs),
    Stop { name: Option<String> },
    Remove { name: Option<String> },
    Attach { name: Option<String> },
    Restart(StartArgs),
    Build(BuildArgs),
}

/// A command line.
#[derive(Debug, Clone)]
pub struct Cli {
    /// Say more.
    pub verbose: bool,
    pub command: Commands,
}

/// Why a command line is refused; the number is the position of the word
/// that is at fault.
#[derive(Clone, Copy, PartialEq, Eq, Structural, Debug)]
pub enum CliError {
    /// There is no command.
    MissingCommand,
    /// The word is no command.
    UnknownCommand(usize),
    /// The command has no such option.
    UnknownOption(usize),
    /// The command takes no further word.
    UnexpectedArgument(usize),
    /// The option was given before.
    RepeatedOption(usize),
}

/// The commands by name.
#[derive(Clone, Copy, PartialEq, Eq, Structural, Debug)]
pub enum CommandKind {
    Init,
    List,
    Start,
    Stop,
    Remove,
    Attach,
    Restart,
    Build,
}

/// The options of `start` and `restart` as texts.
pub struct StartArgsView {
    pub name: Option<Seq<char>>,
    pub open: Option<Seq<char>>,
    pub attach: bool,
    pub rebuild: bool,
    pub no_build: bool,
}

/// The options of `build` as texts.
pub struct BuildArgsView {
    pub name: Option<Seq<char>>,
    pub rebuild: bool,
    pub pull: bool,
}

/// A command with its options as texts.
pub enum CommandsView {
    Init { path: Option<Seq<char>> },
    List,
    Start(StartArgsView),
    Stop { name: Option<Seq<char>> },
    Remove { name: Option<Seq<char>> },
    Attach { name: Option<Seq<char>> },
    Restart(StartArgsView),
    Build(BuildArgsView),
}

/// A command line as texts.
pub struct CliView {
    pub verbose: bool,
    pub command: CommandsView,
}

/// What has been read of a command line so far.
#[derive(Debug, Clone)]
pub struct Scan {
    pub verbose: bool,
    pub command: Option<CommandKind>,
    pub positional: Option<String>,
    pub open: Option<String>,
    pub attach: bool,
    pub rebuild: bool,
    pub no_build: bool,
    pub pull: bool,
}

/// What has been read of a command line, as texts.
pub struct ScanView {
    pub verbose: bool,
    pub command: Option<CommandKind>,
    pub positional: Option<Seq<char>>,
    pub open: Option<Seq<char>>,
    pub attach: bool,
    pub rebuild: bool,
    pub no_build: bool,
    pub pull: bool,
}

/// The text of an optional string.
pub open spec fn text_of(s: Option<String>) -> Option<Seq<char>> {
    match s {
        Some(v) => Some(v@),
        None => None,
    }
}

impl StartArgs {
    /// The options as texts.
    pub open spec fn view(&self) -> StartArgsView {
        StartArgsView {
            name: text_of(self.name),
            open: text_of(self.open),
            attach: self.attach,
            rebuild: self.rebuild,
            no_build: self.no_build,
        }
    }
}

impl BuildArgs {
    /// The options as texts.
    pub open spec fn view(&self) -> BuildArgsView {
        BuildArgsView { name: text_of(self.name), rebuild: self.rebuild, pull: self.pull }
    }
}

impl Commands {
    /// The command as texts.
    pub open spec fn view(&self) -> CommandsView {
        match *self {
            Commands::Init { path } => CommandsView::Init { path: text_of(path) },
            Commands::List => CommandsView::List,
            Commands::Start(a) => CommandsView::Start(a@),
            Commands::Stop { name } => CommandsView::Stop { name: text_of(name) },
            Commands::Remove { name } => CommandsView::Remove { name: text_of(name) },
            Commands::Attach { name } => CommandsView::Attach { name: text_of(name) },
            Commands::Restart(a) => CommandsView::Restart(a@),
            Commands::Build(a) => CommandsView::Build(a@),
        }
    }
}

impl Cli {
    /// The command line as texts.
    pub open spec fn view(&self) -> CliView {
        CliView { verbose: self.verbose, command: self.command@ }
    }
}

impl Scan {
    /// What has been read, as texts.
    pub open spec fn view(&self) -> ScanView {
        ScanView {
            verbose: self.verbose,
            command: self.command,
            positional: text_of(self.positional),
            open: text_of(self.open),
            attach: self.attach,
            rebuild: self.rebuild,
            no_build: self.no_build,
            pull: self.pull,
        }
    }
}

/// Nothing read yet.
pub open spec fn empty_scan() -> ScanView {
    ScanView {
        verbose: false,
        command: None,
        positional: None,
        open: None,
        attach: false,
        rebuild: false,
        no_build: false,
        pull: false,
    }
}

/// The command that a word names.
pub open spec fn command_kind_spec(word: Seq<char>) -> Option<CommandKind> {
    if word == "init"@ {
        Some(CommandKind::Init)
    } else if word == "list"@ {
        Some(CommandKind::List)
    } else if word == "start"@ {
        Some(CommandKind::Start)
    } else if word == "stop"@ {
        Some(CommandKind::Stop)
    } else if word == "remove"@ {
        Some(CommandKind::Remove)
    } else if word == "attach"@ {
        Some(CommandKind::Attach)
    } else if word == "restart"@ {
        Some(CommandKind::Restart)
    } else if word == "build"@ {
        Some(CommandKind::Build)
    } else {
        None
    }
}

/// Whether a word is an option: it begins with a hyphen and is longer than that.
pub open spec fn is_option(word: Seq<char>) -> bool {
    word.len() > 1 && word[0] == '-'
}

/// Whether a word is `--open=` with a value behind it.
pub open spec fn is_open_with_value(word: Seq<char>) -> bool {
    word.len() >= 7 && word.subrange(0, 7) == seq!['-', '-', 'o', 'p', 'e', 'n', '=']
}

/// Whether a command takes the options of `start`.
pub open spec fn takes_start_options(kind: CommandKind) -> bool {
    kind == CommandKind::Start || kind == CommandKind::Restart
}

/// Reads the option at `i` of a command that takes the options of `start`.
pub open spec fn scan_start_option(acc: ScanView, words: Seq<Seq<char>>, i: usize) -> Result<
    (ScanView, usize),
    CliError,
> {
    let word = words[i as int];
    if word == "--open"@ {
        if acc.open is Some {
            Err(CliError::RepeatedOption(i))
        } else if i + 1 < words.len() && !is_option(words[i + 1]) {
            Ok((ScanView { open: Some(words[i + 1]), ..acc }, (i + 2) as usize))
        } else {
            Ok((ScanView { open: Some("zed"@), ..acc }, (i + 1) as usize))
        }
    } else if is_open_with_value(word) {
        if acc.open is Some {
            Err(CliError::RepeatedOption(i))
        } else {
            Ok((ScanView { open: Some(word.subrange(7, word.len() as int)), ..acc }, (i + 1) as usize))
        }
    } else if word == "--attach"@ {
        if acc.attach {
            Err(CliError::RepeatedOption(i))
        } else {
            Ok((ScanView { attach: true, ..acc }, (i + 1) as usize))
        }
    } else if word == "--rebuild"@ {
        if acc.rebuild {
            Err(CliError::RepeatedOption(i))
        } else {
            Ok((ScanView { rebuild: true, ..acc }, (i + 1) as usize))
        }
    } else if word == "--no-build"@ {
        if acc.no_build {
            Err(CliError::RepeatedOption(i))
        } else {
            Ok((ScanView { no_build: true, ..acc }, (i + 1) as usize))
        }
    } else {
        Err(CliError::UnknownOption(i))
    }
}

/// Reads the option at `i` of `build`.
pub open spec fn scan_build_option(acc: ScanView, words: Seq<Seq<char>>, i: usize) -> Result<
    (ScanView, usize),
    CliError,
> {
    let word = words[i as int];
    if word == "--rebuild"@ {
        if acc.rebuild {
            Err(CliError::RepeatedOption(i))
        } else {
            Ok((ScanView { rebuild: true, ..acc }, (i + 1) as usize))
        }
    } else if word == "--pull"@ {
        if acc.pull {
            Err(CliError::RepeatedOption(i))
        } else {
            Ok((ScanView { pull: true, ..acc }, (i + 1) as usize))
        }
    } else {
        Err(CliError::UnknownOption(i))
    }
}

/// Reads the word at `i`, and the one behind it where it is the value of an
/// option. The verbose option may stand anywhere; the other options stand
/// behind their command. The first word that is no option names the command,
/// the second is the command's name or path, and there is no third.
pub open spec fn scan_word(acc: ScanView, words: Seq<Seq<char>>, i: usize) -> Result<(ScanView, usize), CliError> {
    let word = words[i as int];
    if word == "-v"@ || word == "--verbose"@ {
        if acc.verbose {
            Err(CliError::RepeatedOption(i))
        } else {
            Ok((ScanView { verbose: true, ..acc }, (i + 1) as usize))
        }
    } else if is_option(word) {
        match acc.command {
            Some(kind) => if takes_start_options(kind) {
                scan_start_option(acc, words, i)
            } else if kind == CommandKind::Build {
                scan_build_option(acc, words, i)
            } else {
                Err(CliError::UnknownOption(i))
            },
            None => Err(CliError::UnknownOption(i)),
        }
    } else {
        match acc.command {
            Some(kind) => if kind == CommandKind::List || acc.positional is Some {
                Err(CliError::UnexpectedArgument(i))
            } else {
                Ok((ScanView { positional: Some(word), ..acc }, (i + 1) as usize))
            },
            None => match command_kind_spec(word) {
                Some(kind) => Ok((ScanView { command: Some(kind), ..acc }, (i + 1) as usize)),
                None => Err(CliError::UnknownCommand(i)),
            },
        }
    }
}

/// Reads the words from `i` on.
pub open spec fn scan_spec(acc: ScanView, words: Seq<Seq<char>>, i: usize) -> Result<ScanView, CliError>
    decreases words.len() - i,
{
    if i >= words.len() {
        Ok(acc)
    } else {
        match scan_word(acc, words, i) {
            Ok((next, j)) => if j > i {
                scan_spec(next, words, j)
            } else {
                Ok(next)
            },
            Err(e) => Err(e),
        }
    }
}

/// The options of `start` as they were read.
pub open spec fn start_args_of(scan: ScanView) -> StartArgsView {
    StartArgsView {
        name: scan.positional,
        open: scan.open,
        attach: scan.attach,
        rebuild: scan.rebuild,
        no_build: scan.no_build,
    }
}

/// The command line that was read.
pub open spec fn cli_of(scan: ScanView) -> Result<CliView, CliError> {
    match scan.command {
        None => Err(CliError::MissingCommand),
        Some(kind) => Ok(
            CliView {
                verbose: scan.verbose,
                command: match kind {
                    CommandKind::Init => CommandsView::Init { path: scan.positional },
                    CommandKind::List => CommandsView::List,
                    CommandKind::Start => CommandsView::Start(start_args_of(scan)),
                    CommandKind::Stop => CommandsView::Stop { name: scan.positional },
                    CommandKind::Remove => CommandsView::Remove { name: scan.positional },
                    CommandKind::Attach => CommandsView::Attach { name: scan.positional },
                    CommandKind::Restart => CommandsView::Restart(start_args_of(scan)),
                    CommandKind::Build => CommandsView::Build(
                        BuildArgsView { name: scan.positional, rebuild: scan.rebuild, pull: scan.pull },
                    ),
                },
            },
        ),
    }
}

/// What a command line means; its first word is the program's name.
pub open spec fn parse_spec(args: Seq<Seq<char>>) -> Result<CliView, CliError> {
    match scan_spec(empty_scan(), args, 1) {
        Ok(scan) => cli_of(scan),
        Err(e) => Err(e),
    }
}

/// The command that a word names.
pub fn command_kind(word: &str) -> (kind: Option<CommandKind>)
    ensures
        kind == command_kind_spec(word@),
{
    if str_equal(word, "init") {
        Some(CommandKind::Init)
    } else if str_equal(word, "list") {
        Some(CommandKind::List)
    } else if str_equal(word, "start") {
        Some(CommandKind::Start)
    } else if str_equal(word, "stop") {
        Some(CommandKind::Stop)
    } else if str_equal(word, "remove") {
        Some(CommandKind::Remove)
    } else if str_equal(word, "attach") {
        Some(CommandKind::Attach)
    } else if str_equal(word, "restart") {
        Some(CommandKind::Restart)
    } else if str_equal(word, "build") {
        Some(CommandKind::Build)
    } else {
        None
    }
}

/// Tells whether a word is an option.
fn word_is_option(word: &str) -> (option: bool)
    ensures
        option == is_option(word@),
{
    let chars = chars_of(word);
    chars.len() > 1 && chars[0] == '-'
}

/// The value of a word of the form `--open=value`.
fn open_value(word: &str) -> (value: Option<String>)
    ensures
        is_open_with_value(word@) ==> (value matches Some(v) && v@ == word@.subrange(7, word@.len() as int)),
        !is_open_with_value(word@) ==> value is None,
{
    let chars = chars_of(word);
    let mut prefix: Vec<char> = Vec::new();
    prefix.push('-');
    prefix.push('-');
    prefix.push('o');
    prefix.push('p');
    prefix.push('e');
    prefix.push('n');
    prefix.push('=');
    assert(prefix@ =~= seq!['-', '-', 'o', 'p', 'e', 'n', '=']);
    if matches_at(&chars, 0, &prefix) {
        Some(string_of(&chars, 7, chars.len()))
    } else {
        None
    }
}

/// Reads the option at `i` of a command that takes the options of `start`.
fn scan_start(scan: Scan, args: &Vec<String>, i: usize) -> (res: Result<(Scan, usize), CliError>)
    requires
        i < args.len(),
    ensures
        match scan_start_option(scan@, views(args@), i) {
            Ok((next, j)) => res matches Ok((s, k)) && s@ == next && k == j && i < k <= args.len(),
            Err(e) => res == Err::<(Scan, usize), CliError>(e),
        },
{
    let word = args[i].as_str();
    let mut scan = scan;
    if str_equal(word, "--open") {
        if scan.open.is_some() {
            return Err(CliError::RepeatedOption(i));
        }
        if i + 1 < args.len() && !word_is_option(args[i + 1].as_str()) {
            scan.open = Some(args[i + 1].clone());
            return Ok((scan, i + 2));
        }
        scan.open = Some(owned("zed"));
        return Ok((scan, i + 1));
    }
    match open_value(word) {
        Some(value) => {
            if scan.open.is_some() {
                return Err(CliError::RepeatedOption(i));
            }
            scan.open = Some(value);
            return Ok((scan, i + 1));
        },
        None => {},
    }
    if str_equal(word, "--attach") {
        if scan.attach {
            return Err(CliError::RepeatedOption(i));
        }
        scan.attach = true;
        Ok((scan, i + 1))
    } else if str_equal(word, "--rebuild") {
        if scan.rebuild {
            return Err(CliError::RepeatedOption(i));
        }
        scan.rebuild = true;
        Ok((scan, i + 1))
    } else if str_equal(word, "--no-build") {
        if scan.no_build {
            return Err(CliError::RepeatedOption(i));
        }
        scan.no_build = true;
        Ok((scan, i + 1))
    } else {
        Err(CliError::UnknownOption(i))
    }
}

/// Reads the option at `i` of `build`.
fn scan_build(scan: Scan, args: &Vec<String>, i: usize) -> (res: Result<(Scan, usize), CliError>)
    requires
        i < args.len(),
    ensures
        match scan_build_option(scan@, views(args@), i) {
            Ok((next, j)) => res matches Ok((s, k)) && s@ == next && k == j && i < k <= args.len(),
            Err(e) => res == Err::<(Scan, usize), CliError>(e),
        },
{
    let word = args[i].as_str();
    let mut scan = scan;
    if str_equal(word, "--rebuild") {
        if scan.rebuild {
            return Err(CliError::RepeatedOption(i));
        }
        scan.rebuild = true;
        Ok((scan, i + 1))
    } else if str_equal(word, "--pull") {
        if scan.pull {
            return Err(CliError::RepeatedOption(i));
        }
        scan.pull = true;
        Ok((scan, i + 1))
    } else {
        Err(CliError::UnknownOption(i))
    }
}

/// Reads the word at `i`, and the one behind it where it is the value of an option.
fn scan_one(scan: Scan, args: &Vec<String>, i: usize) -> (res: Result<(Scan, usize), CliError>)
    requires
        i < args.len(),
    ensures
        match scan_word(scan@, views(args@), i) {
            Ok((next, j)) => res matches Ok((s, k)) && s@ == next && k == j && i < k <= args.len(),
            Err(e) => res == Err::<(Scan, usize), CliError>(e),
        },
{
    let word = args[i].as_str();
    let mut scan = scan;
    if str_equal(word, "-v") || str_equal(word, "--verbose") {
        if scan.verbose {
            return Err(CliError::RepeatedOption(i));
        }
        scan.verbose = true;
        return Ok((scan, i + 1));
    }
    if word_is_option(word) {
        return match scan.command {
            Some(kind) => match kind {
                CommandKind::Start | CommandKind::Restart => scan_start(scan, args, i),
                CommandKind::Build => scan_build(scan, args, i),
                _ => Err(CliError::UnknownOption(i)),
            },
            None => Err(CliError::UnknownOption(i)),
        };
    }
    match scan.command {
        Some(kind) => {
            if matches!(kind, CommandKind::List) || scan.positional.is_some() {
                Err(CliError::UnexpectedArgument(i))
            } else {
                scan.positional = Some(args[i].clone());
                Ok((scan, i + 1))
            }
        },
        None => match command_kind(word) {
            Some(kind) => {
                scan.command = Some(kind);
                Ok((scan, i + 1))
            },
            None => Err(CliError::UnknownCommand(i)),
        },
    }
}

/// The command line that was read, if it names a command.
fn build_cli(scan: Scan) -> (res: Result<Cli, CliError>)
    ensures
        match cli_of(scan@) {
            Ok(v) => res matches Ok(cli) && cli@ == v,
            Err(e) => res == Err::<Cli, CliError>(e),
        },
{
    let kind = match scan.command {
        Some(kind) => kind,
        None => {
            return Err(CliError::MissingCommand);
        },
    };
    let verbose = scan.verbose;
    let command = match kind {
        CommandKind::Init => Commands::Init { path: scan.positional },
        CommandKind::List => Commands::List,
        CommandKind::Start => Commands::Start(
            StartArgs {
                name: scan.positional,
                open: scan.open,
                attach: scan.attach,
                rebuild: scan.rebuild,
                no_build: scan.no_build,
            },
        ),
        CommandKind::Stop => Commands::Stop { name: scan.positional },
        CommandKind::Remove => Commands::Remove { name: scan.positional },
        CommandKind::Attach => Commands::Attach { name: scan.positional },
        CommandKind::Restart => Commands::Restart(
            StartArgs {
                name: scan.positional,
                open: scan.open,
                attach: scan.attach,
                rebuild: scan.rebuild,
                no_build: scan.no_build,
            },
        ),
        CommandKind::Build => Commands::Build(
            BuildArgs { name: scan.positional, rebuild: scan.rebuild, pull: scan.pull },
        ),
    };
    Ok(Cli { verbose, command })
}

impl Cli {
    /// Reads a command line, whose first word is the program's name.
    pub fn parse_from(args: &Vec<String>) -> (res: Result<Cli, CliError>)
        ensures
            match parse_spec(views(args@)) {
                Ok(v) => res matches Ok(cli) && cli@ == v,
                Err(e) => res == Err::<Cli, CliError>(e),
            },
    {
        let mut scan = Scan {
            verbose: false,
            command: None,
            positional: None,
            open: None,
            attach: false,
            rebuild: false,
            no_build: false,
            pull: false,
        };
        let mut i: usize = 1;
        while i < args.len()
            invariant
                1 <= i,
                scan_spec(empty_scan(), views(args@), 1) == scan_spec(scan@, views(args@), i),
            decreases args.len() - i,
        {
            match scan_one(scan, args, i) {
                Ok((next, j)) => {
                    scan = next;
                    i = j;
                },
                Err(e) => {
                    return Err(e);
                },
            }
        }
        build_cli(scan)
    }
}

} // verus!
