use vstd::prelude::*;
use vstd::string::*;
use crate::hunt_config::{spec_target_appended, BBHuntConfig, ConfigError};
use crate::plugin::{plugin_listing, spec_plugin_listing, spec_texts, PluginMetadata};
use crate::text::{spec_trim, str_eq, string_of, trim};

verus! {

/// What the command line asks for.
#[derive(Debug, Clone)]
pub enum Commands {
    /// Add a new target for reconnaissance.
    Target { domain: String },
    /// Run a specific plugin on a target, with JSON-formatted options.
    Run { plugin: String, target: String, options: Option<String> },
    /// List available plugins, of one category if given.
    Plugins { category: Option<String> },
    /// Show system resource usage.
    Resources,
    /// Start an interactive session.
    Interactive,
}

/// The parsed command line: a command, if any, and whether to be verbose.
#[derive(Debug, Clone)]
pub struct BBHuntCli {
    pub command: Option<Commands>,
    pub verbose: bool,
}

impl BBHuntCli {
    /// The command line made of a command and the verbosity flag.
    pub fn new(command: Option<Commands>, verbose: bool) -> (c: Self)
        ensures
            c.command == command,
            c.verbose == verbose,
    {
        BBHuntCli { command, verbose }
    }
}

/// What a line typed in an interactive session asks for.
#[derive(Debug, Clone, PartialEq, Eq)]
pub enum SessionAction {
    /// Leave the session (`exit` or `quit`).
    Exit,
    /// Show the help (`help`).
    Help,
    /// Add a target (`target add <domain>`), with the domain given.
    AddTarget(String),
    /// List the plugins (`plugins`).
    ListPlugins,
    /// Run a plugin on the current target (`run <plugin>`).
    RunPlugin(String),
    /// Anything else: an unknown command.
    Unknown,
}

/// Mathematical form of a [`SessionAction`].
pub enum SessionActionView {
    Exit,
    Help,
    AddTarget(Seq<char>),
    ListPlugins,
    RunPlugin(Seq<char>),
    Unknown,
}

impl View for SessionAction {
    type V = SessionActionView;

    open spec fn view(&self) -> SessionActionView {
        match self {
            SessionAction::Exit => SessionActionView::Exit,
            SessionAction::Help => SessionActionView::Help,
            SessionAction::AddTarget(d) => SessionActionView::AddTarget(d@),
            SessionAction::ListPlugins => SessionActionView::ListPlugins,
            SessionAction::RunPlugin(p) => SessionActionView::RunPlugin(p@),
            SessionAction::Unknown => SessionActionView::Unknown,
        }
    }
}

/// The words that start a line adding a target.
pub open spec fn spec_add_target_prefix() -> Seq<char> {
    "target add "@
}

/// The word that starts a line running a plugin.
pub open spec fn spec_run_prefix() -> Seq<char> {
    "run "@
}

/// `line` starts with `prefix`.
pub open spec fn spec_starts_with(line: Seq<char>, prefix: Seq<char>) -> bool {
    line.len() >= prefix.len() && line.subrange(0, prefix.len() as int) == prefix
}

/// What follows a prefix of a line, without surrounding whitespace.
pub open spec fn spec_argument(line: Seq<char>, prefix: Seq<char>) -> Seq<char> {
    spec_trim(line.subrange(prefix.len() as int, line.len() as int))
}

/// The action of a line typed in an interactive session: `exit` and `quit`
/// leave, `help` shows the help, `plugins` lists the plugins, `target add`
/// followed by a non-blank domain adds that domain, `run` followed by a
/// non-blank plugin name runs that plugin, and anything else is unknown.
pub open spec fn spec_session_action(line: Seq<char>) -> SessionActionView {
    if line == "exit"@ || line == "quit"@ {
        SessionActionView::Exit
    } else if line == "help"@ {
        SessionActionView::Help
    } else if line == "plugins"@ {
        SessionActionView::ListPlugins
    } else if spec_starts_with(line, spec_add_target_prefix())
        && spec_argument(line, spec_add_target_prefix()).len() > 0 {
        SessionActionView::AddTarget(spec_argument(line, spec_add_target_prefix()))
    } else if spec_starts_with(line, spec_run_prefix()) && spec_argument(line, spec_run_prefix()).len() > 0 {
        SessionActionView::RunPlugin(spec_argument(line, spec_run_prefix()))
    } else {
        SessionActionView::Unknown
    }
}

/// The trimmed text after `prefix` when `line` starts with it and that text
/// is not blank.
fn argument_after(line: &str, prefix: &str) -> (r: Option<String>)
    ensures
        match r {
            Some(a) => spec_starts_with(line@, prefix@) && spec_argument(line@, prefix@).len() > 0
                && a@ == spec_argument(line@, prefix@),
            None => !(spec_starts_with(line@, prefix@) && spec_argument(line@, prefix@).len() > 0),
        },
{
    let p = prefix.unicode_len();
    let n = line.unicode_len();
    if n >= p && str_eq(line.substring_char(0, p), prefix) {
        let arg = trim(line.substring_char(p, n));
        if arg.as_str().unicode_len() > 0 {
            return Some(arg);
        }
    }
    None
}

/// The action of a line typed in an interactive session.
pub fn session_action(line: &str) -> (r: SessionAction)
    ensures
        r@ == spec_session_action(line@),
{
    if str_eq(line, "exit") || str_eq(line, "quit") {
        return SessionAction::Exit;
    } else if str_eq(line, "help") {
        return SessionAction::Help;
    } else if str_eq(line, "plugins") {
        return SessionAction::ListPlugins;
    }
    if let Some(domain) = argument_after(line, "target add ") {
        return SessionAction::AddTarget(domain);
    }
    if let Some(plugin) = argument_after(line, "run ") {
        return SessionAction::RunPlugin(plugin);
    }
    SessionAction::Unknown
}

/// The reply to an unknown command in an interactive session.
pub fn unknown_command_reply() -> (r: String)
    ensures
        r@ == "Unknown command. Type 'help' for assistance."@,
{
    string_of("Unknown command. Type 'help' for assistance.")
}

/// The lines of the help text.
pub open spec fn spec_help_lines() -> Seq<Seq<char>> {
    seq![
        "BBHunt - Bug Bounty Hunting Framework"@,
        "Available commands:"@,
        "  target <domain>     Add a new target"@,
        "  run <plugin> <target>  Run a specific plugin"@,
        "  plugins             List available plugins"@,
        "  resources           Show system resource usage"@,
        "  interactive         Start interactive session"@,
        "  help                Show this help message"@,
    ]
}

/// The lines of the help text.
pub fn help_lines() -> (r: Vec<String>)
    ensures
        r@.len() == spec_help_lines().len(),
        forall|i: int| 0 <= i < r@.len() ==> #[trigger] r@[i]@ == spec_help_lines()[i],
{
    let r = vec![
        string_of("BBHunt - Bug Bounty Hunting Framework"),
        string_of("Available commands:"),
        string_of("  target <domain>     Add a new target"),
        string_of("  run <plugin> <target>  Run a specific plugin"),
        string_of("  plugins             List available plugins"),
        string_of("  resources           Show system resource usage"),
        string_of("  interactive         Start interactive session"),
        string_of("  help                Show this help message"),
    ];
    assert forall|i: int| 0 <= i < r@.len() implies #[trigger] r@[i]@ == spec_help_lines()[i] by {
        if i == 0 {
        } else if i == 1 {
        } else if i == 2 {
        } else if i == 3 {
        } else if i == 4 {
        } else if i == 5 {
        } else if i == 6 {
        } else {
        }
    }
    r
}

/// The message shown after a target was added.
pub fn target_added_message(domain: &str) -> (r: String)
    ensures
        r@ == "Added target: "@ + domain@,
{
    string_of("Added target: ").concat(domain)
}

/// An interactive session: the target that commands apply to, the last
/// one added.
pub struct Session {
    pub current_target: Option<String>,
}

/// The prompt of a session with a current target (or none).
pub open spec fn spec_prompt(target: Option<String>) -> Seq<char> {
    match target {
        Some(t) => "bbhunt ("@ + t@ + ")"@,
        None => "bbhunt (no target)"@,
    }
}

/// The reply when a plugin is to run but no target was added.
pub open spec fn spec_no_target_reply() -> Seq<char> {
    "No target selected. Add one with 'target add <domain>'."@
}

impl Session {
    /// A session without a target.
    pub fn new() -> (s: Self)
        ensures
            s.current_target is None,
    {
        Session { current_target: None }
    }

    /// The prompt: the tool's name and the current target.
    pub fn prompt(&self) -> (r: String)
        ensures
            r@ == spec_prompt(self.current_target),
    {
        match &self.current_target {
            Some(t) => string_of("bbhunt (").concat(t.as_str()).concat(")"),
            None => string_of("bbhunt (no target)"),
        }
    }
}

/// What an interactive session does with one line: whether the session
/// ends, the lines to show, whether the configuration changed and is to be
/// saved, and the plugin to run on which target, if any.
pub struct SessionReply {
    pub exit: bool,
    pub lines: Vec<String>,
    pub config_changed: bool,
    pub run: Option<(String, String)>,
}

/// The texts of a list of lines.
pub open spec fn spec_lines(v: Seq<String>) -> Seq<Seq<char>> {
    v.map_values(|t: String| t@)
}

/// A reply that only shows lines.
pub open spec fn spec_shows(rep: SessionReply, lines: Seq<Seq<char>>) -> bool {
    !rep.exit && !rep.config_changed && rep.run is None && spec_lines(rep.lines@) == lines
}

/// Handles one line of an interactive session, given the plugins that can
/// be listed. `exit`/`quit` end it; `help` shows the help; `plugins` lists the
/// plugins; an unknown line gets the unknown-command reply; `target add
/// <domain>` adds the target, reports it and makes it the current target,
/// and adding a domain that is already a target fails with that error, which
/// ends the session; `run <plugin>` announces the plugin and asks for it to
/// run on the current target, or says that no target was added.
pub fn handle_session_line(
    config: &mut BBHuntConfig,
    session: &mut Session,
    plugins: &Vec<PluginMetadata>,
    line: &str,
) -> (r: Result<SessionReply, ConfigError>)
    requires
        old(config).wf(),
    ensures
        final(config).wf(),
        match spec_session_action(line@) {
            SessionActionView::AddTarget(d) => if old(config).spec_has_target(d) {
                &&& r == Err::<SessionReply, ConfigError>(ConfigError::TargetExists)
                &&& *final(config) == *old(config)
                &&& final(session).current_target == old(session).current_target
            } else {
                &&& r matches Ok(rep) && !rep.exit && rep.config_changed && rep.run is None
                    && spec_lines(rep.lines@) == seq!["Added target: "@ + d]
                &&& spec_target_appended(*old(config), *final(config), d)
                &&& final(session).current_target matches Some(t) && t@ == d
            },
            action => {
                &&& *final(config) == *old(config)
                &&& final(session).current_target == old(session).current_target
                &&& r matches Ok(rep) && match action {
                    SessionActionView::Exit => rep.exit && !rep.config_changed && rep.run is None
                        && rep.lines@.len() == 0,
                    SessionActionView::Help => spec_shows(rep, spec_help_lines()),
                    SessionActionView::ListPlugins => spec_shows(rep, spec_plugin_listing(plugins@)),
                    SessionActionView::RunPlugin(p) => match old(session).current_target {
                        Some(t) => (rep.run matches Some(job) && job.0@ == p && job.1@ == t@) && !rep.exit
                            && !rep.config_changed
                            && spec_lines(rep.lines@) == seq!["Running "@ + p + " on "@ + t@ + "..."@],
                        None => spec_shows(rep, seq![spec_no_target_reply()]),
                    },
                    _ => spec_shows(rep, seq!["Unknown command. Type 'help' for assistance."@]),
                }
            },
        },
{
    match session_action(line) {
        SessionAction::Exit => Ok(SessionReply { exit: true, lines: Vec::new(), config_changed: false, run: None }),
        SessionAction::Help => {
            let lines = help_lines();
            assert(spec_lines(lines@) =~= spec_help_lines());
            Ok(SessionReply { exit: false, lines, config_changed: false, run: None })
        },
        SessionAction::ListPlugins => {
            let lines = plugin_listing(plugins);
            assert(spec_lines(lines@) =~= spec_texts(lines@));
            Ok(SessionReply { exit: false, lines, config_changed: false, run: None })
        },
        SessionAction::Unknown => {
            let lines = vec![unknown_command_reply()];
            assert(spec_lines(lines@) =~= seq!["Unknown command. Type 'help' for assistance."@]);
            Ok(SessionReply { exit: false, lines, config_changed: false, run: None })
        },
        SessionAction::AddTarget(domain) => {
            match config.add_target(domain.as_str()) {
                Ok(()) => {
                    let lines = vec![target_added_message(domain.as_str())];
                    assert(spec_lines(lines@) =~= seq!["Added target: "@ + domain@]);
                    session.current_target = Some(domain);
                    Ok(SessionReply { exit: false, lines, config_changed: true, run: None })
                },
                Err(e) => Err(e),
            }
        },
        SessionAction::RunPlugin(plugin) => {
            match &session.current_target {
                Some(t) => {
                    let message = string_of("Running ").concat(plugin.as_str()).concat(" on ").concat(
                        t.as_str(),
                    ).concat("...");
                    let lines = vec![message];
                    assert(spec_lines(lines@) =~= seq![
                        "Running "@ + plugin@ + " on "@ + t@ + "..."@
                    ]);
                    let target = t.clone();
                    Ok(SessionReply { exit: false, lines, config_changed: false, run: Some((plugin, target)) })
                },
                None => {
                    let lines = vec![string_of("No target selected. Add one with 'target add <domain>'.")];
                    assert(spec_lines(lines@) =~= seq![spec_no_target_reply()]);
                    Ok(SessionReply { exit: false, lines, config_changed: false, run: None })
                },
            }
        },
    }
}

} // verus!
