use ps4_midi_mapper::cli::{
    handle_session_line, help_lines, session_action, target_added_message, unknown_command_reply, BBHuntCli, Commands,
    Session, SessionAction,
};
use ps4_midi_mapper::hunt_config::{join_path, BBHuntConfig, ConfigError};
use ps4_midi_mapper::resources::{bytes_to_mb, resources_suffice};
use ps4_midi_mapper::plugin::{
    count_message, fill_command, plugin_listing, run_plugin_step, status_report, PluginCategory, PluginMetadata,
    PluginStatus, RunAction, RunPhase,
};
use ps4_midi_mapper::subdomain_enum::{
    dedup_subdomains, found_message, parse_tool_output, passive_only, SubdomainEnumPlugin,
};
use ps4_midi_mapper::web_scan::{
    categorize_vulnerabilities, parse_target_url, scan_message, scan_mode, severity_key, ScanError, Severity,
    Vulnerability, WebScanPlugin,
};

#[test]
fn default_configuration_under_home() {
    let c = BBHuntConfig::default_with(Some("/home/alice".to_string()), 8);
    assert_eq!(c.global.data_dir, "/home/alice/.bbhunt/data");
    assert_eq!(c.global.config_dir, "/home/alice/.bbhunt/config");
    assert_eq!(c.global.max_memory, 4096);
    assert_eq!(c.global.max_cpu, 8);
    assert_eq!(c.global.user_agent, "bbhunt/0.1.0");
    assert!(c.plugins.is_empty() && c.targets.is_empty());
    let d = BBHuntConfig::default_with(None, 1);
    assert_eq!(d.global.data_dir, "./.bbhunt/data");
}

#[test]
fn default_configuration_of_this_machine() {
    let c = BBHuntConfig::new();
    assert!(c.global.max_cpu >= 1);
    assert!(c.global.data_dir.ends_with(".bbhunt/data"));
}

#[test]
fn path_joining() {
    assert_eq!(join_path("/root/", "x"), "/root/x");
    assert_eq!(join_path("", "x"), "x");
    assert_eq!(join_path("a", "b/c"), "a/b/c");
}

#[test]
fn adding_a_target_twice_is_refused() {
    let mut c = BBHuntConfig::default_with(None, 2);
    assert_eq!(c.add_target("example.com"), Ok(()));
    assert_eq!(c.targets.len(), 1);
    let t = &c.targets[0].1;
    assert_eq!(t.domain, "example.com");
    assert!(t.scope.is_empty());
    assert!(t.notes.is_none());
    assert!(!t.added_at.is_empty());
    assert_eq!(c.add_target("example.com"), Err(ConfigError::TargetExists));
    assert_eq!(c.targets.len(), 1);
    assert_eq!(c.add_target_at("other.org", "2024-01-01T00:00:00+00:00".to_string()), Ok(()));
    assert_eq!(c.targets[1].1.added_at, "2024-01-01T00:00:00+00:00");
    assert_eq!(c.find_target("other.org"), Some(1));
    assert_eq!(c.find_target("missing.net"), None);
}

#[test]
fn plugin_configuration_lookup() {
    let c = BBHuntConfig::default_with(None, 2);
    assert!(c.get_plugin_config("web_scan").is_none());
}

#[test]
fn plugin_status_reports() {
    let ok = status_report(PluginStatus::Success, "done");
    assert!(!ok.to_stderr);
    assert_eq!(ok.headline, "Plugin executed successfully!");
    assert_eq!(ok.detail, "Message: done");
    let err = status_report(PluginStatus::Error, "boom");
    assert!(err.to_stderr);
    assert_eq!(err.headline, "Plugin execution failed!");
    assert_eq!(err.detail, "Error: boom");
    let part = status_report(PluginStatus::Partial, "half");
    assert_eq!(part.headline, "Plugin partially completed.");
}

#[test]
fn tool_commands_fill_every_placeholder_with_target() {
    assert_eq!(
        fill_command("subfinder -d {} -o {}", "example.com", "/tmp/out"),
        "subfinder -d example.com -o example.com"
    );
    assert_eq!(fill_command("tool {}", "a{}b", "/tmp/o"), "tool a/tmp/ob");
    assert_eq!(count_message("Found ", 42, " things"), "Found 42 things");
}

#[test]
fn web_scan_setup_and_modes() {
    let mut p = WebScanPlugin::new();
    p.setup();
    assert_eq!(p.metadata().name, "web_scan");
    assert_eq!(p.metadata().category, PluginCategory::Scan);
    assert_eq!(p.scan_tools.len(), 2);
    assert_eq!(p.scan_tools[0].command, "nuclei -target {} -output {}");
    assert_eq!(p.tools_for_mode("standard"), vec![0]);
    assert_eq!(p.tools_for_mode("basic"), vec![1]);
    assert_eq!(p.tools_for_mode("thorough"), vec![0, 1]);
    assert!(p.tools_for_mode("other").is_empty());
    assert_eq!(scan_mode(None), "standard");
    assert_eq!(scan_mode(Some("basic".to_string())), "basic");
}

#[test]
fn target_urls_get_a_scheme_when_needed() {
    assert_eq!(parse_target_url("https://example.com/path"), Ok("https://example.com/path".to_string()));
    assert_eq!(parse_target_url("example.com"), Ok("https://example.com/".to_string()));
    assert_eq!(parse_target_url(""), Err(ScanError::InvalidTargetUrl));
}

#[test]
fn vulnerabilities_by_severity() {
    let v = |s: Severity| Vulnerability { name: "x".to_string(), severity: s, url: "u".to_string(), details: Vec::new() };
    let vulns = vec![v(Severity::High), v(Severity::Info), v(Severity::High), v(Severity::Critical)];
    let c = categorize_vulnerabilities(&vulns);
    assert_eq!((c.info, c.low, c.medium, c.high, c.critical), (1, 0, 0, 2, 1));
    assert_eq!(severity_key(Severity::Medium), "medium");
    assert_eq!(scan_message("example.com", 4), "Scanned example.com with 4 vulnerabilities");
}

#[test]
fn subdomain_plugin_tools_and_results() {
    let p = SubdomainEnumPlugin::new();
    assert_eq!(p.metadata().name, "subdomain_enum");
    assert_eq!(p.metadata().category, PluginCategory::Recon);
    assert_eq!(p.tools_to_run(false), vec![0, 1]);
    assert_eq!(p.tools_to_run(true), vec![1]);
    assert!(!passive_only(None));
    assert!(passive_only(Some(true)));
    let found = parse_tool_output("a.example.com\n\nb.example.com \r\n");
    assert_eq!(found, vec!["a.example.com".to_string(), "b.example.com".to_string()]);
    let all = vec!["b".to_string(), "a".to_string(), "b".to_string(), "c".to_string(), "a".to_string()];
    assert_eq!(dedup_subdomains(&all), vec!["b".to_string(), "a".to_string(), "c".to_string()]);
    assert_eq!(found_message(3), "Found 3 total subdomains");
}

#[test]
fn interactive_session_commands() {
    assert_eq!(session_action("exit"), SessionAction::Exit);
    assert_eq!(session_action("quit"), SessionAction::Exit);
    assert_eq!(session_action("help"), SessionAction::Help);
    assert_eq!(session_action("Help"), SessionAction::Unknown);
    assert_eq!(unknown_command_reply(), "Unknown command. Type 'help' for assistance.");
    let lines = help_lines();
    assert_eq!(lines.len(), 8);
    assert_eq!(lines[0], "BBHunt - Bug Bounty Hunting Framework");
    assert_eq!(target_added_message("example.com"), "Added target: example.com");
    let cli = BBHuntCli::new(Some(Commands::Target { domain: "x.org".to_string() }), true);
    assert!(cli.verbose);
    assert!(matches!(cli.command, Some(Commands::Target { .. })));
}

#[test]
fn interactive_target_add_command() {
    assert_eq!(session_action("target add example.com"), SessionAction::AddTarget("example.com".to_string()));
    assert_eq!(session_action("target add   spaced.org  "), SessionAction::AddTarget("spaced.org".to_string()));
    assert_eq!(session_action("target add "), SessionAction::Unknown);
    assert_eq!(session_action("target add"), SessionAction::Unknown);
    assert_eq!(session_action("target example.com"), SessionAction::Unknown);
    assert_eq!(session_action("plugins"), SessionAction::ListPlugins);
    assert_eq!(session_action("run subdomain_enum"), SessionAction::RunPlugin("subdomain_enum".to_string()));
    assert_eq!(session_action("run  "), SessionAction::Unknown);
}

fn plugin_meta(name: &str, description: &str, category: PluginCategory) -> PluginMetadata {
    PluginMetadata {
        name: name.to_string(),
        description: description.to_string(),
        version: "0.1.0".to_string(),
        category,
    }
}

fn documented_plugins() -> Vec<PluginMetadata> {
    vec![
        plugin_meta("web_scan", "Scan web applications for vulnerabilities", PluginCategory::Scan),
        plugin_meta("subdomain_enum", "Enumerate subdomains using various tools", PluginCategory::Recon),
        plugin_meta("xss_verify", "Verify XSS vulnerabilities", PluginCategory::Exploit),
        plugin_meta("content_discovery", "Discover hidden files and directories", PluginCategory::Recon),
    ]
}

#[test]
fn plugin_listing_by_category() {
    let lines = plugin_listing(&documented_plugins());
    let expected = vec![
        "Available plugins:",
        "",
        "RECON:",
        "  subdomain_enum - Enumerate subdomains using various tools",
        "  content_discovery - Discover hidden files and directories",
        "",
        "SCAN:",
        "  web_scan - Scan web applications for vulnerabilities",
        "",
        "EXPLOIT:",
        "  xss_verify - Verify XSS vulnerabilities",
    ];
    assert_eq!(lines, expected.iter().map(|l| l.to_string()).collect::<Vec<String>>());
    assert_eq!(plugin_listing(&Vec::new()), vec!["Available plugins:".to_string()]);
    let tools = plugin_listing(&vec![plugin_meta("t", "d", PluginCategory::Utility)]);
    assert_eq!(tools, vec!["Available plugins:".to_string(), "".to_string(), "UTILITY:".to_string(), "  t - d".to_string()]);
}

#[test]
fn interactive_session_adds_a_target() {
    let plugins = documented_plugins();
    let mut config = BBHuntConfig::default_with(Some("/home/alice".to_string()), 2);
    let mut session = Session::new();
    assert_eq!(session.prompt(), "bbhunt (no target)");
    let early = handle_session_line(&mut config, &mut session, &plugins, "run subdomain_enum").unwrap();
    assert!(early.run.is_none());
    assert_eq!(early.lines, vec!["No target selected. Add one with 'target add <domain>'.".to_string()]);
    let first = handle_session_line(&mut config, &mut session, &plugins, "target add example.com").unwrap();
    assert!(!first.exit);
    assert!(first.config_changed);
    assert_eq!(first.lines, vec!["Added target: example.com".to_string()]);
    assert_eq!(config.targets.len(), 1);
    assert_eq!(config.targets[0].0, "example.com");
    assert_eq!(config.find_target("example.com"), Some(0));
    assert_eq!(session.prompt(), "bbhunt (example.com)");
    let listed = handle_session_line(&mut config, &mut session, &plugins, "plugins").unwrap();
    assert_eq!(listed.lines.len(), 11);
    assert_eq!(listed.lines[0], "Available plugins:");
    let run = handle_session_line(&mut config, &mut session, &plugins, "run subdomain_enum").unwrap();
    assert_eq!(run.lines, vec!["Running subdomain_enum on example.com...".to_string()]);
    assert_eq!(run.run, Some(("subdomain_enum".to_string(), "example.com".to_string())));
    let again = handle_session_line(&mut config, &mut session, &plugins, "target add example.com");
    assert!(matches!(again, Err(ConfigError::TargetExists)));
    assert_eq!(config.targets.len(), 1);
    let help = handle_session_line(&mut config, &mut session, &plugins, "help").unwrap();
    assert_eq!(help.lines.len(), 8);
    assert!(!help.config_changed);
    let unknown = handle_session_line(&mut config, &mut session, &plugins, "plugins please").unwrap();
    assert_eq!(unknown.lines, vec!["Unknown command. Type 'help' for assistance.".to_string()]);
    let last = handle_session_line(&mut config, &mut session, &plugins, "exit").unwrap();
    assert!(last.exit);
    assert!(last.lines.is_empty());
}

#[test]
fn plugin_run_sequence() {
    assert_eq!(run_plugin_step(RunPhase::Lookup, true), RunAction::CallSetup);
    assert_eq!(run_plugin_step(RunPhase::Lookup, false), RunAction::ReturnError);
    assert_eq!(run_plugin_step(RunPhase::Setup, true), RunAction::CallExecute);
    assert_eq!(run_plugin_step(RunPhase::Setup, false), RunAction::ReturnError);
    assert_eq!(run_plugin_step(RunPhase::Execute, true), RunAction::CallCleanup);
    assert_eq!(run_plugin_step(RunPhase::Execute, false), RunAction::CallCleanup);
    assert_eq!(run_plugin_step(RunPhase::Cleanup, true), RunAction::ReturnExecuteResult);
    assert_eq!(run_plugin_step(RunPhase::Cleanup, false), RunAction::ReturnError);
}

#[test]
fn resource_checks() {
    assert_eq!(bytes_to_mb(3 * 1024 * 1024 + 5), 3);
    assert!(resources_suffice(512, 2, 1024 * 1024 * 1024, 4));
    assert!(!resources_suffice(2048, 2, 1024 * 1024 * 1024, 4));
    assert!(!resources_suffice(512, 8, 1024 * 1024 * 1024, 4));
    assert!(resources_suffice(1024, 4, 1024 * 1024 * 1024, 4));
}
