use vstd::prelude::*;
use vstd::string::*;
use crate::text::{push_decimal, replace_all, spec_decimal, spec_replace};

verus! {

/// What a plugin is for.
#[derive(Debug, Clone, Copy, PartialEq, Eq, Structural)]
pub enum PluginCategory {
    Recon,
    Scan,
    Exploit,
    Utility,
}

/// Name, description, version and category of a plugin.
#[derive(Debug, Clone)]
pub struct PluginMetadata {
    pub name: String,
    pub description: String,
    pub version: String,
    pub category: PluginCategory,
}

/// How a plugin run ended.
#[derive(Debug, Clone, Copy, PartialEq, Eq, Structural)]
pub enum PluginStatus {
    Success,
    Error,
    Partial,
}

/// What is shown for a finished plugin run: a headline and a detail line,
/// on the error stream for a failed run. A successful run shows its data
/// after these lines.
pub struct StatusReport {
    pub to_stderr: bool,
    pub headline: String,
    pub detail: String,
}

/// The report shown for a plugin run with the given status and message.
pub fn status_report(status: PluginStatus, message: &str) -> (r: StatusReport)
    ensures
        r.to_stderr == (status == PluginStatus::Error),
        r.headline@ == match status {
            PluginStatus::Success => "Plugin executed successfully!"@,
            PluginStatus::Error => "Plugin execution failed!"@,
            PluginStatus::Partial => "Plugin partially completed."@,
        },
        r.detail@ == match status {
            PluginStatus::Error => "Error: "@ + message@,
            _ => "Message: "@ + message@,
        },
{
    match status {
        PluginStatus::Success => StatusReport {
            to_stderr: false,
            headline: String::from_str("Plugin executed successfully!"),
            detail: String::from_str("Message: ").concat(message),
        },
        PluginStatus::Error => StatusReport {
            to_stderr: true,
            headline: String::from_str("Plugin execution failed!"),
            detail: String::from_str("Error: ").concat(message),
        },
        PluginStatus::Partial => StatusReport {
            to_stderr: false,
            headline: String::from_str("Plugin partially completed."),
            detail: String::from_str("Message: ").concat(message),
        },
    }
}

/// The placeholder that a tool's command template holds.
pub open spec fn spec_placeholder() -> Seq<char> {
    "{}"@
}

/// A tool's command: every placeholder of the template replaced by the
/// target, then every placeholder left (coming from the target) by the
/// output path.
pub open spec fn spec_fill_command(template: Seq<char>, target: Seq<char>, output_path: Seq<char>) -> Seq<char> {
    spec_replace(spec_replace(template, spec_placeholder(), target), spec_placeholder(), output_path)
}

/// The shell command of a tool for a target and an output file.
pub fn fill_command(template: &str, target: &str, output_path: &str) -> (r: String)
    ensures
        r@ == spec_fill_command(template@, target@, output_path@),
{
    proof {
        reveal_strlit("{}");
    }
    let first = replace_all(template, "{}", target);
    replace_all(first.as_str(), "{}", output_path)
}

/// A message made of a prefix, a count in decimal and a suffix.
pub fn count_message(prefix: &str, n: usize, suffix: &str) -> (r: String)
    ensures
        r@ == prefix@ + spec_decimal(n as nat) + suffix@,
{
    let mut out = String::from_str(prefix);
    push_decimal(&mut out, n as u64);
    out.append(suffix);
    out
}

/// Where a plugin run stands: the plugin is looked up, set up, executed,
/// then cleaned up.
#[derive(Debug, Clone, Copy, PartialEq, Eq, Structural)]
pub enum RunPhase {
    Lookup,
    Setup,
    Execute,
    Cleanup,
}

/// What the runner does next.
#[derive(Debug, Clone, Copy, PartialEq, Eq, Structural)]
pub enum RunAction {
    /// Call the plugin's setup.
    CallSetup,
    /// Call the plugin's execute with the target and options.
    CallExecute,
    /// Call the plugin's cleanup, keeping what execute returned.
    CallCleanup,
    /// Hand back what execute returned, success or failure.
    ReturnExecuteResult,
    /// Hand back the failure of the step that just ended.
    ReturnError,
}

/// The next step of a plugin run once `phase` has ended with `ok`: a missing
/// plugin, a failed setup or a failed cleanup ends the run with that error;
/// execute is always followed by cleanup, whatever it returned; after a clean
/// cleanup the run hands back what execute returned.
pub fn run_plugin_step(phase: RunPhase, ok: bool) -> (a: RunAction)
    ensures
        a == match phase {
            RunPhase::Lookup => if ok { RunAction::CallSetup } else { RunAction::ReturnError },
            RunPhase::Setup => if ok { RunAction::CallExecute } else { RunAction::ReturnError },
            RunPhase::Execute => RunAction::CallCleanup,
            RunPhase::Cleanup => if ok { RunAction::ReturnExecuteResult } else { RunAction::ReturnError },
        },
{
    match phase {
        RunPhase::Lookup => if ok { RunAction::CallSetup } else { RunAction::ReturnError },
        RunPhase::Setup => if ok { RunAction::CallExecute } else { RunAction::ReturnError },
        RunPhase::Execute => RunAction::CallCleanup,
        RunPhase::Cleanup => if ok { RunAction::ReturnExecuteResult } else { RunAction::ReturnError },
    }
}

/// The texts of a list of strings.
pub open spec fn spec_texts(v: Seq<String>) -> Seq<Seq<char>> {
    v.map_values(|t: String| t@)
}

/// The heading of a category in the plugin listing.
pub open spec fn spec_category_heading(c: PluginCategory) -> Seq<char> {
    match c {
        PluginCategory::Recon => "RECON:"@,
        PluginCategory::Scan => "SCAN:"@,
        PluginCategory::Exploit => "EXPLOIT:"@,
        PluginCategory::Utility => "UTILITY:"@,
    }
}

/// The listing line of a plugin: indented name, a dash, and its description.
pub open spec fn spec_plugin_line(m: PluginMetadata) -> Seq<char> {
    "  "@ + m.name@ + " - "@ + m.description@
}

/// The listing lines of the plugins of a category, in the given order.
pub open spec fn spec_category_lines(metas: Seq<PluginMetadata>, c: PluginCategory) -> Seq<Seq<char>>
    decreases metas.len(),
{
    if metas.len() == 0 {
        Seq::empty()
    } else {
        let prev = spec_category_lines(metas.drop_last(), c);
        if metas.last().category == c {
            prev.push(spec_plugin_line(metas.last()))
        } else {
            prev
        }
    }
}

/// The block of a category: a blank line, the heading and the plugins'
/// lines; nothing for a category without plugins.
pub open spec fn spec_category_block(metas: Seq<PluginMetadata>, c: PluginCategory) -> Seq<Seq<char>> {
    let lines = spec_category_lines(metas, c);
    if lines.len() == 0 {
        Seq::empty()
    } else {
        seq![""@, spec_category_heading(c)] + lines
    }
}

/// The plugin listing: a title, then the reconnaissance, scanning,
/// exploitation and utility plugins, each category under its heading.
pub open spec fn spec_plugin_listing(metas: Seq<PluginMetadata>) -> Seq<Seq<char>> {
    seq!["Available plugins:"@] + spec_category_block(metas, PluginCategory::Recon) + spec_category_block(
        metas,
        PluginCategory::Scan,
    ) + spec_category_block(metas, PluginCategory::Exploit) + spec_category_block(metas, PluginCategory::Utility)
}

fn category_heading(c: PluginCategory) -> (r: String)
    ensures
        r@ == spec_category_heading(c),
{
    match c {
        PluginCategory::Recon => String::from_str("RECON:"),
        PluginCategory::Scan => String::from_str("SCAN:"),
        PluginCategory::Exploit => String::from_str("EXPLOIT:"),
        PluginCategory::Utility => String::from_str("UTILITY:"),
    }
}

fn category_lines(metas: &Vec<PluginMetadata>, c: PluginCategory) -> (r: Vec<String>)
    ensures
        spec_texts(r@) == spec_category_lines(metas@, c),
{
    let mut r: Vec<String> = Vec::new();
    let mut i: usize = 0;
    while i < metas.len()
        invariant
            0 <= i <= metas@.len(),
            spec_texts(r@) == spec_category_lines(metas@.subrange(0, i as int), c),
        decreases metas.len() - i,
    {
        assert(metas@.subrange(0, i + 1).drop_last() =~= metas@.subrange(0, i as int));
        let m = &metas[i];
        if m.category == c {
            let line = String::from_str("  ").concat(m.name.as_str()).concat(" - ").concat(m.description.as_str());
            let ghost before = r@;
            r.push(line);
            assert(spec_texts(r@) =~= spec_texts(before).push(spec_plugin_line(metas@[i as int])));
        }
        i = i + 1;
    }
    assert(metas@.subrange(0, metas@.len() as int) =~= metas@);
    r
}

fn push_category_block(out: &mut Vec<String>, metas: &Vec<PluginMetadata>, c: PluginCategory)
    ensures
        spec_texts(final(out)@) == spec_texts(old(out)@) + spec_category_block(metas@, c),
{
    let mut lines = category_lines(metas, c);
    if lines.len() == 0 {
        assert(spec_texts(out@) =~= spec_texts(old(out)@) + spec_category_block(metas@, c));
        return;
    }
    let ghost body = lines@;
    let blank = String::new();
    let heading = category_heading(c);
    assert(blank@ =~= ""@) by {
        reveal_strlit("");
    }
    out.push(blank);
    out.push(heading);
    let ghost mid = out@;
    assert(spec_texts(mid) =~= spec_texts(old(out)@) + seq![""@, spec_category_heading(c)]);
    out.append(&mut lines);
    assert(out@ =~= mid + body);
    assert(spec_texts(out@) =~= spec_texts(mid) + spec_texts(body));
    assert(spec_texts(out@) =~= spec_texts(old(out)@) + spec_category_block(metas@, c));
}

/// The lines listing the plugins by category: reconnaissance, scanning,
/// exploitation, then utility; within a category in the given order.
pub fn plugin_listing(metas: &Vec<PluginMetadata>) -> (r: Vec<String>)
    ensures
        spec_texts(r@) == spec_plugin_listing(metas@),
{
    let mut out: Vec<String> = Vec::new();
    out.push(String::from_str("Available plugins:"));
    assert(spec_texts(out@) =~= seq!["Available plugins:"@]);
    push_category_block(&mut out, metas, PluginCategory::Recon);
    push_category_block(&mut out, metas, PluginCategory::Scan);
    push_category_block(&mut out, metas, PluginCategory::Exploit);
    push_category_block(&mut out, metas, PluginCategory::Utility);
    out
}

} // verus!
