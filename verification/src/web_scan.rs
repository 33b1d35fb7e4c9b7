use vstd::prelude::*;
use vstd::string::*;
use crate::plugin::{PluginCategory, PluginMetadata};
use crate::plugin::count_message;
use crate::text::{spec_decimal, str_eq, string_of};

verus! {

/// How intrusive a scanning tool is.
#[derive(Debug, Clone, Copy, PartialEq, Eq, Structural)]
pub enum RiskLevel {
    Low,
    Medium,
    High,
}

/// How serious a finding is.
#[derive(Debug, Clone, Copy, PartialEq, Eq, Structural)]
pub enum Severity {
    Info,
    Low,
    Medium,
    High,
    Critical,
}

/// A command-line scanner with its command template and risk.
#[derive(Debug, Clone)]
pub struct WebScanTool {
    pub name: String,
    pub command: String,
    pub risk_level: RiskLevel,
}

/// A finding of a scanner.
#[derive(Debug, Clone)]
pub struct Vulnerability {
    pub name: String,
    pub severity: Severity,
    pub url: String,
    pub details: Vec<(String, serde_json::Value)>,
}

/// The web application scanning plugin: its description and its tools.
pub struct WebScanPlugin {
    pub metadata: PluginMetadata,
    pub scan_tools: Vec<WebScanTool>,
}

/// Why a scan could not start.
#[derive(Debug, Clone, Copy, PartialEq, Eq, Structural)]
pub enum ScanError {
    /// The target is not a URL, not even with `https://` in front of it.
    InvalidTargetUrl,
}

/// A JSON-free view of a tool: name, command template and risk.
pub open spec fn spec_tool_view(t: WebScanTool) -> (Seq<char>, Seq<char>, RiskLevel) {
    (t.name@, t.command@, t.risk_level)
}

/// The tools that the plugin sets up, in order.
pub open spec fn spec_web_tools() -> Seq<(Seq<char>, Seq<char>, RiskLevel)> {
    seq![
        ("nuclei"@, "nuclei -target {} -output {}"@, RiskLevel::Medium),
        ("nikto"@, "nikto -h {} -output {}"@, RiskLevel::Low),
    ]
}

/// The plugin's description after setup.
pub open spec fn spec_web_metadata(m: PluginMetadata) -> bool {
    &&& m.name@ == "web_scan"@
    &&& m.description@ == "Comprehensive web application vulnerability scanning"@
    &&& m.version@ == "0.1.0"@
    &&& m.category == PluginCategory::Scan
}

/// The plugin is set up: its description and its tools are the standard ones.
pub open spec fn spec_web_ready(p: WebScanPlugin) -> bool {
    &&& spec_web_metadata(p.metadata)
    &&& p.scan_tools@.len() == spec_web_tools().len()
    &&& forall|i: int| 0 <= i < p.scan_tools@.len() ==> spec_tool_view(#[trigger] p.scan_tools@[i]) == spec_web_tools()[i]
}

fn web_metadata() -> (m: PluginMetadata)
    ensures
        spec_web_metadata(m),
{
    PluginMetadata {
        name: string_of("web_scan"),
        description: string_of("Comprehensive web application vulnerability scanning"),
        version: string_of("0.1.0"),
        category: PluginCategory::Scan,
    }
}

fn web_tools() -> (tools: Vec<WebScanTool>)
    ensures
        tools@.len() == spec_web_tools().len(),
        forall|i: int| 0 <= i < tools@.len() ==> spec_tool_view(#[trigger] tools@[i]) == spec_web_tools()[i],
{
    let tools = vec![
        WebScanTool {
            name: string_of("nuclei"),
            command: string_of("nuclei -target {} -output {}"),
            risk_level: RiskLevel::Medium,
        },
        WebScanTool {
            name: string_of("nikto"),
            command: string_of("nikto -h {} -output {}"),
            risk_level: RiskLevel::Low,
        },
    ];
    assert forall|i: int| 0 <= i < tools@.len() implies spec_tool_view(#[trigger] tools@[i]) == spec_web_tools()[i] by {
        if i == 0 {
        } else {
        }
    }
    tools
}

/// Whether a tool of the given risk runs in a scan mode: low-risk tools in
/// the basic mode, medium-risk ones in the standard mode, all of them in
/// the thorough mode, and none in any other mode.
pub open spec fn spec_runs_in(mode: Seq<char>, risk: RiskLevel) -> bool {
    (mode == "basic"@ && risk == RiskLevel::Low) || (mode == "standard"@ && risk == RiskLevel::Medium)
        || mode == "thorough"@
}

/// The indices below `n` of the tools that run in a scan mode, in order.
pub open spec fn spec_selected(tools: Seq<WebScanTool>, mode: Seq<char>, n: nat) -> Seq<usize>
    decreases n,
{
    if n == 0 {
        Seq::empty()
    } else {
        let r = spec_selected(tools, mode, (n - 1) as nat);
        if spec_runs_in(mode, tools[n - 1].risk_level) {
            r.push((n - 1) as usize)
        } else {
            r
        }
    }
}

impl WebScanPlugin {
    /// A set-up plugin.
    pub fn new() -> (p: Self)
        ensures
            spec_web_ready(p),
    {
        WebScanPlugin { metadata: web_metadata(), scan_tools: web_tools() }
    }

    /// Sets the plugin's description and its tools.
    pub fn setup(&mut self)
        ensures
            spec_web_ready(*final(self)),
    {
        self.metadata = web_metadata();
        self.scan_tools = web_tools();
    }

    /// The plugin's description.
    pub fn metadata(&self) -> (m: &PluginMetadata)
        ensures
            *m == self.metadata,
    {
        &self.metadata
    }

    /// The tools to run in a scan mode, by their position, in order.
    pub fn tools_for_mode(&self, mode: &str) -> (r: Vec<usize>)
        ensures
            r@ == spec_selected(self.scan_tools@, mode@, self.scan_tools@.len()),
    {
        let basic = str_eq(mode, "basic");
        let standard = str_eq(mode, "standard");
        let thorough = str_eq(mode, "thorough");
        let mut out: Vec<usize> = Vec::new();
        let mut i: usize = 0;
        while i < self.scan_tools.len()
            invariant
                0 <= i <= self.scan_tools@.len(),
                basic == (mode@ == "basic"@),
                standard == (mode@ == "standard"@),
                thorough == (mode@ == "thorough"@),
                out@ == spec_selected(self.scan_tools@, mode@, i as nat),
            decreases self.scan_tools.len() - i,
        {
            let risk = self.scan_tools[i].risk_level;
            let runs = (basic && risk == RiskLevel::Low) || (standard && risk == RiskLevel::Medium) || thorough;
            if runs {
                out.push(i);
            }
            i = i + 1;
        }
        out
    }
}

/// The scan mode asked for in the options, `standard` when none is.
pub fn scan_mode(option: Option<String>) -> (r: String)
    ensures
        r@ == match option {
            Some(m) => m@,
            None => "standard"@,
        },
{
    match option {
        Some(m) => m,
        None => string_of("standard"),
    }
}

// ---------------------------------------------------------------------------
// Target URLs.

/// Name for what `url::Url::parse` gives for a text: the serialization of
/// the URL it parses, or nothing when the text is not an absolute URL.
pub uninterp spec fn spec_url_parse(input: Seq<char>) -> Option<Seq<char>>;

/// The error of `url::Url::parse`.
#[verifier::external_type_specification]
#[verifier::external_body]
pub struct ExUrlParseError(url::ParseError);

/// Calls `url::Url::parse` and gives the URL's serialization: the result is
/// the named parse of the argument.
#[verifier::external_body]
fn parse_url(input: &str) -> (r: Result<String, url::ParseError>)
    ensures
        match r {
            Ok(u) => spec_url_parse(input@) == Some(u@),
            Err(_) => spec_url_parse(input@) is None,
        },
{
    match url::Url::parse(input) {
        Ok(u) => Ok(String::from(u)),
        Err(e) => Err(e),
    }
}

/// The URL that a target names: the target parsed as a URL, else with
/// `https://` in front of it, else none.
pub open spec fn spec_target_url(target: Seq<char>) -> Option<Seq<char>> {
    match spec_url_parse(target) {
        Some(u) => Some(u),
        None => spec_url_parse("https://"@ + target),
    }
}

/// Chooses the URL to scan from the two parses of a target: the direct one
/// when it succeeded, else the one with `https://` in front.
pub fn choose_target_url(direct: Option<String>, with_scheme: Option<String>) -> (r: Result<String, ScanError>)
    ensures
        match direct {
            Some(u) => r matches Ok(v) && v@ == u@,
            None => match with_scheme {
                Some(u) => r matches Ok(v) && v@ == u@,
                None => r == Err::<String, ScanError>(ScanError::InvalidTargetUrl),
            },
        },
{
    match direct {
        Some(u) => Ok(u),
        None => match with_scheme {
            Some(u) => Ok(u),
            None => Err(ScanError::InvalidTargetUrl),
        },
    }
}

/// The URL to scan for a target, in its serialized form; refused when the
/// target is not a URL, not even with `https://` in front of it.
pub fn parse_target_url(target: &str) -> (r: Result<String, ScanError>)
    ensures
        match spec_target_url(target@) {
            Some(u) => r matches Ok(v) && v@ == u,
            None => r == Err::<String, ScanError>(ScanError::InvalidTargetUrl),
        },
{
    let direct = match parse_url(target) {
        Ok(u) => Some(u),
        Err(_) => None,
    };
    let with_scheme = if direct.is_some() {
        None
    } else {
        proof {
            reveal_strlit("https://");
        }
        let prefixed = string_of("https://").concat(target);
        match parse_url(prefixed.as_str()) {
            Ok(u) => Some(u),
            Err(_) => None,
        }
    };
    choose_target_url(direct, with_scheme)
}

// ---------------------------------------------------------------------------
// Findings by severity.

/// How many findings there are of each severity.
#[derive(Debug, Clone, Copy, PartialEq, Eq, Structural)]
pub struct SeverityCounts {
    pub info: usize,
    pub low: usize,
    pub medium: usize,
    pub high: usize,
    pub critical: usize,
}

/// The number of findings of a severity among the first `n`.
pub open spec fn spec_count(vulns: Seq<Vulnerability>, s: Severity, n: nat) -> nat
    decreases n,
{
    if n == 0 {
        0
    } else {
        spec_count(vulns, s, (n - 1) as nat) + if vulns[n - 1].severity == s { 1nat } else { 0nat }
    }
}

/// The count of one severity.
pub open spec fn spec_count_of(c: SeverityCounts, s: Severity) -> usize {
    match s {
        Severity::Info => c.info,
        Severity::Low => c.low,
        Severity::Medium => c.medium,
        Severity::High => c.high,
        Severity::Critical => c.critical,
    }
}

proof fn lemma_count_bounded(vulns: Seq<Vulnerability>, s: Severity, n: nat)
    ensures
        spec_count(vulns, s, n) <= n,
    decreases n,
{
    if n > 0 {
        lemma_count_bounded(vulns, s, (n - 1) as nat);
    }
}

/// Counts the findings of each severity.
pub fn categorize_vulnerabilities(vulns: &Vec<Vulnerability>) -> (c: SeverityCounts)
    ensures
        forall|s: Severity| spec_count_of(c, s) == #[trigger] spec_count(vulns@, s, vulns@.len()),
{
    let mut c = SeverityCounts { info: 0, low: 0, medium: 0, high: 0, critical: 0 };
    let mut i: usize = 0;
    while i < vulns.len()
        invariant
            0 <= i <= vulns@.len(),
            forall|s: Severity| spec_count_of(c, s) == #[trigger] spec_count(vulns@, s, i as nat),
        decreases vulns.len() - i,
    {
        proof {
            lemma_count_bounded(vulns@, vulns@[i as int].severity, i as nat);
            assert(spec_count_of(c, vulns@[i as int].severity) == spec_count(vulns@, vulns@[i as int].severity, i as nat));
        }
        match vulns[i].severity {
            Severity::Info => c.info = c.info + 1,
            Severity::Low => c.low = c.low + 1,
            Severity::Medium => c.medium = c.medium + 1,
            Severity::High => c.high = c.high + 1,
            Severity::Critical => c.critical = c.critical + 1,
        }
        i = i + 1;
        assert forall|s: Severity| spec_count_of(c, s) == #[trigger] spec_count(vulns@, s, i as nat) by {
            assert(spec_count(vulns@, s, i as nat) == spec_count(vulns@, s, (i - 1) as nat)
                + if vulns@[i - 1].severity == s { 1nat } else { 0nat });
        }
    }
    c
}

/// The key under which a severity is counted.
pub open spec fn spec_severity_key(s: Severity) -> Seq<char> {
    match s {
        Severity::Info => "info"@,
        Severity::Low => "low"@,
        Severity::Medium => "medium"@,
        Severity::High => "high"@,
        Severity::Critical => "critical"@,
    }
}

/// The key under which a severity is counted.
pub fn severity_key(s: Severity) -> (r: &'static str)
    ensures
        r@ == spec_severity_key(s),
{
    match s {
        Severity::Info => "info",
        Severity::Low => "low",
        Severity::Medium => "medium",
        Severity::High => "high",
        Severity::Critical => "critical",
    }
}

/// The message of a finished scan.
pub fn scan_message(target: &str, found: usize) -> (r: String)
    ensures
        r@ == "Scanned "@ + target@ + " with "@ + spec_decimal(found as nat) + " vulnerabilities"@,
{
    proof {
        reveal_strlit("Scanned ");
        reveal_strlit(" with ");
    }
    let prefix = string_of("Scanned ").concat(target).concat(" with ");
    count_message(prefix.as_str(), found, " vulnerabilities")
}

} // verus!
