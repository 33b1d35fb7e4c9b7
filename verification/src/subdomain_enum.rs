use vstd::prelude::*;
use vstd::string::*;
use crate::plugin::{count_message, PluginCategory, PluginMetadata};
use crate::text::{nonempty_trimmed_lines, spec_decimal, spec_nonempty_lines, str_eq, string_of};

verus! {

/// A command-line subdomain finder with its command template; a passive
/// one only queries public sources.
#[derive(Debug, Clone)]
pub struct SubdomainTool {
    pub name: String,
    pub command: String,
    pub passive: bool,
}

/// The subdomain enumeration plugin: its description and its tools.
pub struct SubdomainEnumPlugin {
    pub metadata: PluginMetadata,
    pub tools: Vec<SubdomainTool>,
}

/// A view of a tool: name, command template and whether it is passive.
pub open spec fn spec_sub_tool_view(t: SubdomainTool) -> (Seq<char>, Seq<char>, bool) {
    (t.name@, t.command@, t.passive)
}

/// The tools that the plugin sets up, in order.
pub open spec fn spec_sub_tools() -> Seq<(Seq<char>, Seq<char>, bool)> {
    seq![
        ("subfinder"@, "subfinder -d {} -o {}"@, false),
        ("amass"@, "amass enum -d {} -o {}"@, true),
    ]
}

/// The plugin's description after setup.
pub open spec fn spec_sub_metadata(m: PluginMetadata) -> bool {
    &&& m.name@ == "subdomain_enum"@
    &&& m.description@ == "Enumerate subdomains using various techniques"@
    &&& m.version@ == "0.1.0"@
    &&& m.category == PluginCategory::Recon
}

/// The plugin is set up: its description and its tools are the standard ones.
pub open spec fn spec_sub_ready(p: SubdomainEnumPlugin) -> bool {
    &&& spec_sub_metadata(p.metadata)
    &&& p.tools@.len() == spec_sub_tools().len()
    &&& forall|i: int| 0 <= i < p.tools@.len() ==> spec_sub_tool_view(#[trigger] p.tools@[i]) == spec_sub_tools()[i]
}

fn sub_metadata() -> (m: PluginMetadata)
    ensures
        spec_sub_metadata(m),
{
    PluginMetadata {
        name: string_of("subdomain_enum"),
        description: string_of("Enumerate subdomains using various techniques"),
        version: string_of("0.1.0"),
        category: PluginCategory::Recon,
    }
}

fn sub_tools() -> (tools: Vec<SubdomainTool>)
    ensures
        tools@.len() == spec_sub_tools().len(),
        forall|i: int| 0 <= i < tools@.len() ==> spec_sub_tool_view(#[trigger] tools@[i]) == spec_sub_tools()[i],
{
    let tools = vec![
        SubdomainTool { name: string_of("subfinder"), command: string_of("subfinder -d {} -o {}"), passive: false },
        SubdomainTool { name: string_of("amass"), command: string_of("amass enum -d {} -o {}"), passive: true },
    ];
    assert forall|i: int| 0 <= i < tools@.len() implies spec_sub_tool_view(#[trigger] tools@[i]) == spec_sub_tools()[i] by {
        if i == 0 {
        } else {
        }
    }
    tools
}

/// The indices below `n` of the tools that run: all of them, or only the
/// passive ones when only passive tools are wanted.
pub open spec fn spec_sub_selected(tools: Seq<SubdomainTool>, passive_only: bool, n: nat) -> Seq<usize>
    decreases n,
{
    if n == 0 {
        Seq::empty()
    } else {
        let r = spec_sub_selected(tools, passive_only, (n - 1) as nat);
        if passive_only && !tools[n - 1].passive {
            r
        } else {
            r.push((n - 1) as usize)
        }
    }
}

impl SubdomainEnumPlugin {
    /// A set-up plugin.
    pub fn new() -> (p: Self)
        ensures
            spec_sub_ready(p),
    {
        SubdomainEnumPlugin { metadata: sub_metadata(), tools: sub_tools() }
    }

    /// Sets the plugin's description and its tools.
    pub fn setup(&mut self)
        ensures
            spec_sub_ready(*final(self)),
    {
        self.metadata = sub_metadata();
        self.tools = sub_tools();
    }

    /// The plugin's description.
    pub fn metadata(&self) -> (m: &PluginMetadata)
        ensures
            *m == self.metadata,
    {
        &self.metadata
    }

    /// The tools to run, by their position, in order.
    pub fn tools_to_run(&self, passive_only: bool) -> (r: Vec<usize>)
        ensures
            r@ == spec_sub_selected(self.tools@, passive_only, self.tools@.len()),
    {
        let mut out: Vec<usize> = Vec::new();
        let mut i: usize = 0;
        while i < self.tools.len()
            invariant
                0 <= i <= self.tools@.len(),
                out@ == spec_sub_selected(self.tools@, passive_only, i as nat),
            decreases self.tools.len() - i,
        {
            if !(passive_only && !self.tools[i].passive) {
                out.push(i);
            }
            i = i + 1;
        }
        out
    }
}

/// Whether only passive tools are wanted: as asked in the options, else no.
pub fn passive_only(option: Option<bool>) -> (r: bool)
    ensures
        r == match option {
            Some(b) => b,
            None => false,
        },
{
    match option {
        Some(b) => b,
        None => false,
    }
}

/// The subdomains that a tool wrote: its output's lines, trimmed, without
/// the empty ones.
pub fn parse_tool_output(contents: &str) -> (r: Vec<String>)
    ensures
        r@.len() == spec_nonempty_lines(contents@).len(),
        forall|k: int| 0 <= k < r@.len() ==> #[trigger] r@[k]@ == spec_nonempty_lines(contents@)[k],
        forall|k: int| 0 <= k < r@.len() ==> (#[trigger] r@[k])@.len() > 0,
{
    nonempty_trimmed_lines(contents)
}

/// The texts of a list of strings.
pub open spec fn spec_texts(v: Seq<String>) -> Seq<Seq<char>> {
    Seq::new(v.len(), |i: int| v[i]@)
}

/// The texts of a list, each kept at its first occurrence only.
pub open spec fn spec_dedup(s: Seq<Seq<char>>) -> Seq<Seq<char>>
    decreases s.len(),
{
    if s.len() == 0 {
        Seq::empty()
    } else {
        let prev = spec_dedup(s.drop_last());
        if prev.contains(s.last()) {
            prev
        } else {
            prev.push(s.last())
        }
    }
}

proof fn lemma_push_contains(s: Seq<Seq<char>>, l: Seq<char>, x: Seq<char>)
    ensures
        s.push(l).contains(x) <==> (s.contains(x) || x == l),
{
    if s.contains(x) {
        let k = choose|k: int| 0 <= k < s.len() && s[k] == x;
        assert(s.push(l)[k] == x);
    }
    if x == l {
        assert(s.push(l)[s.len() as int] == x);
    }
    if s.push(l).contains(x) {
        let k = choose|k: int| 0 <= k < s.push(l).len() && s.push(l)[k] == x;
        if k < s.len() {
            assert(s[k] == x);
        }
    }
}

proof fn lemma_dedup_props(s: Seq<Seq<char>>)
    ensures
        forall|i: int, j: int| 0 <= i < j < spec_dedup(s).len() ==> spec_dedup(s)[i] != spec_dedup(s)[j],
        forall|x: Seq<char>| spec_dedup(s).contains(x) <==> s.contains(x),
    decreases s.len(),
{
    if s.len() > 0 {
        let init = s.drop_last();
        let l = s.last();
        let prev = spec_dedup(init);
        lemma_dedup_props(init);
        assert(init.push(l) =~= s);
        assert forall|x: Seq<char>| spec_dedup(s).contains(x) <==> s.contains(x) by {
            lemma_push_contains(init, l, x);
            lemma_push_contains(prev, l, x);
        }
        if !prev.contains(l) {
            assert forall|i: int, j: int| 0 <= i < j < spec_dedup(s).len() implies spec_dedup(s)[i] != spec_dedup(s)[j] by {
                if j == prev.len() {
                    assert(prev[i] == spec_dedup(s)[i]);
                }
            }
        }
    }
}

/// The subdomains found, each once, in the order of their first occurrence.
pub fn dedup_subdomains(all: &Vec<String>) -> (r: Vec<String>)
    ensures
        spec_texts(r@) == spec_dedup(spec_texts(all@)),
        forall|i: int, j: int| 0 <= i < j < r@.len() ==> r@[i]@ != r@[j]@,
        forall|x: Seq<char>| spec_texts(r@).contains(x) <==> spec_texts(all@).contains(x),
{
    let mut out: Vec<String> = Vec::new();
    let mut i: usize = 0;
    while i < all.len()
        invariant
            0 <= i <= all@.len(),
            spec_texts(out@) == spec_dedup(spec_texts(all@.subrange(0, i as int))),
        decreases all.len() - i,
    {
        let ghost prefix = spec_texts(all@.subrange(0, i as int));
        let ghost next = spec_texts(all@.subrange(0, i + 1));
        assert(next.drop_last() =~= prefix);
        assert(next.last() == all@[i as int]@);
        let mut seen = false;
        let mut k: usize = 0;
        while k < out.len()
            invariant
                0 <= k <= out@.len(),
                i < all@.len(),
                spec_texts(out@) == spec_dedup(prefix),
                seen == exists|j: int| 0 <= j < k && #[trigger] out@[j]@ == all@[i as int]@,
            decreases out.len() - k,
        {
            if str_eq(out[k].as_str(), all[i].as_str()) {
                seen = true;
            }
            k = k + 1;
        }
        proof {
            let d = spec_dedup(prefix);
            if seen {
                let j = choose|j: int| 0 <= j < k && out@[j]@ == all@[i as int]@;
                assert(spec_texts(out@)[j] == all@[i as int]@);
                assert(d.contains(next.last()));
            } else {
                assert(!d.contains(next.last())) by {
                    if d.contains(next.last()) {
                        let j = choose|j: int| 0 <= j < d.len() && d[j] == next.last();
                        assert(spec_texts(out@)[j] == out@[j]@);
                    }
                }
            }
        }
        if !seen {
            let copy = all[i].clone();
            let ghost before = out@;
            out.push(copy);
            assert(spec_texts(out@) =~= spec_texts(before).push(all@[i as int]@));
        }
        i = i + 1;
    }
    assert(all@.subrange(0, i as int) =~= all@);
    proof {
        lemma_dedup_props(spec_texts(all@));
        assert forall|i: int, j: int| 0 <= i < j < out@.len() implies out@[i]@ != out@[j]@ by {
            assert(spec_texts(out@)[i] == out@[i]@);
            assert(spec_texts(out@)[j] == out@[j]@);
        }
    }
    out
}

/// The message of a finished enumeration.
pub fn found_message(total: usize) -> (r: String)
    ensures
        r@ == "Found "@ + spec_decimal(total as nat) + " total subdomains"@,
{
    count_message("Found ", total, " total subdomains")
}

} // verus!
