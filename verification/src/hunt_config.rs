use vstd::prelude::*;
use vstd::string::*;
use crate::text::{str_eq, string_of};

verus! {

/// A JSON value of `serde_json`, carried through as it is.
#[verifier::external_type_specification]
#[verifier::external_body]
pub struct ExJsonValue(serde_json::Value);

/// Settings that apply to every run: where data and configuration live,
/// the resource limits, and the user agent of HTTP requests.
#[derive(Debug, Clone)]
pub struct GlobalConfig {
    pub data_dir: String,
    pub config_dir: String,
    pub max_memory: usize,
    pub max_cpu: usize,
    pub user_agent: String,
}

/// Whether a plugin is enabled and the options it runs with by default.
#[derive(Debug, Clone)]
pub struct PluginConfig {
    pub enabled: bool,
    pub default_options: Vec<(String, serde_json::Value)>,
}

/// A target of reconnaissance: its domain, its scope, when it was added
/// and notes about it.
#[derive(Debug, Clone)]
pub struct TargetConfig {
    pub domain: String,
    pub scope: Vec<String>,
    pub added_at: String,
    pub notes: Option<String>,
}

/// The whole configuration: global settings, plugin settings by plugin
/// name, and targets by domain. No name occurs twice in either list.
#[derive(Debug, Clone)]
pub struct BBHuntConfig {
    pub global: GlobalConfig,
    pub plugins: Vec<(String, PluginConfig)>,
    pub targets: Vec<(String, TargetConfig)>,
}

/// `after` is `before` with one more target for `domain` at the end, with an
/// empty scope and no notes, and the same global and plugin settings.
pub open spec fn spec_target_appended(before: BBHuntConfig, after: BBHuntConfig, domain: Seq<char>) -> bool {
    &&& after.targets@.len() == before.targets@.len() + 1
    &&& after.targets@.subrange(0, before.targets@.len() as int) == before.targets@
    &&& after.targets@.last().0@ == domain
    &&& after.targets@.last().1.domain@ == domain
    &&& after.targets@.last().1.scope@.len() == 0
    &&& after.targets@.last().1.notes is None
    &&& after.global == before.global
    &&& after.plugins == before.plugins
}

/// Why a configuration change was refused.
#[derive(Debug, Clone, Copy, PartialEq, Eq, Structural)]
pub enum ConfigError {
    /// A target with this domain is already configured.
    TargetExists,
}

/// Names of a keyed list, in order.
pub open spec fn spec_keys<T>(entries: Seq<(String, T)>) -> Seq<Seq<char>> {
    Seq::new(entries.len(), |i: int| entries[i].0@)
}

/// No name occurs twice.
pub open spec fn spec_distinct(keys: Seq<Seq<char>>) -> bool {
    forall|i: int, j: int| 0 <= i < keys.len() && 0 <= j < keys.len() && i != j ==> keys[i] != keys[j]
}

/// A path relative to a base directory, as `PathBuf::join` forms it: the
/// relative path itself after an empty base, else joined by one separator.
pub open spec fn spec_join(base: Seq<char>, rel: Seq<char>) -> Seq<char> {
    if base.len() == 0 {
        rel
    } else if base.last() == '/' {
        base + rel
    } else {
        base + seq!['/'] + rel
    }
}

/// Joins a relative path to a base directory.
pub fn join_path(base: &str, rel: &str) -> (r: String)
    ensures
        r@ == spec_join(base@, rel@),
{
    let n = base.unicode_len();
    if n == 0 {
        return string_of(rel);
    }
    let mut out = string_of(base);
    if base.get_char(n - 1) != '/' {
        proof {
            reveal_strlit("/");
        }
        out.append("/");
    }
    out.append(rel);
    out
}

/// Calls `dirs::home_dir`, giving the path as text. Whether there is a
/// home directory and which one depends on the environment; nothing is
/// claimed of it.
#[verifier::external_body]
fn home_dir_text() -> (r: Option<String>) {
    match dirs::home_dir() {
        Some(p) => Some(p.to_string_lossy().into_owned()),
        None => None,
    }
}

/// Calls `num_cpus::get`, whose documentation says that it always returns
/// at least one.
#[verifier::external_body]
fn cpu_count() -> (r: usize)
    ensures
        r >= 1,
{
    num_cpus::get()
}

/// Reads the system clock with `std::time::SystemTime::now`, turns the
/// instant into a `chrono::DateTime<Utc>` by its `From<SystemTime>` impl
/// (which takes instants before 1970 too) and gives it as an RFC 3339 text
/// with `to_rfc3339`. The text depends on the clock; nothing is claimed of
/// it. The conversion unwraps chrono's range check, so a clock set more than
/// about 262,000 years away from 1970 would make it panic; that input, the
/// clock, is not an argument and cannot be ruled out here.
#[verifier::external_body]
fn now_rfc3339() -> (r: String) {
    chrono::DateTime::<chrono::Utc>::from(std::time::SystemTime::now()).to_rfc3339()
}

/// The configuration that a home directory (`.` when there is none) and a
/// number of CPUs give.
pub open spec fn spec_default_global(home: Seq<char>, cpus: usize) -> (Seq<char>, Seq<char>, usize, usize, Seq<char>) {
    (spec_join(home, ".bbhunt/data"@), spec_join(home, ".bbhunt/config"@), 4096, cpus, "bbhunt/0.1.0"@)
}

/// The view of global settings as a tuple.
pub open spec fn spec_global_view(g: GlobalConfig) -> (Seq<char>, Seq<char>, usize, usize, Seq<char>) {
    (g.data_dir@, g.config_dir@, g.max_memory, g.max_cpu, g.user_agent@)
}

impl BBHuntConfig {
    /// No name occurs twice among plugins, nor among targets.
    pub open spec fn wf(&self) -> bool {
        spec_distinct(spec_keys(self.plugins@)) && spec_distinct(spec_keys(self.targets@))
    }

    /// A target with this domain is configured.
    pub open spec fn spec_has_target(&self, domain: Seq<char>) -> bool {
        spec_keys(self.targets@).contains(domain)
    }

    /// The default configuration for a home directory (`None` stands for
    /// the current directory) and a number of CPUs: data and configuration
    /// under `.bbhunt`, 4096 MB of memory, and no plugin or target.
    pub fn default_with(home: Option<String>, cpus: usize) -> (c: Self)
        ensures
            c.wf(),
            spec_global_view(c.global) == spec_default_global(
                match home { Some(h) => h@, None => "."@ },
                cpus,
            ),
            c.plugins@.len() == 0,
            c.targets@.len() == 0,
    {
        let base = match home {
            Some(h) => h,
            None => string_of("."),
        };
        let global = GlobalConfig {
            data_dir: join_path(base.as_str(), ".bbhunt/data"),
            config_dir: join_path(base.as_str(), ".bbhunt/config"),
            max_memory: 4096,
            max_cpu: cpus,
            user_agent: string_of("bbhunt/0.1.0"),
        };
        let c = BBHuntConfig { global, plugins: Vec::new(), targets: Vec::new() };
        assert(spec_keys(c.plugins@) =~= Seq::<Seq<char>>::empty());
        assert(spec_keys(c.targets@) =~= Seq::<Seq<char>>::empty());
        c
    }

    /// The default configuration for this user and machine.
    pub fn new() -> (c: Self)
        ensures
            c.wf(),
            exists|home: Seq<char>, cpus: usize| cpus >= 1
                && spec_global_view(c.global) == #[trigger] spec_default_global(home, cpus),
            c.plugins@.len() == 0,
            c.targets@.len() == 0,
    {
        Self::default()
    }

    /// Where the target with this domain stands in the list, if anywhere.
    pub fn find_target(&self, domain: &str) -> (r: Option<usize>)
        ensures
            match r {
                Some(i) => i < self.targets@.len() && self.targets@[i as int].0@ == domain@,
                None => !self.spec_has_target(domain@),
            },
    {
        let mut i: usize = 0;
        while i < self.targets.len()
            invariant
                0 <= i <= self.targets@.len(),
                forall|j: int| 0 <= j < i ==> self.targets@[j].0@ != domain@,
            decreases self.targets.len() - i,
        {
            if str_eq(self.targets[i].0.as_str(), domain) {
                return Some(i);
            }
            i = i + 1;
        }
        proof {
            if spec_keys(self.targets@).contains(domain@) {
                let k = choose|k: int| 0 <= k < spec_keys(self.targets@).len() && spec_keys(self.targets@)[k] == domain@;
                assert(self.targets@[k].0@ == domain@);
            }
        }
        None
    }

    /// Adds a target added at the given time, with an empty scope and no
    /// notes; refused when a target with this domain exists.
    pub fn add_target_at(&mut self, domain: &str, added_at: String) -> (r: Result<(), ConfigError>)
        requires
            old(self).wf(),
        ensures
            final(self).wf(),
            r is Err <==> old(self).spec_has_target(domain@),
            r matches Err(e) ==> e == ConfigError::TargetExists && *final(self) == *old(self),
            r is Ok ==> {
                &&& final(self).targets@.len() == old(self).targets@.len() + 1
                &&& final(self).targets@.subrange(0, old(self).targets@.len() as int) == old(self).targets@
                &&& final(self).targets@.last().0@ == domain@
                &&& final(self).targets@.last().1.domain@ == domain@
                &&& final(self).targets@.last().1.scope@.len() == 0
                &&& final(self).targets@.last().1.added_at@ == added_at@
                &&& final(self).targets@.last().1.notes is None
                &&& final(self).global == old(self).global
                &&& final(self).plugins == old(self).plugins
            },
            final(self).spec_has_target(domain@),
    {
        match self.find_target(domain) {
            Some(i) => {
                proof {
                    assert(spec_keys(self.targets@)[i as int] == domain@);
                }
                Err(ConfigError::TargetExists)
            },
            None => {
                let target = TargetConfig {
                    domain: string_of(domain),
                    scope: Vec::new(),
                    added_at,
                    notes: None,
                };
                let ghost before = self.targets@;
                self.targets.push((string_of(domain), target));
                proof {
                    let ks = spec_keys(self.targets@);
                    assert(spec_keys(before) =~= ks.subrange(0, before.len() as int));
                    assert(ks[before.len() as int] == domain@);
                    assert(self.targets@.subrange(0, before.len() as int) =~= before);
                    assert(spec_distinct(ks)) by {
                        assert forall|i: int, j: int| 0 <= i < ks.len() && 0 <= j < ks.len() && i != j
                            implies ks[i] != ks[j] by {
                            if i < before.len() && j < before.len() {
                                assert(ks[i] == spec_keys(before)[i]);
                                assert(ks[j] == spec_keys(before)[j]);
                            } else if i < before.len() {
                                assert(ks[i] == spec_keys(before)[i]);
                                assert(spec_keys(before)[i] == before[i].0@);
                            } else if j < before.len() {
                                assert(ks[j] == spec_keys(before)[j]);
                                assert(spec_keys(before)[j] == before[j].0@);
                            }
                        }
                    }
                    assert(ks.contains(domain@)) by {
                        assert(ks[before.len() as int] == domain@);
                    }
                }
                Ok(())
            },
        }
    }

    /// Adds a target added now, with an empty scope and no notes; refused
    /// when a target with this domain exists.
    pub fn add_target(&mut self, domain: &str) -> (r: Result<(), ConfigError>)
        requires
            old(self).wf(),
        ensures
            final(self).wf(),
            r is Err <==> old(self).spec_has_target(domain@),
            r matches Err(e) ==> e == ConfigError::TargetExists && *final(self) == *old(self),
            r is Ok ==> spec_target_appended(*old(self), *final(self), domain@),
            final(self).spec_has_target(domain@),
    {
        let now = now_rfc3339();
        self.add_target_at(domain, now)
    }

    /// The settings of the plugin with this name, if there are any.
    pub fn get_plugin_config(&self, plugin_name: &str) -> (r: Option<&PluginConfig>)
        ensures
            match r {
                Some(p) => exists|i: int| 0 <= i < self.plugins@.len() && self.plugins@[i].0@ == plugin_name@
                    && *p == #[trigger] self.plugins@[i].1,
                None => forall|i: int| 0 <= i < self.plugins@.len() ==> #[trigger] self.plugins@[i].0@ != plugin_name@,
            },
    {
        let mut i: usize = 0;
        while i < self.plugins.len()
            invariant
                0 <= i <= self.plugins@.len(),
                forall|j: int| 0 <= j < i ==> #[trigger] self.plugins@[j].0@ != plugin_name@,
            decreases self.plugins.len() - i,
        {
            if str_eq(self.plugins[i].0.as_str(), plugin_name) {
                return Some(&self.plugins[i].1);
            }
            i = i + 1;
        }
        None
    }
}

impl Default for BBHuntConfig {
    /// The default configuration for this user and machine: under the home
    /// directory (or the current one), using all available CPUs.
    fn default() -> (c: Self)
        ensures
            c.wf(),
            exists|home: Seq<char>, cpus: usize| cpus >= 1
                && spec_global_view(c.global) == #[trigger] spec_default_global(home, cpus),
            c.plugins@.len() == 0,
            c.targets@.len() == 0,
    {
        let home = home_dir_text();
        let cpus = cpu_count();
        let c = Self::default_with(home, cpus);
        assert(spec_global_view(c.global) == spec_default_global(
            match home { Some(h) => h@, None => "."@ }, cpus));
        c
    }
}

/// A target that was added is found by its domain, so adding it again is
/// refused: adding the same domain twice leaves one entry for it.
pub proof fn lemma_added_target_present(targets: Seq<(String, TargetConfig)>, entry: (String, TargetConfig))
    ensures
        spec_keys(targets.push(entry)).contains(entry.0@),
{
    assert(spec_keys(targets.push(entry))[targets.len() as int] == entry.0@);
}

} // verus!
