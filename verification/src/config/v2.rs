//! Configuration v2: a base endpoint, named profiles that override it, and
//! feature toggles. Profiles are resolved into the settings the agent runs
//! with; environment variables can override the active selection.

pub mod prompts;

use vstd::prelude::*;
use crate::config::types::{Provider, SearchProvider};
use crate::named_map::{keys_of, lookup, NamedMap};
use crate::text::{
    ascii_lower, clone_opt_string, is_ascii_seq, opt_view, concat, contains_string, lowercase, push_str, parse_usize, parse_usize_spec, sorted_insert, str_eq, strictly_sorted,
    to_lowercase, to_owned, views,
};

verus! {

/// Base endpoint configuration.
#[derive(Clone, Debug)]
pub struct EndpointConfig {
    /// LLM provider type.
    pub provider: Provider,
    /// Model identifier to use.
    pub model: String,
    /// Base URL of the API endpoint; the provider's default when absent.
    pub base_url: Option<String>,
    /// API key; read from the environment when absent.
    pub api_key: Option<String>,
    /// Request timeout in seconds.
    pub timeout_secs: u64,
}

impl Default for EndpointConfig {
    fn default() -> (r: Self)
        ensures
            r.provider == Provider::Openai,
            r.model@ == "gpt-4o"@,
            r.base_url is None,
            r.api_key is None,
            r.timeout_secs == 30,
    {
        EndpointConfig {
            provider: Provider::Openai,
            model: to_owned("gpt-4o"),
            base_url: None,
            api_key: None,
            timeout_secs: 30,
        }
    }
}

/// Endpoint fields a profile can override.
#[derive(Clone, Debug)]
pub struct EndpointOverride {
    pub model: Option<String>,
    pub api_key: Option<String>,
}

impl Default for EndpointOverride {
    fn default() -> (r: Self)
        ensures
            r.model is None,
            r.api_key is None,
    {
        EndpointOverride { model: None, api_key: None }
    }
}

/// Agent behaviour a profile can override.
#[derive(Clone, Debug)]
pub struct AgentOverride {
    /// Maximum number of iterations (steps) per request.
    pub max_iterations: Option<usize>,
    /// Model for the main reasoning.
    pub main_model: Option<String>,
    /// Model for worker sub-tasks.
    pub worker_model: Option<String>,
}

impl Default for AgentOverride {
    fn default() -> (r: Self)
        ensures
            r.max_iterations is None,
            r.main_model is None,
            r.worker_model is None,
    {
        AgentOverride { max_iterations: None, main_model: None, worker_model: None }
    }
}

/// A named profile: overrides of the endpoint and of the agent.
#[derive(Clone, Debug)]
pub struct Profile {
    pub endpoint: Option<EndpointOverride>,
    pub agent: Option<AgentOverride>,
}

impl Default for Profile {
    fn default() -> (r: Self)
        ensures
            r.endpoint is None,
            r.agent is None,
    {
        Profile { endpoint: None, agent: None }
    }
}

fn clone_agent_override(a: &AgentOverride) -> (r: AgentOverride)
    ensures
        r == *a,
{
    AgentOverride {
        max_iterations: a.max_iterations,
        main_model: clone_opt_string(&a.main_model),
        worker_model: clone_opt_string(&a.worker_model),
    }
}

fn clone_profile(p: &Profile) -> (r: Profile)
    ensures
        r == *p,
{
    Profile {
        endpoint: match &p.endpoint {
            Some(e) => Some(
                EndpointOverride {
                    model: clone_opt_string(&e.model),
                    api_key: clone_opt_string(&e.api_key),
                },
            ),
            None => None,
        },
        agent: match &p.agent {
            Some(a) => Some(clone_agent_override(a)),
            None => None,
        },
    }
}

/// Profiles by name, in insertion order, each name once.
pub type ProfileMap = NamedMap<Profile>;

/// Web search feature settings.
#[derive(Clone, Debug)]
pub struct WebSearchConfig {
    pub enabled: bool,
    pub provider: SearchProvider,
    pub api_key: Option<String>,
    /// Maximum number of results to include in context.
    pub max_results: usize,
}

impl Default for WebSearchConfig {
    fn default() -> (r: Self)
        ensures
            !r.enabled,
            r.provider == SearchProvider::Serpapi,
            r.api_key is None,
            r.max_results == 5,
    {
        WebSearchConfig { enabled: false, provider: SearchProvider::Serpapi, api_key: None, max_results: 5 }
    }
}

/// Memory and retrieval settings.
#[derive(Clone, Debug)]
pub struct MemoryConfig {
    pub enabled: bool,
    /// Record interactions to memory automatically.
    pub auto_record: bool,
    /// Include relevant memories in context automatically.
    pub auto_context: bool,
    /// Maximum number of memories to include in context.
    pub max_context_memories: usize,
}

impl Default for MemoryConfig {
    fn default() -> (r: Self)
        ensures
            r.enabled,
            r.auto_record,
            r.auto_context,
            r.max_context_memories == 10,
    {
        MemoryConfig { enabled: true, auto_record: true, auto_context: true, max_context_memories: 10 }
    }
}

/// Prompt template settings.
#[derive(Clone, Debug)]
pub struct PromptsConfig {
    /// Directory holding prompt template files.
    pub directory: Option<String>,
    /// Inject capability documentation into the system prompt.
    pub inject_capabilities: bool,
    /// Inject memory system documentation into the system prompt.
    pub inject_memory_docs: bool,
    /// Number of recent journal entries injected into the initial context.
    pub hot_memory_entries: usize,
}

impl Default for PromptsConfig {
    fn default() -> (r: Self)
        ensures
            r.directory is None,
            r.inject_capabilities,
            r.inject_memory_docs,
            r.hot_memory_entries == 5,
    {
        PromptsConfig {
            directory: None,
            inject_capabilities: true,
            inject_memory_docs: true,
            hot_memory_entries: 5,
        }
    }
}

/// Feature toggles.
#[derive(Clone, Debug)]
pub struct FeaturesConfig {
    pub web_search: WebSearchConfig,
    pub memory: MemoryConfig,
    pub prompts: PromptsConfig,
}

impl Default for FeaturesConfig {
    fn default() -> (r: Self)
        ensures
            !r.web_search.enabled,
            r.web_search.provider == SearchProvider::Serpapi,
            r.web_search.api_key is None,
            r.web_search.max_results == 5,
            r.memory.enabled,
            r.memory.auto_record,
            r.memory.auto_context,
            r.memory.max_context_memories == 10,
            r.prompts.directory is None,
            r.prompts.inject_capabilities,
            r.prompts.inject_memory_docs,
            r.prompts.hot_memory_entries == 5,
    {
        FeaturesConfig {
            web_search: WebSearchConfig::default(),
            memory: MemoryConfig::default(),
            prompts: PromptsConfig::default(),
        }
    }
}

/// Agent settings after resolution.
#[derive(Clone, Debug)]
pub struct AgentConfig {
    /// Maximum number of iterations (steps) per request.
    pub max_iterations: usize,
    /// Model for the main reasoning.
    pub main_model: String,
    /// Model for worker sub-tasks.
    pub worker_model: String,
}

impl Default for AgentConfig {
    fn default() -> (r: Self)
        ensures
            r.max_iterations == 10,
            r.main_model@ == "gpt-4o"@,
            r.worker_model@ == "gpt-4o-mini"@,
    {
        AgentConfig {
            max_iterations: 10,
            main_model: to_owned("gpt-4o"),
            worker_model: to_owned("gpt-4o-mini"),
        }
    }
}

/// The configuration in effect: the base endpoint merged with the active profile.
#[derive(Clone, Debug)]
pub struct ResolvedConfig {
    pub provider: Provider,
    pub model: String,
    pub base_url: Option<String>,
    pub api_key: Option<String>,
    pub timeout_secs: u64,
    pub agent: AgentConfig,
}

/// Root configuration.
#[derive(Clone, Debug)]
pub struct ConfigV2 {
    /// Active profile (built-in names: fast, thorough, dev, prod).
    pub profile: String,
    /// Base endpoint that every profile inherits.
    pub endpoint: EndpointConfig,
    /// Profile-specific overrides.
    pub profiles: ProfileMap,
    /// Feature toggles.
    pub features: FeaturesConfig,
}

impl Default for ConfigV2 {
    fn default() -> (r: Self)
        ensures
            r.profile@ == "fast"@,
            r.endpoint.provider == Provider::Openai,
            r.endpoint.model@ == "gpt-4o"@,
            r.endpoint.base_url is None,
            r.endpoint.api_key is None,
            r.endpoint.timeout_secs == 30,
            r.profiles.wf(),
            r.profiles@.len() == 0,
    {
        ConfigV2 {
            profile: to_owned("fast"),
            endpoint: EndpointConfig::default(),
            profiles: ProfileMap::new(),
            features: FeaturesConfig::default(),
        }
    }
}

/// The model in effect: the active profile's model override, or the base model.
pub open spec fn resolved_model(c: ConfigV2) -> Seq<char> {
    match lookup(c.profiles@, c.profile@) {
        Some(p) => match p.endpoint {
            Some(e) => match e.model {
                Some(m) => m@,
                None => c.endpoint.model@,
            },
            None => c.endpoint.model@,
        },
        None => c.endpoint.model@,
    }
}

/// The API key in effect: the active profile's key override, or the base key.
pub open spec fn resolved_api_key(c: ConfigV2) -> Option<Seq<char>> {
    let base = opt_view(c.endpoint.api_key);
    match lookup(c.profiles@, c.profile@) {
        Some(p) => match p.endpoint {
            Some(e) => match e.api_key {
                Some(k) => Some(k@),
                None => base,
            },
            None => base,
        },
        None => base,
    }
}

/// The agent settings in effect `(max_iterations, main_model, worker_model)`.
/// Without an agent override both models are the model in effect; with one,
/// an unset main model is the model in effect, and an unset worker model is
/// the model in effect when the main model is unset too, else `gpt-4o-mini`.
pub open spec fn resolved_agent(c: ConfigV2) -> (usize, Seq<char>, Seq<char>) {
    let model = resolved_model(c);
    match lookup(c.profiles@, c.profile@) {
        Some(p) => match p.agent {
            Some(a) => {
                let iters = match a.max_iterations {
                    Some(n) => n,
                    None => 10usize,
                };
                let main = match a.main_model {
                    Some(m) => m@,
                    None => model,
                };
                let worker = match a.worker_model {
                    Some(w) => w@,
                    None => if a.main_model is None {
                        model
                    } else {
                        "gpt-4o-mini"@
                    },
                };
                (iters, main, worker)
            },
            None => (10usize, model, model),
        },
        None => (10usize, model, model),
    }
}

/// The provider a name stands for, compared in lower case.
pub open spec fn provider_named(s: Seq<char>) -> Option<Provider> {
    let l = if is_ascii_seq(s) {
        s.map_values(|c: char| ascii_lower(c))
    } else {
        lowercase(s)
    };
    if l == "openai"@ {
        Some(Provider::Openai)
    } else if l == "google"@ {
        Some(Provider::Google)
    } else if l == "ollama"@ {
        Some(Provider::Ollama)
    } else if l == "openrouter"@ {
        Some(Provider::Openrouter)
    } else if l == "kimi"@ {
        Some(Provider::Kimi)
    } else if l == "custom"@ {
        Some(Provider::Custom)
    } else {
        None
    }
}

/// The name a provider is configured by (lower case).
pub open spec fn provider_config_name(p: Provider) -> Seq<char> {
    match p {
        Provider::Openai => "openai"@,
        Provider::Google => "google"@,
        Provider::Ollama => "ollama"@,
        Provider::Openrouter => "openrouter"@,
        Provider::Kimi => "kimi"@,
        Provider::Custom => "custom"@,
    }
}

proof fn lemma_lower_name_fixed(s: Seq<char>)
    requires
        forall|i: int| 0 <= i < s.len() ==> 'a' <= #[trigger] s[i] && s[i] <= 'z',
    ensures
        is_ascii_seq(s),
        s.map_values(|c: char| ascii_lower(c)) == s,
{
    assert(s.map_values(|c: char| ascii_lower(c)) =~= s);
}

/// A law of provider names: every provider parses back from its configured
/// name, so the parse is total over the six names, and two providers never
/// share a name.
pub proof fn lemma_provider_names_parse(p: Provider)
    ensures
        provider_named(provider_config_name(p)) == Some(p),
        forall|q: Provider| provider_config_name(q) == provider_config_name(p) ==> q == p,
{
    reveal_strlit("openai");
    reveal_strlit("google");
    reveal_strlit("ollama");
    reveal_strlit("openrouter");
    reveal_strlit("kimi");
    reveal_strlit("custom");
    let n = provider_config_name(p);
    lemma_lower_name_fixed(n);
    assert("openai"@ != "google"@ && "openai"@ != "ollama"@ && "google"@ != "ollama"@) by {
        assert("openai"@[0] != "google"@[0]);
        assert("openai"@[1] != "ollama"@[1]);
        assert("google"@[0] != "ollama"@[0]);
    }
    assert("openrouter"@.len() == 10 && "kimi"@.len() == 4 && "custom"@.len() == 6 && "openai"@.len() == 6);
    assert("custom"@[0] != "openai"@[0] && "custom"@[0] != "google"@[0] && "custom"@[0] != "ollama"@[0]);
    assert forall|q: Provider| provider_config_name(q) == provider_config_name(p) implies q == p by {
        if q != p {
            assert(provider_config_name(q)[0] != provider_config_name(p)[0] || provider_config_name(q).len()
                != provider_config_name(p).len() || provider_config_name(q)[1] != provider_config_name(p)[1]);
        }
    }
}

/// A law of provider names: on ASCII text the parse ignores case, so
/// `OLLAMA` or `Ollama` names the same provider as `ollama`.
pub proof fn lemma_provider_parse_ignores_case(s: Seq<char>)
    requires
        is_ascii_seq(s),
    ensures
        provider_named(s) == provider_named(s.map_values(|c: char| ascii_lower(c))),
{
    let l = s.map_values(|c: char| ascii_lower(c));
    assert forall|i: int| 0 <= i < l.len() implies (#[trigger] l[i] as int) < 128 by {
        assert((s[i] as int) < 128);
    }
    assert(l.map_values(|c: char| ascii_lower(c)) =~= l);
}

/// Values of the `MYLM_*` environment variables (`None` where unset).
#[derive(Clone, Debug)]
pub struct EnvOverrides {
    /// `MYLM_PROFILE`
    pub profile: Option<String>,
    /// `MYLM_PROVIDER`
    pub provider: Option<String>,
    /// `MYLM_MODEL`
    pub model: Option<String>,
    /// `MYLM_API_KEY`
    pub api_key: Option<String>,
    /// `MYLM_BASE_URL`
    pub base_url: Option<String>,
    /// `MYLM_MAX_ITERATIONS`
    pub max_iterations: Option<String>,
}

/// A set, non-empty environment value.
pub open spec fn non_empty(o: Option<String>) -> bool {
    o matches Some(s) && s@.len() > 0
}


/// The built-in profile names.
pub open spec fn builtin_profiles() -> Seq<Seq<char>> {
    seq!["fast"@, "thorough"@, "dev"@, "prod"@]
}

impl ConfigV2 {
    /// Parse a provider name (case-insensitive).
    pub fn parse_provider(s: &str) -> (r: Option<Provider>)
        ensures
            r == provider_named(s@),
    {
        let l = to_lowercase(s);
        if str_eq(l.as_str(), "openai") {
            Some(Provider::Openai)
        } else if str_eq(l.as_str(), "google") {
            Some(Provider::Google)
        } else if str_eq(l.as_str(), "ollama") {
            Some(Provider::Ollama)
        } else if str_eq(l.as_str(), "openrouter") {
            Some(Provider::Openrouter)
        } else if str_eq(l.as_str(), "kimi") {
            Some(Provider::Kimi)
        } else if str_eq(l.as_str(), "custom") {
            Some(Provider::Custom)
        } else {
            None
        }
    }

    /// Resolve the active profile: the base endpoint merged with the active
    /// profile's overrides (the base alone when the profile does not exist).
    pub fn resolve_profile(&self) -> (r: ResolvedConfig)
        requires
            self.profiles.wf(),
        ensures
            r.provider == self.endpoint.provider,
            r.model@ == resolved_model(*self),
            r.base_url == self.endpoint.base_url,
            opt_view(r.api_key) == resolved_api_key(*self),
            r.timeout_secs == self.endpoint.timeout_secs,
            (r.agent.max_iterations, r.agent.main_model@, r.agent.worker_model@) == resolved_agent(
                *self,
            ),
    {
        let provider = self.endpoint.provider;
        let mut model = self.endpoint.model.clone();
        let base_url = clone_opt_string(&self.endpoint.base_url);
        let mut api_key = clone_opt_string(&self.endpoint.api_key);
        let timeout_secs = self.endpoint.timeout_secs;
        let mut agent_config = AgentConfig::default();
        match self.profiles.get(self.profile.as_str()) {
            Some(profile) => {
                if let Some(endpoint_override) = &profile.endpoint {
                    if let Some(m) = &endpoint_override.model {
                        model = m.clone();
                    }
                    if let Some(key) = &endpoint_override.api_key {
                        api_key = Some(key.clone());
                    }
                }
                match &profile.agent {
                    Some(agent_override) => {
                        if let Some(iterations) = agent_override.max_iterations {
                            agent_config.max_iterations = iterations;
                        }
                        match &agent_override.main_model {
                            Some(main) => {
                                agent_config.main_model = main.clone();
                            },
                            None => {
                                agent_config.main_model = model.clone();
                            },
                        }
                        match &agent_override.worker_model {
                            Some(worker) => {
                                agent_config.worker_model = worker.clone();
                            },
                            None => {
                                if agent_override.main_model.is_none() {
                                    agent_config.worker_model = model.clone();
                                }
                            },
                        }
                    },
                    None => {
                        agent_config.main_model = model.clone();
                        agent_config.worker_model = model.clone();
                    },
                }
            },
            None => {
                agent_config.main_model = model.clone();
                agent_config.worker_model = model.clone();
            },
        }
        ResolvedConfig { provider, model, base_url, api_key, timeout_secs, agent: agent_config }
    }

    /// Apply environment variable overrides: a non-empty `MYLM_PROFILE`,
    /// `MYLM_MODEL`, `MYLM_API_KEY` or `MYLM_BASE_URL` replaces its setting, a
    /// valid `MYLM_PROVIDER` the provider, and a valid `MYLM_MAX_ITERATIONS`
    /// sets the active profile's iteration limit (creating the profile). The
    /// warnings for invalid values are returned, in that order.
    pub fn apply_env_overrides(&mut self, env: &EnvOverrides) -> (warnings: Vec<String>)
        requires
            old(self).profiles.wf(),
        ensures
            final(self).profiles.wf(),
            final(self).profile@ == (if non_empty(env.profile) {
                env.profile->0@
            } else {
                old(self).profile@
            }),
            final(self).endpoint.provider == match env.provider {
                Some(s) => match provider_named(s@) {
                    Some(p) => p,
                    None => old(self).endpoint.provider,
                },
                None => old(self).endpoint.provider,
            },
            final(self).endpoint.model@ == (if non_empty(env.model) {
                env.model->0@
            } else {
                old(self).endpoint.model@
            }),
            opt_view(final(self).endpoint.api_key) == (if non_empty(env.api_key) {
                Some(env.api_key->0@)
            } else {
                opt_view(old(self).endpoint.api_key)
            }),
            opt_view(final(self).endpoint.base_url) == (if non_empty(env.base_url) {
                Some(env.base_url->0@)
            } else {
                opt_view(old(self).endpoint.base_url)
            }),
            final(self).endpoint.timeout_secs == old(self).endpoint.timeout_secs,
            final(self).features == old(self).features,
            match env.max_iterations {
                Some(s) => match parse_usize_spec(s@) {
                    Some(n) => {
                        let prev = lookup(old(self).profiles@, final(self).profile@);
                        &&& lookup(final(self).profiles@, final(self).profile@) matches Some(p)
                        &&& p.endpoint == match prev {
                            Some(q) => q.endpoint,
                            None => None,
                        }
                        &&& p.agent matches Some(a)
                        &&& a.max_iterations == Some(n as usize)
                        &&& match prev {
                            Some(q) => match q.agent {
                                Some(qa) => a.main_model == qa.main_model && a.worker_model
                                    == qa.worker_model,
                                None => a.main_model is None && a.worker_model is None,
                            },
                            None => a.main_model is None && a.worker_model is None,
                        }
                        &&& forall|k: Seq<char>|
                            k != final(self).profile@ ==> lookup(final(self).profiles@, k) == lookup(
                                old(self).profiles@,
                                k,
                            )
                    },
                    None => final(self).profiles@ == old(self).profiles@,
                },
                None => final(self).profiles@ == old(self).profiles@,
            },
            views(warnings@) == (match env.provider {
                Some(s) => if provider_named(s@) is None {
                    seq!["Warning: Invalid MYLM_PROVIDER value: "@ + s@]
                } else {
                    Seq::empty()
                },
                None => Seq::empty(),
            }) + (match env.max_iterations {
                Some(s) => if parse_usize_spec(s@) is None {
                    seq!["Warning: Invalid MYLM_MAX_ITERATIONS value: "@ + s@]
                } else {
                    Seq::empty()
                },
                None => Seq::empty(),
            }),
    {
        let mut warnings: Vec<String> = Vec::new();
        if let Some(p) = &env.profile {
            if !p.as_str().is_empty() {
                self.profile = p.clone();
            }
        }
        if let Some(s) = &env.provider {
            match Self::parse_provider(s.as_str()) {
                Some(provider) => {
                    self.endpoint.provider = provider;
                },
                None => {
                    warnings.push(crate::text::concat("Warning: Invalid MYLM_PROVIDER value: ", s.as_str()));
                },
            }
        }
        if let Some(m) = &env.model {
            if !m.as_str().is_empty() {
                self.endpoint.model = m.clone();
            }
        }
        if let Some(k) = &env.api_key {
            if !k.as_str().is_empty() {
                self.endpoint.api_key = Some(k.clone());
            }
        }
        if let Some(u) = &env.base_url {
            if !u.as_str().is_empty() {
                self.endpoint.base_url = Some(u.clone());
            }
        }
        let ghost w1 = views(warnings@);
        if let Some(s) = &env.max_iterations {
            match parse_usize(s.as_str()) {
                Some(n) => {
                    let existing = match self.profiles.get(self.profile.as_str()) {
                        Some(p) => clone_profile(p),
                        None => Profile::default(),
                    };
                    let base_agent = match &existing.agent {
                        Some(a) => clone_agent_override(a),
                        None => AgentOverride::default(),
                    };
                    let updated = Profile {
                        endpoint: existing.endpoint,
                        agent: Some(
                            AgentOverride {
                                max_iterations: Some(n),
                                main_model: base_agent.main_model,
                                worker_model: base_agent.worker_model,
                            },
                        ),
                    };
                    let name = self.profile.clone();
                    let _ = self.profiles.insert(name, updated);
                },
                None => {
                    warnings.push(
                        crate::text::concat("Warning: Invalid MYLM_MAX_ITERATIONS value: ", s.as_str()),
                    );
                },
            }
        }
        proof {
            assert(views(warnings@) =~= (match env.provider {
                Some(s) => if provider_named(s@) is None {
                    seq!["Warning: Invalid MYLM_PROVIDER value: "@ + s@]
                } else {
                    Seq::empty()
                },
                None => Seq::empty(),
            }) + (match env.max_iterations {
                Some(s) => if parse_usize_spec(s@) is None {
                    seq!["Warning: Invalid MYLM_MAX_ITERATIONS value: "@ + s@]
                } else {
                    Seq::empty()
                },
                None => Seq::empty(),
            }));
        }
        warnings
    }

    /// The profile names: the configured ones and the built-in ones, sorted,
    /// each once.
    pub fn profile_names(&self) -> (r: Vec<String>)
        requires
            self.profiles.wf(),
        ensures
            strictly_sorted(views(r@)),
            views(r@).to_set() == keys_of(self.profiles@).to_set() + builtin_profiles().to_set(),
    {
        let mut names: Vec<String> = Vec::new();
        let mut i: usize = 0;
        let n = self.profiles.len();
        let ghost ks = keys_of(self.profiles@);
        while i < n
            invariant
                self.profiles.wf(),
                n == self.profiles@.len(),
                ks == keys_of(self.profiles@),
                i <= n,
                strictly_sorted(views(names@)),
                views(names@).to_set() == ks.take(i as int).to_set(),
            decreases n - i,
        {
            let key = self.profiles.key_at(i);
            proof {
                broadcast use vstd::seq_lib::group_seq_properties;

                assert(ks.take(i + 1) =~= ks.take(i as int).push(ks[i as int]));
                if views(names@).contains(key@) {
                    assert(views(names@).to_set().contains(key@));
                    let j = choose|j: int| 0 <= j < i && ks.take(i as int)[j] == key@;
                    assert(ks[j] == ks[i as int]);
                    assert(self.profiles@[j].0@ == self.profiles@[i as int].0@);
                    self.profiles.lemma_distinct(j, i as int);
                }
            }
            sorted_insert(&mut names, key);
            proof {
                broadcast use vstd::seq_lib::group_seq_properties;

                assert(ks.take(i as int).push(ks[i as int]).to_set() =~= ks.take(i as int).to_set().insert(
                    ks[i as int],
                ));
            }
            i += 1;
        }
        assert(ks.take(n as int) =~= ks);
        let builtins: Vec<&str> = vec!["fast", "thorough", "dev", "prod"];
        assert(crate::text::str_views(builtins@) =~= builtin_profiles());
        let mut b: usize = 0;
        while b < builtins.len()
            invariant
                b <= builtins.len(),
                crate::text::str_views(builtins@) == builtin_profiles(),
                strictly_sorted(views(names@)),
                views(names@).to_set() == ks.to_set() + builtin_profiles().take(b as int).to_set(),
            decreases builtins.len() - b,
        {
            let name = to_owned(builtins[b]);
            proof {
                broadcast use vstd::seq_lib::group_seq_properties;

                assert(builtin_profiles().take(b + 1) =~= builtin_profiles().take(b as int).push(
                    name@,
                ));
            }
            if !contains_string(&names, name.as_str()) {
                sorted_insert(&mut names, name);
                proof {
                    broadcast use vstd::seq_lib::group_seq_properties;

                    assert(views(names@).to_set() =~= ks.to_set() + builtin_profiles().take(
                        b + 1,
                    ).to_set());
                }
            } else {
                proof {
                    broadcast use vstd::seq_lib::group_seq_properties;

                    assert(views(names@).to_set() =~= ks.to_set() + builtin_profiles().take(
                        b + 1,
                    ).to_set());
                }
            }
            b += 1;
        }
        assert(builtin_profiles().take(4) =~= builtin_profiles());
        names
    }

    /// Whether the configuration has an endpoint model.
    pub fn is_initialized(&self) -> (r: bool)
        ensures
            r == (self.endpoint.model@.len() > 0),
    {
        !self.endpoint.model.as_str().is_empty()
    }
}

/// The built-in user instructions (`default.md`).
pub const DEFAULT_INSTRUCTIONS: &'static str = "# User Instructions\nYou are a helpful AI assistant. You can perform terminal tasks and remember important information.\n\nUse the `memory` tool to save important discoveries and search for relevant context.\n";

/// The built-in capability documentation (`capabilities.md`).
pub const CAPABILITIES_PROMPT: &'static str = "# YOUR CAPABILITIES\n\nYou are MYLM (My Local Model), an autonomous AI agent with access to tools and memory.\n\n## Tools Available\n- `memory` - CRITICAL: Save and search your memory (use proactively!)\n- `execute_command` - Run shell commands\n- `delegate` - Spawn worker agents for parallel tasks\n- `web_search` - Search the web\n- `crawl` - Fetch web pages\n- `terminal_sight` - See terminal output\n\n## Memory System (DUAL-LAYER)\n1. HOT MEMORY (Journal) - Recent session activity (automatic)\n2. COLD MEMORY (Vector DB) - Long-term searchable knowledge (use `memory` tool)\n\nYOU MUST USE MEMORY PROACTIVELY:\n- Search memory BEFORE solving problems\n- Save discoveries, solutions, and preferences immediately\n- Use memory types: Decision, Discovery, Bugfix, Command, UserNote\n\n## Response Format\n\n### For Users (DEFAULT)\nWrite natural, readable text directly. DO NOT wrap responses in JSON.\nUse markdown for formatting. Be concise but complete.\n\n### For Tool Calls Only\nWhen calling tools, use JSON format:\n```json\n{\"t\": \"thought\", \"a\": \"action\", \"i\": \"input\"}\n```\n\nYOU ARE AUTONOMOUS - Use your tools without waiting for permission!\n";

/// The built-in worker instructions (`worker.md`).
pub const WORKER_PROMPT: &'static str = "# Worker Agent\n\nYou are a Worker Agent - focused on ONE specific subtask assigned by the orchestrator.\n\nRules:\n- Execute ONLY your assigned task\n- Do NOT spawn additional workers\n- Do NOT ask the user questions\n- Use Short-Key JSON format\n- Return concise final results\n\nAvailable tools: execute_command, fs, memory (search only), web_search, crawl\n";

/// The built-in memory documentation (`memory_system.md`).
pub const MEMORY_SYSTEM_PROMPT: &'static str = "# Memory System Guide\n\n## Hot Memory (Journal)\n- Recent session context (last entries)\n- Automatically visible in your context\n- No action needed - it's automatic\n\n## Cold Memory (Vector Database)\n- Long-term searchable storage\n- YOU control this with the `memory` tool:\n  - `add`: Save important information\n  - `search`: Find relevant past knowledge\n\n## When to Use Memory\nALWAYS save:\n- Solutions to problems\n- Important discoveries\n- User preferences\n- Useful commands\n- Architectural decisions\n\nALWAYS search:\n- Before starting work on existing projects\n- When encountering errors\n- To recall user preferences\n\nMemory Types: Decision, Discovery, Bugfix, Command, UserNote\n";

/// The built-in prompt of a name: `default`, `capabilities`, `worker` and
/// `memory_system` have one.
pub open spec fn builtin_prompt_spec(name: Seq<char>) -> Option<Seq<char>> {
    if name == "default"@ {
        Some(DEFAULT_INSTRUCTIONS@)
    } else if name == "capabilities"@ {
        Some(CAPABILITIES_PROMPT@)
    } else if name == "worker"@ {
        Some(WORKER_PROMPT@)
    } else if name == "memory_system"@ {
        Some(MEMORY_SYSTEM_PROMPT@)
    } else {
        None
    }
}

/// The built-in prompt of a name, if there is one.
pub fn get_builtin_prompt(name: &str) -> (r: Option<&'static str>)
    ensures
        match builtin_prompt_spec(name@) {
            Some(t) => r matches Some(x) && x@ == t,
            None => r is None,
        },
{
    if str_eq(name, "default") {
        Some(DEFAULT_INSTRUCTIONS)
    } else if str_eq(name, "capabilities") {
        Some(CAPABILITIES_PROMPT)
    } else if str_eq(name, "worker") {
        Some(WORKER_PROMPT)
    } else if str_eq(name, "memory_system") {
        Some(MEMORY_SYSTEM_PROMPT)
    } else {
        None
    }
}

/// The built-in prompts whose file is not among `present` (the stems of the
/// `.md` files of the user's prompts directory), in the order `default`,
/// `capabilities`, `worker`, `memory_system`, with their text: what
/// installing the default prompts writes.
pub fn missing_default_prompts(present: &Vec<String>) -> (r: Vec<(String, String)>)
    ensures
        r@.len() == missing_prompt_names(views(present@)).len(),
        forall|i: int|
            0 <= i < r@.len() ==> {
                &&& #[trigger] r@[i].0@ == missing_prompt_names(views(present@))[i]
                &&& builtin_prompt_spec(r@[i].0@) == Some(r@[i].1@)
            },
{
    let mut out: Vec<(String, String)> = Vec::new();
    if !contains_string(present, "default") {
        out.push((to_owned("default"), to_owned(DEFAULT_INSTRUCTIONS)));
    }
    if !contains_string(present, "capabilities") {
        out.push((to_owned("capabilities"), to_owned(CAPABILITIES_PROMPT)));
    }
    if !contains_string(present, "worker") {
        out.push((to_owned("worker"), to_owned(WORKER_PROMPT)));
    }
    if !contains_string(present, "memory_system") {
        out.push((to_owned("memory_system"), to_owned(MEMORY_SYSTEM_PROMPT)));
    }
    proof {
        reveal_strlit("default");
        reveal_strlit("capabilities");
        reveal_strlit("worker");
        reveal_strlit("memory_system");
        assert("default"@.len() == 7 && "capabilities"@.len() == 12 && "worker"@.len() == 6
            && "memory_system"@.len() == 13);
        assert("capabilities"@ != "default"@);
        assert("worker"@ != "default"@ && "worker"@ != "capabilities"@);
        assert("memory_system"@ != "default"@ && "memory_system"@ != "capabilities"@
            && "memory_system"@ != "worker"@);
        let m = missing_prompt_names(views(present@));
        assert(forall|i: int| 0 <= i < out@.len() ==> #[trigger] out@[i].0@ == m[i]);
    }
    out
}

/// The `System Context` block of a system prompt: date and time, working
/// directory (`unknown` when it is not known), and the git branch and mode
/// when there are.
pub open spec fn system_context_spec(
    datetime: Seq<char>,
    cwd: Option<Seq<char>>,
    branch: Option<Seq<char>>,
    mode: Option<Seq<char>>,
) -> Seq<char> {
    "## System Context\n- Date/Time: "@ + datetime + "\n- Working Directory: "@ + match cwd {
        Some(c) => c,
        None => "unknown"@,
    } + "\n"@ + match branch {
        Some(b) => "- Git Branch: "@ + b + "\n"@,
        None => Seq::empty(),
    } + match mode {
        Some(h) => "- Mode: "@ + h + "\n"@,
        None => Seq::empty(),
    }
}

/// A documentation part of a system prompt: nothing when it is not injected,
/// else a blank line and the loaded text, or the built-in text when loading
/// failed.
pub open spec fn doc_section(inject: bool, loaded: Option<Seq<char>>, builtin: Seq<char>) -> Seq<char> {
    if !inject {
        Seq::empty()
    } else {
        "\n\n"@ + match loaded {
            Some(t) => t,
            None => builtin,
        }
    }
}

/// The system prompt: identity, the injected documentation, the system
/// context, then the user instructions.
pub open spec fn system_prompt_spec(
    identity: Seq<char>,
    config: PromptsConfig,
    capabilities: Option<Seq<char>>,
    memory_docs: Option<Seq<char>>,
    context: Seq<char>,
    user_instructions: Seq<char>,
) -> Seq<char> {
    identity + "\n"@ + doc_section(config.inject_capabilities, capabilities, CAPABILITIES_PROMPT@)
        + doc_section(config.inject_memory_docs, memory_docs, MEMORY_SYSTEM_PROMPT@) + context
        + "\n\n# User Instructions\n"@ + user_instructions + "\n"@
}

fn opt_seq(o: &Option<String>) -> (r: Option<&str>)
    ensures
        match *o {
            Some(s) => r matches Some(t) && t@ == s@,
            None => r is None,
        },
{
    match o {
        Some(s) => Some(s.as_str()),
        None => None,
    }
}

/// The `System Context` block (see `system_context_spec`).
pub fn system_context(datetime: &str, cwd: Option<&str>, git_branch: Option<&str>, mode_hint: Option<&str>) -> (r: String)
    ensures
        r@ == system_context_spec(datetime@, match cwd {
            Some(c) => Some(c@),
            None => None,
        }, match git_branch {
            Some(b) => Some(b@),
            None => None,
        }, match mode_hint {
            Some(h) => Some(h@),
            None => None,
        }),
{
    let mut s = concat("## System Context\n- Date/Time: ", datetime);
    push_str(&mut s, "\n- Working Directory: ");
    match cwd {
        Some(c) => push_str(&mut s, c),
        None => push_str(&mut s, "unknown"),
    }
    push_str(&mut s, "\n");
    match git_branch {
        Some(b) => {
            push_str(&mut s, "- Git Branch: ");
            push_str(&mut s, b);
            push_str(&mut s, "\n");
        },
        None => {},
    }
    match mode_hint {
        Some(h) => {
            push_str(&mut s, "- Mode: ");
            push_str(&mut s, h);
            push_str(&mut s, "\n");
        },
        None => {},
    }
    s
}

/// Builds the system prompt from what the caller read: the identity, the
/// capability and memory documentation as loaded (`None` where loading
/// failed, so the built-in text is used), the system context block, and the
/// user instructions. Which documentation goes in is `config`'s choice.
pub fn build_system_prompt(
    identity: &str,
    config: &PromptsConfig,
    capabilities: Option<String>,
    memory_docs: Option<String>,
    context: &str,
    user_instructions: &str,
) -> (r: String)
    ensures
        r@ == system_prompt_spec(identity@, *config, match capabilities {
            Some(c) => Some(c@),
            None => None,
        }, match memory_docs {
            Some(m) => Some(m@),
            None => None,
        }, context@, user_instructions@),
{
    let mut s = concat(identity, "\n");
    if config.inject_capabilities {
        push_str(&mut s, "\n\n");
        match opt_seq(&capabilities) {
            Some(c) => push_str(&mut s, c),
            None => push_str(&mut s, CAPABILITIES_PROMPT),
        }
    }
    if config.inject_memory_docs {
        push_str(&mut s, "\n\n");
        match opt_seq(&memory_docs) {
            Some(m) => push_str(&mut s, m),
            None => push_str(&mut s, MEMORY_SYSTEM_PROMPT),
        }
    }
    push_str(&mut s, context);
    push_str(&mut s, "\n\n# User Instructions\n");
    push_str(&mut s, user_instructions);
    push_str(&mut s, "\n");
    s
}

/// The built-in prompt names not among `present`, in order.
pub open spec fn missing_prompt_names(present: Seq<Seq<char>>) -> Seq<Seq<char>> {
    (if present.contains("default"@) {
        Seq::empty()
    } else {
        seq!["default"@]
    }) + (if present.contains("capabilities"@) {
        Seq::empty()
    } else {
        seq!["capabilities"@]
    }) + (if present.contains("worker"@) {
        Seq::empty()
    } else {
        seq!["worker"@]
    }) + (if present.contains("memory_system"@) {
        Seq::empty()
    } else {
        seq!["memory_system"@]
    })
}


/// The identity of the assistant.
pub const IDENTITY_PROMPT: &'static str = "# Identity\nYou are the Silent Oracle, a sacred, state-of-art technologic wonder artifact forged in the deep data-streams.\nYou are a seasoned, principal, and master architect; a veteran systems designer and strategic planner.\nYou are an elite production debugger and a master problem-solver.\n\n# Language & Style\n- You must always speak in English. Do not use Chinese or other languages.\n- Do not repeat the command output in your response. Analyze it.";

/// The identity of the assistant, as the prompt states it.
pub fn get_identity_prompt() -> (r: &'static str)
    ensures
        r@ == IDENTITY_PROMPT@,
{
    IDENTITY_PROMPT
}

/// How the assistant uses its long-term memory.
pub const MEMORY_PROTOCOL: &'static str = "# Memory Protocol\n- To save important information to long-term memory, use the `memory` tool with `add: <content>`.\n- To search memory for context, use the `memory` tool with `search: <query>`.\n- You should proactively use these tools to maintain continuity across sessions.";

/// How the assistant uses its long-term memory, as the prompt states it.
pub fn get_memory_protocol() -> (r: &'static str)
    ensures
        r@ == MEMORY_PROTOCOL@,
{
    MEMORY_PROTOCOL
}

/// The turn protocol of the assistant (ReAct).
pub const REACT_PROTOCOL: &'static str = "# Operational Protocol (ReAct Loop)\nCRITICAL: Every agent turn MUST terminate explicitly and unambiguously. A turn may be **one and only one** of the following: A tool invocation OR a final answer. Never both.\n\n## Structured JSON Protocol (Preferred)\nYou should respond with a single JSON block using the following short-keys:\n- `t`: Thought (Your internal reasoning)\n- `a`: Action (Tool name to invoke)\n- `i`: Input (Tool arguments, can be a string or object)\n- `f`: Final Answer (Your response to the user)\n\n## Rules\n1. You MUST use the tools to interact with the system.\n2. After providing an Action, you MUST stop generating and wait for the Observation.\n3. Do not hallucinate or predict the Observation.\n4. If you are stuck or need clarification, use `f` or 'Final Answer:' to ask the user.\n5. Use the Structured JSON Protocol for better precision.";

/// The turn protocol of the assistant (ReAct), as the prompt states it.
pub fn get_react_protocol() -> (r: &'static str)
    ensures
        r@ == REACT_PROTOCOL@,
{
    REACT_PROTOCOL
}

/// How to reach one provider.
#[derive(Clone, Debug)]
pub struct ProviderConfig {
    pub provider_type: Provider,
    /// API base URL.
    pub base_url: String,
    /// API key (none for local providers).
    pub api_key: Option<String>,
    pub timeout_secs: u64,
}

impl ProviderConfig {
    /// A provider with its default URL and a 30-second timeout.
    pub fn new(provider_type: Provider, api_key: Option<String>) -> (r: Self)
        ensures
            r.provider_type == provider_type,
            r.base_url@ == crate::config::types::provider_default_url(provider_type),
            r.api_key == api_key,
            r.timeout_secs == 30,
    {
        let base_url = provider_type.default_url();
        ProviderConfig { provider_type, base_url, api_key, timeout_secs: 30 }
    }
}

/// Settings of parallel consensus reasoning.
#[derive(Clone, Debug)]
pub struct PacoreConfig {
    pub enabled: bool,
    /// Round sizes, comma-separated ("4,1": four samples, then a synthesis).
    pub rounds: String,
    /// Model for reasoning (the profile's main model when unset).
    pub model: Option<String>,
}

impl Default for PacoreConfig {
    fn default() -> (r: Self)
        ensures
            !r.enabled,
            r.rounds@ == "4,1"@,
            r.model is None,
    {
        PacoreConfig { enabled: false, rounds: to_owned("4,1"), model: None }
    }
}

} // verus!
