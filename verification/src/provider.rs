//! Provider configuration: the providers, their models, and which one is active.

use vstd::prelude::*;
use crate::seqs::{lemma_deep_view_push, first_index, lemma_first_index_is, lemma_first_index_none, lemma_first_index_props};
use crate::strs::{str_eq, string_of, path_join, path_join_spec, push_str, push_decimal, push_bool, dec_spec, bool_str};

verus! {

/// A model offered by a provider.
#[derive(Debug, Clone)]
pub struct ModelInfo {
    pub id: String,
    pub name: String,
    pub context_window: u32,
    pub reasoning: bool,
    /// Model tier: T1 / T2 / T3.
    pub tier: String,
    pub enabled: bool,
    /// Maps a standard thinking level to the provider's native value
    /// (`None` marks a level the model does not support).
    pub thinking_level_map: Option<Vec<(String, Option<String>)>>,
}

/// The mathematical value of a `ModelInfo`.
pub ghost struct ModelView {
    pub id: Seq<char>,
    pub name: Seq<char>,
    pub context_window: u32,
    pub reasoning: bool,
    pub tier: Seq<char>,
    pub enabled: bool,
    pub thinking_level_map: Option<Seq<(Seq<char>, Option<Seq<char>>)>>,
}

impl View for ModelInfo {
    type V = ModelView;

    open spec fn view(&self) -> ModelView {
        ModelView {
            id: self.id@,
            name: self.name@,
            context_window: self.context_window,
            reasoning: self.reasoning,
            tier: self.tier@,
            enabled: self.enabled,
            thinking_level_map: self.thinking_level_map.deep_view(),
        }
    }
}

impl DeepView for ModelInfo {
    type V = ModelView;

    open spec fn deep_view(&self) -> ModelView {
        self@
    }
}

/// A provider: an upstream endpoint with its models.
#[derive(Debug, Clone)]
pub struct ProviderInfo {
    pub id: String,
    pub name: String,
    pub enabled: bool,
    pub base_url: String,
    pub api_key: String,
    pub models: Vec<ModelInfo>,
    /// "openai_compat" | "openai_responses" | "anthropic_messages" | "gemini"
    pub endpoint_type: String,
}

/// The mathematical value of a `ProviderInfo`.
pub ghost struct ProviderView {
    pub id: Seq<char>,
    pub name: Seq<char>,
    pub enabled: bool,
    pub base_url: Seq<char>,
    pub api_key: Seq<char>,
    pub models: Seq<ModelView>,
    pub endpoint_type: Seq<char>,
}

impl View for ProviderInfo {
    type V = ProviderView;

    open spec fn view(&self) -> ProviderView {
        ProviderView {
            id: self.id@,
            name: self.name@,
            enabled: self.enabled,
            base_url: self.base_url@,
            api_key: self.api_key@,
            models: self.models.deep_view(),
            endpoint_type: self.endpoint_type@,
        }
    }
}

impl DeepView for ProviderInfo {
    type V = ProviderView;

    open spec fn deep_view(&self) -> ProviderView {
        self@
    }
}

/// The router's configuration.
#[derive(Debug, Clone)]
pub struct ProviderConfig {
    pub port: u16,
    pub current_model: Option<String>,
    pub current_provider: Option<usize>,
    pub providers: Vec<ProviderInfo>,
}

/// The mathematical value of a `ProviderConfig`.
pub ghost struct ConfigView {
    pub port: u16,
    pub current_model: Option<Seq<char>>,
    pub current_provider: Option<usize>,
    pub providers: Seq<ProviderView>,
}

impl View for ProviderConfig {
    type V = ConfigView;

    open spec fn view(&self) -> ConfigView {
        ConfigView {
            port: self.port,
            current_model: self.current_model.deep_view(),
            current_provider: self.current_provider,
            providers: self.providers.deep_view(),
        }
    }
}

/// The default router port.
pub fn default_port() -> (r: u16)
    ensures
        r == 8001,
{
    8001
}

/// The default of a boolean field that defaults to on.
pub fn default_true() -> (r: bool)
    ensures
        r,
{
    true
}

/// The default model tier.
pub fn default_tier() -> (r: String)
    ensures
        r@ == "T2"@,
{
    string_of("T2")
}

/// The default context window of a model.
pub fn default_context_window() -> (r: u32)
    ensures
        r == 128000,
{
    128000
}

/// The default endpoint type of a provider.
pub fn default_endpoint_type() -> (r: String)
    ensures
        r@ == "openai_compat"@,
{
    string_of("openai_compat")
}

fn clone_opt_string(o: &Option<String>) -> (r: Option<String>)
    ensures
        r.deep_view() == o.deep_view(),
{
    match o {
        Some(s) => Some(s.clone()),
        None => None,
    }
}

impl ModelInfo {
    /// A copy of this model.
    pub fn duplicate(&self) -> (r: ModelInfo)
        ensures
            r@ == self@,
    {
        let map = match &self.thinking_level_map {
            None => None,
            Some(v) => {
                let mut out: Vec<(String, Option<String>)> = Vec::new();
                for i in 0..v.len()
                    invariant
                        out.deep_view() == v.deep_view().take(i as int),
                {
                    let k = v[i].0.clone();
                    let val = clone_opt_string(&v[i].1);
                    let ghost old_out = out;
                    let pair = (k, val);
                    assert(pair.deep_view() == v@[i as int].deep_view());
                    out.push(pair);
                    proof {
                        lemma_deep_view_push(old_out, out, pair);
                        assert(v.deep_view().take(i + 1) =~= v.deep_view().take(i as int).push(
                            v.deep_view()[i as int],
                        ));
                    }
                }
                assert(out.deep_view() =~= v.deep_view());
                Some(out)
            },
        };
        ModelInfo {
            id: self.id.clone(),
            name: self.name.clone(),
            context_window: self.context_window,
            reasoning: self.reasoning,
            tier: self.tier.clone(),
            enabled: self.enabled,
            thinking_level_map: map,
        }
    }
}

/// A copy of a list of models.
pub fn duplicate_models(v: &Vec<ModelInfo>) -> (r: Vec<ModelInfo>)
    ensures
        r.deep_view() == v.deep_view(),
{
    let mut out: Vec<ModelInfo> = Vec::new();
    for i in 0..v.len()
        invariant
            out.deep_view() == v.deep_view().take(i as int),
    {
        let x = v[i].duplicate();
        let ghost old_out = out;
        out.push(x);
        proof {
            lemma_deep_view_push(old_out, out, x);
            assert(v.deep_view().take(i + 1) =~= v.deep_view().take(i as int).push(
                v.deep_view()[i as int],
            ));
        }
    }
    assert(out.deep_view() =~= v.deep_view());
    out
}

/// A copy of a list of providers.
pub fn duplicate_providers(v: &Vec<ProviderInfo>) -> (r: Vec<ProviderInfo>)
    ensures
        r.deep_view() == v.deep_view(),
{
    let mut out: Vec<ProviderInfo> = Vec::new();
    for i in 0..v.len()
        invariant
            out.deep_view() == v.deep_view().take(i as int),
    {
        let x = v[i].duplicate();
        let ghost old_out = out;
        out.push(x);
        proof {
            lemma_deep_view_push(old_out, out, x);
            assert(v.deep_view().take(i + 1) =~= v.deep_view().take(i as int).push(
                v.deep_view()[i as int],
            ));
        }
    }
    assert(out.deep_view() =~= v.deep_view());
    out
}

/// The `api` name pi uses for an endpoint type.
pub open spec fn pi_api_spec(endpoint_type: Seq<char>) -> Seq<char> {
    if endpoint_type == "openai_responses"@ {
        "openai-responses"@
    } else if endpoint_type == "anthropic_messages"@ {
        "anthropic-messages"@
    } else if endpoint_type == "gemini"@ {
        "google-generative-ai"@
    } else {
        "openai-completions"@
    }
}

/// The router path that serves an endpoint type.
pub open spec fn endpoint_path_spec(endpoint_type: Seq<char>) -> Seq<char> {
    if endpoint_type == "openai_responses"@ {
        "/v1/responses"@
    } else if endpoint_type == "anthropic_messages"@ {
        "/v1/messages"@
    } else if endpoint_type == "gemini"@ {
        "/v1/models/:model:generateContent"@
    } else {
        "/v1/chat/completions"@
    }
}

/// Whether the provider lists a model with the given id.
pub open spec fn has_model(p: ProviderView, model: Seq<char>) -> bool {
    exists|i: int| 0 <= i < p.models.len() && (#[trigger] p.models[i]).id == model
}

impl ProviderInfo {
    /// The default provider: empty fields, enabled, "openai_compat".
    pub fn default() -> (r: ProviderInfo)
        ensures
            r@ == (ProviderView {
                id: Seq::empty(),
                name: Seq::empty(),
                enabled: true,
                base_url: Seq::empty(),
                api_key: Seq::empty(),
                models: Seq::empty(),
                endpoint_type: "openai_compat"@,
            }),
    {
        let r = ProviderInfo {
            id: String::new(),
            name: String::new(),
            enabled: true,
            base_url: String::new(),
            api_key: String::new(),
            models: Vec::new(),
            endpoint_type: default_endpoint_type(),
        };
        assert(r.models.deep_view() =~= Seq::<ModelView>::empty());
        r
    }

    /// A copy of this provider.
    pub fn duplicate(&self) -> (r: ProviderInfo)
        ensures
            r@ == self@,
    {
        ProviderInfo {
            id: self.id.clone(),
            name: self.name.clone(),
            enabled: self.enabled,
            base_url: self.base_url.clone(),
            api_key: self.api_key.clone(),
            models: duplicate_models(&self.models),
            endpoint_type: self.endpoint_type.clone(),
        }
    }

    /// The pi `api` value for this provider's endpoint type.
    pub fn pi_api(&self) -> (r: &'static str)
        ensures
            r@ == pi_api_spec(self.endpoint_type@),
    {
        let t = self.endpoint_type.as_str();
        if str_eq(t, "openai_responses") {
            "openai-responses"
        } else if str_eq(t, "anthropic_messages") {
            "anthropic-messages"
        } else if str_eq(t, "gemini") {
            "google-generative-ai"
        } else {
            "openai-completions"
        }
    }

    /// The router path for this provider's endpoint type.
    pub fn endpoint_path(&self) -> (r: &'static str)
        ensures
            r@ == endpoint_path_spec(self.endpoint_type@),
    {
        let t = self.endpoint_type.as_str();
        if str_eq(t, "openai_responses") {
            "/v1/responses"
        } else if str_eq(t, "anthropic_messages") {
            "/v1/messages"
        } else if str_eq(t, "gemini") {
            "/v1/models/:model:generateContent"
        } else {
            "/v1/chat/completions"
        }
    }

    /// Whether this provider lists a model with id `model`.
    pub fn has_model(&self, model: &str) -> (r: bool)
        ensures
            r == has_model(self@, model@),
    {
        let mut i: usize = 0;
        while i < self.models.len()
            invariant
                i <= self.models.len(),
                forall|j: int| 0 <= j < i ==> (#[trigger] self.models@[j])@.id != model@,
            decreases self.models.len() - i,
        {
            if str_eq(self.models[i].id.as_str(), model) {
                assert(self@.models[i as int].id == model@);
                return true;
            }
            i = i + 1;
        }
        assert forall|j: int| 0 <= j < self@.models.len() implies (#[trigger] self@.models[j]).id
            != model@ by {
            assert(self@.models[j] == self.models@[j]@);
        }
        false
    }
}

/// The predicate "enabled and lists the model".
pub open spec fn enabled_with_model(model: Seq<char>) -> spec_fn(ProviderView) -> bool {
    |p: ProviderView| p.enabled && has_model(p, model)
}

/// The predicate "lists the model".
pub open spec fn lists_model(model: Seq<char>) -> spec_fn(ProviderView) -> bool {
    |p: ProviderView| has_model(p, model)
}

/// Which provider is active: the one at `current_provider` when it is enabled
/// and (if a current model is set) lists that model; otherwise the first enabled
/// provider that lists the current model.
pub open spec fn active_provider_index_spec(cfg: ConfigView) -> Option<int> {
    let ps = cfg.providers;
    let by_index = match cfg.current_provider {
        Some(idx) => idx < ps.len() && ps[idx as int].enabled && match cfg.current_model {
            Some(m) => has_model(ps[idx as int], m),
            None => true,
        },
        None => false,
    };
    if by_index {
        Some(cfg.current_provider->0 as int)
    } else {
        match cfg.current_model {
            Some(m) => first_index(ps, enabled_with_model(m)),
            None => None,
        }
    }
}

/// The provider serving `model`: the one at `current_provider` when it is
/// enabled and lists the model, otherwise the first provider listing it.
pub open spec fn provider_for_model_spec(cfg: ConfigView, model: Seq<char>) -> Option<int> {
    let ps = cfg.providers;
    let by_index = match cfg.current_provider {
        Some(idx) => idx < ps.len() && ps[idx as int].enabled && has_model(ps[idx as int], model),
        None => false,
    };
    if by_index {
        Some(cfg.current_provider->0 as int)
    } else {
        first_index(ps, lists_model(model))
    }
}

/// The index of the first provider that lists `model` (and is enabled, if asked).
pub fn first_provider_with_model(ps: &Vec<ProviderInfo>, model: &str, need_enabled: bool) -> (r:
    Option<usize>)
    ensures
        need_enabled ==> (r is None <==> first_index(ps.deep_view(), enabled_with_model(model@))
            is None),
        !need_enabled ==> (r is None <==> first_index(ps.deep_view(), lists_model(model@))
            is None),
        r matches Some(i) ==> i < ps@.len() && (need_enabled ==> first_index(
            ps.deep_view(),
            enabled_with_model(model@),
        ) == Some(i as int)) && (!need_enabled ==> first_index(ps.deep_view(), lists_model(model@))
            == Some(i as int)),
{
    let ghost p = if need_enabled {
        enabled_with_model(model@)
    } else {
        lists_model(model@)
    };
    let ghost dv = ps.deep_view();
    let mut i: usize = 0;
    while i < ps.len()
        invariant
            i <= ps.len(),
            dv == ps.deep_view(),
            p == (if need_enabled {
                enabled_with_model(model@)
            } else {
                lists_model(model@)
            }),
            forall|j: int| 0 <= j < i ==> !p(#[trigger] dv[j]),
        decreases ps.len() - i,
    {
        let ok = (!need_enabled || ps[i].enabled) && ps[i].has_model(model);
        assert(dv[i as int] == ps@[i as int]@);
        if ok {
            proof {
                lemma_first_index_is(dv, p, i as int);
            }
            return Some(i);
        }
        i = i + 1;
    }
    proof {
        lemma_first_index_none(dv, p);
    }
    None
}

impl ProviderConfig {
    /// The default configuration: port 8001, nothing selected, no providers.
    pub fn default() -> (r: ProviderConfig)
        ensures
            r@ == (ConfigView {
                port: 8001,
                current_model: None,
                current_provider: None,
                providers: Seq::empty(),
            }),
    {
        let r = ProviderConfig {
            port: default_port(),
            current_model: None,
            current_provider: None,
            providers: Vec::new(),
        };
        assert(r.providers.deep_view() =~= Seq::<ProviderView>::empty());
        r
    }

    /// The index of the active provider (see `active_provider_index_spec`).
    pub fn active_provider_index(&self) -> (r: Option<usize>)
        ensures
            r is None <==> active_provider_index_spec(self@) is None,
            r matches Some(i) ==> active_provider_index_spec(self@) == Some(i as int) && i
                < self.providers@.len(),
    {
        proof {
            if let Some(m) = self@.current_model {
                lemma_first_index_props(self@.providers, enabled_with_model(m));
            }
        }
        if let Some(idx) = self.current_provider {
            if idx < self.providers.len() {
                let p = &self.providers[idx];
                assert(self@.providers[idx as int] == p@);
                if p.enabled {
                    match &self.current_model {
                        Some(model) => {
                            if p.has_model(model.as_str()) {
                                return Some(idx);
                            }
                        },
                        None => {
                            return Some(idx);
                        },
                    }
                }
            }
        }
        match &self.current_model {
            Some(model) => first_provider_with_model(&self.providers, model.as_str(), true),
            None => None,
        }
    }

    /// The active provider: preferred by `current_provider`, falling back to the
    /// first enabled provider that lists `current_model`.
    pub fn active_provider(&self) -> (r: Option<&ProviderInfo>)
        ensures
            active_provider_index_spec(self@) is None ==> r is None,
            active_provider_index_spec(self@) matches Some(i) ==> r matches Some(p) && *p
                == self.providers@[i],
    {
        let ghost sp = active_provider_index_spec(self@);
        match self.active_provider_index() {
            Some(i) => {
                let p = &self.providers[i];
                assert(sp == Some(i as int));
                assert(*p == self.providers@[i as int]);
                Some(p)
            },
            None => None,
        }
    }

    /// The provider that serves `model` (see `provider_for_model_spec`).
    pub fn find_provider_by_model(&self, model: &str) -> (r: Option<&ProviderInfo>)
        ensures
            provider_for_model_spec(self@, model@) is None ==> r is None,
            provider_for_model_spec(self@, model@) matches Some(i) ==> r matches Some(p) && *p
                == self.providers@[i],
    {
        if let Some(idx) = self.current_provider {
            if idx < self.providers.len() {
                let p = &self.providers[idx];
                assert(self@.providers[idx as int] == p@);
                if p.enabled && p.has_model(model) {
                    return Some(p);
                }
            }
        }
        proof {
            lemma_first_index_props(self@.providers, lists_model(model@));
        }
        match first_provider_with_model(&self.providers, model, false) {
            Some(i) => Some(&self.providers[i]),
            None => None,
        }
    }
}

/// Opening of the generated pi extension, before the provider registration.
pub const TS_HEADER: &'static str = "import type { ExtensionAPI } from \"@earendil-works/pi-coding-agent\";\nimport { randomUUID } from \"node:crypto\";\nimport { writeFileSync, existsSync } from \"node:fs\";\n\nexport default async function (pi: ExtensionAPI) {\n";

/// Registration text up to the router port.
pub const TS_REGISTER_START: &'static str = "  pi.registerProvider(\"local\", {\n    baseUrl: \"http://127.0.0.1:";

/// Registration text between the port and the api name.
pub const TS_REGISTER_API: &'static str = "/v1\",\n    apiKey: \"LOCAL_API_KEY\",\n    api: \"";

/// Registration text between the api name and the model list.
pub const TS_REGISTER_END: &'static str = "\",\n    headers: {\n      \"X-Session-Id\": \"!cat /tmp/pi-session-id\",\n    },\n    compat: {\n      supportsDeveloperRole: true,\n      supportsReasoningEffort: true,\n    },\n    models: [\n";

/// Closing of the generated pi extension, after the model list.
pub const TS_FOOTER: &'static str = "    ],\n  });\n\n  const SESSION_FILE = \"/tmp/pi-session-id\";\n  if (!existsSync(SESSION_FILE)) {\n    writeFileSync(SESSION_FILE, `startup:${randomUUID()}`);\n  }\n\n  pi.on(\"session_start\", async (event) => {\n    let sessionId = event.reason === \"resume\"\n      ? `resume:${event.previousSessionFile?.replace(/[^a-zA-Z0-9]/g, \"-\")}`\n      : `session:${randomUUID()}`;\n    writeFileSync(SESSION_FILE, sessionId);\n  });\n}\n";

/// Model entry text pieces.
pub const TS_MODEL_ID: &'static str = "      { id: \"";

pub const TS_MODEL_NAME: &'static str = "\", name: \"";

pub const TS_MODEL_REASONING: &'static str = "\", reasoning: ";

pub const TS_MODEL_CTX: &'static str = ", contextWindow: ";

pub const TS_MODEL_END: &'static str = ", input: [\"text\"], cost: { input: 0, output: 0, cacheRead: 0, cacheWrite: 0 } },\n";

/// The name shown for a model: its name, or its id when the name is empty.
pub open spec fn model_display_name(m: ModelView) -> Seq<char> {
    if m.name.len() == 0 {
        m.id
    } else {
        m.name
    }
}

/// The entry for one model in the generated extension.
pub open spec fn ts_model_entry(m: ModelView) -> Seq<char> {
    TS_MODEL_ID@ + m.id + TS_MODEL_NAME@ + model_display_name(m) + TS_MODEL_REASONING@ + bool_str(
        m.reasoning,
    ) + TS_MODEL_CTX@ + dec_spec(m.context_window as nat) + TS_MODEL_END@
}

/// The entries for a list of models, in order.
pub open spec fn ts_models(ms: Seq<ModelView>) -> Seq<char>
    decreases ms.len(),
{
    if ms.len() == 0 {
        Seq::empty()
    } else {
        ts_models(ms.drop_last()) + ts_model_entry(ms.last())
    }
}

/// The entries for every model of every provider, in order.
pub open spec fn ts_provider_models(ps: Seq<ProviderView>) -> Seq<char>
    decreases ps.len(),
{
    if ps.len() == 0 {
        Seq::empty()
    } else {
        ts_provider_models(ps.drop_last()) + ts_models(ps.last().models)
    }
}

/// The predicate "enabled".
pub open spec fn is_enabled() -> spec_fn(ProviderView) -> bool {
    |p: ProviderView| p.enabled
}

/// The api of the first enabled provider, or "openai-completions" when none is enabled.
pub open spec fn ts_api(ps: Seq<ProviderView>) -> Seq<char> {
    match first_index(ps, is_enabled()) {
        Some(i) => pi_api_spec(ps[i].endpoint_type),
        None => "openai-completions"@,
    }
}

/// The whole generated `local-provider.ts` for a configuration and router port.
pub open spec fn local_provider_ts_spec(cfg: ConfigView, port: u16) -> Seq<char> {
    TS_HEADER@ + TS_REGISTER_START@ + dec_spec(port as nat) + TS_REGISTER_API@ + ts_api(
        cfg.providers,
    ) + TS_REGISTER_END@ + ts_provider_models(cfg.providers) + TS_FOOTER@
}

fn push_model_entry(s: &mut String, m: &ModelInfo)
    ensures
        final(s)@ == old(s)@ + ts_model_entry(m@),
{
    push_str(s, TS_MODEL_ID);
    push_str(s, m.id.as_str());
    push_str(s, TS_MODEL_NAME);
    if m.name.as_str().is_empty() {
        push_str(s, m.id.as_str());
    } else {
        push_str(s, m.name.as_str());
    }
    push_str(s, TS_MODEL_REASONING);
    push_bool(s, m.reasoning);
    push_str(s, TS_MODEL_CTX);
    push_decimal(s, m.context_window as u64);
    push_str(s, TS_MODEL_END);
    assert(final(s)@ =~= old(s)@ + ts_model_entry(m@));
}

fn first_enabled_api(ps: &Vec<ProviderInfo>) -> (r: &'static str)
    ensures
        r@ == ts_api(ps.deep_view()),
{
    let ghost dv = ps.deep_view();
    let mut i: usize = 0;
    while i < ps.len()
        invariant
            i <= ps.len(),
            dv == ps.deep_view(),
            forall|j: int| 0 <= j < i ==> !is_enabled()(#[trigger] dv[j]),
        decreases ps.len() - i,
    {
        assert(dv[i as int] == ps@[i as int]@);
        if ps[i].enabled {
            proof {
                lemma_first_index_is(dv, is_enabled(), i as int);
            }
            return ps[i].pi_api();
        }
        i = i + 1;
    }
    proof {
        lemma_first_index_none(dv, is_enabled());
    }
    "openai-completions"
}

/// Generates the `local-provider.ts` pi extension that registers the local
/// router as provider "local" with every configured model.
pub fn generate_local_provider_ts(config: &ProviderConfig, port: u16) -> (r: String)
    ensures
        r@ == local_provider_ts_spec(config@, port),
{
    let mut s = String::new();
    push_str(&mut s, TS_HEADER);
    push_str(&mut s, TS_REGISTER_START);
    push_decimal(&mut s, port as u64);
    push_str(&mut s, TS_REGISTER_API);
    let api = first_enabled_api(&config.providers);
    push_str(&mut s, api);
    push_str(&mut s, TS_REGISTER_END);
    let ghost prefix = s@;
    let ghost dv = config.providers.deep_view();
    for i in 0..config.providers.len()
        invariant
            dv == config.providers.deep_view(),
            s@ == prefix + ts_provider_models(dv.take(i as int)),
    {
        let p = &config.providers[i];
        let ghost before = s@;
        let ghost mdv = p.models.deep_view();
        for j in 0..p.models.len()
            invariant
                mdv == p.models.deep_view(),
                s@ == before + ts_models(mdv.take(j as int)),
        {
            push_model_entry(&mut s, &p.models[j]);
            proof {
                assert(mdv.take(j + 1).drop_last() =~= mdv.take(j as int));
                assert(mdv[j as int] == p.models@[j as int]@);
                assert(s@ =~= before + ts_models(mdv.take(j + 1)));
            }
        }
        proof {
            assert(mdv.take(p.models.len() as int) =~= mdv);
            assert(dv.take(i + 1).drop_last() =~= dv.take(i as int));
            assert(dv[i as int] == p@);
            assert(s@ =~= prefix + ts_provider_models(dv.take(i + 1)));
        }
    }
    push_str(&mut s, TS_FOOTER);
    proof {
        assert(dv.take(config.providers.len() as int) =~= dv);
        assert(s@ =~= local_provider_ts_spec(config@, port));
    }
    s
}

/// The configuration directory: `$XDG_CONFIG_HOME/agent-tui`, else
/// `$HOME/.config/agent-tui`, else `.agent-tui`.
pub open spec fn config_dir_spec(xdg: Option<Seq<char>>, home: Option<Seq<char>>) -> Seq<char> {
    match xdg {
        Some(x) => path_join_spec(x, "agent-tui"@),
        None => match home {
            Some(h) => path_join_spec(path_join_spec(h, ".config"@), "agent-tui"@),
            None => ".agent-tui"@,
        },
    }
}

/// The configuration directory for the given `XDG_CONFIG_HOME` and `HOME` values.
pub fn config_dir(xdg: Option<&str>, home: Option<&str>) -> (r: String)
    ensures
        r@ == config_dir_spec(xdg.deep_view(), home.deep_view()),
{
    proof {
        reveal_strlit("agent-tui");
        reveal_strlit(".config");
    }
    match xdg {
        Some(x) => path_join(x, "agent-tui"),
        None => match home {
            Some(h) => {
                let c = path_join(h, ".config");
                path_join(c.as_str(), "agent-tui")
            },
            None => string_of(".agent-tui"),
        },
    }
}

/// The path of `providers.json` for the given `XDG_CONFIG_HOME` and `HOME` values.
pub fn config_path(xdg: Option<&str>, home: Option<&str>) -> (r: String)
    ensures
        r@ == path_join_spec(config_dir_spec(xdg.deep_view(), home.deep_view()), "providers.json"@),
{
    let d = config_dir(xdg, home);
    proof {
        reveal_strlit("providers.json");
    }
    path_join(d.as_str(), "providers.json")
}


/// The path on the upstream provider that a proxied request goes to, by the
/// provider's endpoint type: the Responses or Messages endpoint, Gemini's
/// `generateContent` for the model, or the chat completions endpoint.
pub open spec fn upstream_path_spec(endpoint_type: Seq<char>, model: Seq<char>) -> Seq<char> {
    if endpoint_type == "openai_responses"@ {
        "/v1/responses"@
    } else if endpoint_type == "anthropic_messages"@ {
        "/v1/messages"@
    } else if endpoint_type == "gemini"@ {
        "/v1/models/"@ + model + ":generateContent"@
    } else {
        "/v1/chat/completions"@
    }
}

/// The upstream path of a proxied request (see `upstream_path_spec`).
pub fn upstream_path(endpoint_type: &str, model: &str) -> (r: String)
    ensures
        r@ == upstream_path_spec(endpoint_type@, model@),
{
    if str_eq(endpoint_type, "openai_responses") {
        string_of("/v1/responses")
    } else if str_eq(endpoint_type, "anthropic_messages") {
        string_of("/v1/messages")
    } else if str_eq(endpoint_type, "gemini") {
        let mut s = string_of("/v1/models/");
        push_str(&mut s, model);
        push_str(&mut s, ":generateContent");
        s
    } else {
        string_of("/v1/chat/completions")
    }
}

/// The provider a request for `model` is sent to: the active provider when
/// it is enabled and lists the model, otherwise the provider that serves the
/// model (see `provider_for_model_spec`), if any.
pub fn upstream_provider<'a>(config: &'a ProviderConfig, active: &'a ProviderInfo, model: &str) -> (r: Option<&'a ProviderInfo>)
    ensures
        active.enabled && has_model(active@, model@) ==> r == Some(active),
        !(active.enabled && has_model(active@, model@)) ==> {
            &&& provider_for_model_spec(config@, model@) is None ==> r is None
            &&& provider_for_model_spec(config@, model@) matches Some(i) ==> r matches Some(p) && *p
                == config.providers@[i]
        },
{
    if active.enabled && active.has_model(model) {
        Some(active)
    } else {
        config.find_provider_by_model(model)
    }
}

} // verus!
