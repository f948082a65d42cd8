//! Whether the configured provider can be used, judged without the network.

use vstd::prelude::*;

use crate::health::model::{
    derived, env_finding, env_warning, fact_views, finding_views, one_arg, one_text, push_fact,
    push_finding, FactValueView, FactView, FindingView, HealthFact, HealthFactCategory,
    HealthFactValue, HealthFinding, HealthScanReport,
};
use crate::i18n::MessageId;
use crate::text::{
    ascii_lowered, begins_with, chars_of, opt_view, replace_all, replaced, same, starts_with,
    text_of, to_ascii_lower, trim, trimmed,
};
use crate::tree::Tree;
use crate::values::Values;

verus! {

/// A document held by `toml`.
#[verifier::external_type_specification]
#[verifier::external_body]
pub struct ExTomlValue(toml::Value);

/// What a `toml::Value` holds.
pub uninterp spec fn toml_tree(value: toml::Value) -> Tree;

/// The document that `toml::Value` reads from a text, if it reads one.
pub uninterp spec fn toml_read(text: Seq<char>) -> Option<Tree>;

/// `<toml::Value as FromStr>::from_str` decides from the text alone whether it
/// is a document, and which one.
#[verifier::external_body]
pub(crate) fn toml_parse(text: &str) -> (res: Option<toml::Value>)
    ensures
        match res {
            Some(v) => toml_read(text@) == Some(toml_tree(v)),
            None => toml_read(text@) is None,
        },
{
    text.parse::<toml::Value>().ok()
}

/// `toml::Value::get` hands out the member of a table, and nothing for any other
/// value or a missing key.
#[verifier::external_body]
fn toml_get<'a>(value: &'a toml::Value, key: &str) -> (res: Option<&'a toml::Value>)
    ensures
        match res {
            Some(v) => toml_tree(*value).member(key@) == Some(toml_tree(*v)),
            None => toml_tree(*value).member(key@) is None,
        },
{
    value.get(key)
}

/// `toml::Value::as_str` hands out the text of a text.
#[verifier::external_body]
fn toml_as_str(value: &toml::Value) -> (res: Option<&str>)
    ensures
        match res {
            Some(s) => toml_tree(*value) == Tree::Text(s@),
            None => toml_tree(*value).text() is None,
        },
{
    value.as_str()
}

fn toml_text_at(value: &toml::Value, key: &str) -> (res: Option<String>)
    ensures
        opt_view(res) == toml_tree(*value).text_at(key@),
{
    match toml_get(value, key) {
        Some(v) => match toml_as_str(v) {
            Some(s) => Some(s.to_owned()),
            None => None,
        },
        None => None,
    }
}

/// A name in small letters and without hyphens.
pub open spec fn folded(name: Seq<char>) -> Seq<char> {
    replaced(ascii_lowered(name), "-"@, ""@)
}

fn fold(name: &str) -> (res: String)
    ensures
        res@ == folded(name@),
{
    let small = to_ascii_lower(name);
    replace_all(small.as_str(), "-", "")
}

/// The adapters.
#[derive(Clone, Copy, Debug, PartialEq, Eq, Structural)]
pub enum AdapterKind {
    Fake,
    CoshCore,
    ClaudeCode,
    QwenCli,
}

impl AdapterKind {
    /// The adapter of each name. For `ClaudeCode` neither case nor hyphens count.
    pub open spec fn named(name: Seq<char>) -> Option<AdapterKind> {
        if name == "fake"@ {
            Some(AdapterKind::Fake)
        } else if name == "cosh-core"@ {
            Some(AdapterKind::CoshCore)
        } else if name == "qwen"@ || name == "qwen-cli"@ {
            Some(AdapterKind::QwenCli)
        } else if folded(name) == folded("ClaudeCode"@) {
            Some(AdapterKind::ClaudeCode)
        } else {
            None
        }
    }

    /// The adapter of a name.
    pub fn parse(name: &str) -> (res: Option<AdapterKind>)
        ensures
            res == AdapterKind::named(name@),
    {
        if same(name, "fake") {
            Some(AdapterKind::Fake)
        } else if same(name, "cosh-core") {
            Some(AdapterKind::CoshCore)
        } else if same(name, "qwen") || same(name, "qwen-cli") {
            Some(AdapterKind::QwenCli)
        } else {
            let given = fold(name);
            let known = fold("ClaudeCode");
            if same(given.as_str(), known.as_str()) {
                Some(AdapterKind::ClaudeCode)
            } else {
                None
            }
        }
    }
}

/// Whether a provider can be used.
#[derive(Clone, Copy, Debug, PartialEq, Eq, Structural)]
pub enum ProviderReadiness {
    Ready,
    MissingCredentials,
    UnknownAdapter,
}

/// Whether a provider can be used. An unknown adapter never can.
pub open spec fn readiness(adapter: Seq<char>, has_credentials: bool) -> ProviderReadiness {
    match AdapterKind::named(adapter) {
        None => ProviderReadiness::UnknownAdapter,
        Some(AdapterKind::Fake) => ProviderReadiness::Ready,
        Some(_) => if has_credentials {
            ProviderReadiness::Ready
        } else {
            ProviderReadiness::MissingCredentials
        },
    }
}

/// Whether a provider can be used.
pub fn classify_provider(adapter: &str, has_credentials: bool) -> (res: ProviderReadiness)
    ensures
        res == readiness(adapter@, has_credentials),
{
    match AdapterKind::parse(adapter) {
        None => ProviderReadiness::UnknownAdapter,
        Some(AdapterKind::Fake) => ProviderReadiness::Ready,
        Some(_) => {
            if has_credentials {
                ProviderReadiness::Ready
            } else {
                ProviderReadiness::MissingCredentials
            }
        },
    }
}

/// A variable of the environment, empty if it is not set.
pub open spec fn variable(env: Map<Seq<char>, Seq<char>>, key: Seq<char>) -> Seq<char> {
    if env.contains_key(key) {
        env[key]
    } else {
        Seq::empty()
    }
}

/// Whether there is anything but white space.
pub open spec fn filled_in(s: Seq<char>) -> bool {
    trimmed(s).len() > 0
}

fn is_filled_in(s: &str) -> (res: bool)
    ensures
        res == filled_in(s@),
{
    let t = trim(s);
    !t.as_str().is_empty()
}

fn read_variable(env: &Values, key: &str) -> (res: String)
    requires
        env.wf(),
    ensures
        res@ == variable(env@, key@),
{
    match env.get(key) {
        Some(v) => v.clone(),
        None => {
            let empty = String::new();
            assert(empty@ =~= Seq::empty());
            empty
        },
    }
}

fn env_non_empty(env: &Values, key: &str) -> (res: bool)
    requires
        env.wf(),
    ensures
        res == filled_in(variable(env@, key@)),
{
    let value = read_variable(env, key);
    is_filled_in(value.as_str())
}

/// A configured value, `${NAME}` and `$NAME` standing for a variable.
pub open spec fn expanded(value: Seq<char>, env: Map<Seq<char>, Seq<char>>) -> Seq<char> {
    if begins_with(value, "${"@) && value.len() > 2 && value.last() == '}' {
        variable(env, value.subrange(2, value.len() - 1))
    } else if value.len() > 0 && value[0] == '$' {
        variable(env, value.skip(1))
    } else {
        value
    }
}

/// Whether a configured value amounts to anything.
pub open spec fn value_present(raw: Seq<char>, env: Map<Seq<char>, Seq<char>>) -> bool {
    filled_in(raw) && filled_in(expanded(trimmed(raw), env))
}

/// Whether a configured value amounts to anything.
pub fn config_value_present(raw: &str, env: &Values) -> (res: bool)
    requires
        env.wf(),
    ensures
        res == value_present(raw@, env@),
{
    let value = trim(raw);
    if value.as_str().is_empty() {
        return false;
    }
    let chars = chars_of(value.as_str());
    let n: usize = chars.len();
    if starts_with(value.as_str(), "${") && n > 2 && chars[n - 1] == '}' {
        let name = text_of(&chars, 2, n - 1);
        assert(name@ =~= value@.subrange(2, value@.len() - 1));
        let resolved = read_variable(env, name.as_str());
        return is_filled_in(resolved.as_str());
    }
    if n > 0 && chars[0] == '$' {
        let name = text_of(&chars, 1, n);
        assert(name@ =~= value@.skip(1));
        let resolved = read_variable(env, name.as_str());
        return is_filled_in(resolved.as_str());
    }
    is_filled_in(value.as_str())
}

fn opt_value_present(raw: &Option<String>, env: &Values) -> (res: bool)
    requires
        env.wf(),
    ensures
        res == (raw is Some && value_present(raw->0@, env@)),
{
    match raw {
        Some(v) => config_value_present(v.as_str(), env),
        None => false,
    }
}

/// The name of the provider in use: from the environment, else configured, else
/// the default.
pub open spec fn active_provider(document: Tree, env: Map<Seq<char>, Seq<char>>) -> Seq<char> {
    if filled_in(variable(env, "COSH_AI_PROVIDER"@)) {
        variable(env, "COSH_AI_PROVIDER"@)
    } else {
        match document.member("ai"@) {
            Some(ai) => match ai.text_at("active_provider"@) {
                Some(name) => name,
                None => "default"@,
            },
            None => "default"@,
        }
    }
}

/// The configured entry of the provider in use. Entries of other providers do
/// not count.
pub open spec fn active_entry(document: Tree, env: Map<Seq<char>, Seq<char>>) -> Option<Tree> {
    match document.member("ai"@) {
        Some(ai) => match ai.member("providers"@) {
            Some(providers) => providers.member(active_provider(document, env)),
            None => None,
        },
        None => None,
    }
}

/// The type of a provider entry.
pub open spec fn entry_type(entry: Option<Tree>) -> Seq<char> {
    match entry {
        Some(e) => match e.text_at("type"@) {
            Some(t) => t,
            None => "generic"@,
        },
        None => "generic"@,
    }
}

/// Whether the environment holds the credentials of an adapter. A provider of
/// Aliyun takes no API key.
pub open spec fn env_credentials(
    kind: AdapterKind,
    provider_type: Seq<char>,
    env: Map<Seq<char>, Seq<char>>,
) -> bool {
    match kind {
        AdapterKind::Fake => true,
        AdapterKind::CoshCore => if provider_type == "aliyun"@ {
            filled_in(variable(env, "ALIBABA_CLOUD_ACCESS_KEY_ID"@)) && filled_in(
                variable(env, "ALIBABA_CLOUD_ACCESS_KEY_SECRET"@),
            )
        } else if provider_type == "mock"@ {
            true
        } else {
            filled_in(variable(env, "DASHSCOPE_API_KEY"@)) || filled_in(
                variable(env, "OPENAI_API_KEY"@),
            )
        },
        AdapterKind::ClaudeCode => filled_in(variable(env, "ANTHROPIC_API_KEY"@)),
        AdapterKind::QwenCli => filled_in(variable(env, "DASHSCOPE_API_KEY"@)),
    }
}

/// Whether the environment holds the credentials of an adapter.
pub fn env_credentials_present(kind: AdapterKind, provider_type: &str, env: &Values) -> (res: bool)
    requires
        env.wf(),
    ensures
        res == env_credentials(kind, provider_type@, env@),
{
    match kind {
        AdapterKind::Fake => true,
        AdapterKind::CoshCore => {
            if same(provider_type, "aliyun") {
                env_non_empty(env, "ALIBABA_CLOUD_ACCESS_KEY_ID") && env_non_empty(
                    env,
                    "ALIBABA_CLOUD_ACCESS_KEY_SECRET",
                )
            } else if same(provider_type, "mock") {
                true
            } else {
                env_non_empty(env, "DASHSCOPE_API_KEY") || env_non_empty(env, "OPENAI_API_KEY")
            }
        },
        AdapterKind::ClaudeCode => env_non_empty(env, "ANTHROPIC_API_KEY"),
        AdapterKind::QwenCli => env_non_empty(env, "DASHSCOPE_API_KEY"),
    }
}

/// A configured field that amounts to something.
pub open spec fn field_present(entry: Tree, key: Seq<char>, env: Map<Seq<char>, Seq<char>>) -> bool {
    entry.text_at(key) is Some && value_present(entry.text_at(key)->0, env)
}

/// Whether the configuration holds the credentials of an adapter.
pub open spec fn config_credentials(
    kind: AdapterKind,
    entry: Option<Tree>,
    env: Map<Seq<char>, Seq<char>>,
) -> bool {
    match entry {
        None => false,
        Some(e) => match kind {
            AdapterKind::Fake => true,
            AdapterKind::CoshCore => if entry_type(entry) == "aliyun"@ {
                e.text_at("auth_source"@) == Some("ecs_ram_role"@) || (field_present(
                    e,
                    "access_key_id"@,
                    env,
                ) && field_present(e, "access_key_secret"@, env))
            } else if entry_type(entry) == "mock"@ {
                true
            } else {
                field_present(e, "api_key"@, env)
            },
            AdapterKind::ClaudeCode | AdapterKind::QwenCli => field_present(e, "api_key"@, env),
        },
    }
}

/// What is configured of the provider in use.
pub struct ProviderEntry {
    pub provider_type: Option<String>,
    pub auth_source: Option<String>,
    pub access_key_id: Option<String>,
    pub access_key_secret: Option<String>,
    pub api_key: Option<String>,
}

/// Whether an entry holds what a document says.
pub open spec fn entry_of(entry: ProviderEntry, tree: Tree) -> bool {
    &&& opt_view(entry.provider_type) == tree.text_at("type"@)
    &&& opt_view(entry.auth_source) == tree.text_at("auth_source"@)
    &&& opt_view(entry.access_key_id) == tree.text_at("access_key_id"@)
    &&& opt_view(entry.access_key_secret) == tree.text_at("access_key_secret"@)
    &&& opt_view(entry.api_key) == tree.text_at("api_key"@)
}

/// The configured entry of the provider in use.
pub fn read_active_entry(document: &toml::Value, env: &Values) -> (res: Option<ProviderEntry>)
    requires
        env.wf(),
    ensures
        match res {
            Some(entry) => active_entry(toml_tree(*document), env@) is Some && entry_of(
                entry,
                active_entry(toml_tree(*document), env@)->0,
            ),
            None => active_entry(toml_tree(*document), env@) is None,
        },
{
    let ai = match toml_get(document, "ai") {
        Some(ai) => ai,
        None => {
            return None;
        },
    };
    let chosen = read_variable(env, "COSH_AI_PROVIDER");
    let active: String = if is_filled_in(chosen.as_str()) {
        chosen
    } else {
        match toml_text_at(ai, "active_provider") {
            Some(name) => name,
            None => "default".to_owned(),
        }
    };
    assert(active@ == active_provider(toml_tree(*document), env@));
    let providers = match toml_get(ai, "providers") {
        Some(p) => p,
        None => {
            return None;
        },
    };
    match toml_get(providers, active.as_str()) {
        Some(entry) => Some(
            ProviderEntry {
                provider_type: toml_text_at(entry, "type"),
                auth_source: toml_text_at(entry, "auth_source"),
                access_key_id: toml_text_at(entry, "access_key_id"),
                access_key_secret: toml_text_at(entry, "access_key_secret"),
                api_key: toml_text_at(entry, "api_key"),
            },
        ),
        None => None,
    }
}

/// Whether a provider entry holds the credentials of an adapter.
pub fn entry_credentials_present(kind: AdapterKind, entry: &ProviderEntry, env: &Values) -> (res: bool)
    requires
        env.wf(),
    ensures
        forall|tree: Tree|
            #![trigger entry_of(*entry, tree)]
            entry_of(*entry, tree) ==> res == config_credentials(kind, Some(tree), env@),
{
    match kind {
        AdapterKind::Fake => true,
        AdapterKind::CoshCore => {
            if crate::text::is_text(&entry.provider_type, "aliyun") {
                crate::text::is_text(&entry.auth_source, "ecs_ram_role") || (opt_value_present(
                    &entry.access_key_id,
                    env,
                ) && opt_value_present(&entry.access_key_secret, env))
            } else if crate::text::is_text(&entry.provider_type, "mock") {
                true
            } else {
                proof {
                    lemma_generic_is_neither();
                }
                opt_value_present(&entry.api_key, env)
            }
        },
        AdapterKind::ClaudeCode | AdapterKind::QwenCli => opt_value_present(&entry.api_key, env),
    }
}

proof fn lemma_generic_is_neither()
    ensures
        "generic"@ != "aliyun"@,
        "generic"@ != "mock"@,
{
    reveal_strlit("generic");
    reveal_strlit("aliyun");
    reveal_strlit("mock");
    assert("generic"@.len() == 7 && "aliyun"@.len() == 6 && "mock"@.len() == 4);
}

/// Whether there are credentials for an adapter, in the environment or in the
/// configuration. `document` is the configuration, if it could be read.
pub open spec fn credentials(
    adapter: Seq<char>,
    env: Map<Seq<char>, Seq<char>>,
    document: Option<Tree>,
) -> bool {
    let entry = match document {
        Some(d) => active_entry(d, env),
        None => None,
    };
    match AdapterKind::named(adapter) {
        None => false,
        Some(AdapterKind::Fake) => true,
        Some(kind) => env_credentials(kind, entry_type(entry), env) || config_credentials(
            kind,
            entry,
            env,
        ),
    }
}

/// What the configuration file says: nothing if there is none or it is no
/// document.
pub open spec fn document_in(content: Option<Seq<char>>) -> Option<Tree> {
    match content {
        Some(text) => toml_read(text),
        None => None,
    }
}

/// Whether there are credentials for an adapter, by the entry in use.
pub fn credentials_with_entry(adapter: &str, env: &Values, entry: &Option<ProviderEntry>) -> (res: bool)
    requires
        env.wf(),
    ensures
        forall|tree: Tree|
            #![trigger entry_of(entry->0, tree)]
            entry is Some && entry_of(entry->0, tree) ==> res == (match AdapterKind::named(
                adapter@,
            ) {
                None => false,
                Some(AdapterKind::Fake) => true,
                Some(kind) => env_credentials(kind, entry_type(Some(tree)), env@)
                    || config_credentials(kind, Some(tree), env@),
            }),
        entry is None ==> res == credentials(adapter@, env@, None),
{
    let kind = match AdapterKind::parse(adapter) {
        Some(kind) => kind,
        None => {
            return false;
        },
    };
    if kind == AdapterKind::Fake {
        return true;
    }
    match entry {
        Some(e) => {
            let provider_type: String = match &e.provider_type {
                Some(t) => t.clone(),
                None => "generic".to_owned(),
            };
            env_credentials_present(kind, provider_type.as_str(), env)
                || entry_credentials_present(kind, e, env)
        },
        None => env_credentials_present(kind, "generic", env),
    }
}

/// Whether there are credentials for an adapter. `config` is the text of the
/// configuration file, if it could be read.
pub fn provider_credentials_present(adapter: &str, env: &Values, config: Option<&str>) -> (res: bool)
    requires
        env.wf(),
    ensures
        res == credentials(
            adapter@,
            env@,
            document_in(
                match config {
                    Some(text) => Some(text@),
                    None => None,
                },
            ),
        ),
{
    let entry: Option<ProviderEntry> = match config {
        Some(text) => match toml_parse(text) {
            Some(document) => read_active_entry(&document, env),
            None => None,
        },
        None => None,
    };
    credentials_with_entry(adapter, env, &entry)
}

/// The facts about the provider.
pub open spec fn provider_facts(adapter: Seq<char>, present: bool, elapsed_ms: u128) -> Seq<FactView> {
    seq![
        derived(
            HealthFactCategory::Provider,
            "provider.adapter"@,
            FactValueView::Text(adapter),
            elapsed_ms,
        ),
        derived(
            HealthFactCategory::Provider,
            "provider.credentials_present"@,
            FactValueView::Bool(present),
            elapsed_ms,
        ),
    ]
}

/// The findings about the provider. An unknown adapter needs another remedy
/// than missing credentials.
pub open spec fn provider_findings(adapter: Seq<char>, present: bool) -> Seq<FindingView> {
    let ready = readiness(adapter, present);
    if ready is Ready {
        Seq::empty()
    } else {
        seq![
            env_warning(
                "env-provider"@,
                MessageId::HealthFindingProviderUnconfigured,
                if ready is UnknownAdapter {
                    MessageId::HealthRemediationUnknownAdapter
                } else {
                    MessageId::HealthRemediationProvider
                },
                seq![
                    (
                        "adapter"@,
                        if adapter.len() == 0 {
                            "unknown"@
                        } else {
                            adapter
                        },
                    ),
                ],
                seq!["provider.adapter"@],
            ),
        ]
    }
}

/// Collects the state of the provider.
pub fn collect_provider(
    report: &mut HealthScanReport,
    adapter_default: &str,
    has_credentials: bool,
    elapsed_ms: u128,
)
    ensures
        final(report)@ == old(report)@.recorded(
            provider_facts(trimmed(adapter_default@), has_credentials, elapsed_ms),
            "provider"@,
            provider_findings(trimmed(adapter_default@), has_credentials),
        ),
{
    let adapter = trim(adapter_default);
    let mut facts: Vec<HealthFact> = Vec::new();
    let mut findings: Vec<HealthFinding> = Vec::new();
    proof {
        assert(fact_views(facts@) =~= Seq::empty());
        assert(finding_views(findings@) =~= Seq::empty());
    }
    push_fact(
        &mut facts,
        HealthFactCategory::Provider,
        "provider.adapter",
        HealthFactValue::Text(adapter.clone()),
        elapsed_ms,
    );
    push_fact(
        &mut facts,
        HealthFactCategory::Provider,
        "provider.credentials_present",
        HealthFactValue::Bool(has_credentials),
        elapsed_ms,
    );
    let ready = classify_provider(adapter.as_str(), has_credentials);
    if ready != ProviderReadiness::Ready {
        let args = one_arg(
            "adapter",
            if adapter.as_str().is_empty() {
                "unknown"
            } else {
                adapter.as_str()
            },
        );
        let remedy = if ready == ProviderReadiness::UnknownAdapter {
            MessageId::HealthRemediationUnknownAdapter
        } else {
            MessageId::HealthRemediationProvider
        };
        push_finding(
            &mut findings,
            env_finding(
                "env-provider".to_owned(),
                MessageId::HealthFindingProviderUnconfigured,
                remedy,
                args,
                one_text("provider.adapter"),
            ),
        );
    }
    proof {
        assert(fact_views(facts@) =~~= provider_facts(adapter@, has_credentials, elapsed_ms));
        assert(finding_views(findings@) =~~= provider_findings(adapter@, has_credentials));
    }
    report.record(facts, "provider", findings);
}

/// An unknown adapter is never ready, whatever is in the environment.
pub proof fn unknown_adapters_are_never_ready(
    adapter: Seq<char>,
    env: Map<Seq<char>, Seq<char>>,
    document: Option<Tree>,
)
    requires
        AdapterKind::named(adapter) is None,
    ensures
        !credentials(adapter, env, document),
        readiness(adapter, true) == ProviderReadiness::UnknownAdapter,
{
}

/// Only the entry of the provider in use counts: two configurations with the
/// same one are as good as each other.
pub proof fn other_entries_do_not_count(
    adapter: Seq<char>,
    env: Map<Seq<char>, Seq<char>>,
    a: Tree,
    b: Tree,
)
    requires
        active_entry(a, env) == active_entry(b, env),
    ensures
        credentials(adapter, env, Some(a)) == credentials(adapter, env, Some(b)),
{
}

} // verus!
