//! Authentication commands of the core registry and the rules by which
//! credentials are updated.

use vstd::prelude::*;
use vstd::string::*;

use crate::ecs_metadata::{CredentialStatus, EcsAuthChallenge, ProbeError};
use crate::text::{chars_of, opt_view, same};
use crate::tree::{
    json_bool, json_copy, json_list, json_object, json_opt, json_put, json_tree, json_u64, opt_tree,
    put_text, text_at, text_members, texts_in, Tree,
};
use crate::values::Values;

verus! {

/// The answer to a registry request.
pub struct RegistryResponse {
    pub request_id: String,
    pub success: bool,
    pub data: Option<serde_json::Value>,
    pub error: Option<String>,
}

/// What a [`RegistryResponse`] says.
#[verifier::ext_equal]
pub struct ResponseView {
    pub request_id: Seq<char>,
    pub success: bool,
    pub data: Option<Tree>,
    pub error: Option<Seq<char>>,
}

impl View for RegistryResponse {
    type V = ResponseView;

    open spec fn view(&self) -> ResponseView {
        ResponseView {
            request_id: self.request_id@,
            success: self.success,
            data: match self.data {
                Some(v) => Some(json_tree(v)),
                None => None,
            },
            error: opt_view(self.error),
        }
    }
}

/// A successful answer.
pub open spec fn succeeded(request_id: Seq<char>, data: Tree) -> ResponseView {
    ResponseView { request_id, success: true, data: Some(data), error: None }
}

/// A failed answer.
pub open spec fn refused(request_id: Seq<char>, message: Seq<char>) -> ResponseView {
    ResponseView { request_id, success: false, data: None, error: Some(message) }
}

/// A failed answer with a machine-readable code.
pub open spec fn coded(request_id: Seq<char>, code: Seq<char>, message: Seq<char>) -> ResponseView {
    ResponseView {
        request_id,
        success: false,
        data: Some(Tree::Object(Map::empty().insert("error_code"@, Tree::Text(code)))),
        error: Some(message),
    }
}

fn success(request_id: &str, data: serde_json::Value) -> (res: RegistryResponse)
    ensures
        res@ == succeeded(request_id@, json_tree(data)),
{
    RegistryResponse {
        request_id: request_id.to_owned(),
        success: true,
        data: Some(data),
        error: None,
    }
}

/// A failed answer.
pub fn registry_error(request_id: &str, message: &str) -> (res: RegistryResponse)
    ensures
        res@ == refused(request_id@, message@),
{
    RegistryResponse {
        request_id: request_id.to_owned(),
        success: false,
        data: None,
        error: Some(message.to_owned()),
    }
}

/// A failed answer with a machine-readable code.
pub fn auth_registry_error(request_id: &str, code: &str, message: &str) -> (res: RegistryResponse)
    ensures
        res@ == coded(request_id@, code@, message@),
{
    let mut data = json_object();
    put_text(&mut data, "error_code", code);
    RegistryResponse {
        request_id: request_id.to_owned(),
        success: false,
        data: Some(data),
        error: Some(message.to_owned()),
    }
}

/// The answer to a verify request.
pub open spec fn probe_answer(request_id: Seq<char>, result: Result<CredentialStatus, ProbeError>) -> ResponseView {
    match result {
        Ok(CredentialStatus::Ready) => succeeded(
            request_id,
            Tree::Object(Map::empty().insert("status"@, Tree::Text("ready"@))),
        ),
        Ok(CredentialStatus::NotReady(reason)) => succeeded(
            request_id,
            Tree::Object(
                Map::empty().insert("status"@, Tree::Text("not_ready"@)).insert(
                    "reason"@,
                    Tree::Text(reason.token()),
                ),
            ),
        ),
        Err(error) => coded(request_id, error.code_text(), error.message_text()),
    }
}

/// The answer to a verify request.
pub fn ecs_probe_response(request_id: &str, result: Result<CredentialStatus, ProbeError>) -> (res: RegistryResponse)
    ensures
        res@ == probe_answer(request_id@, result),
{
    match result {
        Ok(CredentialStatus::Ready) => {
            let mut data = json_object();
            put_text(&mut data, "status", "ready");
            success(request_id, data)
        },
        Ok(CredentialStatus::NotReady(reason)) => {
            let mut data = json_object();
            put_text(&mut data, "status", "not_ready");
            put_text(&mut data, "reason", reason.as_str());
            success(request_id, data)
        },
        Err(error) => {
            let message = error.message();
            auth_registry_error(request_id, error.code(), message.as_str())
        },
    }
}

/// The view of a prepare result.
pub open spec fn challenge_view(result: Result<Option<EcsAuthChallenge>, ProbeError>) -> Result<
    Option<(Seq<char>, Seq<char>)>,
    ProbeError,
> {
    match result {
        Ok(Some(c)) => Ok(Some((c.instance_id@, c.console_url@))),
        Ok(None) => Ok(None),
        Err(e) => Err(e),
    }
}

/// The answer to a prepare request: a role challenge, manual credentials, or
/// the failure as it is, which is never taken for manual credentials.
pub open spec fn prepare_answer(
    request_id: Seq<char>,
    result: Result<Option<(Seq<char>, Seq<char>)>, ProbeError>,
) -> ResponseView {
    match result {
        Ok(Some((instance_id, console_url))) => succeeded(
            request_id,
            Tree::Object(
                Map::empty().insert("mode"@, Tree::Text("ecs_ram_role"@)).insert(
                    "instance_id"@,
                    Tree::Text(instance_id),
                ).insert("console_url"@, Tree::Text(console_url)).insert(
                    "values"@,
                    Tree::Object(Map::empty().insert("auth_source"@, Tree::Text("ecs_ram_role"@))),
                ),
            ),
        ),
        Ok(None) => succeeded(
            request_id,
            Tree::Object(Map::empty().insert("mode"@, Tree::Text("manual"@))),
        ),
        Err(error) => coded(request_id, error.code_text(), error.message_text()),
    }
}

/// The answer to a prepare request.
pub fn ecs_prepare_response(request_id: &str, result: Result<Option<EcsAuthChallenge>, ProbeError>) -> (res: RegistryResponse)
    ensures
        res@ == prepare_answer(request_id@, challenge_view(result)),
{
    match result {
        Ok(Some(challenge)) => {
            let mut values = json_object();
            put_text(&mut values, "auth_source", "ecs_ram_role");
            let mut data = json_object();
            put_text(&mut data, "mode", "ecs_ram_role");
            put_text(&mut data, "instance_id", challenge.instance_id.as_str());
            put_text(&mut data, "console_url", challenge.console_url.as_str());
            json_put(&mut data, "values", values);
            success(request_id, data)
        },
        Ok(None) => {
            let mut data = json_object();
            put_text(&mut data, "mode", "manual");
            success(request_id, data)
        },
        Err(error) => ecs_probe_response(request_id, Err(error)),
    }
}

/// A masked secret: one or more bullets and nothing else.
pub open spec fn masked(value: Seq<char>) -> bool {
    value.len() > 0 && forall|i: int| 0 <= i < value.len() ==> #[trigger] value[i] == '\u{2022}'
}

/// `values` with a masked secret replaced by the stored one.
pub open spec fn unmasked(
    values: Map<Seq<char>, Seq<char>>,
    key: Seq<char>,
    existing: Option<Seq<char>>,
) -> Map<Seq<char>, Seq<char>> {
    if values.contains_key(key) && masked(values[key]) && existing is Some {
        values.insert(key, existing->0)
    } else {
        values
    }
}

fn is_masked(value: &str) -> (res: bool)
    ensures
        res == masked(value@),
{
    let chars = chars_of(value);
    if chars.len() == 0 {
        return false;
    }
    let mut i: usize = 0;
    while i < chars.len()
        invariant
            chars@ == value@,
            i <= chars@.len(),
            forall|j: int| 0 <= j < i ==> #[trigger] value@[j] == '\u{2022}',
        decreases chars@.len() - i,
    {
        if chars[i] != '\u{2022}' {
            assert(value@[i as int] != '\u{2022}');
            return false;
        }
        i = i + 1;
    }
    true
}

/// Puts the stored secret back where the form only shows its mask.
pub fn preserve_masked_secret(values: &mut Values, key: &str, existing: Option<&str>)
    requires
        old(values).wf(),
    ensures
        final(values).wf(),
        final(values)@ == unmasked(
            old(values)@,
            key@,
            match existing {
                Some(s) => Some(s@),
                None => None,
            },
        ),
{
    let hidden: bool = match values.get(key) {
        Some(value) => is_masked(value.as_str()),
        None => false,
    };
    if hidden {
        if let Some(secret) = existing {
            values.insert(key, secret);
        }
    }
}

/// A configured provider.
#[derive(Clone, Debug)]
pub struct ProviderConfig {
    pub provider_type: String,
    pub auth_source: Option<String>,
    pub model: Option<String>,
    pub base_url: Option<String>,
    pub api_key: Option<String>,
    pub access_key_id: Option<String>,
    pub access_key_secret: Option<String>,
    pub security_token: Option<String>,
}

/// One layer of the provider configuration.
#[derive(Clone, Debug)]
pub struct AiConfig {
    pub active_provider: Option<String>,
    pub active_model: Option<String>,
    pub providers: Vec<(String, ProviderConfig)>,
}

/// The effective configuration and the layers that it is made of.
#[derive(Clone, Debug)]
pub struct CoreConfig {
    pub ai: AiConfig,
    pub user_ai: AiConfig,
    pub system_ai: AiConfig,
}

/// The position of the provider `id`, from `start` on.
pub open spec fn provider_from(providers: Seq<(String, ProviderConfig)>, id: Seq<char>, start: int) -> Option<int>
    decreases providers.len() - start,
{
    if start < 0 || start >= providers.len() {
        None
    } else if providers[start].0@ == id {
        Some(start)
    } else {
        provider_from(providers, id, start + 1)
    }
}

impl AiConfig {
    /// The position of the provider `id`.
    pub open spec fn place(&self, id: Seq<char>) -> Option<int> {
        provider_from(self.providers@, id, 0)
    }

    fn position(&self, id: &str) -> (res: Option<usize>)
        ensures
            match res {
                Some(i) => self.place(id@) == Some(i as int) && i < self.providers@.len()
                    && self.providers@[i as int].0@ == id@,
                None => self.place(id@) is None,
            },
    {
        let total: usize = self.providers.len();
        let mut i: usize = 0;
        while i < total
            invariant
                total == self.providers@.len(),
                i <= total,
                self.place(id@) == provider_from(self.providers@, id@, i as int),
            decreases total - i,
        {
            if same(self.providers[i].0.as_str(), id) {
                return Some(i);
            }
            i = i + 1;
        }
        None
    }
}

/// Where a provider comes from.
pub open spec fn source_of(config: CoreConfig, id: Seq<char>) -> Seq<char> {
    if config.user_ai.place(id) is Some {
        "user"@
    } else if config.system_ai.place(id) is Some {
        "system"@
    } else {
        "runtime"@
    }
}

/// The length of an optional secret.
pub open spec fn secret_len(secret: Option<String>) -> int {
    match secret {
        Some(s) => s@.len() as int,
        None => 0,
    }
}

/// Whether an optional secret is there.
pub open spec fn has_secret(secret: Option<String>) -> bool {
    secret is Some && secret->0@.len() > 0
}

/// A configured provider as the state lists it: lengths of secrets, never the
/// secrets themselves.
pub open spec fn saved_tree(config: CoreConfig, index: int) -> Tree {
    let id = config.ai.providers@[index].0@;
    let p = config.ai.providers@[index].1;
    let source = source_of(config, id);
    Tree::Object(
        Map::empty().insert("provider_id"@, Tree::Text(id)).insert(
            "provider_type"@,
            Tree::Text(p.provider_type@),
        ).insert("source"@, Tree::Text(source)).insert(
            "editable"@,
            Tree::Bool(config.user_ai.place(id) is Some),
        ).insert("auth_source"@, opt_tree(opt_view(p.auth_source))).insert(
            "model"@,
            opt_tree(opt_view(p.model)),
        ).insert("base_url"@, opt_tree(opt_view(p.base_url))).insert(
            "api_key_len"@,
            Tree::Int(secret_len(p.api_key)),
        ).insert("access_key_id_len"@, Tree::Int(secret_len(p.access_key_id))).insert(
            "access_key_secret_len"@,
            Tree::Int(secret_len(p.access_key_secret)),
        ).insert("security_token_len"@, Tree::Int(secret_len(p.security_token))).insert(
            "active"@,
            Tree::Bool(config.ai.active_provider is Some && config.ai.active_provider->0@ == id),
        ).insert("has_api_key"@, Tree::Bool(has_secret(p.api_key))).insert(
            "has_access_key_id"@,
            Tree::Bool(has_secret(p.access_key_id)),
        ).insert("has_access_key_secret"@, Tree::Bool(has_secret(p.access_key_secret))),
    )
}

fn length_of(secret: &Option<String>) -> (res: u64)
    ensures
        res == secret_len(*secret),
{
    match secret {
        Some(s) => {
            let n: usize = s.as_str().unicode_len();
            n as u64
        },
        None => 0,
    }
}

fn present(secret: &Option<String>) -> (res: bool)
    ensures
        res == has_secret(*secret),
{
    match secret {
        Some(s) => !s.as_str().is_empty(),
        None => false,
    }
}

fn saved_provider(config: &CoreConfig, index: usize) -> (res: serde_json::Value)
    requires
        index < config.ai.providers@.len(),
    ensures
        json_tree(res) == saved_tree(*config, index as int),
{
    let id: &str = config.ai.providers[index].0.as_str();
    let p: &ProviderConfig = &config.ai.providers[index].1;
    let in_user: bool = config.user_ai.position(id).is_some();
    let source: &str = if in_user {
        "user"
    } else if config.system_ai.position(id).is_some() {
        "system"
    } else {
        "runtime"
    };
    let active: bool = match &config.ai.active_provider {
        Some(a) => same(a.as_str(), id),
        None => false,
    };
    let mut out = json_object();
    put_text(&mut out, "provider_id", id);
    put_text(&mut out, "provider_type", p.provider_type.as_str());
    put_text(&mut out, "source", source);
    json_put(&mut out, "editable", json_bool(in_user));
    json_put(&mut out, "auth_source", json_opt(&p.auth_source));
    json_put(&mut out, "model", json_opt(&p.model));
    json_put(&mut out, "base_url", json_opt(&p.base_url));
    json_put(&mut out, "api_key_len", json_u64(length_of(&p.api_key)));
    json_put(&mut out, "access_key_id_len", json_u64(length_of(&p.access_key_id)));
    json_put(&mut out, "access_key_secret_len", json_u64(length_of(&p.access_key_secret)));
    json_put(&mut out, "security_token_len", json_u64(length_of(&p.security_token)));
    json_put(&mut out, "active", json_bool(active));
    json_put(&mut out, "has_api_key", json_bool(present(&p.api_key)));
    json_put(&mut out, "has_access_key_id", json_bool(present(&p.access_key_id)));
    json_put(&mut out, "has_access_key_secret", json_bool(present(&p.access_key_secret)));
    out
}

/// A provider template; its fields are a document of their own.
pub struct ProviderTemplate {
    pub id: String,
    pub label: String,
    pub description: Option<String>,
    pub description_zh_cn: Option<String>,
    pub fields: serde_json::Value,
    pub builtin_base_url: Option<String>,
    pub builtin_default_model: Option<String>,
}

/// A template as the state lists it.
pub open spec fn template_tree(t: ProviderTemplate) -> Tree {
    Tree::Object(
        Map::empty().insert("id"@, Tree::Text(t.id@)).insert("provider_type"@, Tree::Text(t.id@)).insert(
            "label"@,
            Tree::Text(t.label@),
        ).insert("description"@, opt_tree(opt_view(t.description))).insert(
            "description_zh_cn"@,
            opt_tree(opt_view(t.description_zh_cn)),
        ).insert("fields"@, json_tree(t.fields)).insert(
            "builtin_base_url"@,
            opt_tree(opt_view(t.builtin_base_url)),
        ).insert("builtin_default_model"@, opt_tree(opt_view(t.builtin_default_model))),
    )
}

fn listed_template(t: &ProviderTemplate) -> (res: serde_json::Value)
    ensures
        json_tree(res) == template_tree(*t),
{
    let mut out = json_object();
    put_text(&mut out, "id", t.id.as_str());
    put_text(&mut out, "provider_type", t.id.as_str());
    put_text(&mut out, "label", t.label.as_str());
    json_put(&mut out, "description", json_opt(&t.description));
    json_put(&mut out, "description_zh_cn", json_opt(&t.description_zh_cn));
    json_put(&mut out, "fields", json_copy(&t.fields));
    json_put(&mut out, "builtin_base_url", json_opt(&t.builtin_base_url));
    json_put(&mut out, "builtin_default_model", json_opt(&t.builtin_default_model));
    out
}

/// The state of the provider configuration.
pub open spec fn state_tree(templates: Seq<ProviderTemplate>, config: CoreConfig, auth_required: bool) -> Tree {
    Tree::Object(
        Map::empty().insert(
            "templates"@,
            Tree::List(Seq::new(templates.len(), |i: int| template_tree(templates[i]))),
        ).insert(
            "saved_providers"@,
            Tree::List(Seq::new(config.ai.providers@.len(), |i: int| saved_tree(config, i))),
        ).insert("active_provider"@, opt_tree(opt_view(config.ai.active_provider))).insert(
            "effective_auth_required"@,
            Tree::Bool(auth_required),
        ),
    )
}

fn state_data(templates: &Vec<ProviderTemplate>, config: &CoreConfig, auth_required: bool) -> (res: serde_json::Value)
    ensures
        json_tree(res) == state_tree(templates@, *config, auth_required),
{
    let mut listed: Vec<serde_json::Value> = Vec::new();
    let mut i: usize = 0;
    while i < templates.len()
        invariant
            i <= templates@.len(),
            listed@.len() == i,
            forall|j: int| 0 <= j < i ==> json_tree(#[trigger] listed@[j]) == template_tree(templates@[j]),
        decreases templates@.len() - i,
    {
        listed.push(listed_template(&templates[i]));
        i = i + 1;
    }
    let mut saved: Vec<serde_json::Value> = Vec::new();
    let mut k: usize = 0;
    while k < config.ai.providers.len()
        invariant
            k <= config.ai.providers@.len(),
            saved@.len() == k,
            forall|j: int| 0 <= j < k ==> json_tree(#[trigger] saved@[j]) == saved_tree(*config, j),
        decreases config.ai.providers@.len() - k,
    {
        saved.push(saved_provider(config, k));
        k = k + 1;
    }
    proof {
        assert(Seq::new(listed@.len(), |j: int| json_tree(listed@[j])) =~= Seq::new(
            templates@.len(),
            |j: int| template_tree(templates@[j]),
        ));
        assert(Seq::new(saved@.len(), |j: int| json_tree(saved@[j])) =~= Seq::new(
            config.ai.providers@.len(),
            |j: int| saved_tree(*config, j),
        ));
    }
    let mut out = json_object();
    json_put(&mut out, "templates", json_list(listed));
    json_put(&mut out, "saved_providers", json_list(saved));
    json_put(&mut out, "active_provider", json_opt(&config.ai.active_provider));
    json_put(&mut out, "effective_auth_required", json_bool(auth_required));
    out
}

/// What a registry command asks for.
pub enum AuthCommand {
    /// Answer right away.
    Answer(RegistryResponse),
    /// Make this provider the active one, with this model, and persist that.
    Activate(String, Option<String>),
    /// Remove this provider and persist that.
    Delete(String),
    /// Ask whether the instance can use its RAM role.
    Prepare,
    /// Ask whether the RAM role is ready.
    Verify,
    /// Store these values for this provider and persist that.
    Configure(String, String, Values),
}

/// What an [`AuthCommand`] says.
pub enum CommandView {
    Answer(ResponseView),
    Activate(Seq<char>, Option<Seq<char>>),
    Delete(Seq<char>),
    Prepare,
    Verify,
    Configure(Seq<char>, Seq<char>, Map<Seq<char>, Seq<char>>),
}

impl View for AuthCommand {
    type V = CommandView;

    open spec fn view(&self) -> CommandView {
        match self {
            AuthCommand::Answer(r) => CommandView::Answer(r@),
            AuthCommand::Activate(id, model) => CommandView::Activate(id@, opt_view(*model)),
            AuthCommand::Delete(id) => CommandView::Delete(id@),
            AuthCommand::Prepare => CommandView::Prepare,
            AuthCommand::Verify => CommandView::Verify,
            AuthCommand::Configure(id, kind, values) => CommandView::Configure(id@, kind@, values@),
        }
    }
}

/// A text parameter; a missing one counts as empty.
pub open spec fn param(params: Tree, key: Seq<char>) -> Seq<char> {
    match params.text_at(key) {
        Some(s) => s,
        None => Seq::empty(),
    }
}

fn read_param(params: &serde_json::Value, key: &str) -> (res: String)
    ensures
        res@ == param(json_tree(*params), key@),
{
    match text_at(params, key) {
        Some(s) => s,
        None => String::new(),
    }
}

/// The values to store: the texts among the given ones, with the secrets that
/// the form only masked.
pub open spec fn stored_values(params: Tree, existing: Option<ProviderConfig>) -> Map<Seq<char>, Seq<char>> {
    let given = match params.member("values"@) {
        Some(v) => text_members(v),
        None => Map::empty(),
    };
    match existing {
        Some(p) => unmasked(
            unmasked(
                unmasked(
                    unmasked(given, "api_key"@, opt_view(p.api_key)),
                    "access_key_id"@,
                    opt_view(p.access_key_id),
                ),
                "access_key_secret"@,
                opt_view(p.access_key_secret),
            ),
            "security_token"@,
            opt_view(p.security_token),
        ),
        None => given,
    }
}

/// The provider `id` of a layer.
pub open spec fn provider_in(ai: AiConfig, id: Seq<char>) -> Option<ProviderConfig> {
    match ai.place(id) {
        Some(i) => Some(ai.providers@[i].1),
        None => None,
    }
}

/// What a registry command asks for.
pub open spec fn command_for(
    request_id: Seq<char>,
    action: Seq<char>,
    params: Tree,
    config: CoreConfig,
    templates: Seq<ProviderTemplate>,
    auth_required: bool,
) -> CommandView {
    let id = param(params, "provider_id"@);
    let kind = param(params, "provider_type"@);
    if action == "state"@ {
        CommandView::Answer(succeeded(request_id, state_tree(templates, config, auth_required)))
    } else if action == "activate"@ {
        if id.len() == 0 || config.ai.place(id) is None {
            CommandView::Answer(refused(request_id, "provider not found"@))
        } else {
            CommandView::Activate(id, opt_view(provider_in(config.ai, id)->0.model))
        }
    } else if action == "delete"@ {
        if id.len() == 0 {
            CommandView::Answer(refused(request_id, "missing provider_id"@))
        } else {
            CommandView::Delete(id)
        }
    } else if action == "prepare"@ {
        if kind.len() == 0 {
            CommandView::Answer(refused(request_id, "missing provider_type"@))
        } else if kind == "aliyun"@ {
            CommandView::Prepare
        } else {
            CommandView::Answer(prepare_answer(request_id, Ok(None)))
        }
    } else if action == "verify"@ {
        if kind == "aliyun"@ && param(params, "auth_source"@) == "ecs_ram_role"@ {
            CommandView::Verify
        } else {
            CommandView::Answer(
                succeeded(request_id, Tree::Object(Map::empty().insert("authorized"@, Tree::Bool(true)))),
            )
        }
    } else if action == "configure"@ {
        if id.len() == 0 || kind.len() == 0 {
            CommandView::Answer(refused(request_id, "missing provider_id or provider_type"@))
        } else if config.ai.place(id) is Some && config.user_ai.place(id) is None {
            CommandView::Answer(refused(request_id, "provider is not editable"@))
        } else {
            CommandView::Configure(id, kind, stored_values(params, provider_in(config.ai, id)))
        }
    } else {
        CommandView::Answer(refused(request_id, "unsupported action for auth: "@ + action))
    }
}

fn values_to_store(params: &serde_json::Value, existing: Option<&ProviderConfig>) -> (res: Values)
    ensures
        res.wf(),
        res@ == stored_values(
            json_tree(*params),
            match existing {
                Some(p) => Some(*p),
                None => None,
            },
        ),
{
    let mut values: Values = match crate::tree::json_get(params, "values") {
        Some(object) => texts_in(object),
        None => Values::new(),
    };
    if let Some(p) = existing {
        preserve_masked_secret(&mut values, "api_key", as_text(&p.api_key));
        preserve_masked_secret(&mut values, "access_key_id", as_text(&p.access_key_id));
        preserve_masked_secret(&mut values, "access_key_secret", as_text(&p.access_key_secret));
        preserve_masked_secret(&mut values, "security_token", as_text(&p.security_token));
    }
    values
}

fn as_text(text: &Option<String>) -> (res: Option<&str>)
    ensures
        match res {
            Some(s) => opt_view(*text) == Some(s@),
            None => opt_view(*text) is None,
        },
{
    match text {
        Some(s) => Some(s.as_str()),
        None => None,
    }
}

/// Decides what a registry command asks for.
pub fn handle_auth(
    request_id: &str,
    action: &str,
    params: &serde_json::Value,
    config: &CoreConfig,
    templates: &Vec<ProviderTemplate>,
    auth_required: bool,
) -> (res: AuthCommand)
    ensures
        res@ == command_for(
            request_id@,
            action@,
            json_tree(*params),
            *config,
            templates@,
            auth_required,
        ),
        res matches AuthCommand::Configure(_, _, values) ==> values.wf(),
{
    let id: String = read_param(params, "provider_id");
    let kind: String = read_param(params, "provider_type");
    if same(action, "state") {
        let data = state_data(templates, config, auth_required);
        AuthCommand::Answer(success(request_id, data))
    } else if same(action, "activate") {
        match config.ai.position(id.as_str()) {
            Some(i) => {
                if id.as_str().is_empty() {
                    AuthCommand::Answer(registry_error(request_id, "provider not found"))
                } else {
                    let model: Option<String> = config.ai.providers[i].1.model.clone();
                    AuthCommand::Activate(id, model)
                }
            },
            None => AuthCommand::Answer(registry_error(request_id, "provider not found")),
        }
    } else if same(action, "delete") {
        if id.as_str().is_empty() {
            AuthCommand::Answer(registry_error(request_id, "missing provider_id"))
        } else {
            AuthCommand::Delete(id)
        }
    } else if same(action, "prepare") {
        if kind.as_str().is_empty() {
            AuthCommand::Answer(registry_error(request_id, "missing provider_type"))
        } else if same(kind.as_str(), "aliyun") {
            AuthCommand::Prepare
        } else {
            AuthCommand::Answer(ecs_prepare_response(request_id, Ok(None)))
        }
    } else if same(action, "verify") {
        let source: String = read_param(params, "auth_source");
        if same(kind.as_str(), "aliyun") && same(source.as_str(), "ecs_ram_role") {
            AuthCommand::Verify
        } else {
            let mut data = json_object();
            json_put(&mut data, "authorized", json_bool(true));
            AuthCommand::Answer(success(request_id, data))
        }
    } else if same(action, "configure") {
        if id.as_str().is_empty() || kind.as_str().is_empty() {
            return AuthCommand::Answer(
                registry_error(request_id, "missing provider_id or provider_type"),
            );
        }
        let place = config.ai.position(id.as_str());
        if place.is_some() && config.user_ai.position(id.as_str()).is_none() {
            return AuthCommand::Answer(registry_error(request_id, "provider is not editable"));
        }
        let existing: Option<&ProviderConfig> = match place {
            Some(i) => Some(&config.ai.providers[i].1),
            None => None,
        };
        let values = values_to_store(params, existing);
        AuthCommand::Configure(id, kind, values)
    } else {
        let message = "unsupported action for auth: ".to_owned().concat(action);
        AuthCommand::Answer(registry_error(request_id, message.as_str()))
    }
}

/// The configuration after an attempt to persist the next one: a failure leaves
/// it as it was.
pub open spec fn settled(old_config: CoreConfig, next: CoreConfig, failure: Option<Seq<char>>) -> CoreConfig {
    if failure is Some {
        old_config
    } else {
        next
    }
}

/// The configuration after an attempt to persist the next one.
pub fn settle(old_config: CoreConfig, next: CoreConfig, failure: Option<&str>) -> (res: CoreConfig)
    ensures
        res == settled(
            old_config,
            next,
            match failure {
                Some(e) => Some(e@),
                None => None,
            },
        ),
{
    if failure.is_some() {
        old_config
    } else {
        next
    }
}

/// The answer once the configuration was persisted, or could not be.
pub open spec fn persisted_answer(
    request_id: Seq<char>,
    failure: Option<Seq<char>>,
    data: Tree,
) -> ResponseView {
    match failure {
        Some(error) => refused(request_id, "failed to persist config: "@ + error),
        None => succeeded(request_id, data),
    }
}

fn persisted(request_id: &str, failure: Option<&str>, data: serde_json::Value) -> (res: RegistryResponse)
    ensures
        res@ == persisted_answer(
            request_id@,
            match failure {
                Some(e) => Some(e@),
                None => None,
            },
            json_tree(data),
        ),
{
    match failure {
        Some(error) => {
            let message = "failed to persist config: ".to_owned().concat(error);
            registry_error(request_id, message.as_str())
        },
        None => success(request_id, data),
    }
}

/// The configuration with `id` as its active provider.
pub fn activate(config: CoreConfig, id: &str, model: Option<String>) -> (res: CoreConfig)
    ensures
        opt_view(res.ai.active_provider) == Some(id@),
        opt_view(res.user_ai.active_provider) == Some(id@),
        opt_view(res.ai.active_model) == opt_view(model),
        opt_view(res.user_ai.active_model) == opt_view(model),
        res.ai.providers == config.ai.providers,
        res.user_ai.providers == config.user_ai.providers,
        res.system_ai == config.system_ai,
{
    let mut next = config;
    next.ai.active_provider = Some(id.to_owned());
    next.user_ai.active_provider = Some(id.to_owned());
    next.ai.active_model = model.clone();
    next.user_ai.active_model = model;
    next
}

/// The answer to an activate command once its configuration was persisted.
pub fn activated(request_id: &str, id: &str, failure: Option<&str>) -> (res: RegistryResponse)
    ensures
        res@ == persisted_answer(
            request_id@,
            match failure {
                Some(e) => Some(e@),
                None => None,
            },
            Tree::Object(Map::empty().insert("active_provider"@, Tree::Text(id@))),
        ),
{
    let mut data = json_object();
    put_text(&mut data, "active_provider", id);
    persisted(request_id, failure, data)
}

/// The answer to a delete command once its configuration was persisted.
pub fn deleted(request_id: &str, id: &str, active: &Option<String>, failure: Option<&str>) -> (res: RegistryResponse)
    ensures
        res@ == persisted_answer(
            request_id@,
            match failure {
                Some(e) => Some(e@),
                None => None,
            },
            Tree::Object(
                Map::empty().insert("deleted_provider"@, Tree::Text(id@)).insert(
                    "active_provider"@,
                    opt_tree(opt_view(*active)),
                ),
            ),
        ),
{
    let mut data = json_object();
    put_text(&mut data, "deleted_provider", id);
    json_put(&mut data, "active_provider", json_opt(active));
    persisted(request_id, failure, data)
}

/// The answer to a configure command that was carried out.
pub fn configured(request_id: &str, id: &str) -> (res: RegistryResponse)
    ensures
        res@ == succeeded(
            request_id@,
            Tree::Object(Map::empty().insert("provider_id"@, Tree::Text(id@))),
        ),
{
    let mut data = json_object();
    put_text(&mut data, "provider_id", id);
    success(request_id, data)
}

/// Ends an activate command: the configuration from then on, and the answer.
pub fn finish_activate(
    request_id: &str,
    id: &str,
    old_config: CoreConfig,
    next: CoreConfig,
    failure: Option<&str>,
) -> (res: (CoreConfig, RegistryResponse))
    ensures
        ({
            let failed = match failure {
                Some(e) => Some(e@),
                None => None,
            };
            let data = Tree::Object(Map::empty().insert("active_provider"@, Tree::Text(id@)));
            &&& res.0 == settled(old_config, next, failed)
            &&& res.1@ == persisted_answer(request_id@, failed, data)
        }),
        !res.1.success ==> res.0 == old_config,
{
    let answer = activated(request_id, id, failure);
    (settle(old_config, next, failure), answer)
}

/// How the removal of a provider went.
pub enum Removal {
    /// It could not be taken out, and why.
    Refused(String),
    /// It was taken out; this is the configuration without it, and the provider
    /// that is active then.
    Removed(CoreConfig, Option<String>),
}

/// Ends a delete command, given how the removal went and why the configuration
/// without the provider could not be persisted, if so: the configuration from
/// then on, and the answer.
pub fn finish_delete(
    request_id: &str,
    id: &str,
    old_config: CoreConfig,
    removal: Removal,
    failure: Option<&str>,
) -> (res: (CoreConfig, RegistryResponse))
    ensures
        match removal {
            Removal::Refused(message) => res.0 == old_config && res.1@ == refused(
                request_id@,
                message@,
            ),
            Removal::Removed(next, active) => {
                let failed = match failure {
                    Some(e) => Some(e@),
                    None => None,
                };
                let data = Tree::Object(
                    Map::empty().insert("deleted_provider"@, Tree::Text(id@)).insert(
                        "active_provider"@,
                        opt_tree(opt_view(active)),
                    ),
                );
                &&& res.0 == settled(old_config, next, failed)
                &&& res.1@ == persisted_answer(request_id@, failed, data)
            },
        },
        !res.1.success ==> res.0 == old_config,
{
    match removal {
        Removal::Refused(message) => (old_config, registry_error(request_id, message.as_str())),
        Removal::Removed(next, active) => {
            let answer = deleted(request_id, id, &active, failure);
            (settle(old_config, next, failure), answer)
        },
    }
}

/// Why a configure command was not carried out.
pub struct ConfigureFailure {
    pub code: String,
    pub message: String,
}

/// Ends a configure command, given the configuration that was persisted or why
/// none was: the configuration from then on, and the answer.
pub fn finish_configure(
    request_id: &str,
    id: &str,
    old_config: CoreConfig,
    candidate: Result<CoreConfig, ConfigureFailure>,
) -> (res: (CoreConfig, RegistryResponse))
    ensures
        match candidate {
            Ok(next) => res.0 == next && res.1@ == succeeded(
                request_id@,
                Tree::Object(Map::empty().insert("provider_id"@, Tree::Text(id@))),
            ),
            Err(e) => res.0 == old_config && res.1@ == coded(request_id@, e.code@, e.message@),
        },
        !res.1.success ==> res.0 == old_config,
{
    match candidate {
        Ok(next) => (next, configured(request_id, id)),
        Err(e) => (
            old_config,
            auth_registry_error(request_id, e.code.as_str(), e.message.as_str()),
        ),
    }
}

/// A command whose configuration could not be persisted fails, and one that fails
/// leaves the configuration as it was.
pub proof fn failed_commands_change_nothing(
    request_id: Seq<char>,
    old_config: CoreConfig,
    next: CoreConfig,
    failure: Option<Seq<char>>,
    data: Tree,
)
    ensures
        persisted_answer(request_id, failure, data).success == (failure is None),
        !persisted_answer(request_id, failure, data).success ==> settled(old_config, next, failure)
            == old_config,
{
}

/// Asking for the state, preparing and verifying never ask for a change.
pub proof fn questions_ask_for_no_change(
    request_id: Seq<char>,
    action: Seq<char>,
    params: Tree,
    config: CoreConfig,
    templates: Seq<ProviderTemplate>,
    auth_required: bool,
)
    requires
        action == "state"@ || action == "prepare"@ || action == "verify"@,
    ensures
        ({
            let command = command_for(request_id, action, params, config, templates, auth_required);
            command is Answer || command is Prepare || command is Verify
        }),
{
    reveal_strlit("state");
    reveal_strlit("prepare");
    reveal_strlit("verify");
    reveal_strlit("activate");
    reveal_strlit("delete");
    reveal_strlit("configure");
    assert("state"@[0] == 's' && "prepare"@[0] == 'p' && "verify"@[0] == 'v');
    assert("activate"@[0] == 'a' && "delete"@[0] == 'd' && "configure"@[0] == 'c');
}

/// Any other action is refused by its name, and every answer names its request.
pub proof fn unknown_actions_are_refused(
    request_id: Seq<char>,
    action: Seq<char>,
    params: Tree,
    config: CoreConfig,
    templates: Seq<ProviderTemplate>,
    auth_required: bool,
)
    ensures
        ({
            let command = command_for(request_id, action, params, config, templates, auth_required);
            &&& command matches CommandView::Answer(answer) ==> answer.request_id == request_id
            &&& action != "state"@ && action != "activate"@ && action != "delete"@ && action
                != "prepare"@ && action != "verify"@ && action != "configure"@ ==> command
                == CommandView::Answer(
                refused(request_id, "unsupported action for auth: "@ + action),
            )
        }),
{
}

/// A failed prepare is reported as that failure, never as manual credentials.
pub proof fn failures_are_not_manual(request_id: Seq<char>, error: ProbeError)
    ensures
        !prepare_answer(request_id, Err(error)).success,
        prepare_answer(request_id, Err(error)) == probe_answer(request_id, Err(error)),
{
}

/// The stored secret of a field of the form.
pub open spec fn stored_secret(existing: ProviderConfig, key: Seq<char>) -> Option<Seq<char>> {
    if key == "api_key"@ {
        opt_view(existing.api_key)
    } else if key == "access_key_id"@ {
        opt_view(existing.access_key_id)
    } else if key == "access_key_secret"@ {
        opt_view(existing.access_key_secret)
    } else if key == "security_token"@ {
        opt_view(existing.security_token)
    } else {
        None
    }
}

/// A secret that the form only masked is stored as it was.
pub proof fn masked_secrets_are_kept(params: Tree, existing: ProviderConfig, key: Seq<char>)
    requires
        params.member("values"@) matches Some(v) && v.text_at(key) matches Some(s) && masked(s),
        stored_secret(existing, key) is Some,
    ensures
        stored_values(params, Some(existing)).contains_key(key),
        Some(stored_values(params, Some(existing))[key]) == stored_secret(existing, key),
{
    reveal_strlit("api_key");
    reveal_strlit("access_key_id");
    reveal_strlit("access_key_secret");
    reveal_strlit("security_token");
    assert("api_key"@.len() == 7);
    assert("access_key_id"@.len() == 13);
    assert("access_key_secret"@.len() == 17);
    assert("security_token"@.len() == 14);
}

/// What the user typed in is stored as typed.
pub proof fn typed_values_are_stored(params: Tree, existing: Option<ProviderConfig>, key: Seq<char>)
    requires
        params.member("values"@) matches Some(v) && v.text_at(key) matches Some(s) && !masked(s),
    ensures
        stored_values(params, existing).contains_key(key),
        Some(stored_values(params, existing)[key]) == params.member("values"@)->0.text_at(key),
{
}

} // verus!
