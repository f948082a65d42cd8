//! What holds of the credential form, of the registry commands behind it and of
//! the check that a child process runs.

use vstd::prelude::*;

use crate::auth::ecs_probe::{
    all_blank, arguments_for, exchange_begun, exchanged, failure_message, late, next_line,
    probe_document, read_outcome, reaping, response_in, response_result, slice_of, ExchangeView, ProbeActionView, ProbeNews,
    ProbeStage, Reaper, SetupFailure, Transfer, WaitOutcome, MAX_RESPONSE_BYTES, PROBE_TIMEOUT,
};
use crate::auth::form::{template_from, AuthBackend, AuthView, FieldView, PhaseView, ProviderView, SysomView};
use crate::auth::navigation::{
    answer_applied, entry_at, going_forward_skips_fixed_fields, named_from, picked, restored, stepped_back,
    submitted, without_secrets, AnswerOutcome, AuthManagementEntry, FieldSubmission,
};
use crate::auth::registry::{
    command_for, masked, persisted_answer, prepare_answer, probe_answer, provider_from, saved_tree,
    settled, source_of, state_tree, stored_values, template_tree, unmasked, AiConfig, CommandView,
    CoreConfig, ProviderConfig, ProviderTemplate,
};
use crate::ecs_metadata::{CredentialStatus, NotReadyReason, ProbeError};
use crate::login_shell::table::{first_of, is_blank, lemma_first_of, lemma_first_of_is};
use crate::text::opt_view;
use crate::tree::{json_read_bytes, Tree};

verus! {

/// Every field can be edited but the identifier of a provider whose identity is
/// settled.
pub proof fn only_settled_identities_are_fixed(auth: AuthView, index: int)
    requires
        0 <= index < auth.provider().fields.len(),
    ensures
        !auth.editable(index) <==> auth.provider().fields[index].name == "provider_id"@ && (
        auth.default_provider_id || auth.editing_provider_name is Some),
{
}

/// No field that can be edited is skipped on the way forward or back.
pub proof fn no_editable_field_is_skipped(auth: AuthView, at: int, between: int)
    requires
        0 <= at <= auth.provider().fields.len(),
    ensures
        at <= between < auth.editable_from(at) ==> !auth.editable(between),
        auth.editable_before(at) matches Some(i) ==> 0 <= i < at && auth.editable(i) && (i < between
            < at ==> !auth.editable(between)),
        auth.editable_before(at) is None && 0 <= between < at ==> !auth.editable(between),
{
    lemma_forward(auth, at, between);
    lemma_back(auth, at, between);
}

proof fn lemma_forward(auth: AuthView, at: int, between: int)
    requires
        0 <= at,
    ensures
        at <= between < auth.editable_from(at) ==> !auth.editable(between),
    decreases auth.provider().fields.len() - at,
{
    if at < auth.provider().fields.len() && !auth.editable(at) {
        lemma_forward(auth, at + 1, between);
    }
}

proof fn lemma_back(auth: AuthView, at: int, between: int)
    requires
        at <= auth.provider().fields.len(),
    ensures
        auth.editable_before(at) matches Some(i) ==> 0 <= i < at && auth.editable(i) && (i < between
            < at ==> !auth.editable(between)),
        auth.editable_before(at) is None && 0 <= between < at ==> !auth.editable(between),
    decreases at,
{
    if at > 0 && !auth.editable(at - 1) {
        lemma_back(auth, at - 1, between);
    }
}

/// Visiting a field shows what was entered there before, unless it is secret.
pub proof fn visited_fields_show_their_value(auth: AuthView)
    requires
        0 <= auth.current_field < auth.provider().fields.len(),
    ensures
        ({
            let field = auth.provider().fields[auth.current_field];
            let known = auth.collected_values.contains_key(field.name);
            &&& field.secret ==> auth.loaded().field_input.len() == 0
            &&& !field.secret && known ==> auth.loaded().field_input
                == auth.collected_values[field.name]
            &&& !known ==> auth.loaded().field_input.len() == 0
            &&& auth.loaded().collected_values == auth.collected_values
            &&& auth.loaded().current_field == auth.current_field
        }),
{
}

/// A value that is entered is stored under the name of its field and nowhere else;
/// an identifier that is in use is refused, and then nothing is stored.
pub proof fn entered_values_are_stored(auth: AuthView, field: FieldView, value: Seq<char>, other: Seq<char>)
    ensures
        ({
            let (after, result) = submitted(auth, Some(field), value);
            let taken = field.name == "provider_id"@ && auth.name_taken(value);
            &&& result == FieldSubmission::Rejected <==> taken
            &&& taken ==> after.collected_values == auth.collected_values && after.field_error is Some
            &&& !taken ==> after.collected_values.contains_key(field.name)
                && after.collected_values[field.name] == value && after.field_error is None
            &&& other != field.name ==> after.collected_values.contains_key(other)
                == auth.collected_values.contains_key(other)
            &&& other != field.name && auth.collected_values.contains_key(other)
                ==> after.collected_values[other] == auth.collected_values[other]
            &&& after.current_field == auth.current_field && after.phase == auth.phase
        }),
{
}

/// An answer fills in the field on screen and leads to the next one that can be
/// edited; behind the last one the form is submitted.
pub proof fn answers_fill_in_field_by_field(auth: AuthView, value: Seq<char>)
    requires
        auth.phase is FillingField,
        0 <= auth.current_field < auth.provider().fields.len(),
    ensures
        ({
            let (after, outcome) = answer_applied(auth, value);
            let field = auth.provider().fields[auth.current_field];
            let taken = field.name == "provider_id"@ && auth.name_taken(value);
            &&& outcome == AnswerOutcome::Rejected <==> taken
            &&& taken ==> after.current_field == auth.current_field && after.collected_values
                == auth.collected_values
            &&& !taken ==> {
                &&& after.collected_values == auth.collected_values.insert(field.name, value)
                &&& after.current_field > auth.current_field
                &&& after.current_field <= auth.provider().fields.len()
                &&& outcome == AnswerOutcome::Submit <==> after.current_field
                    == auth.provider().fields.len()
                &&& after.phase is FillingField
                &&& forall|k: int|
                    auth.current_field < k < after.current_field ==> !#[trigger] auth.editable(k)
            }
        }),
{
    let field = auth.provider().fields[auth.current_field];
    if !(field.name == "provider_id"@ && auth.name_taken(value)) {
        let stored = submitted(auth, Some(field), value).0;
        assert(stored.provider() == auth.provider());
        assert forall|k: int|
            auth.current_field < k < stored.editable_from(auth.current_field + 1) implies !#[trigger] auth.editable(
            k,
        ) by {
            lemma_forward(stored, auth.current_field + 1, k);
            going_forward_skips_fixed_fields(stored, auth.current_field + 1);
            assert(stored.editable(k) == auth.editable(k));
        }
        going_forward_skips_fixed_fields(stored, auth.current_field + 1);
    }
}

/// Going back leads to the nearest field in front that can be edited, and behind the
/// first one to where the form was opened from. Nothing that was entered is lost.
pub proof fn going_back_keeps_the_values(auth: AuthView)
    requires
        auth.phase is FillingField,
        0 <= auth.current_field <= auth.provider().fields.len(),
    ensures
        ({
            let after = stepped_back(auth);
            let before = auth.editable_before(auth.current_field);
            &&& after.collected_values == auth.collected_values
            &&& before is Some ==> after.current_field == before->0 && after.phase is FillingField
                && after.field_error is None
            &&& before is None && auth.from_sysom_shortcut ==> after.phase is ManagingProviders
                && after.selected_provider == auth.existing_providers.len()
            &&& before is None && !auth.from_sysom_shortcut ==> after.phase is SelectingProvider
                && after.selected_provider == auth.selected_provider
        }),
{
}

/// A form is only stepped back while a field is on screen.
pub proof fn other_screens_stay(auth: AuthView, value: Seq<char>)
    ensures
        !(auth.phase is FillingField) ==> stepped_back(auth) == auth,
        !(auth.phase is FillingField) && !(auth.phase is SelectingProvider) ==> answer_applied(
            auth,
            value,
        ) == (auth, AnswerOutcome::Ignored),
{
}

/// A template that is picked opens at its first field, with its own name where that
/// is free; a name that is taken is pointed out and no longer suggested.
pub proof fn picked_templates_start_afresh(auth: AuthView)
    requires
        auth.wf(),
    ensures
        ({
            let begun = auth.fields_begun();
            let id = auth.provider().id;
            let registry = auth.backend == AuthBackend::CoreRegistry;
            let free = registry && !auth.name_taken(id) && !auth.type_taken(id);
            &&& begun.phase is FillingField
            &&& begun.editing_provider_name is None && !begun.from_sysom_shortcut
            &&& begun.selected_provider == auth.selected_provider
            &&& begun.default_provider_id <==> free
            &&& free ==> begun.collected_values.contains_key("provider_id"@)
                && begun.collected_values["provider_id"@] == id && begun.field_error is None
            &&& !free ==> !begun.collected_values.contains_key("provider_id"@)
            &&& registry && auth.name_taken(id) ==> begun.field_error is Some
            &&& !(registry && auth.name_taken(id)) ==> begun.field_error is None && begun.providers
                == auth.providers
            &&& begun.provider().id == id
            &&& begun.provider().fields.len() == auth.provider().fields.len()
        }),
{
}

/// An Aliyun provider whose identity is settled is authenticated by the role of the
/// instance where there is one, and is asked about it where that is not known yet.
pub proof fn roles_are_preferred(auth: AuthView)
    requires
        auth.wf(),
    ensures
        ({
            let after = picked(auth);
            let settled = auth.provider().id == "aliyun"@ && auth.fields_begun().default_provider_id;
            &&& settled && auth.sysom is Ecs ==> after.phase == PhaseView::AliyunEcsChallenge(
                auth.sysom->Ecs_0,
            )
            &&& settled && auth.sysom is Unprepared ==> after.phase is AliyunEcsPreparing
            &&& !settled || auth.sysom is Manual ==> after.phase is FillingField
        }),
{
    picked_templates_start_afresh(auth);
    assert(auth.fields_begun().sysom == auth.sysom);
}

/// A form whose submission failed opens at the field in question if that can be
/// edited, else at the first one that can; its plain values are still there.
pub proof fn failed_forms_open_where_they_failed(auth: AuthView, name: Seq<char>, key: Seq<char>)
    requires
        auth.wf(),
    ensures
        ({
            let after = restored(auth, Some(name));
            let plain = restored(auth, None);
            &&& after.phase is FillingField && plain.phase is FillingField
            &&& after.provider() == auth.provider()
            &&& named_from(auth, name, 0) matches Some(i) ==> (after.editable(i)
                ==> after.current_field == i)
            &&& plain.current_field == plain.editable_from(0)
            &&& name != "provider_id"@ ==> after.default_provider_id == auth.default_provider_id
            &&& name == "provider_id"@ && auth.editing_provider_name is None
                ==> !after.default_provider_id
            &&& (forall|k: int|
                0 <= k < auth.provider().fields.len() && (#[trigger] auth.provider().fields[k]).secret
                    ==> auth.provider().fields[k].name != key) && auth.collected_values.contains_key(key)
                ==> after.collected_values.contains_key(key) && after.collected_values[key]
                == auth.collected_values[key]
        }),
{
    let n = auth.provider().fields.len() as int;
    if forall|k: int|
        0 <= k < n && (#[trigger] auth.provider().fields[k]).secret ==> auth.provider().fields[k].name
            != key {
        lemma_plain_values_stay(auth.collected_values, auth.provider().fields, n, key);
    }
    let open = AuthView {
        phase: PhaseView::FillingField,
        collected_values: without_secrets(auth.collected_values, auth.provider().fields, n),
        default_provider_id: auth.default_provider_id && !(Some(name) == Some("provider_id"@)
            && auth.editing_provider_name is None),
        ..auth
    };
    lemma_same_names(auth, open, name, 0);
    let bare = AuthView {
        phase: PhaseView::FillingField,
        collected_values: without_secrets(auth.collected_values, auth.provider().fields, n),
        ..auth
    };
    lemma_same_editable(bare, restored(auth, None), 0);
}

proof fn lemma_same_editable(a: AuthView, b: AuthView, start: int)
    requires
        a.provider() == b.provider(),
        a.default_provider_id == b.default_provider_id,
        a.editing_provider_name == b.editing_provider_name,
        0 <= start,
    ensures
        a.editable_from(start) == b.editable_from(start),
    decreases a.provider().fields.len() - start,
{
    if start < a.provider().fields.len() {
        assert(a.editable(start) == b.editable(start));
        if !a.editable(start) {
            lemma_same_editable(a, b, start + 1);
        }
    }
}

proof fn lemma_same_names(a: AuthView, b: AuthView, name: Seq<char>, start: int)
    requires
        a.provider() == b.provider(),
        0 <= start,
    ensures
        named_from(a, name, start) == named_from(b, name, start),
        named_from(a, name, start) matches Some(i) ==> start <= i < a.provider().fields.len()
            && a.provider().fields[i].name == name,
        named_from(a, name, start) is None ==> forall|k: int|
            start <= k < a.provider().fields.len() ==> (#[trigger] a.provider().fields[k]).name != name,
    decreases a.provider().fields.len() - start,
{
    if start < a.provider().fields.len() && a.provider().fields[start].name != name {
        lemma_same_names(a, b, name, start + 1);
    }
}

proof fn lemma_plain_values_stay(
    values: Map<Seq<char>, Seq<char>>,
    fields: Seq<FieldView>,
    n: int,
    key: Seq<char>,
)
    requires
        0 <= n <= fields.len(),
        forall|k: int| 0 <= k < n && (#[trigger] fields[k]).secret ==> fields[k].name != key,
    ensures
        without_secrets(values, fields, n).contains_key(key) == values.contains_key(key),
        values.contains_key(key) ==> without_secrets(values, fields, n)[key] == values[key],
    decreases n,
{
    if n > 0 {
        lemma_plain_values_stay(values, fields, n - 1, key);
        assert(fields[n - 1].secret ==> fields[n - 1].name != key);
    }
}

/// The template of a name is the first one that has it.
pub proof fn templates_are_found_by_name(providers: Seq<ProviderView>, id: Seq<char>, start: int)
    requires
        0 <= start,
    ensures
        match template_from(providers, id, start) {
            Some(i) => start <= i < providers.len() && providers[i].id == id && forall|k: int|
                start <= k < i ==> (#[trigger] providers[k]).id != id,
            None => forall|k: int| start <= k < providers.len() ==> (#[trigger] providers[k]).id != id,
        },
    decreases providers.len() - start,
{
    if start < providers.len() && providers[start].id != id {
        templates_are_found_by_name(providers, id, start + 1);
    }
}

/// A provider is looked up by its name.
pub proof fn providers_are_found_by_name(
    providers: Seq<(String, ProviderConfig)>,
    id: Seq<char>,
    start: int,
)
    requires
        0 <= start,
    ensures
        match provider_from(providers, id, start) {
            Some(i) => start <= i < providers.len() && providers[i].0@ == id && forall|k: int|
                start <= k < i ==> (#[trigger] providers[k]).0@ != id,
            None => forall|k: int| start <= k < providers.len() ==> (#[trigger] providers[k]).0@ != id,
        },
    decreases providers.len() - start,
{
    if start < providers.len() && providers[start].0@ != id {
        providers_are_found_by_name(providers, id, start + 1);
    }
}

/// Whether a layer has a provider of this name.
pub open spec fn has_provider(ai: AiConfig, id: Seq<char>) -> bool {
    exists|k: int| 0 <= k < ai.providers@.len() && (#[trigger] ai.providers@[k]).0@ == id
}

proof fn lemma_place(ai: AiConfig, id: Seq<char>)
    ensures
        ai.place(id) is Some <==> has_provider(ai, id),
{
    providers_are_found_by_name(ai.providers@, id, 0);
}

/// The parameters of a command that names a provider and a type.
pub open spec fn names(params: Tree, id: Seq<char>, kind: Seq<char>) -> bool {
    params.text_at("provider_id"@) == Some(id) && params.text_at("provider_type"@) == Some(kind)
}

/// A provider that is there can be made active, with the model of its own; one that
/// is not cannot.
pub proof fn known_providers_can_be_activated(
    request_id: Seq<char>,
    params: Tree,
    id: Seq<char>,
    config: CoreConfig,
    templates: Seq<ProviderTemplate>,
    auth_required: bool,
)
    requires
        params.text_at("provider_id"@) == Some(id),
    ensures
        ({
            let command = command_for(
                request_id,
                "activate"@,
                params,
                config,
                templates,
                auth_required,
            );
            &&& id.len() > 0 && has_provider(config.ai, id) ==> {
                &&& command is Activate && command->Activate_0 == id
                &&& exists|k: int|
                    0 <= k < config.ai.providers@.len() && (#[trigger] config.ai.providers@[k]).0@ == id
                        && command->Activate_1 == opt_view(config.ai.providers@[k].1.model)
            }
            &&& id.len() == 0 || !has_provider(config.ai, id) ==> command is Answer
                && !command->Answer_0.success && command->Answer_0.error == Some("provider not found"@)
        }),
{
    lemma_actions_differ();
    lemma_place(config.ai, id);
    providers_are_found_by_name(config.ai.providers@, id, 0);
}

proof fn lemma_actions_differ()
    ensures
        "state"@ != "activate"@ && "state"@ != "delete"@ && "state"@ != "prepare"@ && "state"@
            != "verify"@ && "state"@ != "configure"@,
        "activate"@ != "delete"@ && "activate"@ != "prepare"@ && "activate"@ != "verify"@ && "activate"@
            != "configure"@,
        "delete"@ != "prepare"@ && "delete"@ != "verify"@ && "delete"@ != "configure"@,
        "prepare"@ != "verify"@ && "prepare"@ != "configure"@,
        "verify"@ != "configure"@,
{
    reveal_strlit("state");
    reveal_strlit("activate");
    reveal_strlit("delete");
    reveal_strlit("prepare");
    reveal_strlit("verify");
    reveal_strlit("configure");
    assert("state"@[0] == 's' && "activate"@[0] == 'a' && "delete"@[0] == 'd' && "prepare"@[0] == 'p'
        && "verify"@[0] == 'v' && "configure"@[0] == 'c');
}

/// Any provider that is named can be asked to be removed.
pub proof fn named_providers_can_be_removed(
    request_id: Seq<char>,
    params: Tree,
    id: Seq<char>,
    config: CoreConfig,
    templates: Seq<ProviderTemplate>,
    auth_required: bool,
)
    requires
        params.text_at("provider_id"@) == Some(id),
    ensures
        ({
            let command = command_for(
                request_id,
                "delete"@,
                params,
                config,
                templates,
                auth_required,
            );
            &&& id.len() > 0 ==> command == CommandView::Delete(id)
            &&& id.len() == 0 ==> command is Answer && !command->Answer_0.success
        }),
{
    lemma_actions_differ();
}

/// A new provider can be configured, and one of the user's own; one that comes from
/// elsewhere is not editable, and one without a name or a type is refused.
pub proof fn own_providers_can_be_configured(
    request_id: Seq<char>,
    params: Tree,
    id: Seq<char>,
    kind: Seq<char>,
    config: CoreConfig,
    templates: Seq<ProviderTemplate>,
    auth_required: bool,
)
    requires
        names(params, id, kind),
    ensures
        ({
            let command = command_for(
                request_id,
                "configure"@,
                params,
                config,
                templates,
                auth_required,
            );
            let whole = id.len() > 0 && kind.len() > 0;
            let foreign = has_provider(config.ai, id) && !has_provider(config.user_ai, id);
            &&& whole && !foreign ==> command is Configure && command->Configure_0 == id
                && command->Configure_1 == kind
            &&& whole && foreign ==> command is Answer && !command->Answer_0.success
                && command->Answer_0.error == Some("provider is not editable"@)
            &&& !whole ==> command is Answer && !command->Answer_0.success
        }),
{
    lemma_actions_differ();
    lemma_place(config.ai, id);
    lemma_place(config.user_ai, id);
}

/// Only an Aliyun provider has an instance to ask. Preparing any other one means
/// manual credentials, and verifying any other source is no question.
pub proof fn only_aliyun_asks_the_instance(
    request_id: Seq<char>,
    params: Tree,
    kind: Seq<char>,
    config: CoreConfig,
    templates: Seq<ProviderTemplate>,
    auth_required: bool,
)
    requires
        params.text_at("provider_type"@) == Some(kind),
    ensures
        ({
            let prepare = command_for(
                request_id,
                "prepare"@,
                params,
                config,
                templates,
                auth_required,
            );
            let verify = command_for(
                request_id,
                "verify"@,
                params,
                config,
                templates,
                auth_required,
            );
            let role = params.text_at("auth_source"@) == Some("ecs_ram_role"@);
            &&& prepare is Prepare <==> kind == "aliyun"@
            &&& kind != "aliyun"@ && kind.len() > 0 ==> prepare is Answer
                && prepare->Answer_0.success && prepare->Answer_0.data is Some
                && prepare->Answer_0.data->0.text_at("mode"@) == Some("manual"@)
            &&& kind.len() == 0 ==> prepare is Answer && !prepare->Answer_0.success
            &&& verify is Verify <==> kind == "aliyun"@ && role
            &&& !(kind == "aliyun"@ && role) ==> verify is Answer && verify->Answer_0.success
                && verify->Answer_0.data is Some && verify->Answer_0.data->0.bool_at("authorized"@)
                == Some(true)
        }),
{
    lemma_actions_differ();
    reveal_strlit("aliyun");
    reveal_strlit("ecs_ram_role");
    assert("aliyun"@.len() == 6 && "ecs_ram_role"@.len() == 12);
}

/// The answers to a prepare and to a verify say what was found.
pub proof fn instance_answers_say_what_was_found(
    request_id: Seq<char>,
    instance: Seq<char>,
    url: Seq<char>,
    reason: NotReadyReason,
    error: ProbeError,
)
    ensures
        ({
            let known = prepare_answer(request_id, Ok(Some((instance, url))));
            let none = prepare_answer(request_id, Ok(None));
            let ready = probe_answer(request_id, Ok(CredentialStatus::Ready));
            let waiting = probe_answer(request_id, Ok(CredentialStatus::NotReady(reason)));
            let failed = probe_answer(request_id, Err(error));
            &&& known.success && known.data is Some
            &&& known.data->0.text_at("mode"@) == Some("ecs_ram_role"@)
            &&& known.data->0.text_at("instance_id"@) == Some(instance)
            &&& known.data->0.text_at("console_url"@) == Some(url)
            &&& none.success && none.data is Some && none.data->0.text_at("mode"@) == Some("manual"@)
            &&& ready.success && ready.data is Some && ready.data->0.text_at("status"@) == Some(
                "ready"@,
            )
            &&& waiting.success && waiting.data is Some && waiting.data->0.text_at("status"@) == Some(
                "not_ready"@,
            )
            &&& waiting.data->0.text_at("reason"@) == Some(
                match reason {
                    NotReadyReason::RoleMissing => "role_missing"@,
                    NotReadyReason::CredentialsExpired => "credentials_expired"@,
                },
            )
            &&& !failed.success && failed.data is Some && failed.data->0.text_at("error_code"@)
                == Some(error.code_text())
            &&& known.request_id == request_id && none.request_id == request_id && ready.request_id
                == request_id && waiting.request_id == request_id && failed.request_id == request_id
        }),
{
    reveal_strlit("mode");
    reveal_strlit("instance_id");
    reveal_strlit("console_url");
    reveal_strlit("values");
    reveal_strlit("status");
    reveal_strlit("reason");
    assert("mode"@.len() == 4 && "instance_id"@.len() == 11 && "console_url"@.len() == 11
        && "values"@.len() == 6);
    assert("instance_id"@[0] == 'i' && "console_url"@[0] == 'c');
    assert("status"@[0] == 's' && "reason"@[0] == 'r');
}

/// What an answer of the core says of an instance is what the flow reads in it.
pub proof fn persisted_commands_say_so(request_id: Seq<char>, error: Seq<char>, data: Tree)
    ensures
        ({
            let done = persisted_answer(request_id, None, data);
            let failed = persisted_answer(request_id, Some(error), data);
            &&& done.success && done.data == Some(data) && done.error is None
            &&& !failed.success && failed.data is None && failed.error == Some(
                "failed to persist config: "@ + error,
            )
            &&& done.request_id == request_id && failed.request_id == request_id
        }),
{
}

/// A configuration that was persisted counts from then on.
pub proof fn persisted_configurations_count(old_config: CoreConfig, next: CoreConfig, error: Seq<char>)
    ensures
        settled(old_config, next, None) == next,
        settled(old_config, next, Some(error)) == old_config,
{
}

/// Only bullets count as a mask; a masked value is replaced by the stored one, and
/// no other value is touched.
pub proof fn only_masks_are_replaced(
    values: Map<Seq<char>, Seq<char>>,
    key: Seq<char>,
    stored: Option<Seq<char>>,
    other: Seq<char>,
)
    ensures
        ({
            let after = unmasked(values, key, stored);
            &&& values.contains_key(key) && masked(values[key]) && stored is Some
                ==> after.contains_key(key) && after[key] == stored->0
            &&& values.contains_key(key) && !masked(values[key]) ==> after == values
            &&& stored is None || !values.contains_key(key) ==> after == values
            &&& other != key ==> after.contains_key(other) == values.contains_key(other)
            &&& other != key && values.contains_key(other) ==> after[other] == values[other]
        }),
        !masked(Seq::empty()),
        masked(seq!['\u{2022}']),
        !masked(seq!['\u{2022}', 'x']),
{
    assert(seq!['\u{2022}', 'x'][1] == 'x');
}

/// A new provider stores what was entered, as it was entered.
pub proof fn new_providers_store_what_was_entered(params: Tree, key: Seq<char>)
    ensures
        ({
            let stored = stored_values(params, None);
            let given = params.member("values"@);
            &&& given is Some ==> (stored.contains_key(key) <==> given->0.text_at(key) is Some)
            &&& given is Some && stored.contains_key(key) ==> Some(stored[key]) == given->0.text_at(
                key,
            )
            &&& given is None ==> !stored.contains_key(key)
        }),
{
}

/// The source of a provider is the first layer that has it, the user's own coming
/// first.
pub proof fn providers_come_from_a_layer(config: CoreConfig, id: Seq<char>)
    ensures
        has_provider(config.user_ai, id) ==> source_of(config, id) == "user"@,
        !has_provider(config.user_ai, id) && has_provider(config.system_ai, id) ==> source_of(config, id)
            == "system"@,
        !has_provider(config.user_ai, id) && !has_provider(config.system_ai, id) ==> source_of(
            config,
            id,
        ) == "runtime"@,
{
    lemma_place(config.user_ai, id);
    lemma_place(config.system_ai, id);
}

/// The state lists every template and every provider, in order, and says which one
/// is active.
pub proof fn the_state_lists_everything(
    templates: Seq<ProviderTemplate>,
    config: CoreConfig,
    auth_required: bool,
    i: int,
)
    ensures
        ({
            let state = state_tree(templates, config, auth_required);
            let shown = state.member("templates"@);
            let saved = state.member("saved_providers"@);
            &&& shown is Some && shown->0 is List && shown->0->List_0.len() == templates.len()
            &&& saved is Some && saved->0 is List && saved->0->List_0.len()
                == config.ai.providers@.len()
            &&& 0 <= i < templates.len() ==> shown->0->List_0[i] == template_tree(templates[i])
            &&& 0 <= i < config.ai.providers@.len() ==> saved->0->List_0[i] == saved_tree(config, i)
            &&& state.text_at("active_provider"@) == opt_view(config.ai.active_provider)
            &&& state.bool_at("effective_auth_required"@) == Some(auth_required)
        }),
{
    reveal_strlit("templates");
    reveal_strlit("saved_providers");
    reveal_strlit("active_provider");
    reveal_strlit("effective_auth_required");
    assert("templates"@.len() == 9 && "saved_providers"@.len() == 15 && "active_provider"@.len() == 15
        && "effective_auth_required"@.len() == 23);
    assert("saved_providers"@[0] == 's' && "active_provider"@[0] == 'a');
}

/// A listed provider says who it is, where it comes from, whether it can be edited
/// and whether it is active.
pub proof fn listed_providers_say_who_they_are(config: CoreConfig, index: int)
    requires
        0 <= index < config.ai.providers@.len(),
    ensures
        ({
            let id = config.ai.providers@[index].0@;
            let tree = saved_tree(config, index);
            &&& tree.text_at("provider_id"@) == Some(id)
            &&& tree.text_at("provider_type"@) == Some(config.ai.providers@[index].1.provider_type@)
            &&& tree.text_at("source"@) == Some(source_of(config, id))
            &&& tree.bool_at("editable"@) == Some(has_provider(config.user_ai, id))
            &&& tree.bool_at("active"@) == Some(opt_view(config.ai.active_provider) == Some(id))
            &&& tree.text_at("model"@) == opt_view(config.ai.providers@[index].1.model)
        }),
{
    lemma_place(config.user_ai, config.ai.providers@[index].0@);
    reveal_strlit("provider_id");
    reveal_strlit("provider_type");
    reveal_strlit("source");
    reveal_strlit("editable");
    reveal_strlit("auth_source");
    reveal_strlit("model");
    reveal_strlit("base_url");
    reveal_strlit("api_key_len");
    reveal_strlit("access_key_id_len");
    reveal_strlit("access_key_secret_len");
    reveal_strlit("security_token_len");
    reveal_strlit("active");
    reveal_strlit("has_api_key");
    reveal_strlit("has_access_key_id");
    reveal_strlit("has_access_key_secret");
    assert("provider_id"@.len() == 11 && "provider_type"@.len() == 13 && "source"@.len() == 6
        && "editable"@.len() == 8 && "auth_source"@.len() == 11 && "model"@.len() == 5
        && "base_url"@.len() == 8 && "api_key_len"@.len() == 11 && "access_key_id_len"@.len() == 17
        && "access_key_secret_len"@.len() == 21 && "security_token_len"@.len() == 18 && "active"@.len()
        == 6 && "has_api_key"@.len() == 11 && "has_access_key_id"@.len() == 17
        && "has_access_key_secret"@.len() == 21);
    assert("provider_id"@[0] == 'p' && "auth_source"@[0] == 'a' && "api_key_len"@[0] == 'a'
        && "has_api_key"@[0] == 'h' && "source"@[0] == 's' && "active"@[0] == 'a' && "editable"@[0] == 'e'
        && "base_url"@[0] == 'b');
}

/// A response counts for a check only if it names it; then it is its data, or the
/// message of its failure, which says nothing but what kind it is.
pub proof fn checks_take_their_own_response(response: Tree, request_id: Seq<char>)
    ensures
        ({
            let result = response_result(response, request_id);
            let ours = response.text_at("type"@) == Some("registry_response"@) && response.text_at(
                "request_id"@,
            ) == Some(request_id);
            let good = response.bool_at("success"@) == Some(true);
            &&& result is Ok <==> ours && good && response.member("data"@) is Some
            &&& result is Ok ==> result->Ok_0 == response.member("data"@)->0
            &&& ours && !good && response.member("data"@) is Some ==> result == Err::<
                Tree,
                Seq<char>,
            >(failure_message(response.member("data"@)->0.text_at("error_code"@)))
        }),
{
}

/// Each known failure of the metadata service has its own message.
pub proof fn failures_have_their_message()
    ensures
        failure_message(Some("metadata_access_denied"@)) == "Instance metadata access was denied"@,
        failure_message(Some("metadata_timeout"@)) == "Instance metadata request timed out"@,
        failure_message(Some("metadata_unreachable"@)) == "Instance metadata could not be reached"@,
        failure_message(Some("invalid_metadata_response"@))
            == "Instance metadata returned invalid credentials"@,
        failure_message(None) == "ECS credential check failed"@,
{
    reveal_strlit("metadata_access_denied");
    reveal_strlit("metadata_timeout");
    reveal_strlit("metadata_unreachable");
    reveal_strlit("invalid_metadata_response");
    assert("metadata_access_denied"@.len() == 22 && "metadata_timeout"@.len() == 16
        && "metadata_unreachable"@.len() == 20 && "invalid_metadata_response"@.len() == 25);
}

/// A check ends with the first whole line that is not blank; until then it goes on,
/// and nothing that was heard of the line is lost.
pub proof fn the_first_whole_line_answers(line: Seq<u8>, more: Seq<u8>, request_id: Seq<char>)
    requires
        forall|i: int| 0 <= i < line.len() ==> line[i] != 10,
        !all_blank(line),
        line.len() + 1 + more.len() <= MAX_RESPONSE_BYTES,
    ensures
        read_outcome(line, request_id) is None,
        next_line(line).0 == line,
        read_outcome(line + seq![10u8] + more, request_id) == Some(
            response_in(line + seq![10u8], request_id),
        ),
        read_outcome(seq![10u8] + line, request_id) is None,
{
    lemma_first_of(line, 10);
    if first_of(line, 10) < line.len() {
        assert(line[first_of(line, 10)] == 10);
    }
    let whole = line + seq![10u8] + more;
    lemma_first_of_is(whole, 10, line.len() as int);
    let first = whole.take(line.len() as int + 1);
    assert(first =~= line + seq![10u8]);
    assert(!all_blank(first)) by {
        let i = choose|i: int| 0 <= i < line.len() && !is_blank(#[trigger] line[i]);
        assert(first[i] == line[i]);
    }
    let late = seq![10u8] + line;
    lemma_first_of_is(late, 10, 0);
    assert(late.take(1) =~= seq![10u8]);
    assert(all_blank(late.take(1)));
    assert(late.skip(1) =~= line);
}

/// A check writes its whole request, closes the input of its child and reads the
/// answer, in this order and within its time.
pub proof fn checks_go_step_by_step(request_id: Seq<char>, total: usize, now: u64, n: usize)
    requires
        0 < n < total,
        now + PROBE_TIMEOUT <= u64::MAX,
    ensures
        ({
            let (e0, a0) = exchange_begun(request_id, total, false, now);
            let (e1, a1) = exchanged(e0, ProbeNews::Started(None), false, now);
            let (e2, a2) = exchanged(e1, ProbeNews::Wrote(Transfer::Moved(n)), false, now);
            let left = (total - n) as usize;
            let (e3, a3) = exchanged(e2, ProbeNews::Wrote(Transfer::Moved(left)), false, now);
            let (e4, a4) = exchanged(e3, ProbeNews::InputClosed, false, now);
            &&& a0 is Start
            &&& e0.deadline == now + PROBE_TIMEOUT
            &&& a1 == ProbeActionView::Write(0)
            &&& a2 == ProbeActionView::Write(n)
            &&& a3 is CloseInput
            &&& a4 is Read
            &&& e4.request_id == request_id && e4.heard.len() == 0
        }),
{
}

/// What ends a check is its result: the answer that was read, or why there is none.
pub proof fn checks_end_with_their_result(e: ExchangeView, bytes: Seq<u8>, failure: SetupFailure, now: u64)
    requires
        now < e.deadline,
        bytes.len() > 0,
    ensures
        e.stage == ProbeStage::Reading ==> {
            let (next, action) = exchanged(e, ProbeNews::Heard(bytes), false, now);
            match read_outcome(e.heard + bytes, e.request_id) {
                Some(result) => action == ProbeActionView::Finish(result),
                None => action is Read && next.heard == next_line(e.heard + bytes).0,
            }
        },
        e.stage == ProbeStage::Starting ==> exchanged(e, ProbeNews::Started(Some(failure)), false, now).1
            == ProbeActionView::Finish(Err(failure.text())),
        e.stage == ProbeStage::Reading ==> exchanged(
            e,
            ProbeNews::Silent(Transfer::WouldBlock),
            false,
            now,
        ).1 is AwaitOutput,
        e.stage == ProbeStage::Idle ==> exchanged(e, ProbeNews::Awaited(true), false, now).1 is Read,
        e.stage == ProbeStage::Blocked ==> exchanged(e, ProbeNews::Awaited(true), false, now).1
            == ProbeActionView::Write(e.written),
        e.stage == ProbeStage::Writing ==> exchanged(
            e,
            ProbeNews::Wrote(Transfer::WouldBlock),
            false,
            now,
        ).1 is AwaitInput,
        e.stage == ProbeStage::Reading ==> (exchanged(
            e,
            ProbeNews::Silent(Transfer::Moved(0)),
            false,
            now,
        ).1 matches ProbeActionView::Finish(Err(_))),
        e.stage == ProbeStage::Reading ==> (exchanged(
            e,
            ProbeNews::Silent(Transfer::Failed),
            false,
            now,
        ).1 matches ProbeActionView::Finish(Err(_))),
{
}

/// A cancelled check says that it was cancelled, and a late one that it was late.
pub proof fn ended_checks_say_why(e: ExchangeView, now: u64)
    requires
        e.stage == ProbeStage::Idle,
    ensures
        exchanged(e, ProbeNews::Awaited(true), true, now).1 == ProbeActionView::Finish(
            Err("ECS probe cancelled"@),
        ),
        now >= e.deadline ==> exchanged(e, ProbeNews::Awaited(true), false, now).1
            == ProbeActionView::Finish(Err("ECS probe timed out"@)),
{
}

/// A check asks the core about the role of an Aliyun instance, under its own name,
/// in the workspace that it was given.
pub proof fn checks_ask_for_the_role(request_id: Seq<char>, action: Seq<char>, workspace: Seq<char>)
    ensures
        ({
            let tree = probe_document(request_id, action);
            let params = tree.member("params"@);
            &&& tree.text_at("type"@) == Some("registry_request"@)
            &&& tree.text_at("request_id"@) == Some(request_id)
            &&& tree.text_at("domain"@) == Some("auth"@)
            &&& tree.text_at("action"@) == Some(action)
            &&& params is Some
            &&& params->0.text_at("provider_type"@) == Some("aliyun"@)
            &&& params->0.text_at("auth_source"@) == Some("ecs_ram_role"@)
        }),
        arguments_for(None) == seq!["--registry"@],
        arguments_for(Some(workspace)).len() == 3,
        arguments_for(Some(workspace))[0] == "--registry"@,
        arguments_for(Some(workspace))[1] == "--workspace"@,
        arguments_for(Some(workspace))[2] == workspace,
{
    reveal_strlit("type");
    reveal_strlit("request_id");
    reveal_strlit("domain");
    reveal_strlit("action");
    reveal_strlit("params");
    reveal_strlit("provider_type");
    reveal_strlit("auth_source");
    assert("type"@.len() == 4 && "request_id"@.len() == 10 && "domain"@.len() == 6 && "action"@.len() == 6
        && "params"@.len() == 6 && "provider_type"@.len() == 13 && "auth_source"@.len() == 11);
    assert("domain"@[0] == 'd' && "action"@[0] == 'a' && "params"@[0] == 'p');
}

/// A child that runs is stopped and waited for; one that is gone is let go.
pub proof fn running_children_are_stopped(reaper: Reaper)
    ensures
        reaping(reaper, WaitOutcome::Running).1.signal == !reaper.signalled,
        reaping(reaper, WaitOutcome::Running).0.signalled,
        reaping(reaper, WaitOutcome::Running).1.wait is Some,
        reaping(reaper, WaitOutcome::Failed).1.wait is Some,
        reaping(reaper, WaitOutcome::Failed).1.report == !reaper.reported,
        reaping(reaper, WaitOutcome::Failed).0.reported,
        reaping(reaper, WaitOutcome::Exited).1.wait is None,
        reaping(reaper, WaitOutcome::NoChild).1.wait is None,
        reaping(reaper, WaitOutcome::Exited).0 == reaper,
        reaping(reaper, WaitOutcome::NoChild).0 == reaper,
{
}

/// A check never waits longer than a tenth of a second at once, nor past its time.
pub proof fn waits_are_short(now: u64, deadline: u64)
    ensures
        now >= deadline ==> slice_of(now, deadline) == 0,
        now < deadline ==> 0 < slice_of(now, deadline) <= 100 && now + slice_of(now, deadline)
            <= deadline,
        now < deadline && deadline - now >= 100 ==> slice_of(now, deadline) == 100,
        now < deadline && deadline - now < 100 ==> slice_of(now, deadline) == deadline - now,
{
}

/// A check has to end when it is cancelled, and from its deadline on.
pub proof fn checks_end_in_time(cancelled: bool, now: u64, deadline: u64)
    ensures
        late(cancelled, now, deadline) is Some <==> cancelled || now >= deadline,
        late(true, now, deadline) == Some("ECS probe cancelled"@),
        now >= deadline ==> late(false, now, deadline) == Some("ECS probe timed out"@),
{
}

/// What is no response at all, or another one, says so.
pub proof fn foreign_responses_are_refused(response: Tree, request_id: Seq<char>, line: Seq<u8>)
    ensures
        response.text_at("request_id"@) != Some(request_id) ==> response_result(response, request_id)
            == Err::<Tree, Seq<char>>("Mismatched ECS probe response"@),
        json_read_bytes(line) is None ==> response_in(line, request_id) == Err::<Tree, Seq<char>>(
            "Invalid ECS probe response"@,
        ),
        json_read_bytes(line) matches Some(tree) ==> response_in(line, request_id) == response_result(
            tree,
            request_id,
        ),
{
}

/// A name or a type is taken exactly if a provider has it.
pub proof fn taken_names_are_those_of_providers(auth: AuthView, name: Seq<char>, i: int)
    ensures
        0 <= i < auth.existing_providers.len() && auth.existing_providers[i].name == name
            ==> auth.name_taken(name),
        0 <= i < auth.existing_providers.len() && auth.existing_providers[i].provider_type == name
            ==> auth.type_taken(name),
        auth.existing_providers.len() == 0 ==> !auth.name_taken(name) && !auth.type_taken(name),
        (forall|k: int|
            0 <= k < auth.existing_providers.len() ==> (#[trigger] auth.existing_providers[k]).name
                != name) ==> !auth.name_taken(name),
        (forall|k: int|
            0 <= k < auth.existing_providers.len() ==> (
            #[trigger] auth.existing_providers[k]).provider_type != name) ==> !auth.type_taken(name),
{
}

/// A form that starts over holds nothing of an earlier provider.
pub proof fn cleared_forms_hold_nothing(auth: AuthView, key: Seq<char>)
    ensures
        ({
            let after = auth.cleared();
            &&& !after.collected_values.contains_key(key)
            &&& after.editing_provider_name is None && !after.default_provider_id
                && !after.from_sysom_shortcut
            &&& after.current_field == 0 && after.field_input.len() == 0 && after.field_error is None
            &&& after.providers == auth.providers && after.existing_providers
                == auth.existing_providers && after.id == auth.id && after.backend == auth.backend
        }),
{
}

/// Each row of the management leads to its own provider; behind them stand the
/// shortcut, where there is an instance, and a new provider.
pub proof fn rows_lead_to_their_entry(sysom: SysomView, existing: usize, selected: usize)
    ensures
        selected < existing ==> entry_at(sysom, existing, selected) == AuthManagementEntry::Existing(
            selected,
        ),
        sysom is Ecs ==> entry_at(sysom, existing, existing) == AuthManagementEntry::SysomShortcut,
        !(sysom is Ecs) ==> entry_at(sysom, existing, existing) == AuthManagementEntry::NewProvider,
        selected > existing ==> entry_at(sysom, existing, selected)
            == AuthManagementEntry::NewProvider,
{
}

} // verus!
