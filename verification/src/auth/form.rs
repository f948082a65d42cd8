//! Provider identity and editable-field policy for authentication forms.

use vstd::prelude::*;

use crate::text::{opt_view, same};
use crate::values::Values;

verus! {

/// The hint shown under a provider identifier.
pub const PROVIDER_ID_HINT: &'static str = "Letters, digits, '-' and '_'; must be unique";

/// The error shown when a provider identifier is already in use.
pub const PROVIDER_ID_OCCUPIED_ERROR: &'static str = "This provider ID is already in use";

/// One field of a provider form.
#[derive(Clone, Debug)]
pub struct AuthFieldInfo {
    pub name: String,
    pub label: String,
    pub hint: Option<String>,
    pub secret: bool,
    pub required: bool,
    pub placeholder: Option<String>,
}

/// What an [`AuthFieldInfo`] says.
#[verifier::ext_equal]
pub struct FieldView {
    pub name: Seq<char>,
    pub label: Seq<char>,
    pub hint: Option<Seq<char>>,
    pub secret: bool,
    pub required: bool,
    pub placeholder: Option<Seq<char>>,
}

impl View for AuthFieldInfo {
    type V = FieldView;

    open spec fn view(&self) -> FieldView {
        FieldView {
            name: self.name@,
            label: self.label@,
            hint: opt_view(self.hint),
            secret: self.secret,
            required: self.required,
            placeholder: opt_view(self.placeholder),
        }
    }
}

/// A provider template: an identity and the fields to fill in.
#[derive(Clone, Debug)]
pub struct AuthProviderInfo {
    pub id: String,
    pub label: String,
    pub description: Option<String>,
    pub description_zh_cn: Option<String>,
    pub builtin_base_url: Option<String>,
    pub fields: Vec<AuthFieldInfo>,
}

/// What an [`AuthProviderInfo`] says.
#[verifier::ext_equal]
pub struct ProviderView {
    pub id: Seq<char>,
    pub label: Seq<char>,
    pub description: Option<Seq<char>>,
    pub description_zh_cn: Option<Seq<char>>,
    pub builtin_base_url: Option<Seq<char>>,
    pub fields: Seq<FieldView>,
}

impl View for AuthProviderInfo {
    type V = ProviderView;

    open spec fn view(&self) -> ProviderView {
        ProviderView {
            id: self.id@,
            label: self.label@,
            description: opt_view(self.description),
            description_zh_cn: opt_view(self.description_zh_cn),
            builtin_base_url: opt_view(self.builtin_base_url),
            fields: Seq::new(self.fields@.len(), |i: int| self.fields@[i]@),
        }
    }
}

/// A provider that is already configured.
#[derive(Clone, Debug)]
pub struct ExistingProvider {
    pub name: String,
    pub provider_type: String,
    pub source: String,
}

/// What an [`ExistingProvider`] says.
#[verifier::ext_equal]
pub struct ExistingView {
    pub name: Seq<char>,
    pub provider_type: Seq<char>,
    pub source: Seq<char>,
}

impl View for ExistingProvider {
    type V = ExistingView;

    open spec fn view(&self) -> ExistingView {
        ExistingView {
            name: self.name@,
            provider_type: self.provider_type@,
            source: self.source@,
        }
    }
}

/// An ECS instance that can authenticate by its RAM role.
#[derive(Clone, Debug)]
pub struct EcsRamRolePrepare {
    pub instance_id: String,
    pub console_url: String,
}

/// What an [`EcsRamRolePrepare`] says.
#[verifier::ext_equal]
pub struct PrepareView {
    pub instance_id: Seq<char>,
    pub console_url: Seq<char>,
}

impl View for EcsRamRolePrepare {
    type V = PrepareView;

    open spec fn view(&self) -> PrepareView {
        PrepareView { instance_id: self.instance_id@, console_url: self.console_url@ }
    }
}

impl EcsRamRolePrepare {
    /// The same instance.
    pub fn copy(&self) -> (res: EcsRamRolePrepare)
        ensures
            res@ == self@,
    {
        EcsRamRolePrepare {
            instance_id: self.instance_id.clone(),
            console_url: self.console_url.clone(),
        }
    }
}

/// What is known about the SysOM entry of the provider menu.
#[derive(Clone, Debug)]
pub enum SysomMenu {
    /// Nothing has been prepared yet.
    Unprepared,
    /// Credentials are entered by hand.
    Manual,
    /// The instance can use its RAM role.
    Ecs(EcsRamRolePrepare),
}

/// What a [`SysomMenu`] says.
#[verifier::ext_equal]
pub enum SysomView {
    Unprepared,
    Manual,
    Ecs(PrepareView),
}

impl View for SysomMenu {
    type V = SysomView;

    open spec fn view(&self) -> SysomView {
        match self {
            SysomMenu::Unprepared => SysomView::Unprepared,
            SysomMenu::Manual => SysomView::Manual,
            SysomMenu::Ecs(p) => SysomView::Ecs(p@),
        }
    }
}

impl Default for SysomMenu {
    fn default() -> (res: SysomMenu)
        ensures
            res@ == SysomView::Unprepared,
    {
        SysomMenu::Unprepared
    }
}

impl SysomMenu {
    /// A menu whose prepare asked for manual credentials.
    pub fn on_manual() -> (res: SysomMenu)
        ensures
            res@ == SysomView::Manual,
    {
        SysomMenu::Manual
    }

    /// A menu whose prepare found an instance with a RAM role.
    pub fn on_ecs(prepare: EcsRamRolePrepare) -> (res: SysomMenu)
        ensures
            res@ == SysomView::Ecs(prepare@),
    {
        SysomMenu::Ecs(prepare)
    }

    /// Whether a prepare result is cached.
    pub fn prefetched(&self) -> (res: bool)
        ensures
            res == !(self@ is Unprepared),
    {
        match self {
            SysomMenu::Unprepared => false,
            _ => true,
        }
    }
}

/// Where the form stands.
#[derive(Clone, Debug)]
pub enum AuthPhase {
    PreparingMenu,
    ManagingProviders,
    SelectingProvider,
    FillingField,
    AliyunEcsPreparing,
    AliyunEcsChallenge(EcsRamRolePrepare),
}

/// What an [`AuthPhase`] says.
#[verifier::ext_equal]
pub enum PhaseView {
    PreparingMenu,
    ManagingProviders,
    SelectingProvider,
    FillingField,
    AliyunEcsPreparing,
    AliyunEcsChallenge(PrepareView),
}

impl View for AuthPhase {
    type V = PhaseView;

    open spec fn view(&self) -> PhaseView {
        match self {
            AuthPhase::PreparingMenu => PhaseView::PreparingMenu,
            AuthPhase::ManagingProviders => PhaseView::ManagingProviders,
            AuthPhase::SelectingProvider => PhaseView::SelectingProvider,
            AuthPhase::FillingField => PhaseView::FillingField,
            AuthPhase::AliyunEcsPreparing => PhaseView::AliyunEcsPreparing,
            AuthPhase::AliyunEcsChallenge(p) => PhaseView::AliyunEcsChallenge(p@),
        }
    }
}

/// Who receives the answers of the form.
#[derive(Clone, Copy, Debug, PartialEq, Eq, Structural)]
pub enum AuthBackend {
    /// A running agent turn that asked for credentials.
    ActiveRun,
    /// The registry of the core, from the slash command.
    CoreRegistry,
}

/// The form as it is being filled in.
#[derive(Clone, Debug)]
pub struct RuntimeAuthState {
    pub id: String,
    pub request_id: String,
    pub phase: AuthPhase,
    pub providers: Vec<AuthProviderInfo>,
    pub selected_provider: usize,
    pub current_field: usize,
    pub collected_values: Values,
    pub field_input: String,
    pub field_error: Option<String>,
    pub field_capture_revision: u64,
    pub existing_providers: Vec<ExistingProvider>,
    pub editing_provider_name: Option<String>,
    pub default_provider_id: bool,
    pub from_sysom_shortcut: bool,
    pub error_message: Option<String>,
    pub backend: AuthBackend,
    pub sysom: SysomMenu,
}

/// What a [`RuntimeAuthState`] says.
#[verifier::ext_equal]
pub struct AuthView {
    pub id: Seq<char>,
    pub request_id: Seq<char>,
    pub phase: PhaseView,
    pub providers: Seq<ProviderView>,
    pub selected_provider: int,
    pub current_field: int,
    pub collected_values: Map<Seq<char>, Seq<char>>,
    pub field_input: Seq<char>,
    pub field_error: Option<Seq<char>>,
    pub field_capture_revision: u64,
    pub existing_providers: Seq<ExistingView>,
    pub editing_provider_name: Option<Seq<char>>,
    pub default_provider_id: bool,
    pub from_sysom_shortcut: bool,
    pub error_message: Option<Seq<char>>,
    pub backend: AuthBackend,
    pub sysom: SysomView,
}

impl View for RuntimeAuthState {
    type V = AuthView;

    open spec fn view(&self) -> AuthView {
        AuthView {
            id: self.id@,
            request_id: self.request_id@,
            phase: self.phase@,
            providers: Seq::new(self.providers@.len(), |i: int| self.providers@[i]@),
            selected_provider: self.selected_provider as int,
            current_field: self.current_field as int,
            collected_values: self.collected_values@,
            field_input: self.field_input@,
            field_error: opt_view(self.field_error),
            field_capture_revision: self.field_capture_revision,
            existing_providers: Seq::new(
                self.existing_providers@.len(),
                |i: int| self.existing_providers@[i]@,
            ),
            editing_provider_name: opt_view(self.editing_provider_name),
            default_provider_id: self.default_provider_id,
            from_sysom_shortcut: self.from_sysom_shortcut,
            error_message: opt_view(self.error_message),
            backend: self.backend,
            sysom: self.sysom@,
        }
    }
}

impl AuthView {
    /// The selected provider exists.
    pub open spec fn wf(self) -> bool {
        0 <= self.selected_provider < self.providers.len()
    }

    /// The selected template.
    pub open spec fn provider(self) -> ProviderView {
        self.providers[self.selected_provider]
    }

    /// A field is editable unless it is the provider identifier of a default or
    /// existing identity.
    pub open spec fn editable(self, index: int) -> bool {
        &&& 0 <= index < self.provider().fields.len()
        &&& self.provider().fields[index].name != "provider_id"@ || (!self.default_provider_id
            && self.editing_provider_name is None)
    }

    /// The first editable field from `start` on, or the number of fields.
    pub open spec fn editable_from(self, start: int) -> int
        decreases self.provider().fields.len() - start,
    {
        if start >= self.provider().fields.len() {
            self.provider().fields.len() as int
        } else if self.editable(start) {
            start
        } else {
            self.editable_from(start + 1)
        }
    }

    /// The last editable field before `end`, if there is one.
    pub open spec fn editable_before(self, end: int) -> Option<int>
        decreases end,
    {
        if end <= 0 {
            None
        } else if self.editable(end - 1) {
            Some(end - 1)
        } else {
            self.editable_before(end - 1)
        }
    }

    /// Whether a configured provider already uses `name`.
    pub open spec fn name_taken(self, name: Seq<char>) -> bool {
        exists|i: int|
            0 <= i < self.existing_providers.len() && (#[trigger] self.existing_providers[i]).name == name
    }

    /// Whether a configured provider already has type `id`.
    pub open spec fn type_taken(self, id: Seq<char>) -> bool {
        exists|i: int|
            0 <= i < self.existing_providers.len()
                && (#[trigger] self.existing_providers[i]).provider_type == id
    }

    /// The form with the stored value of the current field as its input; a
    /// secret is never shown again.
    pub open spec fn loaded(self) -> AuthView {
        AuthView { field_input: self.stored_input(), ..self }
    }

    /// The input a visit of the current field starts with.
    pub open spec fn stored_input(self) -> Seq<char> {
        if 0 <= self.current_field < self.provider().fields.len() {
            let field = self.provider().fields[self.current_field];
            if !field.secret && self.collected_values.contains_key(field.name) {
                self.collected_values[field.name]
            } else {
                Seq::empty()
            }
        } else {
            Seq::empty()
        }
    }

    /// The form with everything forgotten that belongs to an earlier identity.
    pub open spec fn cleared(self) -> AuthView {
        AuthView {
            editing_provider_name: None,
            default_provider_id: false,
            from_sysom_shortcut: false,
            current_field: 0,
            collected_values: Map::empty(),
            field_input: Seq::empty(),
            field_error: None,
            ..self
        }
    }

    /// Whether the template's own identifier can name the new provider.
    pub open spec fn takes_default_name(self) -> bool {
        let id = self.provider().id;
        self.backend == AuthBackend::CoreRegistry && !self.name_taken(id) && !self.type_taken(id)
    }

    /// The selected template without a suggested identifier.
    pub open spec fn without_suggestion(self) -> Seq<ProviderView> {
        let p = self.provider();
        self.providers.update(
            self.selected_provider,
            ProviderView {
                fields: Seq::new(
                    p.fields.len(),
                    |i: int|
                        if p.fields[i].name == "provider_id"@ {
                            FieldView { placeholder: None, ..p.fields[i] }
                        } else {
                            p.fields[i]
                        },
                ),
                ..p
            },
        )
    }

    /// The form at the first field of the selected template, with its identity
    /// resolved: a free template name becomes the default, an occupied one is
    /// reported and no longer suggested.
    pub open spec fn fields_begun(self) -> AuthView {
        let fresh = AuthView { phase: PhaseView::FillingField, ..self.cleared() };
        let id = self.provider().id;
        let named = if self.takes_default_name() {
            AuthView {
                default_provider_id: true,
                collected_values: fresh.collected_values.insert("provider_id"@, id),
                ..fresh
            }
        } else if self.backend == AuthBackend::CoreRegistry && self.name_taken(id) {
            AuthView {
                field_error: Some(PROVIDER_ID_OCCUPIED_ERROR@),
                providers: self.without_suggestion(),
                ..fresh
            }
        } else {
            fresh
        };
        AuthView { current_field: named.editable_from(0), ..named }.loaded()
    }
}

/// The templates with an identifier field in front of their own fields.
pub fn providers_with_provider_id_field(providers: Vec<AuthProviderInfo>) -> (res: Vec<AuthProviderInfo>)
    ensures
        res@.len() == providers@.len(),
        forall|i: int|
            0 <= i < res@.len() ==> (#[trigger] res@[i])@ == (ProviderView {
                fields: seq![
                    FieldView {
                        name: "provider_id"@,
                        label: "Provider ID"@,
                        hint: Some(PROVIDER_ID_HINT@),
                        secret: false,
                        required: true,
                        placeholder: Some(providers@[i].id@),
                    },
                ] + providers@[i]@.fields,
                ..providers@[i]@
            }),
{
    let ghost given = providers@;
    let mut rest = providers;
    let mut out: Vec<AuthProviderInfo> = Vec::new();
    let total: usize = rest.len();
    let mut i: usize = 0;
    while i < total
        invariant
            i <= total == given.len(),
            rest@ == given.skip(i as int),
            out@.len() == i,
            forall|j: int|
                0 <= j < i ==> (#[trigger] out@[j])@ == (ProviderView {
                    fields: seq![
                        FieldView {
                            name: "provider_id"@,
                            label: "Provider ID"@,
                            hint: Some(PROVIDER_ID_HINT@),
                            secret: false,
                            required: true,
                            placeholder: Some(given[j].id@),
                        },
                    ] + given[j]@.fields,
                    ..given[j]@
                }),
        decreases total - i,
    {
        let mut provider = rest.remove(0);
        let ghost before = provider@;
        let ghost plain = provider.fields@;
        let field = AuthFieldInfo {
            name: "provider_id".to_owned(),
            label: "Provider ID".to_owned(),
            hint: Some(PROVIDER_ID_HINT.to_owned()),
            secret: false,
            required: true,
            placeholder: Some(provider.id.clone()),
        };
        provider.fields.insert(0, field);
        proof {
            assert(provider.fields@ =~= seq![field] + plain);
            assert(provider@.fields =~= seq![field@] + before.fields);
            assert(rest@ =~= given.skip(i + 1));
        }
        out.push(provider);
        i = i + 1;
    }
    out
}

impl RuntimeAuthState {
    /// The stored values have distinct keys and the selected provider exists.
    pub open spec fn wf(&self) -> bool {
        self.collected_values.wf() && self@.wf()
    }

    /// The selected template.
    pub fn current_provider(&self) -> (res: &AuthProviderInfo)
        requires
            self.wf(),
        ensures
            res@ == self@.provider(),
            *res == self.providers@[self.selected_provider as int],
    {
        &self.providers[self.selected_provider]
    }

    /// The field that is being filled in.
    pub fn current_field_info(&self) -> (res: Option<&AuthFieldInfo>)
        requires
            self.wf(),
        ensures
            match res {
                Some(f) => self.current_field < self@.provider().fields.len()
                    && f@ == self@.provider().fields[self.current_field as int],
                None => self.current_field >= self@.provider().fields.len(),
            },
    {
        let provider = self.current_provider();
        if self.current_field < provider.fields.len() {
            Some(&provider.fields[self.current_field])
        } else {
            None
        }
    }

    /// Whether a configured provider already uses `name`.
    pub fn provider_name_is_taken(&self, name: &str) -> (res: bool)
        ensures
            res == self@.name_taken(name@),
    {
        let mut i: usize = 0;
        while i < self.existing_providers.len()
            invariant
                i <= self.existing_providers@.len(),
                forall|j: int| 0 <= j < i ==> self.existing_providers@[j].name@ != name@,
            decreases self.existing_providers@.len() - i,
        {
            if same(self.existing_providers[i].name.as_str(), name) {
                assert(self@.existing_providers[i as int].name == name@);
                return true;
            }
            i = i + 1;
        }
        false
    }

    /// Whether a configured provider already has type `id`.
    pub fn provider_type_is_taken(&self, id: &str) -> (res: bool)
        ensures
            res == self@.type_taken(id@),
    {
        let mut i: usize = 0;
        while i < self.existing_providers.len()
            invariant
                i <= self.existing_providers@.len(),
                forall|j: int| 0 <= j < i ==> self.existing_providers@[j].provider_type@ != id@,
            decreases self.existing_providers@.len() - i,
        {
            if same(self.existing_providers[i].provider_type.as_str(), id) {
                assert(self@.existing_providers[i as int].provider_type == id@);
                return true;
            }
            i = i + 1;
        }
        false
    }

    /// Whether the user may edit the field at `index`.
    pub fn field_is_editable(&self, index: usize) -> (res: bool)
        requires
            self.wf(),
        ensures
            res == self@.editable(index as int),
    {
        let provider = self.current_provider();
        if index < provider.fields.len() {
            !same(provider.fields[index].name.as_str(), "provider_id") || (!self.default_provider_id
                && self.editing_provider_name.is_none())
        } else {
            false
        }
    }

    /// The first editable field from `start` on, or the number of fields.
    pub fn editable_field_at_or_after(&self, start: usize) -> (res: usize)
        requires
            self.wf(),
        ensures
            res == self@.editable_from(start as int),
    {
        let total: usize = self.current_provider().fields.len();
        let mut i: usize = start;
        while i < total
            invariant
                self.wf(),
                total == self@.provider().fields.len(),
                self@.editable_from(start as int) == self@.editable_from(i as int),
            decreases total - i,
        {
            if self.field_is_editable(i) {
                return i;
            }
            i = i + 1;
        }
        total
    }

    /// The first editable field, or the number of fields.
    pub fn first_editable_field(&self) -> (res: usize)
        requires
            self.wf(),
        ensures
            res == self@.editable_from(0),
    {
        self.editable_field_at_or_after(0)
    }

    /// The last editable field before `end`, if there is one.
    pub fn editable_field_before(&self, end: usize) -> (res: Option<usize>)
        requires
            self.wf(),
        ensures
            match res {
                Some(i) => self@.editable_before(end as int) == Some(i as int),
                None => self@.editable_before(end as int) is None,
            },
    {
        let mut i: usize = end;
        while i > 0
            invariant
                self.wf(),
                self@.editable_before(end as int) == self@.editable_before(i as int),
            decreases i,
        {
            if self.field_is_editable(i - 1) {
                return Some(i - 1);
            }
            i = i - 1;
        }
        None
    }

    /// Shows the stored value of the current field as its input.
    pub fn load_current_field_input(&mut self)
        requires
            old(self).wf(),
        ensures
            final(self).wf(),
            final(self)@ == old(self)@.loaded(),
    {
        let input: String = match self.current_field_info() {
            Some(field) => {
                if field.secret {
                    String::new()
                } else {
                    match self.collected_values.get(field.name.as_str()) {
                        Some(value) => value.clone(),
                        None => String::new(),
                    }
                }
            },
            None => String::new(),
        };
        let ghost before = self@;
        self.field_input = input;
        assert(self@ =~~= before.loaded());
    }
}

fn reset_new_provider(auth: &mut RuntimeAuthState)
    ensures
        final(auth)@ == old(auth)@.cleared(),
        final(auth).collected_values.wf(),
{
    let ghost before = auth@;
    auth.editing_provider_name = None;
    auth.default_provider_id = false;
    auth.from_sysom_shortcut = false;
    auth.current_field = 0;
    auth.collected_values.clear();
    auth.field_input = String::new();
    auth.field_error = None;
    assert(auth@ =~~= before.cleared());
}

/// Starts a new provider at the template picker.
pub fn begin_new_provider(auth: &mut RuntimeAuthState)
    ensures
        final(auth)@ == (AuthView {
            selected_provider: 0,
            phase: PhaseView::SelectingProvider,
            ..old(auth)@.cleared()
        }),
        final(auth).collected_values.wf(),
{
    let ghost before = auth@;
    reset_new_provider(auth);
    auth.selected_provider = 0;
    auth.phase = AuthPhase::SelectingProvider;
    assert(auth@ =~~= (AuthView {
        selected_provider: 0,
        phase: PhaseView::SelectingProvider,
        ..before.cleared()
    }));
}

/// The fields with no suggested identifier.
fn drop_suggestion(fields: &mut Vec<AuthFieldInfo>)
    ensures
        final(fields)@.len() == old(fields)@.len(),
        forall|i: int|
            0 <= i < final(fields)@.len() ==> (#[trigger] final(fields)@[i])@ == (if old(fields)@[i].name@
                == "provider_id"@ {
                FieldView { placeholder: None, ..old(fields)@[i]@ }
            } else {
                old(fields)@[i]@
            }),
{
    let ghost given = fields@;
    let total: usize = fields.len();
    let mut i: usize = 0;
    while i < total
        invariant
            i <= total == given.len() == fields@.len(),
            forall|j: int| i <= j < total ==> fields@[j] == given[j],
            forall|j: int|
                0 <= j < i ==> (#[trigger] fields@[j])@ == (if given[j].name@ == "provider_id"@ {
                    FieldView { placeholder: None, ..given[j]@ }
                } else {
                    given[j]@
                }),
        decreases total - i,
    {
        if same(fields[i].name.as_str(), "provider_id") {
            let field = AuthFieldInfo {
                name: fields[i].name.clone(),
                label: fields[i].label.clone(),
                hint: fields[i].hint.clone(),
                secret: fields[i].secret,
                required: fields[i].required,
                placeholder: None,
            };
            fields.set(i, field);
        }
        i = i + 1;
    }
}

/// Starts filling in the selected template: resolves its identity and moves to
/// the first editable field.
pub fn begin_provider_fields(auth: &mut RuntimeAuthState)
    requires
        old(auth).wf(),
    ensures
        final(auth).wf(),
        final(auth)@ == old(auth)@.fields_begun(),
{
    let ghost start = auth@;
    reset_new_provider(auth);
    auth.phase = AuthPhase::FillingField;
    let ghost fresh = AuthView { phase: PhaseView::FillingField, ..start.cleared() };
    assert(auth@ =~~= fresh);
    if auth.backend == AuthBackend::CoreRegistry {
        let id: String = auth.current_provider().id.clone();
        let occupied: bool = auth.provider_name_is_taken(id.as_str());
        if !occupied && !auth.provider_type_is_taken(id.as_str()) {
            auth.default_provider_id = true;
            auth.collected_values.insert("provider_id", id.as_str());
            assert(auth@ =~~= (AuthView {
                default_provider_id: true,
                collected_values: fresh.collected_values.insert("provider_id"@, id@),
                ..fresh
            }));
        } else if occupied {
            auth.field_error = Some(PROVIDER_ID_OCCUPIED_ERROR.to_owned());
            let selected: usize = auth.selected_provider;
            let ghost all = auth.providers@;
            let mut provider = auth.providers.remove(selected);
            drop_suggestion(&mut provider.fields);
            auth.providers.insert(selected, provider);
            proof {
                assert(auth.providers@ =~= all.update(selected as int, provider));
                assert(provider@.fields =~= start.without_suggestion()[selected as int].fields);
                assert(provider@ =~~= start.without_suggestion()[selected as int]);
                assert(auth@.providers =~= start.without_suggestion());
                assert(auth@ =~~= (AuthView {
                    field_error: Some(PROVIDER_ID_OCCUPIED_ERROR@),
                    providers: start.without_suggestion(),
                    ..fresh
                }));
            }
        }
    }
    let first: usize = auth.first_editable_field();
    auth.current_field = first;
    auth.load_current_field_input();
}

/// The first template named `id`, from `start` on.
pub open spec fn template_from(providers: Seq<ProviderView>, id: Seq<char>, start: int) -> Option<int>
    decreases providers.len() - start,
{
    if start < 0 || start >= providers.len() {
        None
    } else if providers[start].id == id {
        Some(start)
    } else {
        template_from(providers, id, start + 1)
    }
}

/// Opens the Aliyun template from its management shortcut, if there is one.
pub fn begin_sysom_shortcut(auth: &mut RuntimeAuthState) -> (res: bool)
    requires
        old(auth).wf(),
    ensures
        final(auth).wf(),
        match template_from(old(auth)@.providers, "aliyun"@, 0) {
            Some(index) => res && final(auth)@ == (AuthView {
                from_sysom_shortcut: true,
                ..AuthView { selected_provider: index, ..old(auth)@ }.fields_begun()
            }),
            None => !res && final(auth)@ == old(auth)@,
        },
{
    let ghost before = auth@;
    let total: usize = auth.providers.len();
    let mut i: usize = 0;
    while i < total
        invariant
            auth.wf(),
            auth@ == before,
            before == old(auth)@,
            total == auth.providers@.len(),
            i <= total,
            template_from(before.providers, "aliyun"@, 0) == template_from(
                before.providers,
                "aliyun"@,
                i as int,
            ),
        decreases total - i,
    {
        assert(before.providers[i as int].id == auth.providers@[i as int].id@);
        if same(auth.providers[i].id.as_str(), "aliyun") {
            auth.selected_provider = i;
            assert(auth@ =~~= (AuthView { selected_provider: i as int, ..before }));
            begin_provider_fields(auth);
            let ghost begun = auth@;
            auth.from_sysom_shortcut = true;
            assert(auth@ =~~= (AuthView { from_sysom_shortcut: true, ..begun }));
            return true;
        }
        i = i + 1;
    }
    false
}

} // verus!
