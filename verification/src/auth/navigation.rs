//! Moving through an authentication form: answering, going back and coming
//! back after a failed submission.

use vstd::prelude::*;

use crate::auth::ecs_flow::{challenged, set_challenge};
use crate::auth::form::{
    begin_provider_fields, AuthFieldInfo, AuthPhase, AuthView, FieldView, PhaseView,
    RuntimeAuthState, SysomMenu, SysomView, PROVIDER_ID_OCCUPIED_ERROR,
};
use crate::text::same;

verus! {

/// Whether a field took a value.
#[derive(Clone, Copy, Debug, PartialEq, Eq, Structural)]
pub enum FieldSubmission {
    Accepted,
    Rejected,
}

/// An entry of the provider management.
#[derive(Clone, Copy, Debug, PartialEq, Eq, Structural)]
pub enum AuthManagementEntry {
    Existing(usize),
    SysomShortcut,
    NewProvider,
}

/// What follows an answer.
#[derive(Clone, Copy, Debug, PartialEq, Eq, Structural)]
pub enum AnswerOutcome {
    /// The answer does not apply to where the form stands.
    Ignored,
    /// The form moved on.
    Moved,
    /// The value was not taken.
    Rejected,
    /// Every field is filled in.
    Submit,
}

/// The entry behind row `selected`.
pub open spec fn entry_at(sysom: SysomView, existing: usize, selected: usize) -> AuthManagementEntry {
    if selected < existing {
        AuthManagementEntry::Existing(selected)
    } else if sysom is Ecs && selected == existing {
        AuthManagementEntry::SysomShortcut
    } else {
        AuthManagementEntry::NewProvider
    }
}

/// The entry behind row `selected`: the configured providers, then the SysOM
/// shortcut of an instance with a RAM role, then a new provider.
pub fn management_entry(sysom: &SysomMenu, existing: usize, selected: usize) -> (res: AuthManagementEntry)
    ensures
        res == entry_at(sysom@, existing, selected),
        res == (if selected < existing {
            AuthManagementEntry::Existing(selected)
        } else if sysom@ is Ecs && selected == existing {
            AuthManagementEntry::SysomShortcut
        } else {
            AuthManagementEntry::NewProvider
        }),
{
    let offered: bool = match sysom {
        SysomMenu::Ecs(_) => true,
        _ => false,
    };
    if selected < existing {
        AuthManagementEntry::Existing(selected)
    } else if offered && selected == existing {
        AuthManagementEntry::SysomShortcut
    } else {
        AuthManagementEntry::NewProvider
    }
}

/// The form one editable field back. In front of the first field it returns to
/// the template picker, or to the management row that it was opened from.
pub open spec fn stepped_back(auth: AuthView) -> AuthView {
    if !(auth.phase is FillingField) {
        auth
    } else {
        match auth.editable_before(auth.current_field) {
            Some(index) => AuthView { current_field: index, field_error: None, ..auth }.loaded(),
            None => if auth.from_sysom_shortcut {
                AuthView {
                    phase: PhaseView::ManagingProviders,
                    selected_provider: auth.existing_providers.len() as int,
                    ..auth
                }
            } else {
                AuthView { phase: PhaseView::SelectingProvider, ..auth }
            },
        }
    }
}

/// Goes one editable field back.
pub fn step_back(auth: &mut RuntimeAuthState)
    requires
        old(auth).wf(),
    ensures
        final(auth)@ == stepped_back(old(auth)@),
        final(auth).collected_values.wf(),
{
    let ghost before = auth@;
    let filling: bool = match auth.phase {
        AuthPhase::FillingField => true,
        _ => false,
    };
    if !filling {
        return;
    }
    match auth.editable_field_before(auth.current_field) {
        Some(index) => {
            auth.current_field = index;
            auth.field_error = None;
            assert(auth@ =~~= (AuthView { current_field: index as int, field_error: None, ..before }));
            auth.load_current_field_input();
        },
        None => {
            if auth.from_sysom_shortcut {
                auth.phase = AuthPhase::ManagingProviders;
                auth.selected_provider = auth.existing_providers.len();
            } else {
                auth.phase = AuthPhase::SelectingProvider;
            }
            assert(auth@ =~~= stepped_back(before));
        },
    }
}

/// The form after `value` was entered into `field`.
pub open spec fn submitted(auth: AuthView, field: Option<FieldView>, value: Seq<char>) -> (
    AuthView,
    FieldSubmission,
) {
    match field {
        None => (auth, FieldSubmission::Accepted),
        Some(f) => if f.name == "provider_id"@ && auth.name_taken(value) {
            (
                AuthView { field_error: Some(PROVIDER_ID_OCCUPIED_ERROR@), ..auth },
                FieldSubmission::Rejected,
            )
        } else {
            (
                AuthView {
                    field_error: None,
                    collected_values: auth.collected_values.insert(f.name, value),
                    ..auth
                },
                FieldSubmission::Accepted,
            )
        },
    }
}

/// Stores the value of a field; an identifier that is in use is rejected.
pub fn record_field_submission(auth: &mut RuntimeAuthState, field: Option<&AuthFieldInfo>, value: &str) -> (res: FieldSubmission)
    requires
        old(auth).wf(),
    ensures
        final(auth).wf(),
        (final(auth)@, res) == submitted(
            old(auth)@,
            match field {
                Some(f) => Some(f@),
                None => None,
            },
            value@,
        ),
{
    let ghost before = auth@;
    match field {
        None => FieldSubmission::Accepted,
        Some(f) => {
            if same(f.name.as_str(), "provider_id") && auth.provider_name_is_taken(value) {
                auth.field_error = Some(PROVIDER_ID_OCCUPIED_ERROR.to_owned());
                assert(auth@ =~~= submitted(before, Some(f@), value@).0);
                FieldSubmission::Rejected
            } else {
                auth.field_error = None;
                auth.collected_values.insert(f.name.as_str(), value);
                assert(auth@ =~~= submitted(before, Some(f@), value@).0);
                FieldSubmission::Accepted
            }
        },
    }
}

/// The form after the selected template was picked. An Aliyun provider whose
/// identity is settled authenticates by its RAM role where it can.
pub open spec fn picked(auth: AuthView) -> AuthView {
    let begun = auth.fields_begun();
    if begun.provider().id == "aliyun"@ && begun.default_provider_id {
        match begun.sysom {
            SysomView::Ecs(p) => challenged(begun, p),
            SysomView::Unprepared => AuthView { phase: PhaseView::AliyunEcsPreparing, ..begun },
            SysomView::Manual => begun,
        }
    } else {
        begun
    }
}

fn pick_template(auth: &mut RuntimeAuthState)
    requires
        old(auth).wf(),
    ensures
        final(auth).wf(),
        final(auth)@ == picked(old(auth)@),
{
    begin_provider_fields(auth);
    let ghost begun = auth@;
    let aliyun: bool = same(auth.current_provider().id.as_str(), "aliyun");
    if aliyun && auth.default_provider_id {
        let unprepared: bool = match &auth.sysom {
            SysomMenu::Unprepared => true,
            _ => false,
        };
        let role = match &auth.sysom {
            SysomMenu::Ecs(p) => Some(p.copy()),
            _ => None,
        };
        if unprepared {
            auth.phase = AuthPhase::AliyunEcsPreparing;
            assert(auth@ =~~= (AuthView { phase: PhaseView::AliyunEcsPreparing, ..begun }));
        } else if let Some(p) = role {
            set_challenge(auth, p);
        }
    }
}

/// The form after an answer: a template is picked, or the current field takes
/// the value and the next editable field follows.
pub open spec fn answer_applied(auth: AuthView, value: Seq<char>) -> (AuthView, AnswerOutcome) {
    match auth.phase {
        PhaseView::SelectingProvider => {
            let next = picked(auth);
            (
                next,
                if next.phase is FillingField && next.current_field >= next.provider().fields.len() {
                    AnswerOutcome::Submit
                } else {
                    AnswerOutcome::Moved
                },
            )
        },
        PhaseView::FillingField => if auth.current_field < auth.provider().fields.len() {
            let (stored, result) = submitted(
                auth,
                Some(auth.provider().fields[auth.current_field]),
                value,
            );
            if result == FieldSubmission::Rejected {
                (stored, AnswerOutcome::Rejected)
            } else {
                let next = stored.editable_from(auth.current_field + 1);
                (
                    AuthView { current_field: next, ..stored }.loaded(),
                    if next >= stored.provider().fields.len() {
                        AnswerOutcome::Submit
                    } else {
                        AnswerOutcome::Moved
                    },
                )
            }
        } else {
            (auth, AnswerOutcome::Submit)
        },
        _ => (auth, AnswerOutcome::Ignored),
    }
}

/// Applies the user's answer to the form.
pub fn handle_auth_answer(auth: &mut RuntimeAuthState, value: &str) -> (res: AnswerOutcome)
    requires
        old(auth).wf(),
        old(auth).current_field < usize::MAX,
    ensures
        final(auth).wf(),
        (final(auth)@, res) == answer_applied(old(auth)@, value@),
{
    let selecting: bool = match auth.phase {
        AuthPhase::SelectingProvider => true,
        _ => false,
    };
    let filling: bool = match auth.phase {
        AuthPhase::FillingField => true,
        _ => false,
    };
    if selecting {
        pick_template(auth);
        let open: bool = match auth.phase {
            AuthPhase::FillingField => true,
            _ => false,
        };
        if open && auth.current_field >= auth.current_provider().fields.len() {
            return AnswerOutcome::Submit;
        }
        return AnswerOutcome::Moved;
    }
    if !filling {
        return AnswerOutcome::Ignored;
    }
    let ghost before = auth@;
    let total: usize = auth.current_provider().fields.len();
    if auth.current_field >= total {
        return AnswerOutcome::Submit;
    }
    let index: usize = auth.current_field;
    let name: String = auth.current_provider().fields[index].name.clone();
    assert(auth@.provider().fields[index as int].name == name@);
    if same(name.as_str(), "provider_id") && auth.provider_name_is_taken(value) {
        auth.field_error = Some(PROVIDER_ID_OCCUPIED_ERROR.to_owned());
        assert(auth@ =~~= answer_applied(before, value@).0);
        return AnswerOutcome::Rejected;
    }
    auth.field_error = None;
    auth.collected_values.insert(name.as_str(), value);
    let ghost stored = submitted(before, Some(before.provider().fields[index as int]), value@).0;
    assert(auth@ =~~= stored);
    let next: usize = auth.editable_field_at_or_after(index + 1);
    auth.current_field = next;
    assert(auth@ =~~= (AuthView { current_field: next as int, ..stored }));
    auth.load_current_field_input();
    if next >= total {
        AnswerOutcome::Submit
    } else {
        AnswerOutcome::Moved
    }
}

/// `values` without the values of the first `n` fields that are secret.
pub open spec fn without_secrets(
    values: Map<Seq<char>, Seq<char>>,
    fields: Seq<FieldView>,
    n: int,
) -> Map<Seq<char>, Seq<char>>
    decreases n,
{
    if n <= 0 {
        values
    } else {
        let rest = without_secrets(values, fields, n - 1);
        if fields[n - 1].secret {
            rest.remove(fields[n - 1].name)
        } else {
            rest
        }
    }
}

/// The first field named `name`, from `start` on.
pub open spec fn named_from(auth: AuthView, name: Seq<char>, start: int) -> Option<int>
    decreases auth.provider().fields.len() - start,
{
    if start < 0 || start >= auth.provider().fields.len() {
        None
    } else if auth.provider().fields[start].name == name {
        Some(start)
    } else {
        named_from(auth, name, start + 1)
    }
}

/// The form after a failed submission: secrets are forgotten, and the field in
/// question, if it may be edited, else the first editable field, is open. Only
/// a failure of the identity itself makes a default identifier editable.
pub open spec fn restored(auth: AuthView, focus: Option<Seq<char>>) -> AuthView {
    let open = AuthView {
        phase: PhaseView::FillingField,
        collected_values: without_secrets(
            auth.collected_values,
            auth.provider().fields,
            auth.provider().fields.len() as int,
        ),
        default_provider_id: auth.default_provider_id && !(focus == Some("provider_id"@)
            && auth.editing_provider_name is None),
        ..auth
    };
    let at = match focus {
        Some(name) => match named_from(open, name, 0) {
            Some(index) => if open.editable(index) {
                index
            } else {
                open.editable_from(0)
            },
            None => open.editable_from(0),
        },
        None => open.editable_from(0),
    };
    AuthView { current_field: at, ..open }.loaded()
}

fn named_field(auth: &RuntimeAuthState, name: &str) -> (res: Option<usize>)
    requires
        auth.wf(),
    ensures
        match res {
            Some(i) => named_from(auth@, name@, 0) == Some(i as int),
            None => named_from(auth@, name@, 0) is None,
        },
{
    let provider = auth.current_provider();
    let total: usize = provider.fields.len();
    let mut i: usize = 0;
    while i < total
        invariant
            auth.wf(),
            provider@ == auth@.provider(),
            total == provider.fields@.len(),
            i <= total,
            named_from(auth@, name@, 0) == named_from(auth@, name@, i as int),
        decreases total - i,
    {
        assert(auth@.provider().fields[i as int] == provider.fields@[i as int]@);
        if same(provider.fields[i].name.as_str(), name) {
            return Some(i);
        }
        i = i + 1;
    }
    None
}

fn forget_secrets(auth: &mut RuntimeAuthState)
    requires
        old(auth).wf(),
    ensures
        final(auth).wf(),
        final(auth)@ == (AuthView {
            collected_values: without_secrets(
                old(auth)@.collected_values,
                old(auth)@.provider().fields,
                old(auth)@.provider().fields.len() as int,
            ),
            ..old(auth)@
        }),
{
    let ghost before = auth@;
    let total: usize = auth.current_provider().fields.len();
    let mut i: usize = 0;
    while i < total
        invariant
            auth.wf(),
            i <= total,
            total == before.provider().fields.len(),
            auth@ == (AuthView {
                collected_values: without_secrets(
                    before.collected_values,
                    before.provider().fields,
                    i as int,
                ),
                ..before
            }),
        decreases total - i,
    {
        let name: String = auth.current_provider().fields[i].name.clone();
        let secret: bool = auth.current_provider().fields[i].secret;
        assert(auth@.provider().fields[i as int].name == name@);
        assert(auth@.provider().fields[i as int].secret == secret);
        if secret {
            auth.collected_values.remove(name.as_str());
        }
        i = i + 1;
        assert(auth@ =~~= (AuthView {
            collected_values: without_secrets(
                before.collected_values,
                before.provider().fields,
                i as int,
            ),
            ..before
        }));
    }
}

/// Opens the form again after a failed submission.
pub fn restore_after_failed_submission_at(auth: &mut RuntimeAuthState, focus: Option<&str>)
    requires
        old(auth).wf(),
    ensures
        final(auth).wf(),
        final(auth)@ == restored(
            old(auth)@,
            match focus {
                Some(name) => Some(name@),
                None => None,
            },
        ),
{
    let ghost before = auth@;
    let ghost wanted = match focus {
        Some(name) => Some(name@),
        None => None,
    };
    forget_secrets(auth);
    auth.phase = AuthPhase::FillingField;
    let identity: bool = match focus {
        Some(name) => same(name, "provider_id"),
        None => false,
    };
    if identity && auth.editing_provider_name.is_none() {
        auth.default_provider_id = false;
    }
    let ghost open = AuthView {
        phase: PhaseView::FillingField,
        collected_values: without_secrets(
            before.collected_values,
            before.provider().fields,
            before.provider().fields.len() as int,
        ),
        default_provider_id: before.default_provider_id && !(wanted == Some("provider_id"@)
            && before.editing_provider_name is None),
        ..before
    };
    assert(auth@ =~~= open);
    let first: usize = auth.first_editable_field();
    let at: usize = match focus {
        Some(name) => match named_field(auth, name) {
            Some(index) => if auth.field_is_editable(index) {
                index
            } else {
                first
            },
            None => first,
        },
        None => first,
    };
    auth.current_field = at;
    assert(auth@ =~~= (AuthView { current_field: at as int, ..open }));
    auth.load_current_field_input();
}

/// Going back never stops at a field that the user may not edit.
pub proof fn going_back_skips_fixed_fields(auth: AuthView)
    requires
        auth.phase is FillingField,
        stepped_back(auth).phase is FillingField,
    ensures
        auth.editable(stepped_back(auth).current_field),
        stepped_back(auth).current_field < auth.current_field,
{
    lemma_editable_before(auth, auth.current_field);
}

proof fn lemma_editable_before(auth: AuthView, end: int)
    ensures
        auth.editable_before(end) matches Some(i) ==> auth.editable(i) && i < end,
    decreases end,
{
    if end > 0 && !auth.editable(end - 1) {
        lemma_editable_before(auth, end - 1);
    }
}

/// Going forward never stops at a field that the user may not edit.
pub proof fn going_forward_skips_fixed_fields(auth: AuthView, start: int)
    requires
        0 <= start,
        start <= auth.provider().fields.len(),
    ensures
        start <= auth.editable_from(start) <= auth.provider().fields.len(),
        auth.editable_from(start) < auth.provider().fields.len() ==> auth.editable(auth.editable_from(start)),
    decreases auth.provider().fields.len() - start,
{
    if start < auth.provider().fields.len() && !auth.editable(start) {
        going_forward_skips_fixed_fields(auth, start + 1);
    }
}

/// Picking a template forgets everything that was entered for another one: at
/// most the template's own name remains as a value.
pub proof fn picking_forgets_earlier_values(auth: AuthView, key: Seq<char>)
    requires
        auth.wf(),
        key != "provider_id"@,
    ensures
        !auth.fields_begun().collected_values.contains_key(key),
{
}

/// A failed submission leaves no secret behind.
pub proof fn failure_forgets_secrets(auth: AuthView, focus: Option<Seq<char>>, index: int)
    requires
        auth.wf(),
        0 <= index < auth.provider().fields.len(),
        auth.provider().fields[index].secret,
    ensures
        !restored(auth, focus).collected_values.contains_key(auth.provider().fields[index].name),
{
    lemma_secret_removed(
        auth.collected_values,
        auth.provider().fields,
        auth.provider().fields.len() as int,
        index,
    );
}

proof fn lemma_secret_removed(
    values: Map<Seq<char>, Seq<char>>,
    fields: Seq<FieldView>,
    n: int,
    index: int,
)
    requires
        0 <= index < n <= fields.len(),
        fields[index].secret,
    ensures
        !without_secrets(values, fields, n).contains_key(fields[index].name),
    decreases n,
{
    if index < n - 1 {
        lemma_secret_removed(values, fields, n - 1, index);
    }
}

} // verus!
