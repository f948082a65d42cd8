//! Configuration, hooks, terminals and permissions.

use vstd::prelude::*;

use crate::health::model::{
    derived, env_finding, env_warning, fact_views, finding_views, one_arg, one_text, push_fact,
    push_finding, FactValueView, FactView, FindingView, HealthFact, HealthFactCategory,
    HealthFactValue, HealthFinding, HealthScanReport,
};
use crate::health::provider::{toml_parse, toml_read};
use crate::i18n::MessageId;
use crate::login_shell::path::{same_components, same_path};
use crate::text::{
    chars_of, first_at, lemma_first_at_is, lines, lines_of, opt_view, same, text_of, texts, trim,
    trimmed,
};

verus! {

/// Whether the configuration file could be read, and made use of.
#[derive(Clone, Copy, Debug, PartialEq, Eq, Structural)]
pub struct ConfigFileStatus {
    pub readable: bool,
    pub parseable: bool,
}

/// The keys that the line format of the configuration knows.
pub open spec fn simple_key(key: Seq<char>) -> bool {
    ||| key == "shell.default"@
    ||| key == "shell.analysis_mode"@
    ||| key == "shell.approval_mode"@
    ||| key == "shell.adapter_default"@
    ||| key == "shell.trusted_command"@
    ||| key == "shell.trusted_project_root"@
    ||| key == "ui.language"@
    ||| key == "ui.startup_banner"@
    ||| key == "ui.startup_hooks"@
    ||| key == "ui.debug"@
    ||| key == "ui.log_level"@
    ||| key == "health.enabled"@
    ||| key == "health.role"@
    ||| key == "health.memory_sensitive"@
    ||| key == "health.verbose"@
}

fn is_simple_key(key: &str) -> (res: bool)
    ensures
        res == simple_key(key@),
{
    same(key, "shell.default") || same(key, "shell.analysis_mode") || same(
        key,
        "shell.approval_mode",
    ) || same(key, "shell.adapter_default") || same(key, "shell.trusted_command") || same(
        key,
        "shell.trusted_project_root",
    ) || same(key, "ui.language") || same(key, "ui.startup_banner") || same(
        key,
        "ui.startup_hooks",
    ) || same(key, "ui.debug") || same(key, "ui.log_level") || same(key, "health.enabled") || same(
        key,
        "health.role",
    ) || same(key, "health.memory_sensitive") || same(key, "health.verbose")
}

/// A line that is neither blank nor a comment.
pub open spec fn meaningful(line: Seq<char>) -> bool {
    trimmed(line).len() > 0 && trimmed(line)[0] != '#'
}

/// A line `key = value` with a known key.
pub open spec fn recognized(line: Seq<char>) -> bool {
    let text = trimmed(line);
    &&& meaningful(line)
    &&& first_at(text, '=') < text.len()
    &&& simple_key(trimmed(text.take(first_at(text, '='))))
}

/// What can be made use of: a document, a line with a known key, or nothing but
/// comments.
pub open spec fn consumable(content: Seq<char>) -> bool {
    ||| toml_read(content) is Some
    ||| exists|i: int| 0 <= i < lines_of(content).len() && recognized(#[trigger] lines_of(content)[i])
    ||| forall|i: int|
        0 <= i < lines_of(content).len() ==> !meaningful(#[trigger] lines_of(content)[i])
}

fn judge_line(line: &str) -> (res: (bool, bool))
    ensures
        res.0 == meaningful(line@),
        res.1 == recognized(line@),
{
    let text = trim(line);
    let chars = chars_of(text.as_str());
    if chars.len() == 0 || chars[0] == '#' {
        return (false, false);
    }
    let mut n: usize = 0;
    while n < chars.len() && chars[n] != '='
        invariant
            n <= chars@.len(),
            chars@ == text@,
            forall|j: int| 0 <= j < n ==> text@[j] != '=',
        decreases chars@.len() - n,
    {
        n = n + 1;
    }
    proof {
        lemma_first_at_is(text@, '=', n as int);
    }
    if n == chars.len() {
        return (true, false);
    }
    let name = text_of(&chars, 0, n);
    assert(name@ =~= text@.take(n as int));
    let key = trim(name.as_str());
    (true, is_simple_key(key.as_str()))
}

/// Whether the text of a configuration file can be made use of.
pub fn config_content_consumable(content: &str) -> (res: bool)
    ensures
        res == consumable(content@),
{
    if toml_parse(content).is_some() {
        return true;
    }
    let all = lines(content);
    let ghost views = texts(all@);
    let mut any: bool = false;
    let mut i: usize = 0;
    while i < all.len()
        invariant
            i <= all@.len(),
            views == texts(all@),
            views == lines_of(content@),
            any == exists|j: int| 0 <= j < i && meaningful(#[trigger] views[j]),
            forall|j: int| 0 <= j < i ==> !recognized(#[trigger] views[j]),
        decreases all@.len() - i,
    {
        let (useful, known) = judge_line(all[i].as_str());
        assert(views[i as int] == all@[i as int]@);
        if known {
            return true;
        }
        if useful {
            any = true;
        }
        i = i + 1;
    }
    !any
}

/// What became of the configuration file: `None` if there is none, which is in
/// order.
pub open spec fn file_status(content: Option<Option<Seq<char>>>) -> ConfigFileStatus {
    match content {
        None => ConfigFileStatus { readable: true, parseable: true },
        Some(None) => ConfigFileStatus { readable: false, parseable: false },
        Some(Some(text)) => ConfigFileStatus { readable: true, parseable: consumable(text) },
    }
}

/// What became of the configuration file. `exists` says whether there is one,
/// and `content` is what could be read of it.
pub fn config_file_status(exists: bool, content: Option<String>) -> (res: ConfigFileStatus)
    ensures
        res == file_status(
            if exists {
                Some(opt_view(content))
            } else {
                None
            },
        ),
{
    if !exists {
        return ConfigFileStatus { readable: true, parseable: true };
    }
    match content {
        Some(text) => ConfigFileStatus {
            readable: true,
            parseable: config_content_consumable(text.as_str()),
        },
        None => ConfigFileStatus { readable: false, parseable: false },
    }
}

/// What is configured, as far as it is reported.
pub struct ConfigSummary {
    pub language: String,
    pub adapter_default: String,
    pub approval_mode: String,
}

/// The facts about the configuration.
pub open spec fn config_facts(
    home_present: bool,
    status: ConfigFileStatus,
    summary: ConfigSummary,
    elapsed_ms: u128,
) -> Seq<FactView> {
    let c = HealthFactCategory::Config;
    seq![
        derived(c, "config.home_present"@, FactValueView::Bool(home_present), elapsed_ms),
        derived(c, "config.readable"@, FactValueView::Bool(status.readable), elapsed_ms),
        derived(c, "config.parseable"@, FactValueView::Bool(status.parseable), elapsed_ms),
        derived(c, "config.language"@, FactValueView::Text(summary.language@), elapsed_ms),
        derived(
            c,
            "config.adapter_default"@,
            FactValueView::Text(summary.adapter_default@),
            elapsed_ms,
        ),
        derived(
            c,
            "config.approval_mode"@,
            FactValueView::Text(summary.approval_mode@),
            elapsed_ms,
        ),
    ]
}

/// A finding about the configuration.
pub open spec fn config_finding(remedy: MessageId, evidence: Seq<char>) -> FindingView {
    env_warning(
        "env-config"@,
        MessageId::HealthFindingConfigUnavailable,
        remedy,
        Seq::empty(),
        seq![evidence],
    )
}

/// The findings about the configuration, each with the remedy that fits.
pub open spec fn config_findings(home_present: bool, status: ConfigFileStatus) -> Seq<FindingView> {
    if !home_present {
        seq![config_finding(MessageId::HealthRemediationConfig, "config.home_present"@)]
    } else if !status.readable {
        seq![config_finding(MessageId::HealthRemediationConfigUnreadable, "config.readable"@)]
    } else if !status.parseable {
        seq![config_finding(MessageId::HealthRemediationConfigInvalid, "config.parseable"@)]
    } else {
        Seq::empty()
    }
}

fn no_args() -> (res: Vec<(String, String)>)
    ensures
        crate::health::model::named_texts(res@) == Seq::<(Seq<char>, Seq<char>)>::empty(),
{
    let out: Vec<(String, String)> = Vec::new();
    assert(crate::health::model::named_texts(out@) =~= Seq::empty());
    out
}

fn config_warning(findings: &mut Vec<HealthFinding>, remedy: MessageId, evidence: &str)
    ensures
        finding_views(final(findings)@) == finding_views(old(findings)@).push(
            config_finding(remedy, evidence@),
        ),
{
    push_finding(
        findings,
        env_finding(
            "env-config".to_owned(),
            MessageId::HealthFindingConfigUnavailable,
            remedy,
            no_args(),
            one_text(evidence),
        ),
    );
}

/// Collects the state of the configuration.
pub fn collect_config(
    report: &mut HealthScanReport,
    home_present: bool,
    status: ConfigFileStatus,
    summary: &ConfigSummary,
    elapsed_ms: u128,
)
    ensures
        final(report)@ == old(report)@.recorded(
            config_facts(home_present, status, *summary, elapsed_ms),
            "config"@,
            config_findings(home_present, status),
        ),
{
    let mut facts: Vec<HealthFact> = Vec::new();
    let mut findings: Vec<HealthFinding> = Vec::new();
    let c = HealthFactCategory::Config;
    proof {
        assert(fact_views(facts@) =~= Seq::empty());
        assert(finding_views(findings@) =~= Seq::empty());
    }
    push_fact(&mut facts, c, "config.home_present", HealthFactValue::Bool(home_present), elapsed_ms);
    push_fact(&mut facts, c, "config.readable", HealthFactValue::Bool(status.readable), elapsed_ms);
    push_fact(&mut facts, c, "config.parseable", HealthFactValue::Bool(status.parseable), elapsed_ms);
    push_fact(
        &mut facts,
        c,
        "config.language",
        HealthFactValue::Text(summary.language.clone()),
        elapsed_ms,
    );
    push_fact(
        &mut facts,
        c,
        "config.adapter_default",
        HealthFactValue::Text(summary.adapter_default.clone()),
        elapsed_ms,
    );
    push_fact(
        &mut facts,
        c,
        "config.approval_mode",
        HealthFactValue::Text(summary.approval_mode.clone()),
        elapsed_ms,
    );
    if !home_present {
        config_warning(
            &mut findings,
            MessageId::HealthRemediationConfig,
            "config.home_present",
        );
    } else if !status.readable {
        config_warning(
            &mut findings,
            MessageId::HealthRemediationConfigUnreadable,
            "config.readable",
        );
    } else if !status.parseable {
        config_warning(
            &mut findings,
            MessageId::HealthRemediationConfigInvalid,
            "config.parseable",
        );
    }
    proof {
        assert(fact_views(facts@) =~~= config_facts(home_present, status, *summary, elapsed_ms));
        assert(finding_views(findings@) =~~= config_findings(home_present, status));
    }
    report.record(facts, "config", findings);
}

/// Whether hooks can run.
#[derive(Clone, Copy, Debug, PartialEq, Eq, Structural)]
pub enum HooksReadiness {
    Ready,
    ProjectUntrusted,
}

/// Whether hooks can run.
pub fn classify_hooks(project_present: bool, project_trusted: bool) -> (res: HooksReadiness)
    ensures
        res == (if project_present && !project_trusted {
            HooksReadiness::ProjectUntrusted
        } else {
            HooksReadiness::Ready
        }),
{
    if project_present && !project_trusted {
        HooksReadiness::ProjectUntrusted
    } else {
        HooksReadiness::Ready
    }
}

/// Whether a root is among the trusted ones. All paths have their links
/// resolved.
pub open spec fn trusted(root: Seq<char>, roots: Seq<Seq<char>>) -> bool {
    exists|i: int| 0 <= i < roots.len() && same_components(#[trigger] roots[i], root)
}

/// Whether a root is among the trusted ones.
pub fn is_trusted_root(root: &str, trusted_roots: &Vec<String>) -> (res: bool)
    ensures
        res == trusted(root@, texts(trusted_roots@)),
{
    let ghost roots = texts(trusted_roots@);
    let mut i: usize = 0;
    while i < trusted_roots.len()
        invariant
            i <= trusted_roots@.len(),
            roots == texts(trusted_roots@),
            forall|j: int| 0 <= j < i ==> !same_components(#[trigger] roots[j], root@),
        decreases trusted_roots@.len() - i,
    {
        assert(roots[i as int] == trusted_roots@[i as int]@);
        if same_path(trusted_roots[i].as_str(), root) {
            return true;
        }
        i = i + 1;
    }
    false
}

/// The facts about hooks.
pub open spec fn hook_facts(
    user_dir_present: bool,
    project_present: bool,
    project_trusted: bool,
    elapsed_ms: u128,
) -> Seq<FactView> {
    let c = HealthFactCategory::Hooks;
    seq![
        derived(c, "hooks.user_dir_present"@, FactValueView::Bool(user_dir_present), elapsed_ms),
        derived(c, "hooks.project_present"@, FactValueView::Bool(project_present), elapsed_ms),
        derived(c, "hooks.project_trusted"@, FactValueView::Bool(project_trusted), elapsed_ms),
    ]
}

/// Whether the hooks of a project are trusted; without a project nothing is
/// untrusted.
pub open spec fn hooks_trusted(project: Option<Seq<char>>, roots: Seq<Seq<char>>) -> bool {
    project is Some ==> trusted(project->0, roots)
}

/// The findings about hooks.
pub open spec fn hook_findings(project: Option<Seq<char>>, roots: Seq<Seq<char>>) -> Seq<FindingView> {
    if hooks_trusted(project, roots) {
        Seq::empty()
    } else {
        seq![
            env_warning(
                "env-hooks"@,
                MessageId::HealthFindingHooksUntrusted,
                MessageId::HealthRemediationHooks,
                seq![("path"@, project->0)],
                seq!["hooks.project_trusted"@],
            ),
        ]
    }
}

/// Collects the state of hooks. `project` is the root of the project that has
/// hooks, links resolved.
pub fn collect_hooks(
    report: &mut HealthScanReport,
    user_dir_present: bool,
    project: &Option<String>,
    trusted_roots: &Vec<String>,
    elapsed_ms: u128,
)
    ensures
        final(report)@ == old(report)@.recorded(
            hook_facts(
                user_dir_present,
                project is Some,
                hooks_trusted(opt_view(*project), texts(trusted_roots@)),
                elapsed_ms,
            ),
            "hooks"@,
            hook_findings(opt_view(*project), texts(trusted_roots@)),
        ),
{
    let project_present: bool = project.is_some();
    let project_trusted: bool = match project {
        Some(root) => is_trusted_root(root.as_str(), trusted_roots),
        None => true,
    };
    let mut facts: Vec<HealthFact> = Vec::new();
    let mut findings: Vec<HealthFinding> = Vec::new();
    let c = HealthFactCategory::Hooks;
    proof {
        assert(fact_views(facts@) =~= Seq::empty());
        assert(finding_views(findings@) =~= Seq::empty());
    }
    push_fact(
        &mut facts,
        c,
        "hooks.user_dir_present",
        HealthFactValue::Bool(user_dir_present),
        elapsed_ms,
    );
    push_fact(
        &mut facts,
        c,
        "hooks.project_present",
        HealthFactValue::Bool(project_present),
        elapsed_ms,
    );
    push_fact(
        &mut facts,
        c,
        "hooks.project_trusted",
        HealthFactValue::Bool(project_trusted),
        elapsed_ms,
    );
    if classify_hooks(project_present, project_trusted) == HooksReadiness::ProjectUntrusted {
        if let Some(root) = project {
            push_finding(
                &mut findings,
                env_finding(
                    "env-hooks".to_owned(),
                    MessageId::HealthFindingHooksUntrusted,
                    MessageId::HealthRemediationHooks,
                    one_arg("path", root.as_str()),
                    one_text("hooks.project_trusted"),
                ),
            );
        }
    }
    proof {
        assert(fact_views(facts@) =~~= hook_facts(
            user_dir_present,
            project is Some,
            hooks_trusted(opt_view(*project), texts(trusted_roots@)),
            elapsed_ms,
        ));
        assert(finding_views(findings@) =~~= hook_findings(
            opt_view(*project),
            texts(trusted_roots@),
        ));
    }
    report.record(facts, "hooks", findings);
}

/// The findings about terminals.
pub open spec fn pty_findings(available: bool) -> Seq<FindingView> {
    if available {
        Seq::empty()
    } else {
        seq![
            env_warning(
                "env-pty"@,
                MessageId::HealthFindingPtyUnavailable,
                MessageId::HealthRemediationPty,
                Seq::empty(),
                seq!["pty.ptmx_available"@],
            ),
        ]
    }
}

/// Collects whether terminals can be made.
pub fn collect_pty(report: &mut HealthScanReport, available: bool, elapsed_ms: u128)
    ensures
        final(report)@ == old(report)@.recorded(
            seq![
                derived(
                    HealthFactCategory::Pty,
                    "pty.ptmx_available"@,
                    FactValueView::Bool(available),
                    elapsed_ms,
                ),
            ],
            "pty"@,
            pty_findings(available),
        ),
{
    let mut facts: Vec<HealthFact> = Vec::new();
    let mut findings: Vec<HealthFinding> = Vec::new();
    proof {
        assert(fact_views(facts@) =~= Seq::empty());
        assert(finding_views(findings@) =~= Seq::empty());
    }
    push_fact(
        &mut facts,
        HealthFactCategory::Pty,
        "pty.ptmx_available",
        HealthFactValue::Bool(available),
        elapsed_ms,
    );
    if !available {
        push_finding(
            &mut findings,
            env_finding(
                "env-pty".to_owned(),
                MessageId::HealthFindingPtyUnavailable,
                MessageId::HealthRemediationPty,
                no_args(),
                one_text("pty.ptmx_available"),
            ),
        );
    }
    proof {
        assert(fact_views(facts@) =~~= seq![
            derived(
                HealthFactCategory::Pty,
                "pty.ptmx_available"@,
                FactValueView::Bool(available),
                elapsed_ms,
            ),
        ]);
        assert(finding_views(findings@) =~~= pty_findings(available));
    }
    report.record(facts, "pty", findings);
}

/// Whether the state directory can be written.
#[derive(Clone, Copy, Debug, PartialEq, Eq, Structural)]
pub enum PermissionsReadiness {
    Ready,
    Unwritable,
}

/// Whether the state directory can be written.
pub fn classify_permissions(writable: bool) -> (res: PermissionsReadiness)
    ensures
        res == (if writable {
            PermissionsReadiness::Ready
        } else {
            PermissionsReadiness::Unwritable
        }),
{
    if writable {
        PermissionsReadiness::Ready
    } else {
        PermissionsReadiness::Unwritable
    }
}

/// The findings about permissions.
pub open spec fn permission_findings(path: Seq<char>, writable: bool) -> Seq<FindingView> {
    if writable {
        Seq::empty()
    } else {
        seq![
            env_warning(
                "env-permissions"@,
                MessageId::HealthFindingPermissionsUnwritable,
                MessageId::HealthRemediationPermissions,
                seq![("path"@, path)],
                seq!["permissions.state_dir_writable"@],
            ),
        ]
    }
}

/// The facts about permissions.
pub open spec fn permission_facts(path: Seq<char>, writable: bool, elapsed_ms: u128) -> Seq<FactView> {
    let c = HealthFactCategory::Permissions;
    seq![
        derived(c, "permissions.state_dir"@, FactValueView::Text(path), elapsed_ms),
        derived(
            c,
            "permissions.state_dir_writable"@,
            FactValueView::Bool(writable),
            elapsed_ms,
        ),
    ]
}

/// Collects whether the state directory can be written. Without one the path
/// is empty.
pub fn collect_permissions(
    report: &mut HealthScanReport,
    state_dir: &str,
    writable: bool,
    elapsed_ms: u128,
)
    ensures
        final(report)@ == old(report)@.recorded(
            permission_facts(state_dir@, writable, elapsed_ms),
            "permissions"@,
            permission_findings(state_dir@, writable),
        ),
{
    let mut facts: Vec<HealthFact> = Vec::new();
    let mut findings: Vec<HealthFinding> = Vec::new();
    let c = HealthFactCategory::Permissions;
    proof {
        assert(fact_views(facts@) =~= Seq::empty());
        assert(finding_views(findings@) =~= Seq::empty());
    }
    push_fact(
        &mut facts,
        c,
        "permissions.state_dir",
        HealthFactValue::Text(state_dir.to_owned()),
        elapsed_ms,
    );
    push_fact(
        &mut facts,
        c,
        "permissions.state_dir_writable",
        HealthFactValue::Bool(writable),
        elapsed_ms,
    );
    if classify_permissions(writable) == PermissionsReadiness::Unwritable {
        push_finding(
            &mut findings,
            env_finding(
                "env-permissions".to_owned(),
                MessageId::HealthFindingPermissionsUnwritable,
                MessageId::HealthRemediationPermissions,
                one_arg("path", state_dir),
                one_text("permissions.state_dir_writable"),
            ),
        );
    }
    proof {
        assert(fact_views(facts@) =~~= permission_facts(state_dir@, writable, elapsed_ms));
        assert(finding_views(findings@) =~~= permission_findings(state_dir@, writable));
    }
    report.record(facts, "permissions", findings);
}

} // verus!
