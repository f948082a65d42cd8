//! What holds of every managed shell: how it is called, what it finds in its
//! environment and its files, and how its prompt is shown.

use vstd::prelude::*;
use vstd::utf8::encode_utf8;

use crate::login_shell::path::{absolute, component_count, path_in};
use crate::shell_host::capability::{
    candidates_for, compatible_key, function_prefix, inject_script, is_identifier, search_at,
    search_inspected,    search_probed, ProbeResult, SearchPhase, SearchStepView, SearchView,
};
use crate::shell_host::effects::{LoginEffectSource, LoginEffects};
use crate::shell_host::failopen::{exit_code_of, falls_open, forced, ExecFailure};
use crate::shell_host::launch::{
    bash_launch, child_value, expired, inject_body, inject_changes, last_override, login_note, mode_changes,
    original_zdotdir, override_changes, planned, put, session_changes, takes_identity,
    variable_after, zsh_launch, EnvChangeView, FileView, Inherited, ShellAdapter, ShellHostConfig,
    ShellIntegration,
};
use crate::shell_host::prompt::{
    ascending, assisted_status, prefix_length, shell_only_status, sliced, starts_from, transformed,
    woven, PresentationView, PromptDisplayStart,
};
use crate::text::{opt_view, pieces};

verus! {

/// A Bash with a marker and without a login identity reads the marker for its
/// startup file: the argument right behind `--rcfile` is the marker and stands
/// nowhere else, and `-i` comes last, so that no option takes it.
pub proof fn markers_are_the_startup_file(marker: Seq<char>, config: ShellHostConfig, i: int)
    requires
        absolute(marker),
        !takes_identity(config),
        0 <= i < bash_launch(Some(marker), config).args.len(),
    ensures
        ({
            let launch = bash_launch(Some(marker), config);
            let n = launch.args.len();
            &&& launch.argv0 is None
            &&& launch.args.last() == "-i"@
            &&& launch.args[n - 2] != "--rcfile"@
            &&& launch.args[i] == "--rcfile"@ ==> i + 1 < n && launch.args[i + 1] == marker
            &&& launch.args[i] == marker ==> i > 0 && launch.args[i - 1] == "--rcfile"@
            &&& launch.args.contains(marker)
            &&& launch.args[i] == "-i"@ ==> i == n - 1
            &&& launch.args[i] == "--noprofile"@ ==> i == 0 && !config.native_mode
            &&& !config.native_mode ==> launch.args[0] == "--noprofile"@
            &&& !launch.args.contains("--norc"@)
        }),
{
    reveal_strlit("-i");
    reveal_strlit("--rcfile");
    reveal_strlit("--noprofile");
    reveal_strlit("--norc");
    assert("-i"@.len() == 2 && "--rcfile"@.len() == 8 && "--noprofile"@.len() == 11 && "--norc"@.len()
        == 6);
    assert("-i"@[0] == '-' && "--rcfile"@[0] == '-' && "--noprofile"@[0] == '-' && "--norc"@[0] == '-');
    let args = bash_launch(Some(marker), config).args;
    let at: int = if config.native_mode {
        1
    } else {
        2
    };
    assert(args[at] == marker);
}

/// A Bash with a login identity is called as a login shell and gets its marker
/// through the environment, never as an argument.
pub proof fn login_identities_are_called_as_logins(marker: Seq<char>, config: ShellHostConfig)
    requires
        takes_identity(config),
        absolute(marker),
    ensures
        bash_launch(Some(marker), config).argv0 == Some("-bash"@),
        bash_launch(Some(marker), config).args.contains("-i"@),
        bash_launch(Some(marker), config).args.contains("--posix"@),
        !bash_launch(Some(marker), config).args.contains(marker),
        bash_launch(Some(marker), config).args.len() == 2,
{
    reveal_strlit("-i");
    reveal_strlit("--posix");
    assert("-i"@[0] == '-' && "--posix"@[0] == '-');
    let args = bash_launch(Some(marker), config).args;
    assert(args[0] == "--posix"@ && args[1] == "-i"@);
}

/// A login identity takes a login with markers and with the user's own startup
/// files, the wish for one, and a Bash that can have one.
pub proof fn login_identities_need_everything(config: ShellHostConfig)
    ensures
        takes_identity(config) <==> config.integration == ShellIntegration::Enhanced
            && config.native_mode && config.login_shell && config.login_identity
            && config.bash_login_env_posix,
{
}

/// A Bash without a marker is interactive, a login exactly where that was asked
/// for, and reads no startup files exactly where it is isolated.
pub proof fn plain_bash_is_told_its_role(config: ShellHostConfig)
    ensures
        ({
            let launch = bash_launch(None, config);
            &&& launch.argv0 is None
            &&& launch.env.len() == 0
            &&& launch.args.last() == "-i"@
            &&& launch.args.contains("--login"@) <==> config.login_shell
            &&& launch.args.contains("--noprofile"@) <==> !config.native_mode
            &&& launch.args.contains("--norc"@) <==> !config.native_mode
            &&& !launch.args.contains("--rcfile"@)
        }),
{
    reveal_strlit("-i");
    reveal_strlit("--login");
    reveal_strlit("--noprofile");
    reveal_strlit("--norc");
    reveal_strlit("--rcfile");
    assert("-i"@.len() == 2 && "--login"@.len() == 7 && "--noprofile"@.len() == 11 && "--norc"@.len()
        == 6 && "--rcfile"@.len() == 8);
    let args = bash_launch(None, config).args;
    if !config.native_mode {
        assert(args[0] == "--noprofile"@ && args[1] == "--norc"@);
        if config.login_shell {
            assert(args[2] == "--login"@);
        }
    } else if config.login_shell {
        assert(args[0] == "--login"@);
    }
}

proof fn lemma_variable_of_both(
    a: Seq<EnvChangeView>,
    b: Seq<EnvChangeView>,
    key: Seq<char>,
    inherited: Option<Seq<u8>>,
)
    ensures
        variable_after(a + b, key, inherited) == variable_after(
            b,
            key,
            variable_after(a, key, inherited),
        ),
    decreases b.len(),
{
    if b.len() == 0 {
        assert(a + b =~= a);
    } else {
        assert((a + b).last() == b.last());
        assert((a + b).drop_last() =~= a + b.drop_last());
        lemma_variable_of_both(a, b.drop_last(), key, inherited);
    }
}

proof fn lemma_one_change(change: EnvChangeView, key: Seq<char>, inherited: Option<Seq<u8>>)
    ensures
        variable_after(seq![change], key, inherited) == (match change {
            EnvChangeView::Put(k, v) => if k == key {
                Some(v)
            } else {
                inherited
            },
            EnvChangeView::Remove(k) => if k == key {
                None
            } else {
                inherited
            },
        }),
{
    assert(seq![change].drop_last() =~= Seq::empty());
    assert(variable_after(seq![change].drop_last(), key, inherited) == inherited);
}

/// A change of one variable leaves every other variable alone, and the last change
/// of a variable counts.
pub proof fn the_last_change_counts(
    before: Seq<EnvChangeView>,
    change: EnvChangeView,
    key: Seq<char>,
    inherited: Option<Seq<u8>>,
)
    ensures
        variable_after(before.push(change), key, inherited) == (match change {
            EnvChangeView::Put(k, v) => if k == key {
                Some(v)
            } else {
                variable_after(before, key, inherited)
            },
            EnvChangeView::Remove(k) => if k == key {
                None
            } else {
                variable_after(before, key, inherited)
            },
        }),
{
    assert(before.push(change).drop_last() =~= before);
}

/// The last override of a variable is its value; a variable without an override
/// stays what it was.
pub proof fn overrides_set_their_variables(
    overrides: Seq<(String, String)>,
    key: Seq<char>,
    inherited: Option<Seq<u8>>,
)
    ensures
        variable_after(override_changes(overrides), key, inherited) == child_value(
            overrides,
            key,
            inherited,
        ),
        (exists|i: int| 0 <= i < overrides.len() && (#[trigger] overrides[i]).0@ == key)
            <==> last_override(overrides, key) is Some,
        overrides.len() > 0 && overrides.last().0@ == key ==> last_override(overrides, key) == Some(
            overrides.last().1@,
        ),
    decreases overrides.len(),
{
    if overrides.len() > 0 {
        let rest = overrides.drop_last();
        overrides_set_their_variables(rest, key, inherited);
        assert(override_changes(overrides).drop_last() =~= override_changes(rest));
        assert(override_changes(overrides).last() == put(overrides.last().0@, overrides.last().1@));
        if overrides.last().0@ == key {
            assert(overrides[overrides.len() - 1].0@ == key);
        } else if last_override(rest, key) is Some {
            let i = choose|i: int| 0 <= i < rest.len() && (#[trigger] rest[i]).0@ == key;
            assert(overrides[i].0@ == key);
        } else {
            assert forall|i: int| 0 <= i < overrides.len() implies (#[trigger] overrides[i]).0@ != key by {
                if i < rest.len() {
                    assert(rest[i] == overrides[i]);
                }
            }
        }
    }
}

/// The marker of a login is told of it, and no other marker is.
pub proof fn markers_know_of_a_login(
    adapter: ShellAdapter,
    marker: Seq<char>,
    config: ShellHostConfig,
    zdotdir: Option<Seq<char>>,
    home: Option<Seq<char>>,
)
    ensures
        variable_after(
            adapter.launch(Some(marker), config, zdotdir, home).env,
            "COSH_LOGIN_SHELL"@,
            None,
        ) == (if config.login_shell {
            Some(encode_utf8("1"@))
        } else {
            None
        }),
{
    reveal_strlit("COSH_LOGIN_SHELL");
    reveal_strlit("ZDOTDIR");
    reveal_strlit("COSH_ZDOTDIR_ORIG");
    assert("COSH_LOGIN_SHELL"@.len() == 16 && "ZDOTDIR"@.len() == 7 && "COSH_ZDOTDIR_ORIG"@.len() == 17);
    let key = "COSH_LOGIN_SHELL"@;
    let env = adapter.launch(Some(marker), config, zdotdir, home).env;
    lemma_one_change(put(key, "1"@), key, None);
    if adapter is Zsh {
        let note = login_note(config.login_shell);
        let first = seq![put("ZDOTDIR"@, config.work_dir@)];
        let original = original_zdotdir(config.env_overrides@, zdotdir, home);
        let second = if config.native_mode && original is Some {
            seq![put("COSH_ZDOTDIR_ORIG"@, original->0)]
        } else {
            Seq::empty()
        };
        assert(env == first + second + note);
        lemma_variable_of_both(first + second, note, key, None);
        lemma_variable_of_both(first, second, key, None);
        lemma_one_change(put("ZDOTDIR"@, config.work_dir@), key, None);
        if config.native_mode && original is Some {
            lemma_one_change(put("COSH_ZDOTDIR_ORIG"@, original->0), key, None);
        }
    }
}

/// A Zsh with a marker reads the session's own startup directory and is told where
/// the user's one is, exactly where that is to be read.
pub proof fn zsh_finds_both_directories(
    marker: Seq<char>,
    config: ShellHostConfig,
    zdotdir: Option<Seq<char>>,
    home: Option<Seq<char>>,
    before: Option<Seq<u8>>,
)
    ensures
        ({
            let launch = zsh_launch(Some(marker), config, zdotdir, home);
            let original = original_zdotdir(config.env_overrides@, zdotdir, home);
            &&& launch.argv0 is None
            &&& launch.args == seq!["-i"@]
            &&& variable_after(launch.env, "ZDOTDIR"@, before) == Some(encode_utf8(config.work_dir@))
            &&& variable_after(launch.env, "COSH_ZDOTDIR_ORIG"@, before) == (if config.native_mode
                && original is Some {
                Some(encode_utf8(original->0))
            } else {
                before
            })
        }),
{
    reveal_strlit("COSH_LOGIN_SHELL");
    reveal_strlit("ZDOTDIR");
    reveal_strlit("COSH_ZDOTDIR_ORIG");
    assert("COSH_LOGIN_SHELL"@.len() == 16 && "ZDOTDIR"@.len() == 7 && "COSH_ZDOTDIR_ORIG"@.len() == 17);
    let note = login_note(config.login_shell);
    let first = seq![put("ZDOTDIR"@, config.work_dir@)];
    let original = original_zdotdir(config.env_overrides@, zdotdir, home);
    let second = if config.native_mode && original is Some {
        seq![put("COSH_ZDOTDIR_ORIG"@, original->0)]
    } else {
        Seq::empty()
    };
    lemma_zsh_variable(first, second, note, config, "ZDOTDIR"@, before);
    lemma_zsh_variable(first, second, note, config, "COSH_ZDOTDIR_ORIG"@, before);
    if config.native_mode && original is Some {
        lemma_one_change(
            put("COSH_ZDOTDIR_ORIG"@, original->0),
            "ZDOTDIR"@,
            Some(encode_utf8(config.work_dir@)),
        );
        lemma_one_change(put("COSH_ZDOTDIR_ORIG"@, original->0), "COSH_ZDOTDIR_ORIG"@, before);
    }
}

proof fn lemma_zsh_variable(
    first: Seq<EnvChangeView>,
    second: Seq<EnvChangeView>,
    note: Seq<EnvChangeView>,
    config: ShellHostConfig,
    key: Seq<char>,
    before: Option<Seq<u8>>,
)
    requires
        first == seq![put("ZDOTDIR"@, config.work_dir@)],
        note == login_note(config.login_shell),
        key != "COSH_LOGIN_SHELL"@,
    ensures
        variable_after(first + second + note, key, before) == variable_after(
            second,
            key,
            if key == "ZDOTDIR"@ {
                Some(encode_utf8(config.work_dir@))
            } else {
                before
            },
        ),
{
    lemma_variable_of_both(first + second, note, key, before);
    lemma_variable_of_both(first, second, key, before);
    lemma_one_change(put("ZDOTDIR"@, config.work_dir@), key, before);
    let middle = variable_after(first + second, key, before);
    if config.login_shell {
        lemma_one_change(put("COSH_LOGIN_SHELL"@, "1"@), key, middle);
    }
}

/// A Zsh without a marker is a login exactly where that was asked for, and its own
/// startup files are replaced exactly where it is isolated.
pub proof fn plain_zsh_is_told_its_role(
    config: ShellHostConfig,
    zdotdir: Option<Seq<char>>,
    home: Option<Seq<char>>,
    before: Option<Seq<u8>>,
)
    ensures
        ({
            let launch = zsh_launch(None, config, zdotdir, home);
            &&& launch.args.last() == "-i"@
            &&& launch.args.contains("-l"@) <==> config.login_shell
            &&& variable_after(launch.env, "ZDOTDIR"@, before) == (if config.native_mode {
                before
            } else {
                Some(encode_utf8(config.work_dir@))
            })
        }),
{
    reveal_strlit("-i");
    reveal_strlit("-l");
    assert("-i"@[1] == 'i' && "-l"@[1] == 'l');
    let args = zsh_launch(None, config, zdotdir, home).args;
    if config.login_shell {
        assert(args[0] == "-l"@);
    }
    lemma_one_change(put("ZDOTDIR"@, config.work_dir@), "ZDOTDIR"@, before);
}

/// The startup directory of the user is the one that the shell would have used: an
/// override counts before what is inherited, and a directory of its own before the
/// home directory.
pub proof fn startup_directories_have_an_order(
    overrides: Seq<(String, String)>,
    zdotdir: Option<Seq<char>>,
    home: Option<Seq<char>>,
)
    ensures
        ({
            let given = last_override(overrides, "ZDOTDIR"@);
            let given_home = last_override(overrides, "HOME"@);
            let found = original_zdotdir(overrides, zdotdir, home);
            &&& given is Some ==> found == given
            &&& given is None && given_home is Some ==> found == given_home
            &&& given is None && given_home is None && zdotdir is Some ==> found == zdotdir
            &&& given is None && given_home is None && zdotdir is None ==> found == home
        }),
{
}

/// What a session's shell is called with is among its files: the startup file that
/// Bash is given is in the session's directory and holds the marker script.
pub proof fn startup_files_hold_the_marker(
    config: ShellHostConfig,
    adapter: ShellAdapter,
    marker_script: Seq<char>,
    inherited: Inherited,
)
    requires
        config.integration is Enhanced,
    ensures
        ({
            let plan = planned(config, adapter, marker_script, inherited);
            let name = if adapter is Bash {
                "cosh-marker.bash"@
            } else {
                ".zshrc"@
            };
            let path = path_in(config.work_dir@, name);
            &&& plan.files.contains(FileView { path, content: marker_script })
            &&& adapter is Bash && !takes_identity(config) ==> plan.launch.args == bash_launch(
                Some(path),
                config,
            ).args && plan.launch.args.contains(path)
            &&& adapter is Bash && takes_identity(config) ==> plan.files.contains(
                FileView {
                    path: path_in(config.work_dir@, "cosh-login-inject.bash"@),
                    content: inject_body(marker_script),
                },
            )
            &&& plan.files.contains(
                FileView {
                    path: path_in(config.work_dir@, "assistance-enabled"@),
                    content: "enabled\n"@,
                },
            )
        }),
{
    let plan = planned(config, adapter, marker_script, inherited);
    assert(plan.files[0].content == "enabled\n"@);
    assert(plan.files[2].content == marker_script);
    if adapter is Bash && takes_identity(config) {
        assert(plan.files[3].content == inject_body(marker_script));
    }
    if adapter is Bash && !takes_identity(config) {
        let at: int = if config.native_mode {
            1
        } else {
            2
        };
        assert(plan.launch.args[at] == path_in(config.work_dir@, "cosh-marker.bash"@));
    }
}

/// A session without markers writes none, and runs the program of its own shell in
/// any case.
pub proof fn sessions_run_their_shell(
    config: ShellHostConfig,
    adapter: ShellAdapter,
    marker_script: Seq<char>,
    inherited: Inherited,
)
    ensures
        ({
            let plan = planned(config, adapter, marker_script, inherited);
            &&& plan.program == (if adapter is Bash {
                config.bash_path@
            } else {
                config.zsh_path@
            })
            &&& plan.directories == seq![
                config.work_dir@,
                path_in(config.work_dir@, "output-refs"@),
            ]
            &&& config.integration is Native && (config.native_mode || adapter is Zsh)
                ==> plan.files.len() == 0
            &&& config.integration is Native ==> plan.launch.args == adapter.launch(
                None,
                config,
                opt_view(inherited.zdotdir),
                opt_view(inherited.home),
            ).args
            &&& plan.zsh_path_prompt_buffering <==> config.integration is Enhanced && adapter is Zsh
            &&& plan.recovery_request_file == path_in(
                config.work_dir@,
                "terminal-recovery-request"@,
            )
            &&& plan.handoff_request_file == path_in(config.work_dir@, "shell-handoff-request"@)
        }),
{
}

/// The variables that a session sets behind the overrides.
pub open spec fn reserved(key: Seq<char>) -> bool {
    ||| key == "ENV"@
    ||| key == "COSH_LOGIN_INJECT"@
    ||| key == "COSH_PRIOR_ENV"@
    ||| key == "COSH_PRIOR_HISTFILE"@
    ||| key == "COSH_PRIOR_BASHOPTS"@
    ||| key == "INPUTRC"@
}

/// An override of any variable but the reserved ones is what the shell finds; a
/// reserved one is only touched where the session needs it.
pub proof fn overrides_reach_the_shell(
    config: ShellHostConfig,
    adapter: ShellAdapter,
    marker_script: Seq<char>,
    inherited: Inherited,
    key: Seq<char>,
    before: Option<Seq<u8>>,
)
    requires
        last_override(config.env_overrides@, key) is Some,
        !reserved(key),
    ensures
        variable_after(
            planned(config, adapter, marker_script, inherited).launch.env,
            key,
            before,
        ) == Some(encode_utf8(last_override(config.env_overrides@, key)->0)),
{
    let marker = if config.integration is Enhanced {
        Some(path_in(config.work_dir@, adapter.marker_name()))
    } else {
        None
    };
    let first = adapter.launch(
        marker,
        config,
        opt_view(inherited.zdotdir),
        opt_view(inherited.home),
    ).env;
    lemma_session_variable(config, adapter, first, inherited, key, before);
}

proof fn lemma_session_variable(
    config: ShellHostConfig,
    adapter: ShellAdapter,
    first: Seq<EnvChangeView>,
    inherited: Inherited,
    key: Seq<char>,
    before: Option<Seq<u8>>,
)
    requires
        !reserved(key),
    ensures
        variable_after(session_changes(config, adapter, first, inherited), key, before) == child_value(
            config.env_overrides@,
            key,
            variable_after(first + mode_changes(config), key, before),
        ),
{
    let given = override_changes(config.env_overrides@);
    let head = first + mode_changes(config);
    let inject = if adapter is Bash && takes_identity(config) {
        inject_changes(config, inherited)
    } else {
        Seq::empty()
    };
    let last = if !config.native_mode && adapter is Bash {
        seq![put("INPUTRC"@, path_in(config.work_dir@, "inputrc"@))]
    } else {
        Seq::empty()
    };
    assert(session_changes(config, adapter, first, inherited) == head + given + inject + last);
    lemma_variable_of_both(head + given + inject, last, key, before);
    lemma_variable_of_both(head + given, inject, key, before);
    lemma_variable_of_both(head, given, key, before);
    overrides_set_their_variables(
        config.env_overrides@,
        key,
        variable_after(head, key, before),
    );
    let here = variable_after(head + given, key, before);
    lemma_untouched(inject, key, here);
    lemma_untouched(last, key, here);
}

/// Whether a change is to this variable.
spec fn touches(change: EnvChangeView, key: Seq<char>) -> bool {
    match change {
        EnvChangeView::Put(k, _) => k == key,
        EnvChangeView::Remove(k) => k == key,
    }
}

proof fn lemma_untouched(all: Seq<EnvChangeView>, key: Seq<char>, inherited: Option<Seq<u8>>)
    requires
        forall|i: int| 0 <= i < all.len() ==> !touches(#[trigger] all[i], key),
    ensures
        variable_after(all, key, inherited) == inherited,
    decreases all.len(),
{
    if all.len() > 0 {
        assert(!touches(all[all.len() - 1], key));
        assert forall|i: int| 0 <= i < all.drop_last().len() implies !touches(
            #[trigger] all.drop_last()[i],
            key,
        ) by {
            assert(all.drop_last()[i] == all[i]);
        }
        lemma_untouched(all.drop_last(), key, inherited);
    }
}

/// Without overrides, the shell is told its session exactly where it reports, and
/// is marked as isolated exactly where it is.
pub proof fn shells_are_told_their_session(
    config: ShellHostConfig,
    adapter: ShellAdapter,
    marker_script: Seq<char>,
    inherited: Inherited,
    before: Option<Seq<u8>>,
)
    requires
        last_override(config.env_overrides@, "COSH_SESSION_ID"@) is None,
        last_override(config.env_overrides@, "COSH_SHELL_ISOLATED"@) is None,
    ensures
        ({
            let env = planned(config, adapter, marker_script, inherited).launch.env;
            &&& config.integration is Enhanced ==> variable_after(env, "COSH_SESSION_ID"@, before)
                == Some(encode_utf8(config.session_id@))
            &&& config.native_mode ==> variable_after(env, "COSH_SHELL_ISOLATED"@, before) is None
            &&& !config.native_mode ==> variable_after(env, "COSH_SHELL_ISOLATED"@, before) == Some(
                encode_utf8("1"@),
            )
        }),
{
    reveal_strlit("COSH_SESSION_ID");
    reveal_strlit("COSH_SHELL_ISOLATED");
    reveal_strlit("COSH_HISTFILE");
    reveal_strlit("COSH_POC_PS1");
    reveal_strlit("BASH_SILENCE_DEPRECATION_WARNING");
    reveal_strlit("ENV");
    reveal_strlit("COSH_LOGIN_INJECT");
    reveal_strlit("COSH_PRIOR_ENV");
    reveal_strlit("COSH_PRIOR_HISTFILE");
    reveal_strlit("COSH_PRIOR_BASHOPTS");
    reveal_strlit("INPUTRC");
    let id = "COSH_SESSION_ID"@;
    let isolated = "COSH_SHELL_ISOLATED"@;
    assert(id.len() == 15 && isolated.len() == 19 && "COSH_HISTFILE"@.len() == 13
        && "COSH_POC_PS1"@.len() == 12 && "BASH_SILENCE_DEPRECATION_WARNING"@.len() == 32);
    assert("ENV"@.len() == 3 && "COSH_LOGIN_INJECT"@.len() == 17 && "COSH_PRIOR_ENV"@.len() == 14
        && "INPUTRC"@.len() == 7);
    assert(isolated[5] == 'S' && "COSH_PRIOR_HISTFILE"@[5] == 'P' && "COSH_PRIOR_BASHOPTS"@[5] == 'P');
    let marker = if config.integration is Enhanced {
        Some(path_in(config.work_dir@, adapter.marker_name()))
    } else {
        None
    };
    let first = adapter.launch(
        marker,
        config,
        opt_view(inherited.zdotdir),
        opt_view(inherited.home),
    ).env;
    lemma_session_variable(config, adapter, first, inherited, id, before);
    lemma_session_variable(config, adapter, first, inherited, isolated, before);
    let told = if config.integration is Enhanced {
        seq![put(id, config.session_id@)]
    } else {
        Seq::empty()
    };
    let own = if config.native_mode {
        seq![EnvChangeView::Remove(isolated)]
    } else {
        seq![
            put("COSH_HISTFILE"@, path_in(config.work_dir@, "history"@)),
            put("COSH_POC_PS1"@, config.prompt@),
            put("BASH_SILENCE_DEPRECATION_WARNING"@, "1"@),
            put(isolated, "1"@),
        ]
    };
    assert(mode_changes(config) == told + own);
    assert(own.last() == if config.native_mode {
        EnvChangeView::Remove(isolated)
    } else {
        put(isolated, "1"@)
    });
    lemma_variable_of_both(first, told + own, isolated, before);
    lemma_variable_of_both(told, own, isolated, variable_after(first, isolated, before));
    lemma_variable_of_both(first, told + own, id, before);
    let start = variable_after(first, id, before);
    lemma_variable_of_both(told, own, id, start);
    lemma_one_change(put(id, config.session_id@), id, start);
    lemma_untouched(own, id, variable_after(told, id, start));
}

/// The startup script of a login identity leaves POSIX mode first and runs the
/// marker last.
pub proof fn startup_scripts_end_in_the_marker(marker_script: Seq<char>)
    ensures
        ({
            let body = inject_body(marker_script);
            &&& body.len() > marker_script.len()
            &&& body.skip(body.len() - marker_script.len()) == marker_script
            &&& body.take(13) == "set +o posix\n"@
        }),
{
    reveal_strlit("set +o posix\nunset COSH_LOGIN_INJECT\n");
    reveal_strlit("set +o posix\n");
    let body = inject_body(marker_script);
    assert(body.skip(body.len() - marker_script.len()) =~= marker_script);
    assert(body.take(13) =~= "set +o posix\n"@);
}

/// A program that is named with its directory is the only candidate; any other is
/// looked for in each directory of the search path, in order.
pub proof fn candidates_follow_the_search_path(program: Seq<char>, path: Option<Seq<char>>, i: int)
    ensures
        component_count(program) > 1 ==> candidates_for(program, path) == seq![program],
        component_count(program) <= 1 && path is None ==> candidates_for(program, path).len() == 0,
        component_count(program) <= 1 && path is Some ==> {
            let directories = pieces(path->0, ':');
            &&& candidates_for(program, path).len() == directories.len()
            &&& 0 <= i < directories.len() ==> candidates_for(program, path)[i] == path_in(
                directories[i],
                program,
            )
        },
{
}

/// The candidates are looked at one after the other from the first on. One that is
/// no executable or was not started is passed over, and only behind the last one is
/// nothing found.
pub proof fn candidates_are_tried_in_order(s: SearchView, effects: LoginEffects)
    requires
        s.wf(),
        s.phase != SearchPhase::Finished,
    ensures
        search_at(s.candidates, 0, effects).1 == SearchStepView::Inspect(s.candidates[0]),
        search_inspected(s, true).1 == SearchStepView::Probe(s.candidates[s.at]),
        ({
            let next = if s.at + 1 < s.candidates.len() {
                SearchStepView::Inspect(s.candidates[s.at + 1])
            } else {
                SearchStepView::NotFound
            };
            search_inspected(s, false).1 == next && search_probed(s, ProbeResult::NotSpawned).1 == next
        }),
        search_inspected(s, true).0.at == s.at,
{
}

/// A candidate that ran is the one. It takes a login identity exactly if it
/// reported the sentinel.
pub proof fn reports_decide_about_the_identity(s: SearchView, marker: String)
    ensures
        search_probed(s, ProbeResult::Failed).1 == SearchStepView::Found(s.candidates[s.at], false),
        search_probed(s, ProbeResult::Marker(marker)).1 == SearchStepView::Found(
            s.candidates[s.at],
            marker@ == "__COSH_R2_LOGIN_ENV_OK__"@,
        ),
{
}

/// Only exported functions can stand in the way of POSIX mode, and only those whose
/// name is no identifier.
pub proof fn functions_need_identifiers(name: Seq<u8>, key: Seq<u8>)
    ensures
        compatible_key(function_prefix() + name + seq![37u8, 37u8]) <==> is_identifier(name),
        key.len() < 10 || key.take(10) != function_prefix() ==> compatible_key(key),
        key.len() == 0 || key.last() != 37 ==> compatible_key(key),
{
    let whole = function_prefix() + name + seq![37u8, 37u8];
    assert(whole.take(10) =~= function_prefix());
    assert(whole.subrange(10, whole.len() - 2) =~= name);
}

/// A failed login falls back to a native shell exactly if it may and nothing was
/// marked.
pub proof fn untouched_logins_fall_back(eligible: bool, effects: LoginEffects)
    ensures
        falls_open(eligible, effects) <==> eligible && effects.bits == 0,
        effects.bits < 8 ==> (falls_open(true, effects) <==> !effects.marks(
            LoginEffectSource::PathBootstrapProbe,
        ) && !effects.marks(LoginEffectSource::R2CapabilityProbe) && !effects.marks(
            LoginEffectSource::ManagedShell,
        )),
{
    let b = effects.bits;
    assert(b < 8 && b & 1 == 0 && b & 2 == 0 && b & 4 == 0 ==> b == 0) by (bit_vector);
    assert(b == 0 ==> b & 1 == 0 && b & 2 == 0 && b & 4 == 0) by (bit_vector);
}

/// The status line says whether input is assisted, and there is none while status
/// lines are off.
pub proof fn status_lines_tell_the_mode(p: PresentationView)
    ensures
        !p.enabled ==> p.status().len() == 0,
        p.enabled && p.assisted ==> p.status() == assisted_status(),
        p.enabled && !p.assisted ==> p.status() == shell_only_status(),
        assisted_status() != shell_only_status(),
        assisted_status().len() == 6 && shell_only_status().len() == 6,
        assisted_status()[4] == 0x0d && assisted_status()[5] == 0x0a,
        shell_only_status()[4] == 0x0d && shell_only_status()[5] == 0x0a,
{
    assert(assisted_status()[2] == 0x87 && shell_only_status()[2] == 0x8c);
}

/// A new prompt gets the status line right in front of it, a repaint gets none, and
/// a prompt behind the range gets none either.
pub proof fn new_prompts_get_a_status_line(
    prompt: PromptDisplayStart,
    start: int,
    end: int,
    bytes: Seq<u8>,
    status: Seq<u8>,
)
    requires
        start <= prompt.position,
        start <= end,
        bytes.len() == end - start,
    ensures
        ({
            let shown = woven(seq![prompt], start, end, bytes, status);
            let at = prompt.position - start;
            &&& prompt.position < end && prompt.publish_status ==> shown == bytes.take(at) + status
                + bytes.skip(at)
            &&& prompt.position >= end || !prompt.publish_status ==> shown == bytes
        }),
{
    let at = prompt.position - start;
    assert(seq![prompt].skip(1) =~= Seq::empty());
    if prompt.position < end {
        let rest = woven(seq![prompt].skip(1), prompt.position as int, end, bytes.skip(at), status);
        assert(rest == bytes.skip(at));
        assert(bytes.take(at) + Seq::empty() + bytes.skip(at) =~= bytes);
    }
}

/// How many of the prompts before `end` are new.
pub open spec fn new_before(starts: Seq<PromptDisplayStart>, end: int) -> nat
    decreases starts.len(),
{
    if starts.len() == 0 || starts[0].position >= end {
        0
    } else {
        new_before(starts.skip(1), end) + (if starts[0].publish_status {
            1nat
        } else {
            0
        })
    }
}

/// The display grows by one status line for each new prompt in the range.
pub proof fn each_new_prompt_counts_once(
    starts: Seq<PromptDisplayStart>,
    start: int,
    end: int,
    bytes: Seq<u8>,
    status: Seq<u8>,
)
    requires
        ascending(starts),
        starts.len() > 0 ==> starts[0].position >= start,
        start <= end,
        bytes.len() == end - start,
    ensures
        woven(starts, start, end, bytes, status).len() == bytes.len() + new_before(starts, end)
            * status.len(),
    decreases starts.len(),
{
    if starts.len() > 0 && starts[0].position < end {
        let at = starts[0].position - start;
        let rest = starts.skip(1);
        assert forall|i: int, j: int| 0 <= i < j < rest.len() implies (#[trigger] rest[i]).position <= (
        #[trigger] rest[j]).position by {
            assert(rest[i] == starts[i + 1] && rest[j] == starts[j + 1]);
        }
        if rest.len() > 0 {
            assert(rest[0] == starts[1]);
            assert(starts[0].position <= starts[1].position);
        }
        each_new_prompt_counts_once(rest, starts[0].position as int, end, bytes.skip(at), status);
        let n = new_before(rest, end);
        assert((n + 1) * status.len() == n * status.len() + status.len()) by (nonlinear_arith);
    }
    assert(0 * status.len() == 0);
}

/// Of ascending starts, exactly those from the position on are left.
pub proof fn passed_starts_are_forgotten(starts: Seq<PromptDisplayStart>, position: int)
    requires
        ascending(starts),
    ensures
        starts_from(starts, position) == starts.filter(
            |s: PromptDisplayStart| s.position >= position,
        ),
        ascending(starts_from(starts, position)),
    decreases starts.len(),
{
    let stays = |s: PromptDisplayStart| s.position >= position;
    if starts.len() > 0 && starts[0].position < position {
        let rest = starts.skip(1);
        assert forall|i: int, j: int| 0 <= i < j < rest.len() implies (#[trigger] rest[i]).position <= (
        #[trigger] rest[j]).position by {
            assert(rest[i] == starts[i + 1] && rest[j] == starts[j + 1]);
        }
        passed_starts_are_forgotten(rest, position);
        assert(starts =~= seq![starts[0]] + rest);
        Seq::filter_distributes_over_add(seq![starts[0]], rest, stays);
        lemma_filter_one(starts[0], stays);
        assert(Seq::<PromptDisplayStart>::empty() + rest.filter(stays) =~= rest.filter(stays));
    } else {
        lemma_filter_all(starts, stays, position);
    }
}

proof fn lemma_filter_one(s: PromptDisplayStart, stays: spec_fn(PromptDisplayStart) -> bool)
    requires
        !stays(s),
    ensures
        seq![s].filter(stays) == Seq::<PromptDisplayStart>::empty(),
{
    reveal(Seq::filter);
    assert(seq![s].drop_last() =~= Seq::empty());
    assert(Seq::<PromptDisplayStart>::empty().filter(stays) =~= Seq::empty());
    assert(seq![s].drop_last().filter(stays) =~= Seq::empty());
}

proof fn lemma_filter_all(
    starts: Seq<PromptDisplayStart>,
    stays: spec_fn(PromptDisplayStart) -> bool,
    position: int,
)
    requires
        ascending(starts),
        starts.len() > 0 ==> starts[0].position >= position,
        forall|s: PromptDisplayStart| #[trigger] stays(s) == (s.position >= position),
    ensures
        starts.filter(stays) == starts,
    decreases starts.len(),
{
    reveal(Seq::filter);
    if starts.len() > 0 {
        let rest = starts.drop_last();
        assert forall|i: int, j: int| 0 <= i < j < rest.len() implies (#[trigger] rest[i]).position <= (
        #[trigger] rest[j]).position by {
            assert(rest[i] == starts[i] && rest[j] == starts[j]);
        }
        lemma_filter_all(rest, stays, position);
        if starts.len() > 1 {
            assert(starts[0].position <= starts[starts.len() - 1].position);
        }
        assert(stays(starts.last()));
        assert(rest.push(starts.last()) =~= starts);
    } else {
        assert(starts.filter(stays) =~= starts);
    }
}

/// Bytes that stand for a range of another length are written as they are, behind
/// a status line if a new prompt begins right where the range does.
pub proof fn replaced_ranges_keep_their_prompt(
    p: PresentationView,
    start: int,
    end: int,
    bytes: Seq<u8>,
    written: Seq<u8>,
)
    requires
        start <= end,
        bytes.len() != end - start,
        bytes.len() > 0,
    ensures
        ({
            let (after, out) = transformed(p, start, end, bytes, written);
            let left = starts_from(p.pending, start);
            let begins = left.len() > 0 && left[0].position == start && left[0].publish_status;
            &&& begins ==> out == written + p.status() + bytes
            &&& !begins ==> out == written + bytes
            &&& after.enabled == p.enabled && after.assisted == p.assisted
        }),
{
    let out = transformed(p, start, end, bytes, written).1;
    assert(written + Seq::empty() + bytes =~= written + bytes);
}

/// Bytes of the same length as their range are woven like the range itself.
pub proof fn kept_ranges_are_woven(
    p: PresentationView,
    start: int,
    end: int,
    bytes: Seq<u8>,
    written: Seq<u8>,
)
    requires
        start <= end,
        bytes.len() == end - start,
    ensures
        transformed(p, start, end, bytes, written).1 == written + woven(
            starts_from(p.pending, start),
            start,
            end,
            bytes,
            p.status(),
        ),
        transformed(p, start, end, bytes, written).0.pending == starts_from(
            starts_from(p.pending, start),
            end,
        ),
{
}

/// A slice is what stands for its first part, and then its rest.
pub proof fn slices_are_written_in_order(
    p: PresentationView,
    prefix_end: int,
    end: int,
    stripped: int,
    normalized: Seq<u8>,
    rest: Seq<u8>,
    written: Seq<u8>,
)
    requires
        p.wf(),
        !p.enabled,
        0 <= stripped,
    ensures
        sliced(p, prefix_end, end, stripped, normalized, rest, written).1 == written + normalized + rest,
        sliced(p, prefix_end, end, stripped, normalized, rest, written).0 == p,
{
    assert(p.pending =~= Seq::empty());
    assert(sliced(p, prefix_end, end, stripped, normalized, rest, written).0 =~= p);
}

/// The part of a slice that is looked at is within the slice, long enough for the
/// prompt and for what is expected, and never empty unless the slice is.
pub proof fn looked_at_prefixes_fit(start: int, end: int, prompt: int, expected: int)
    requires
        0 <= start <= end,
        0 <= prompt,
        0 <= expected,
    ensures
        ({
            let n = prefix_length(start, end, prompt, expected);
            &&& 0 <= n <= end - start
            &&& n < end - start ==> n >= prompt && n >= expected && n >= 1
            &&& n == prompt || n == expected || n == end - start || n == 1
            &&& n > prompt && n > expected ==> n == 1
        }),
{
}

/// Two names choose an integration, and no other does.
pub proof fn integrations_have_their_names(name: Seq<char>)
    ensures
        ShellIntegration::named("enhanced"@) == Some(ShellIntegration::Enhanced),
        ShellIntegration::named("native"@) == Some(ShellIntegration::Native),
        ShellIntegration::named(name) is Some ==> name == "enhanced"@ || name == "native"@,
{
    reveal_strlit("enhanced");
    reveal_strlit("native");
    assert("enhanced"@.len() == 8 && "native"@.len() == 6);
}

/// A probed Bash reports the sentinel between the marks, and only as a login shell
/// outside of POSIX mode.
pub proof fn probes_report_between_marks()
    ensures
        inject_script()
            == "set +o posix\nif shopt -q login_shell && [[ ! -o posix ]]; then printf '\\n__COSH_PATH_BEGIN__"@
            + "__COSH_R2_LOGIN_ENV_OK__"@ + "__COSH_PATH_END__\\n'; fi\nexec /bin/sh -c :\n"@,
{
}

/// An identifier begins with a letter or an underscore and goes on with these and
/// digits.
pub proof fn identifiers_are_plain(name: Seq<u8>, b: u8)
    ensures
        is_identifier(seq![65u8, 95u8, 48u8, 122u8]),
        !is_identifier(Seq::empty()),
        48 <= b <= 57 ==> !is_identifier(seq![b] + name),
        b == 45 || b == 46 || b == 32 ==> !is_identifier(seq![65u8, b]) && !is_identifier(seq![b]),
        65 <= b <= 90 || 97 <= b <= 122 || b == 95 ==> is_identifier(seq![b]) && is_identifier(
            seq![95u8, b],
        ),
        48 <= b <= 57 ==> is_identifier(seq![95u8, b]),
{
    assert((seq![b] + name)[0] == b);
    assert(seq![65u8, b][1] == b);
    assert(seq![b][0] == b);
}

/// An isolated Bash reads the session's own settings for line editing, and no other
/// shell does.
pub proof fn isolated_bash_reads_its_own_settings(
    config: ShellHostConfig,
    adapter: ShellAdapter,
    marker_script: Seq<char>,
    inherited: Inherited,
    before: Option<Seq<u8>>,
)
    ensures
        ({
            let plan = planned(config, adapter, marker_script, inherited);
            let own = !config.native_mode && adapter is Bash;
            let path = path_in(config.work_dir@, "inputrc"@);
            &&& own ==> variable_after(plan.launch.env, "INPUTRC"@, before) == Some(encode_utf8(path))
            &&& own ==> plan.files.len() > 0 && plan.files.last().path == path
            &&& config.integration is Enhanced ==> plan.files.len() >= 3
            &&& !own && config.integration is Native ==> plan.files.len() == 0
        }),
{
    let plan = planned(config, adapter, marker_script, inherited);
    if !config.native_mode && adapter is Bash {
        assert(plan.launch.env.last() == put("INPUTRC"@, path_in(config.work_dir@, "inputrc"@)));
    }
}

/// A prompt that comes back has its status line in front of it, and no prompt has
/// none.
pub proof fn restored_prompts_have_their_status(p: PresentationView, prompt: Seq<u8>)
    ensures
        prompt.len() > 0 ==> p.restored(prompt) == p.status() + prompt,
        prompt.len() == 0 ==> p.restored(prompt).len() == 0,
        prompt.len() > 0 && !p.enabled ==> p.restored(prompt) == prompt,
{
    assert(Seq::<u8>::empty() + prompt =~= prompt);
}

/// Only files are removed, and only those that were last changed longer ago than they
/// are kept.
pub proof fn outputs_are_kept_for_their_time(modified: u128, now: u128, retention: u128)
    ensures
        expired(true, Some(modified), now, retention) <==> now - modified > retention,
        !expired(false, Some(modified), now, retention),
        !expired(true, None, now, retention),
        modified >= now ==> !expired(true, Some(modified), now, retention),
{
}

/// A shell that is not there ends as shells say so, and any other failure likewise.
pub proof fn failed_shells_end_as_usual(failure: ExecFailure)
    ensures
        exit_code_of(ExecFailure::NotFound) == 127,
        failure != ExecFailure::NotFound ==> exit_code_of(failure) == 126,
{
}

/// A fault is forced only at the phase that was asked for, and only on its side of the
/// start.
pub proof fn faults_are_forced_on_request(phase: Seq<char>, started: bool)
    ensures
        !forced(None, phase, started),
        forced(Some("pre-spawn"@), "pre-spawn"@, false),
        !forced(Some("pre-spawn"@), "pre-spawn"@, true),
        forced(Some("post-spawn"@), "post-spawn"@, true),
        !forced(Some("post-spawn"@), "post-spawn"@, false),
        phase != "pre-spawn"@ ==> !forced(Some("pre-spawn"@), phase, started),
        phase != "post-spawn"@ ==> !forced(Some("post-spawn"@), phase, started),
{
    reveal_strlit("pre-spawn");
    reveal_strlit("post-spawn");
    assert("pre-spawn"@.len() == 9 && "post-spawn"@.len() == 10);
}

} // verus!
