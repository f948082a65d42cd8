//! How the managed shell is launched: its files, arguments and environment.

use vstd::prelude::*;
use vstd::string::*;
use vstd::utf8::*;

use crate::login_shell::path::{join_path, path_in};
use crate::shell_host::effects::LoginEffectGuard;
use crate::text::{opt_view, same, texts};

verus! {

/// How the managed shell is integrated.
#[derive(Clone, Copy, Debug, PartialEq, Eq, Structural)]
pub enum ShellIntegration {
    /// The shell reports commands and prompts through markers.
    Enhanced,
    /// The shell is passed through as it is.
    Native,
}

impl ShellIntegration {
    /// The integration of each configured name.
    pub open spec fn named(name: Seq<char>) -> Option<ShellIntegration> {
        if name == "enhanced"@ {
            Some(ShellIntegration::Enhanced)
        } else if name == "native"@ {
            Some(ShellIntegration::Native)
        } else {
            None
        }
    }

    /// Reads a configured name.
    pub fn parse_config(name: &str) -> (res: Option<ShellIntegration>)
        ensures
            res == ShellIntegration::named(name@),
    {
        if same(name, "enhanced") {
            Some(ShellIntegration::Enhanced)
        } else if same(name, "native") {
            Some(ShellIntegration::Native)
        } else {
            None
        }
    }

    /// Whether the shell reports through markers.
    pub fn uses_markers(self) -> (res: bool)
        ensures
            res == (self is Enhanced),
    {
        self == ShellIntegration::Enhanced
    }
}

/// What a managed shell session is made with.
#[derive(Clone, Debug)]
pub struct ShellHostConfig {
    pub session_id: String,
    pub work_dir: String,
    pub bash_path: String,
    pub zsh_path: String,
    pub prompt: String,
    pub integration: ShellIntegration,
    /// Whether the user's own startup files are read.
    pub native_mode: bool,
    pub login_shell: bool,
    /// Whether a Bash login gets a real login identity.
    pub login_identity: bool,
    /// Whether the inner Bash reads `$ENV` in POSIX mode.
    pub bash_login_env_posix: bool,
    /// Variables of the shell, later ones winning.
    pub env_overrides: Vec<(String, String)>,
    pub effects: LoginEffectGuard,
}

impl ShellHostConfig {
    /// A session that is no login and has no login identity.
    pub fn new(session_id: &str, work_dir: &str) -> (res: ShellHostConfig)
        ensures
            res.session_id@ == session_id@,
            res.work_dir@ == work_dir@,
            res.bash_path@ == "bash"@,
            res.zsh_path@ == "zsh"@,
            res.prompt@ == ""@,
            res.integration == ShellIntegration::Enhanced,
            res.native_mode,
            !res.login_shell,
            !res.login_identity,
            res.bash_login_env_posix,
            res.env_overrides@.len() == 0,
    {
        ShellHostConfig {
            session_id: session_id.to_owned(),
            work_dir: work_dir.to_owned(),
            bash_path: "bash".to_owned(),
            zsh_path: "zsh".to_owned(),
            prompt: "".to_owned(),
            integration: ShellIntegration::Enhanced,
            native_mode: true,
            login_shell: false,
            login_identity: false,
            bash_login_env_posix: true,
            env_overrides: Vec::new(),
            effects: LoginEffectGuard::new(),
        }
    }

    /// Another owner of the session's guard.
    pub fn login_effect_guard(&self) -> (res: LoginEffectGuard)
        ensures
            res == self.effects,
    {
        self.effects.share()
    }
}

/// How Bash is launched when it reports through markers.
#[derive(Clone, Copy, Debug, PartialEq, Eq, Structural)]
pub enum BashMarkerLaunch {
    /// As a login shell in POSIX mode; the marker comes through `$ENV`.
    LoginIdentity,
    /// As an interactive shell with the marker for a startup file.
    Rcfile { noprofile: bool },
}

/// The launch of a Bash with markers.
pub open spec fn marker_launch(uses_login_identity: bool, native_mode: bool) -> BashMarkerLaunch {
    if uses_login_identity {
        BashMarkerLaunch::LoginIdentity
    } else {
        BashMarkerLaunch::Rcfile { noprofile: !native_mode }
    }
}

/// The launch of a Bash with markers.
pub fn bash_marker_launch(uses_login_identity: bool, native_mode: bool) -> (res: BashMarkerLaunch)
    ensures
        res == marker_launch(uses_login_identity, native_mode),
{
    if uses_login_identity {
        BashMarkerLaunch::LoginIdentity
    } else {
        BashMarkerLaunch::Rcfile { noprofile: !native_mode }
    }
}

/// A change to the environment of the shell.
#[derive(Clone, Debug)]
pub enum EnvChange {
    Put(String, Vec<u8>),
    Remove(String),
}

/// What an [`EnvChange`] says.
#[verifier::ext_equal]
pub enum EnvChangeView {
    Put(Seq<char>, Seq<u8>),
    Remove(Seq<char>),
}

impl View for EnvChange {
    type V = EnvChangeView;

    open spec fn view(&self) -> EnvChangeView {
        match self {
            EnvChange::Put(k, v) => EnvChangeView::Put(k@, v@),
            EnvChange::Remove(k) => EnvChangeView::Remove(k@),
        }
    }
}

/// The views of a list of changes.
pub open spec fn changes(v: Seq<EnvChange>) -> Seq<EnvChangeView> {
    Seq::new(v.len(), |i: int| v[i]@)
}

/// A change that sets a text.
pub open spec fn put(key: Seq<char>, value: Seq<char>) -> EnvChangeView {
    EnvChangeView::Put(key, encode_utf8(value))
}

fn push_put(out: &mut Vec<EnvChange>, key: &str, value: &str)
    ensures
        changes(final(out)@) == changes(old(out)@).push(put(key@, value@)),
{
    out.push(EnvChange::Put(key.to_owned(), value.as_bytes_vec()));
    assert(changes(out@) =~= changes(old(out)@).push(put(key@, value@)));
}

fn push_value(out: &mut Vec<EnvChange>, key: &str, value: Option<Vec<u8>>)
    ensures
        changes(final(out)@) == changes(old(out)@).push(
            keep_or_remove(
                key@,
                match value {
                    Some(v) => Some(v@),
                    None => None,
                },
            ),
        ),
{
    let change = match value {
        Some(v) => EnvChange::Put(key.to_owned(), v),
        None => EnvChange::Remove(key.to_owned()),
    };
    let ghost said = change@;
    out.push(change);
    assert(changes(out@) =~= changes(old(out)@).push(said));
}

/// A change that sets a value, or removes the variable if there is none.
pub open spec fn keep_or_remove(key: Seq<char>, value: Option<Seq<u8>>) -> EnvChangeView {
    match value {
        Some(v) => EnvChangeView::Put(key, v),
        None => EnvChangeView::Remove(key),
    }
}

/// What a variable is after changes to the environment.
pub open spec fn variable_after(all: Seq<EnvChangeView>, key: Seq<char>, inherited: Option<Seq<u8>>) -> Option<
    Seq<u8>,
>
    decreases all.len(),
{
    if all.len() == 0 {
        inherited
    } else {
        match all.last() {
            EnvChangeView::Put(k, v) => if k == key {
                Some(v)
            } else {
                variable_after(all.drop_last(), key, inherited)
            },
            EnvChangeView::Remove(k) => if k == key {
                None
            } else {
                variable_after(all.drop_last(), key, inherited)
            },
        }
    }
}

/// The last override of a variable.
pub open spec fn last_override(overrides: Seq<(String, String)>, key: Seq<char>) -> Option<Seq<char>>
    decreases overrides.len(),
{
    if overrides.len() == 0 {
        None
    } else if overrides.last().0@ == key {
        Some(overrides.last().1@)
    } else {
        last_override(overrides.drop_last(), key)
    }
}

fn find_override(overrides: &Vec<(String, String)>, key: &str) -> (res: Option<String>)
    ensures
        opt_view(res) == last_override(overrides@, key@),
{
    let mut n: usize = overrides.len();
    assert(overrides@.take(n as int) =~= overrides@);
    while n > 0
        invariant
            n <= overrides@.len(),
            last_override(overrides@.take(n as int), key@) == last_override(overrides@, key@),
        decreases n,
    {
        proof {
            let cut = overrides@.take(n as int);
            assert(cut.last() == overrides@[n - 1]);
            assert(cut.drop_last() =~= overrides@.take(n - 1));
        }
        if same(overrides[n - 1].0.as_str(), key) {
            return Some(overrides[n - 1].1.clone());
        }
        n = n - 1;
    }
    None
}

/// What a shell would inherit of a variable: the last override, else the value
/// that this process has.
pub open spec fn child_value(
    overrides: Seq<(String, String)>,
    key: Seq<char>,
    inherited: Option<Seq<u8>>,
) -> Option<Seq<u8>> {
    match last_override(overrides, key) {
        Some(value) => Some(encode_utf8(value)),
        None => inherited,
    }
}

/// The view of a value that may be missing.
pub open spec fn maybe_bytes(v: Option<Vec<u8>>) -> Option<Seq<u8>> {
    match v {
        Some(b) => Some(b@),
        None => None,
    }
}

/// What a shell would inherit of a variable.
pub fn final_child_env_value(
    env_overrides: &Vec<(String, String)>,
    key: &str,
    inherited: Option<Vec<u8>>,
) -> (res: Option<Vec<u8>>)
    ensures
        maybe_bytes(res) == child_value(env_overrides@, key@, maybe_bytes(inherited)),
{
    match find_override(env_overrides, key) {
        Some(value) => Some(value.as_str().as_bytes_vec()),
        None => inherited,
    }
}

/// The directory whose startup files Zsh would have read: overridden or
/// inherited, `ZDOTDIR` before `HOME`.
pub open spec fn original_zdotdir(
    overrides: Seq<(String, String)>,
    zdotdir: Option<Seq<char>>,
    home: Option<Seq<char>>,
) -> Option<Seq<char>> {
    if last_override(overrides, "ZDOTDIR"@) is Some {
        last_override(overrides, "ZDOTDIR"@)
    } else if last_override(overrides, "HOME"@) is Some {
        last_override(overrides, "HOME"@)
    } else if zdotdir is Some {
        zdotdir
    } else {
        home
    }
}

/// The directory whose startup files Zsh would have read.
pub fn configured_original_zdotdir(
    config: &ShellHostConfig,
    zdotdir: Option<String>,
    home: Option<String>,
) -> (res: Option<String>)
    ensures
        opt_view(res) == original_zdotdir(config.env_overrides@, opt_view(zdotdir), opt_view(home)),
{
    if let Some(value) = find_override(&config.env_overrides, "ZDOTDIR") {
        return Some(value);
    }
    if let Some(value) = find_override(&config.env_overrides, "HOME") {
        return Some(value);
    }
    if zdotdir.is_some() {
        zdotdir
    } else {
        home
    }
}

/// The arguments of a shell, and its first changes to the environment.
#[derive(Clone, Debug)]
pub struct Launch {
    /// The name it is called by, where that is not its path.
    pub argv0: Option<String>,
    pub args: Vec<String>,
    pub env: Vec<EnvChange>,
}

/// What a [`Launch`] says.
#[verifier::ext_equal]
pub struct LaunchView {
    pub argv0: Option<Seq<char>>,
    pub args: Seq<Seq<char>>,
    pub env: Seq<EnvChangeView>,
}

impl View for Launch {
    type V = LaunchView;

    open spec fn view(&self) -> LaunchView {
        LaunchView {
            argv0: opt_view(self.argv0),
            args: texts(self.args@),
            env: changes(self.env@),
        }
    }
}

/// The change that tells the marker of a login.
pub open spec fn login_note(login: bool) -> Seq<EnvChangeView> {
    if login {
        seq![put("COSH_LOGIN_SHELL"@, "1"@)]
    } else {
        Seq::empty()
    }
}

/// Whether Bash gets a real login identity: only a login with markers and the
/// user's own startup files, if that is switched on and Bash can do it.
pub open spec fn takes_identity(config: ShellHostConfig) -> bool {
    &&& config.integration is Enhanced
    &&& config.native_mode
    &&& config.login_shell
    &&& config.login_identity
    &&& config.bash_login_env_posix
}

/// How Bash is launched.
pub open spec fn bash_launch(marker: Option<Seq<char>>, config: ShellHostConfig) -> LaunchView {
    match marker {
        Some(path) => match marker_launch(takes_identity(config), config.native_mode) {
            BashMarkerLaunch::LoginIdentity => LaunchView {
                argv0: Some("-bash"@),
                args: seq!["--posix"@, "-i"@],
                env: login_note(config.login_shell),
            },
            BashMarkerLaunch::Rcfile { noprofile } => LaunchView {
                argv0: None,
                args: if noprofile {
                    seq!["--noprofile"@, "--rcfile"@, path, "-i"@]
                } else {
                    seq!["--rcfile"@, path, "-i"@]
                },
                env: login_note(config.login_shell),
            },
        },
        None => LaunchView {
            argv0: None,
            args: (if config.native_mode {
                Seq::empty()
            } else {
                seq!["--noprofile"@, "--norc"@]
            }) + (if config.login_shell {
                seq!["--login"@]
            } else {
                Seq::empty()
            }) + seq!["-i"@],
            env: Seq::empty(),
        },
    }
}

/// How Zsh is launched.
pub open spec fn zsh_launch(
    marker: Option<Seq<char>>,
    config: ShellHostConfig,
    zdotdir: Option<Seq<char>>,
    home: Option<Seq<char>>,
) -> LaunchView {
    let original = original_zdotdir(config.env_overrides@, zdotdir, home);
    match marker {
        Some(_) => LaunchView {
            argv0: None,
            args: seq!["-i"@],
            env: seq![put("ZDOTDIR"@, config.work_dir@)] + (if config.native_mode && original is Some {
                seq![put("COSH_ZDOTDIR_ORIG"@, original->0)]
            } else {
                Seq::empty()
            }) + login_note(config.login_shell),
        },
        None => LaunchView {
            argv0: None,
            args: (if config.login_shell {
                seq!["-l"@]
            } else {
                Seq::empty()
            }) + seq!["-i"@],
            env: if config.native_mode {
                Seq::empty()
            } else {
                seq![put("ZDOTDIR"@, config.work_dir@)]
            },
        },
    }
}

/// The shells that can be managed.
#[derive(Clone, Copy, Debug, PartialEq, Eq, Structural)]
pub enum ShellAdapter {
    Bash,
    Zsh,
}

impl ShellAdapter {
    /// The program of each shell.
    pub open spec fn program(self, config: ShellHostConfig) -> Seq<char> {
        match self {
            ShellAdapter::Bash => config.bash_path@,
            ShellAdapter::Zsh => config.zsh_path@,
        }
    }

    /// The program of the shell.
    pub fn executable(self, config: &ShellHostConfig) -> (res: String)
        ensures
            res@ == self.program(*config),
    {
        match self {
            ShellAdapter::Bash => config.bash_path.clone(),
            ShellAdapter::Zsh => config.zsh_path.clone(),
        }
    }

    /// The name of the marker file of each shell.
    pub open spec fn marker_name(self) -> Seq<char> {
        match self {
            ShellAdapter::Bash => "cosh-marker.bash"@,
            ShellAdapter::Zsh => ".zshrc"@,
        }
    }

    /// The name of the marker file.
    pub fn marker_filename(self) -> (res: &'static str)
        ensures
            res@ == self.marker_name(),
    {
        match self {
            ShellAdapter::Bash => "cosh-marker.bash",
            ShellAdapter::Zsh => ".zshrc",
        }
    }

    /// Whether line editing is shielded from the user's own settings.
    pub fn isolates_readline(self) -> (res: bool)
        ensures
            res == (self is Bash),
    {
        self == ShellAdapter::Bash
    }

    /// Whether prompts are held back while a path is typed.
    pub fn supports_zsh_path_prompt_buffering(self) -> (res: bool)
        ensures
            res == (self is Zsh),
    {
        self == ShellAdapter::Zsh
    }

    /// Whether the shell is given a real login identity.
    pub fn uses_login_identity_inject(self, config: &ShellHostConfig) -> (res: bool)
        ensures
            res == (self is Bash && takes_identity(*config)),
    {
        match self {
            ShellAdapter::Bash => config.integration.uses_markers() && config.native_mode
                && config.login_shell && config.login_identity && config.bash_login_env_posix,
            ShellAdapter::Zsh => false,
        }
    }

    /// How the shell is launched. `zdotdir` and `home` are what this process
    /// has in its environment.
    pub open spec fn launch(
        self,
        marker: Option<Seq<char>>,
        config: ShellHostConfig,
        zdotdir: Option<Seq<char>>,
        home: Option<Seq<char>>,
    ) -> LaunchView {
        match self {
            ShellAdapter::Bash => bash_launch(marker, config),
            ShellAdapter::Zsh => zsh_launch(marker, config, zdotdir, home),
        }
    }

    /// How the shell is launched.
    pub fn configure_command(
        self,
        marker: Option<&str>,
        config: &ShellHostConfig,
        zdotdir: Option<String>,
        home: Option<String>,
    ) -> (res: Launch)
        ensures
            res@ == self.launch(
                match marker {
                    Some(m) => Some(m@),
                    None => None,
                },
                *config,
                opt_view(zdotdir),
                opt_view(home),
            ),
    {
        match self {
            ShellAdapter::Bash => configure_bash(marker, config),
            ShellAdapter::Zsh => configure_zsh(marker, config, zdotdir, home),
        }
    }
}

fn push_text(out: &mut Vec<String>, text: &str)
    ensures
        texts(final(out)@) == texts(old(out)@).push(text@),
{
    out.push(text.to_owned());
    assert(texts(out@) =~= texts(old(out)@).push(text@));
}

fn configure_bash(marker: Option<&str>, config: &ShellHostConfig) -> (res: Launch)
    ensures
        res@ == bash_launch(
            match marker {
                Some(m) => Some(m@),
                None => None,
            },
            *config,
        ),
{
    let mut argv0: Option<String> = None;
    let mut args: Vec<String> = Vec::new();
    let mut env: Vec<EnvChange> = Vec::new();
    proof {
        assert(texts(args@) =~= Seq::empty());
        assert(changes(env@) =~= Seq::empty());
    }
    match marker {
        Some(path) => {
            let identity: bool = ShellAdapter::Bash.uses_login_identity_inject(config);
            match bash_marker_launch(identity, config.native_mode) {
                BashMarkerLaunch::LoginIdentity => {
                    argv0 = Some("-bash".to_owned());
                    push_text(&mut args, "--posix");
                    push_text(&mut args, "-i");
                },
                BashMarkerLaunch::Rcfile { noprofile } => {
                    if noprofile {
                        push_text(&mut args, "--noprofile");
                    }
                    push_text(&mut args, "--rcfile");
                    push_text(&mut args, path);
                    push_text(&mut args, "-i");
                },
            }
            if config.login_shell {
                push_put(&mut env, "COSH_LOGIN_SHELL", "1");
            }
        },
        None => {
            if !config.native_mode {
                push_text(&mut args, "--noprofile");
                push_text(&mut args, "--norc");
            }
            if config.login_shell {
                push_text(&mut args, "--login");
            }
            push_text(&mut args, "-i");
        },
    }
    let res = Launch { argv0, args, env };
    assert(res@ =~~= bash_launch(
        match marker {
            Some(m) => Some(m@),
            None => None,
        },
        *config,
    ));
    res
}

fn configure_zsh(
    marker: Option<&str>,
    config: &ShellHostConfig,
    zdotdir: Option<String>,
    home: Option<String>,
) -> (res: Launch)
    ensures
        res@ == zsh_launch(
            match marker {
                Some(m) => Some(m@),
                None => None,
            },
            *config,
            opt_view(zdotdir),
            opt_view(home),
        ),
{
    let ghost directory = opt_view(zdotdir);
    let ghost own = opt_view(home);
    let mut args: Vec<String> = Vec::new();
    let mut env: Vec<EnvChange> = Vec::new();
    proof {
        assert(texts(args@) =~= Seq::empty());
        assert(changes(env@) =~= Seq::empty());
    }
    match marker {
        Some(_) => {
            push_text(&mut args, "-i");
            push_put(&mut env, "ZDOTDIR", config.work_dir.as_str());
            if config.native_mode {
                if let Some(original) = configured_original_zdotdir(config, zdotdir, home) {
                    push_put(&mut env, "COSH_ZDOTDIR_ORIG", original.as_str());
                }
            }
            if config.login_shell {
                push_put(&mut env, "COSH_LOGIN_SHELL", "1");
            }
        },
        None => {
            if !config.native_mode {
                push_put(&mut env, "ZDOTDIR", config.work_dir.as_str());
            }
            if config.login_shell {
                push_text(&mut args, "-l");
            }
            push_text(&mut args, "-i");
        },
    }
    let res = Launch { argv0: None, args, env };
    assert(res@ =~~= zsh_launch(
        match marker {
            Some(m) => Some(m@),
            None => None,
        },
        *config,
        directory,
        own,
    ));
    res
}

/// The startup script of a Bash with a login identity: leave POSIX mode, undo
/// what starting in it changed, then the marker.
pub open spec fn inject_body(marker_script: Seq<char>) -> Seq<char> {
    "set +o posix\nunset COSH_LOGIN_INJECT\n"@
        + "case :${COSH_PRIOR_BASHOPTS-}: in *:inherit_errexit:*) ;; *) shopt -u inherit_errexit 2>/dev/null || true ;; esac\nunset COSH_PRIOR_BASHOPTS\n"@
        + "unset COSH_RESTORE_ALLEXPORT\ncase $- in *a*) set +a; COSH_RESTORE_ALLEXPORT=1 ;; esac\n"@
        + "if [ -z \"${HOME+x}\" ]; then HOME=~; fi\n"@
        + "if [ -n \"${COSH_PRIOR_HISTFILE+x}\" ]; then HISTFILE=\"$COSH_PRIOR_HISTFILE\"; else HISTFILE=\"$HOME/.bash_history\"; fi\nunset COSH_PRIOR_HISTFILE\n"@
        + "if [ -n \"${COSH_RESTORE_ALLEXPORT+x}\" ]; then set -a; unset COSH_RESTORE_ALLEXPORT; fi\n"@
        + "if [ -n \"${COSH_PRIOR_ENV+x}\" ]; then export ENV=\"$COSH_PRIOR_ENV\"; else unset ENV; fi\nunset COSH_PRIOR_ENV\n"@
        + marker_script
}

/// The startup script of a Bash with a login identity.
pub fn login_inject_body(marker_script: &str) -> (res: String)
    ensures
        res@ == inject_body(marker_script@),
{
    "set +o posix\nunset COSH_LOGIN_INJECT\n".to_owned().concat(
        "case :${COSH_PRIOR_BASHOPTS-}: in *:inherit_errexit:*) ;; *) shopt -u inherit_errexit 2>/dev/null || true ;; esac\nunset COSH_PRIOR_BASHOPTS\n",
    ).concat(
        "unset COSH_RESTORE_ALLEXPORT\ncase $- in *a*) set +a; COSH_RESTORE_ALLEXPORT=1 ;; esac\n",
    ).concat("if [ -z \"${HOME+x}\" ]; then HOME=~; fi\n").concat(
        "if [ -n \"${COSH_PRIOR_HISTFILE+x}\" ]; then HISTFILE=\"$COSH_PRIOR_HISTFILE\"; else HISTFILE=\"$HOME/.bash_history\"; fi\nunset COSH_PRIOR_HISTFILE\n",
    ).concat(
        "if [ -n \"${COSH_RESTORE_ALLEXPORT+x}\" ]; then set -a; unset COSH_RESTORE_ALLEXPORT; fi\n",
    ).concat(
        "if [ -n \"${COSH_PRIOR_ENV+x}\" ]; then export ENV=\"$COSH_PRIOR_ENV\"; else unset ENV; fi\nunset COSH_PRIOR_ENV\n",
    ).concat(marker_script)
}

/// What this process has in its environment.
#[derive(Clone, Debug)]
pub struct Inherited {
    pub env: Option<Vec<u8>>,
    pub histfile: Option<Vec<u8>>,
    pub bashopts: Option<Vec<u8>>,
    pub zdotdir: Option<String>,
    pub home: Option<String>,
}

/// A file that is written for a session.
#[derive(Clone, Debug)]
pub struct PlannedFile {
    pub path: String,
    pub content: String,
}

/// What a [`PlannedFile`] says.
#[verifier::ext_equal]
pub struct FileView {
    pub path: Seq<char>,
    pub content: Seq<char>,
}

impl View for PlannedFile {
    type V = FileView;

    open spec fn view(&self) -> FileView {
        FileView { path: self.path@, content: self.content@ }
    }
}

/// The views of a list of files.
pub open spec fn file_views(v: Seq<PlannedFile>) -> Seq<FileView> {
    Seq::new(v.len(), |i: int| v[i]@)
}

/// The mode of the directories of a session.
pub const DIRECTORY_MODE: u32 = 0o700;

/// The mode of the files of a session.
pub const FILE_MODE: u32 = 0o600;

/// The file that says whether input is assisted.
pub fn assistance_state_file(config: &ShellHostConfig) -> (res: String)
    ensures
        res@ == path_in(config.work_dir@, "assistance-enabled"@),
{
    join_path(config.work_dir.as_str(), "assistance-enabled")
}

/// Everything a session needs before its shell is spawned.
pub struct SessionPlan {
    /// Directories to make, with [`DIRECTORY_MODE`].
    pub directories: Vec<String>,
    /// Files to write in this order, with [`FILE_MODE`].
    pub files: Vec<PlannedFile>,
    pub program: String,
    /// The arguments, and all changes to the environment in this order.
    pub launch: Launch,
    pub recovery_request_file: String,
    pub handoff_request_file: String,
    pub zsh_path_prompt_buffering: bool,
}

/// What a [`SessionPlan`] says.
#[verifier::ext_equal]
pub struct PlanView {
    pub directories: Seq<Seq<char>>,
    pub files: Seq<FileView>,
    pub program: Seq<char>,
    pub launch: LaunchView,
    pub recovery_request_file: Seq<char>,
    pub handoff_request_file: Seq<char>,
    pub zsh_path_prompt_buffering: bool,
}

impl View for SessionPlan {
    type V = PlanView;

    open spec fn view(&self) -> PlanView {
        PlanView {
            directories: texts(self.directories@),
            files: file_views(self.files@),
            program: self.program@,
            launch: self.launch@,
            recovery_request_file: self.recovery_request_file@,
            handoff_request_file: self.handoff_request_file@,
            zsh_path_prompt_buffering: self.zsh_path_prompt_buffering,
        }
    }
}

/// A file in the directory of a session.
pub open spec fn file_in(config: ShellHostConfig, name: Seq<char>, content: Seq<char>) -> FileView {
    FileView { path: path_in(config.work_dir@, name), content }
}

/// The files of a session with markers.
pub open spec fn marker_files(
    config: ShellHostConfig,
    adapter: ShellAdapter,
    marker_script: Seq<char>,
) -> Seq<FileView> {
    seq![
        file_in(config, "assistance-enabled"@, "enabled\n"@),
        file_in(config, "terminal-recovery-request.history-file"@, ""@),
        file_in(config, adapter.marker_name(), marker_script),
    ] + (if adapter is Bash && takes_identity(config) {
        seq![file_in(config, "cosh-login-inject.bash"@, inject_body(marker_script))]
    } else {
        Seq::empty()
    })
}

/// The files of a session.
pub open spec fn session_files(
    config: ShellHostConfig,
    adapter: ShellAdapter,
    marker_script: Seq<char>,
) -> Seq<FileView> {
    (if config.integration is Enhanced {
        marker_files(config, adapter, marker_script)
    } else {
        Seq::empty()
    }) + (if !config.native_mode && adapter is Bash {
        seq![
            file_in(
                config,
                "inputrc"@,
                "set input-meta on\nset convert-meta off\nset output-meta on\n"@,
            ),
        ]
    } else {
        Seq::empty()
    })
}

/// The overrides as changes.
pub open spec fn override_changes(overrides: Seq<(String, String)>) -> Seq<EnvChangeView> {
    Seq::new(overrides.len(), |i: int| put(overrides[i].0@, overrides[i].1@))
}

/// The changes that hand the startup script to Bash, and keep for it what the
/// variables would have been.
pub open spec fn inject_changes(config: ShellHostConfig, inherited: Inherited) -> Seq<EnvChangeView> {
    seq![
        keep_or_remove(
            "COSH_PRIOR_ENV"@,
            child_value(config.env_overrides@, "ENV"@, maybe_bytes(inherited.env)),
        ),
        keep_or_remove(
            "COSH_PRIOR_HISTFILE"@,
            child_value(config.env_overrides@, "HISTFILE"@, maybe_bytes(inherited.histfile)),
        ),
        keep_or_remove(
            "COSH_PRIOR_BASHOPTS"@,
            child_value(config.env_overrides@, "BASHOPTS"@, maybe_bytes(inherited.bashopts)),
        ),
        put("COSH_LOGIN_INJECT"@, path_in(config.work_dir@, "cosh-login-inject.bash"@)),
        put("ENV"@, "${COSH_LOGIN_INJECT}"@),
    ]
}

/// The changes of a session that come before the overrides.
pub open spec fn mode_changes(config: ShellHostConfig) -> Seq<EnvChangeView> {
    (if config.integration is Enhanced {
        seq![put("COSH_SESSION_ID"@, config.session_id@)]
    } else {
        Seq::empty()
    }) + (if config.native_mode {
        seq![EnvChangeView::Remove("COSH_SHELL_ISOLATED"@)]
    } else {
        seq![
            put("COSH_HISTFILE"@, path_in(config.work_dir@, "history"@)),
            put("COSH_POC_PS1"@, config.prompt@),
            put("BASH_SILENCE_DEPRECATION_WARNING"@, "1"@),
            put("COSH_SHELL_ISOLATED"@, "1"@),
        ]
    })
}

/// All changes of a session to the environment.
pub open spec fn session_changes(
    config: ShellHostConfig,
    adapter: ShellAdapter,
    first: Seq<EnvChangeView>,
    inherited: Inherited,
) -> Seq<EnvChangeView> {
    first + mode_changes(config) + override_changes(config.env_overrides@) + (if adapter is Bash
        && takes_identity(config) {
        inject_changes(config, inherited)
    } else {
        Seq::empty()
    }) + (if !config.native_mode && adapter is Bash {
        seq![put("INPUTRC"@, path_in(config.work_dir@, "inputrc"@))]
    } else {
        Seq::empty()
    })
}

/// Everything a session needs before its shell is spawned.
pub open spec fn planned(
    config: ShellHostConfig,
    adapter: ShellAdapter,
    marker_script: Seq<char>,
    inherited: Inherited,
) -> PlanView {
    let marker = if config.integration is Enhanced {
        Some(path_in(config.work_dir@, adapter.marker_name()))
    } else {
        None
    };
    let launch = adapter.launch(
        marker,
        config,
        opt_view(inherited.zdotdir),
        opt_view(inherited.home),
    );
    PlanView {
        directories: seq![config.work_dir@, path_in(config.work_dir@, "output-refs"@)],
        files: session_files(config, adapter, marker_script),
        program: adapter.program(config),
        launch: LaunchView {
            env: session_changes(config, adapter, launch.env, inherited),
            ..launch
        },
        recovery_request_file: path_in(config.work_dir@, "terminal-recovery-request"@),
        handoff_request_file: path_in(config.work_dir@, "shell-handoff-request"@),
        zsh_path_prompt_buffering: config.integration is Enhanced && adapter is Zsh,
    }
}

fn push_file(out: &mut Vec<PlannedFile>, config: &ShellHostConfig, name: &str, content: &str)
    ensures
        file_views(final(out)@) == file_views(old(out)@).push(file_in(*config, name@, content@)),
{
    out.push(
        PlannedFile {
            path: join_path(config.work_dir.as_str(), name),
            content: content.to_owned(),
        },
    );
    assert(file_views(out@) =~= file_views(old(out)@).push(file_in(*config, name@, content@)));
}

fn plan_files(config: &ShellHostConfig, adapter: ShellAdapter, marker_script: &str) -> (res: Vec<
    PlannedFile,
>)
    ensures
        file_views(res@) == session_files(*config, adapter, marker_script@),
{
    let mut files: Vec<PlannedFile> = Vec::new();
    assert(file_views(files@) =~= Seq::empty());
    if config.integration.uses_markers() {
        push_file(&mut files, config, "assistance-enabled", "enabled\n");
        push_file(&mut files, config, "terminal-recovery-request.history-file", "");
        push_file(&mut files, config, adapter.marker_filename(), marker_script);
        if adapter.uses_login_identity_inject(config) {
            let body = login_inject_body(marker_script);
            push_file(&mut files, config, "cosh-login-inject.bash", body.as_str());
        }
        assert(file_views(files@) =~= marker_files(*config, adapter, marker_script@));
    }
    if !config.native_mode && adapter.isolates_readline() {
        push_file(
            &mut files,
            config,
            "inputrc",
            "set input-meta on\nset convert-meta off\nset output-meta on\n",
        );
    }
    assert(file_views(files@) =~= session_files(*config, adapter, marker_script@));
    files
}

fn plan_changes(
    config: &ShellHostConfig,
    adapter: ShellAdapter,
    first: Vec<EnvChange>,
    inherited: &Inherited,
) -> (res: Vec<EnvChange>)
    ensures
        changes(res@) == session_changes(*config, adapter, changes(first@), *inherited),
{
    let ghost begin = changes(first@);
    let mut env = first;
    if config.integration.uses_markers() {
        push_put(&mut env, "COSH_SESSION_ID", config.session_id.as_str());
    }
    if config.native_mode {
        push_value(&mut env, "COSH_SHELL_ISOLATED", None);
    } else {
        let history = join_path(config.work_dir.as_str(), "history");
        push_put(&mut env, "COSH_HISTFILE", history.as_str());
        push_put(&mut env, "COSH_POC_PS1", config.prompt.as_str());
        push_put(&mut env, "BASH_SILENCE_DEPRECATION_WARNING", "1");
        push_put(&mut env, "COSH_SHELL_ISOLATED", "1");
    }
    assert(changes(env@) =~= begin + mode_changes(*config));
    let mut i: usize = 0;
    let ghost all = override_changes(config.env_overrides@);
    assert(changes(env@) =~= begin + mode_changes(*config) + all.take(0));
    while i < config.env_overrides.len()
        invariant
            i <= config.env_overrides@.len(),
            all == override_changes(config.env_overrides@),
            changes(env@) == begin + mode_changes(*config) + all.take(i as int),
        decreases config.env_overrides@.len() - i,
    {
        push_put(&mut env, config.env_overrides[i].0.as_str(), config.env_overrides[i].1.as_str());
        i = i + 1;
        assert(changes(env@) =~= begin + mode_changes(*config) + all.take(i as int));
    }
    assert(all.take(all.len() as int) =~= all);
    let ghost before = changes(env@);
    if adapter.uses_login_identity_inject(config) {
        let overrides = &config.env_overrides;
        let prior_env = final_child_env_value(overrides, "ENV", inherited.env.clone());
        push_value(&mut env, "COSH_PRIOR_ENV", prior_env);
        let prior_histfile = final_child_env_value(
            overrides,
            "HISTFILE",
            inherited.histfile.clone(),
        );
        push_value(&mut env, "COSH_PRIOR_HISTFILE", prior_histfile);
        let prior_bashopts = final_child_env_value(
            overrides,
            "BASHOPTS",
            inherited.bashopts.clone(),
        );
        push_value(&mut env, "COSH_PRIOR_BASHOPTS", prior_bashopts);
        let inject = join_path(config.work_dir.as_str(), "cosh-login-inject.bash");
        push_put(&mut env, "COSH_LOGIN_INJECT", inject.as_str());
        push_put(&mut env, "ENV", "${COSH_LOGIN_INJECT}");
        assert(changes(env@) =~= before + inject_changes(*config, *inherited));
    }
    if !config.native_mode && adapter.isolates_readline() {
        let inputrc = join_path(config.work_dir.as_str(), "inputrc");
        push_put(&mut env, "INPUTRC", inputrc.as_str());
    }
    assert(changes(env@) =~= session_changes(*config, adapter, begin, *inherited));
    env
}

/// Plans a session. `marker_script` is the marker of the shell with the
/// session's token in it.
pub fn plan_session(
    config: &ShellHostConfig,
    adapter: ShellAdapter,
    marker_script: &str,
    inherited: &Inherited,
) -> (res: SessionPlan)
    ensures
        res@ == planned(*config, adapter, marker_script@, *inherited),
{
    let work_dir: &str = config.work_dir.as_str();
    let markers: bool = config.integration.uses_markers();
    let mut directories: Vec<String> = Vec::new();
    assert(texts(directories@) =~= Seq::empty());
    push_text(&mut directories, work_dir);
    let refs = join_path(work_dir, "output-refs");
    push_text(&mut directories, refs.as_str());
    let files = plan_files(config, adapter, marker_script);
    let marker = join_path(work_dir, adapter.marker_filename());
    let launch = adapter.configure_command(
        if markers {
            Some(marker.as_str())
        } else {
            None
        },
        config,
        inherited.zdotdir.clone(),
        inherited.home.clone(),
    );
    let env = plan_changes(config, adapter, launch.env, inherited);
    let res = SessionPlan {
        directories,
        files,
        program: adapter.executable(config),
        launch: Launch { argv0: launch.argv0, args: launch.args, env },
        recovery_request_file: join_path(work_dir, "terminal-recovery-request"),
        handoff_request_file: join_path(work_dir, "shell-handoff-request"),
        zsh_path_prompt_buffering: markers && adapter.supports_zsh_path_prompt_buffering(),
    };
    assert(res@ =~~= planned(*config, adapter, marker_script@, *inherited));
    res
}

/// Whatever is overridden, a Bash with a login identity reads the startup
/// script, and the script finds what `$ENV` would have been.
pub proof fn overrides_cannot_redirect_the_inject(
    config: ShellHostConfig,
    marker_script: Seq<char>,
    inherited: Inherited,
)
    requires
        takes_identity(config),
    ensures
        ({
            let env = planned(config, ShellAdapter::Bash, marker_script, inherited).launch.env;
            &&& variable_after(env, "ENV"@, maybe_bytes(inherited.env)) == Some(
                encode_utf8("${COSH_LOGIN_INJECT}"@),
            )
            &&& variable_after(env, "COSH_LOGIN_INJECT"@, None) == Some(
                encode_utf8(path_in(config.work_dir@, "cosh-login-inject.bash"@)),
            )
            &&& variable_after(env, "COSH_PRIOR_ENV"@, None) == child_value(
                config.env_overrides@,
                "ENV"@,
                maybe_bytes(inherited.env),
            )
        }),
{
    let env = planned(config, ShellAdapter::Bash, marker_script, inherited).launch.env;
    let tail = inject_changes(config, inherited);
    let n = env.len();
    reveal_strlit("ENV");
    reveal_strlit("COSH_LOGIN_INJECT");
    reveal_strlit("COSH_PRIOR_ENV");
    reveal_strlit("COSH_PRIOR_HISTFILE");
    reveal_strlit("COSH_PRIOR_BASHOPTS");
    assert("ENV"@.len() == 3);
    assert("COSH_LOGIN_INJECT"@.len() == 17);
    assert("COSH_PRIOR_ENV"@.len() == 14);
    assert("COSH_PRIOR_HISTFILE"@.len() == 19);
    assert("COSH_PRIOR_BASHOPTS"@.len() == 19);
    assert(n >= 5);
    assert(env[n - 1] == tail[4]);
    let e1 = env.drop_last();
    assert(e1.last() == tail[3]);
    let e2 = e1.drop_last();
    assert(e2.last() == tail[2]);
    let e3 = e2.drop_last();
    assert(e3.last() == tail[1]);
    let e4 = e3.drop_last();
    assert(e4.last() == tail[0]);
    assert(variable_after(env, "ENV"@, maybe_bytes(inherited.env)) == Some(
        encode_utf8("${COSH_LOGIN_INJECT}"@),
    ));
    let inject = "COSH_LOGIN_INJECT"@;
    assert(variable_after(env, inject, None) == variable_after(e1, inject, None));
    assert(variable_after(e1, inject, None) == Some(
        encode_utf8(path_in(config.work_dir@, "cosh-login-inject.bash"@)),
    ));
    let key = "COSH_PRIOR_ENV"@;
    assert(variable_after(env, key, None) == variable_after(e1, key, None));
    assert(variable_after(e1, key, None) == variable_after(e2, key, None));
    assert(variable_after(e2, key, None) == variable_after(e3, key, None));
    assert(variable_after(e3, key, None) == variable_after(e4, key, None));
    assert(variable_after(e4, key, None) == child_value(
        config.env_overrides@,
        "ENV"@,
        maybe_bytes(inherited.env),
    ));
}

/// A shell that reads the user's own startup files is never isolated, and an
/// isolated shell never takes a login identity.
pub proof fn isolated_shells_take_no_identity(config: ShellHostConfig, marker: Option<Seq<char>>)
    requires
        !config.native_mode,
    ensures
        !takes_identity(config),
        bash_launch(marker, config).argv0 is None,
{
}

/// How long the outputs of a session are kept, in nanoseconds.
pub const OUTPUT_REF_RETENTION: u128 = 86_400_000_000_000;

/// Whether an entry of the output directory is too old.
pub open spec fn expired(is_file: bool, modified: Option<u128>, now: u128, retention: u128) -> bool {
    is_file && modified is Some && now > modified->0 + retention
}

/// Whether an entry of the output directory is removed: a file, modified more
/// than `retention` ago. A file from the future stays.
pub fn output_ref_expired(is_file: bool, modified: Option<u128>, now: u128, retention: u128) -> (res: bool)
    ensures
        res == expired(is_file, modified, now, retention),
        res == (is_file && modified is Some && now > modified->0 + retention),
{
    match modified {
        Some(at) => is_file && now >= at && now - at > retention,
        None => false,
    }
}

} // verus!
