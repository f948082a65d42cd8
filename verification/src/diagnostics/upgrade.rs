//! Whether a newer version is there, found out quietly at startup.

use vstd::prelude::*;
use vstd::string::*;
use vstd::utf8::*;

use crate::health::provider::filled_in;
use crate::login_shell::path::{
    absolute, components, named_parts, same_components, same_path, starts_here,
};
use crate::record::{field, read_field, Field, FieldView};
use crate::text::{
    after_word, ascii_lowered, begins_with, chars_of, first_word, join, joined, lines, lines_of,
    next_word, opt_view, pieces, same, starts_with, text_of, texts, to_ascii_lower, trim, trimmed,
    utf8_text,
};
use crate::tree::{
    json_as_bool, json_as_str, json_is_null, json_items, json_parse_bytes, json_read_bytes,
    json_tree, Tree,
};

verus! {

/// The version of the cache format.
pub const CACHE_VERSION: u32 = 2;

/// The largest cache file that is read.
pub const MAX_CACHE_BYTES: u64 = 65_536;

/// How much of what a command prints is kept.
pub const MAX_PIPE_OUTPUT_BYTES: usize = 33_554_432;

/// How long each command may take, in milliseconds.
pub const ANOLISA_TIMEOUT: u64 = 45_000;

pub const RPM_TIMEOUT: u64 = 5_000;

pub const PACKAGE_MANAGER_TIMEOUT: u64 = 30_000;

/// A version held by `semver`.
#[verifier::external_type_specification]
#[verifier::external_body]
pub struct ExVersion(semver::Version);

/// What a version is made of.
pub struct VersionParts {
    pub major: u64,
    pub minor: u64,
    pub patch: u64,
    pub pre: Seq<char>,
    pub build: Seq<char>,
}

/// What a `semver::Version` holds.
pub uninterp spec fn version_parts(version: semver::Version) -> VersionParts;

/// The version that `semver::Version::parse` reads from a text, if it reads one.
pub uninterp spec fn semver_read(text: Seq<char>) -> Option<VersionParts>;

/// How `semver::Version::cmp` orders two versions: below, at or above zero.
pub uninterp spec fn semver_order(a: VersionParts, b: VersionParts) -> i8;

/// `semver::Version::parse` decides from the text alone whether it is a version,
/// and which one.
#[verifier::external_body]
fn version_parse(text: &str) -> (res: Option<semver::Version>)
    ensures
        match res {
            Some(v) => semver_read(text@) == Some(version_parts(v)),
            None => semver_read(text@) is None,
        },
{
    semver::Version::parse(text).ok()
}

/// Major, minor and patch version decide, in this order.
pub open spec fn release_order(a: VersionParts, b: VersionParts) -> int {
    if a.major != b.major {
        if a.major < b.major {
            -1
        } else {
            1
        }
    } else if a.minor != b.minor {
        if a.minor < b.minor {
            -1
        } else {
            1
        }
    } else if a.patch != b.patch {
        if a.patch < b.patch {
            -1
        } else {
            1
        }
    } else {
        0
    }
}

/// `semver::Version::cmp` orders versions by major, minor and patch version. Of
/// two versions that agree in these, one without a pre-release is above one
/// with; versions with the same parts are equal. How two pre-releases or two
/// builds are ordered is left to its name.
#[verifier::external_body]
fn version_order(a: &semver::Version, b: &semver::Version) -> (res: i8)
    ensures
        res == semver_order(version_parts(*a), version_parts(*b)),
        -1 <= res <= 1,
        release_order(version_parts(*a), version_parts(*b)) != 0 ==> res == release_order(
            version_parts(*a),
            version_parts(*b),
        ),
        version_parts(*a) == version_parts(*b) ==> res == 0,
        release_order(version_parts(*a), version_parts(*b)) == 0 && version_parts(*a).pre.len() == 0
            && version_parts(*b).pre.len() > 0 ==> res == 1,
        release_order(version_parts(*a), version_parts(*b)) == 0 && version_parts(*a).pre.len() > 0
            && version_parts(*b).pre.len() == 0 ==> res == -1,
{
    match a.cmp(b) {
        std::cmp::Ordering::Less => -1,
        std::cmp::Ordering::Equal => 0,
        std::cmp::Ordering::Greater => 1,
    }
}

/// How one version stands to another.
#[derive(Clone, Copy, Debug, PartialEq, Eq, Structural)]
pub enum VersionOrder {
    Older,
    Same,
    Newer,
}

/// The version in a text: white space around it and a leading `v` do not count.
pub open spec fn version_in(text: Seq<char>) -> Option<VersionParts> {
    let t = trimmed(text);
    semver_read(
        if t.len() > 0 && t[0] == 'v' {
            t.skip(1)
        } else {
            t
        },
    )
}

/// How two versions stand to each other, unless one of them is none.
pub open spec fn versions_order(left: Seq<char>, right: Seq<char>) -> Option<VersionOrder> {
    match (version_in(left), version_in(right)) {
        (Some(a), Some(b)) => Some(
            if semver_order(a, b) < 0 {
                VersionOrder::Older
            } else if semver_order(a, b) == 0 {
                VersionOrder::Same
            } else {
                VersionOrder::Newer
            },
        ),
        _ => None,
    }
}

fn read_version(text: &str) -> (res: Option<semver::Version>)
    ensures
        match res {
            Some(v) => version_in(text@) == Some(version_parts(v)),
            None => version_in(text@) is None,
        },
{
    let t = trim(text);
    let chars = chars_of(t.as_str());
    if chars.len() > 0 && chars[0] == 'v' {
        let rest = text_of(&chars, 1, chars.len());
        assert(rest@ =~= t@.skip(1));
        version_parse(rest.as_str())
    } else {
        version_parse(t.as_str())
    }
}

/// How the left version stands to the right one.
pub fn compare_versions(left: &str, right: &str) -> (res: Option<VersionOrder>)
    ensures
        res == versions_order(left@, right@),
{
    match (read_version(left), read_version(right)) {
        (Some(a), Some(b)) => {
            let order: i8 = version_order(&a, &b);
            if order < 0 {
                Some(VersionOrder::Older)
            } else if order == 0 {
                Some(VersionOrder::Same)
            } else {
                Some(VersionOrder::Newer)
            }
        },
        _ => None,
    }
}

/// An upgrade as it is announced.
#[derive(Clone, Debug)]
pub struct UpgradeNotice {
    pub package: String,
    pub current: String,
    pub latest: String,
    pub command: String,
}

/// What an [`UpgradeNotice`] says.
#[verifier::ext_equal]
pub struct NoticeView {
    pub package: Seq<char>,
    pub current: Seq<char>,
    pub latest: Seq<char>,
    pub command: Seq<char>,
}

impl View for UpgradeNotice {
    type V = NoticeView;

    open spec fn view(&self) -> NoticeView {
        NoticeView {
            package: self.package@,
            current: self.current@,
            latest: self.latest@,
            command: self.command@,
        }
    }
}

impl UpgradeNotice {
    /// The same notice.
    pub fn copy(&self) -> (res: UpgradeNotice)
        ensures
            res@ == self@,
    {
        UpgradeNotice {
            package: self.package.clone(),
            current: self.current.clone(),
            latest: self.latest.clone(),
            command: self.command.clone(),
        }
    }
}

/// What was found out.
#[derive(Clone, Debug)]
pub enum UpgradeVerdict {
    Upgrade(UpgradeNotice),
    UpToDate,
    /// It cannot be told.
    Unavailable,
}

/// What an [`UpgradeVerdict`] says.
#[verifier::ext_equal]
pub enum VerdictView {
    Upgrade(NoticeView),
    UpToDate,
    Unavailable,
}

impl View for UpgradeVerdict {
    type V = VerdictView;

    open spec fn view(&self) -> VerdictView {
        match self {
            UpgradeVerdict::Upgrade(n) => VerdictView::Upgrade(n@),
            UpgradeVerdict::UpToDate => VerdictView::UpToDate,
            UpgradeVerdict::Unavailable => VerdictView::Unavailable,
        }
    }
}

/// The view of a verdict that may be missing.
pub open spec fn maybe_verdict(v: Option<UpgradeVerdict>) -> Option<VerdictView> {
    match v {
        Some(x) => Some(x@),
        None => None,
    }
}

/// What the component manager answered.
pub struct AnolisaReply {
    pub good: bool,
    pub package: Option<String>,
    pub to_version: Option<String>,
    pub plan: Vec<String>,
}

/// What an [`AnolisaReply`] says.
#[verifier::ext_equal]
pub struct ReplyView {
    pub good: bool,
    pub package: Option<Seq<char>>,
    pub to_version: Option<Seq<char>>,
    pub plan: Seq<Seq<char>>,
}

impl View for AnolisaReply {
    type V = ReplyView;

    open spec fn view(&self) -> ReplyView {
        ReplyView {
            good: self.good,
            package: opt_view(self.package),
            to_version: opt_view(self.to_version),
            plan: texts(self.plan@),
        }
    }
}

/// A truth value.
pub open spec fn bool_in(field: FieldView) -> Option<bool> {
    match field {
        FieldView::Held(value) => match json_read_bytes(value) {
            Some(Tree::Bool(b)) => Some(b),
            _ => None,
        },
        _ => None,
    }
}

/// A text that may be left out or empty; anything else is out of place.
pub open spec fn optional_text_in(field: FieldView) -> Option<Option<Seq<char>>> {
    match field {
        FieldView::Missing => Some(None),
        FieldView::Held(value) => match json_read_bytes(value) {
            Some(Tree::Null) => Some(None),
            Some(Tree::Text(s)) => Some(Some(s)),
            _ => None,
        },
        FieldView::Unreadable => None,
    }
}

/// The texts of a list of texts.
pub open spec fn text_list(items: Seq<Tree>) -> Option<Seq<Seq<char>>>
    decreases items.len(),
{
    if items.len() == 0 {
        Some(Seq::empty())
    } else {
        match (text_list(items.drop_last()), items.last().text()) {
            (Some(rest), Some(s)) => Some(rest.push(s)),
            _ => None,
        }
    }
}

/// A list of texts.
pub open spec fn text_list_in(field: FieldView) -> Option<Seq<Seq<char>>> {
    match field {
        FieldView::Held(value) => match json_read_bytes(value) {
            Some(Tree::List(items)) => text_list(items),
            _ => None,
        },
        _ => None,
    }
}

/// The answer in what was printed. It has `ok`, and in `data` a plan; package and
/// target version may be missing.
pub open spec fn reply_in(text: Seq<u8>) -> Option<ReplyView> {
    match (bool_in(field(text, "ok"@, 0, 2)), field(text, "data"@, 1, 2)) {
        (Some(good), FieldView::Held(data)) => match (
            optional_text_in(field(data, "package"@, 0, 3)),
            optional_text_in(field(data, "to_version"@, 1, 3)),
            text_list_in(field(data, "plan"@, 2, 3)),
        ) {
            (Some(package), Some(to_version), Some(plan)) => Some(
                ReplyView { good, package, to_version, plan },
            ),
            _ => None,
        },
        _ => None,
    }
}

fn read_bool(field: Field<'_>) -> (res: Option<bool>)
    ensures
        res == bool_in(field@),
{
    match field {
        Field::Held(value) => match json_parse_bytes(value) {
            Some(document) => json_as_bool(&document),
            None => None,
        },
        _ => None,
    }
}

fn read_optional_text(field: Field<'_>) -> (res: Option<Option<String>>)
    ensures
        match res {
            Some(t) => optional_text_in(field@) == Some(opt_view(t)),
            None => optional_text_in(field@) is None,
        },
{
    match field {
        Field::Missing => Some(None),
        Field::Held(value) => match json_parse_bytes(value) {
            Some(document) => match json_as_str(&document) {
                Some(s) => Some(Some(s.to_owned())),
                None => {
                    if json_is_null(&document) {
                        Some(None)
                    } else {
                        None
                    }
                },
            },
            None => None,
        },
        Field::Unreadable => None,
    }
}

fn read_plan(field: Field<'_>) -> (res: Option<Vec<String>>)
    ensures
        match res {
            Some(plan) => text_list_in(field@) == Some(texts(plan@)),
            None => text_list_in(field@) is None,
        },
{
    match field {
        Field::Held(value) => match json_parse_bytes(value) {
            Some(document) => read_text_list(&document),
            None => None,
        },
        _ => None,
    }
}

fn read_text_list(value: &serde_json::Value) -> (res: Option<Vec<String>>)
    ensures
        match res {
            Some(v) => json_tree(*value) is List && text_list(json_tree(*value)->List_0) == Some(
                texts(v@),
            ),
            None => !(json_tree(*value) is List) || text_list(json_tree(*value)->List_0) is None,
        },
{
    let items = match json_items(value) {
        Some(items) => items,
        None => {
            return None;
        },
    };
    let ghost all = Seq::new(items@.len(), |i: int| json_tree(items@[i]));
    let mut out: Vec<String> = Vec::new();
    let mut i: usize = 0;
    proof {
        assert(all.take(0) =~= Seq::empty());
        assert(texts(out@) =~= Seq::empty());
    }
    while i < items.len()
        invariant
            i <= items@.len(),
            all == Seq::new(items@.len(), |i: int| json_tree(items@[i])),
            json_tree(*value) == Tree::List(all),
            text_list(all.take(i as int)) == Some(texts(out@)),
        decreases items@.len() - i,
    {
        proof {
            assert(all.take(i + 1).drop_last() =~= all.take(i as int));
            assert(all.take(i + 1).last() == all[i as int]);
        }
        match json_as_str(&items[i]) {
            Some(s) => {
                let ghost before = texts(out@);
                out.push(s.to_owned());
                assert(texts(out@) =~= before.push(s@));
            },
            None => {
                proof {
                    lemma_text_list_stops(all, i + 1);
                    assert(all.take(all.len() as int) =~= all);
                }
                return None;
            },
        }
        i = i + 1;
    }
    assert(all.take(all.len() as int) =~= all);
    Some(out)
}

proof fn lemma_text_list_stops(all: Seq<Tree>, n: int)
    requires
        0 <= n <= all.len(),
        text_list(all.take(n)) is None,
    ensures
        text_list(all.take(all.len() as int)) is None,
    decreases all.len() - n,
{
    if n < all.len() {
        assert(all.take(n + 1).drop_last() =~= all.take(n));
        lemma_text_list_stops(all, n + 1);
    }
}

/// The answer in what was printed.
pub fn read_reply(text: &[u8]) -> (res: Option<AnolisaReply>)
    ensures
        match res {
            Some(r) => reply_in(text@) == Some(r@),
            None => reply_in(text@) is None,
        },
{
    let good: bool = match read_bool(read_field(text, "ok", 0, 2)) {
        Some(good) => good,
        None => {
            return None;
        },
    };
    let data = match read_field(text, "data", 1, 2) {
        Field::Held(data) => data,
        _ => {
            return None;
        },
    };
    let package = match read_optional_text(read_field(data, "package", 0, 3)) {
        Some(p) => p,
        None => {
            return None;
        },
    };
    let to_version = match read_optional_text(read_field(data, "to_version", 1, 3)) {
        Some(v) => v,
        None => {
            return None;
        },
    };
    match read_plan(read_field(data, "plan", 2, 3)) {
        Some(plan) => Some(AnolisaReply { good, package, to_version, plan }),
        None => None,
    }
}

/// What an answer means. An empty plan means that nothing is to be done; a
/// target that cannot be compared tells nothing.
pub open spec fn reply_verdict(reply: ReplyView, component: Seq<char>, running: Seq<char>) -> Option<
    VerdictView,
> {
    if !reply.good {
        None
    } else if reply.plan.len() == 0 {
        Some(VerdictView::UpToDate)
    } else if reply.to_version is None || !filled_in(reply.to_version->0) {
        Some(VerdictView::Unavailable)
    } else {
        match versions_order(reply.to_version->0, running) {
            Some(VersionOrder::Newer) => Some(
                VerdictView::Upgrade(
                    NoticeView {
                        package: match reply.package {
                            Some(p) => p,
                            None => component,
                        },
                        current: running,
                        latest: reply.to_version->0,
                        command: "anolisa update cosh-ng"@,
                    },
                ),
            ),
            Some(_) => Some(VerdictView::UpToDate),
            None => Some(VerdictView::Unavailable),
        }
    }
}

/// What an answer means.
pub fn judge_reply(reply: AnolisaReply, component: &str, running_version: &str) -> (res: Option<
    UpgradeVerdict,
>)
    ensures
        maybe_verdict(res) == reply_verdict(reply@, component@, running_version@),
{
    if !reply.good {
        return None;
    }
    assert(reply@.plan.len() == reply.plan@.len());
    if reply.plan.len() == 0 {
        return Some(UpgradeVerdict::UpToDate);
    }
    let latest = match reply.to_version {
        Some(v) => v,
        None => {
            return Some(UpgradeVerdict::Unavailable);
        },
    };
    let text = trim(latest.as_str());
    if text.as_str().is_empty() {
        return Some(UpgradeVerdict::Unavailable);
    }
    match compare_versions(latest.as_str(), running_version) {
        Some(VersionOrder::Newer) => {},
        Some(_) => {
            return Some(UpgradeVerdict::UpToDate);
        },
        None => {
            return Some(UpgradeVerdict::Unavailable);
        },
    }
    let package: String = match reply.package {
        Some(p) => p,
        None => component.to_owned(),
    };
    Some(
        UpgradeVerdict::Upgrade(
            UpgradeNotice {
                package,
                current: running_version.to_owned(),
                latest,
                command: "anolisa update cosh-ng".to_owned(),
            },
        ),
    )
}

/// What the component manager printed means.
pub open spec fn anolisa_verdict(bytes: Seq<u8>, component: Seq<char>, running: Seq<char>) -> Option<
    VerdictView,
> {
    match reply_in(bytes) {
        Some(reply) => reply_verdict(reply, component, running),
        None => None,
    }
}

/// What the component manager printed means.
pub fn parse_anolisa_output(bytes: &[u8], component: &str, running_version: &str) -> (res: Option<
    UpgradeVerdict,
>)
    ensures
        maybe_verdict(res) == anolisa_verdict(bytes@, component@, running_version@),
{
    match read_reply(bytes) {
        Some(reply) => judge_reply(reply, component, running_version),
        None => None,
    }
}

/// The package that owns the executable: only one name counts.
pub open spec fn owner_in(stdout: Seq<u8>) -> Option<Seq<char>> {
    if valid_utf8(stdout) && trimmed(decode_utf8(stdout)) == "cosh-ng"@ {
        Some("cosh-ng"@)
    } else {
        None
    }
}

/// The package that owns the executable.
pub fn parse_rpm_package_name(stdout: &[u8]) -> (res: Option<String>)
    ensures
        opt_view(res) == owner_in(stdout@),
{
    match utf8_text(stdout) {
        Some(text) => {
            let package = trim(text.as_str());
            if same(package.as_str(), "cosh-ng") {
                Some(package)
            } else {
                None
            }
        },
        None => None,
    }
}

/// Whether a name stands for a package: the package itself, or with its
/// architecture.
pub open spec fn names_package(name: Seq<char>, package: Seq<char>) -> bool {
    name == package || (begins_with(name, package) && name.len() > package.len()
        && name[package.len() as int] == '.')
}

/// The version that a line offers for a package.
pub open spec fn offered(line: Seq<char>, package: Seq<char>) -> Option<Seq<char>> {
    let name = first_word(line);
    let version = first_word(after_word(line));
    if name.len() > 0 && names_package(name, package) && version.len() > 0 {
        Some(version)
    } else {
        None
    }
}

/// The version that the first fitting line offers.
pub open spec fn first_offer(all: Seq<Seq<char>>, package: Seq<char>) -> Option<Seq<char>>
    decreases all.len(),
{
    if all.len() == 0 {
        None
    } else if offered(all[0], package) is Some {
        offered(all[0], package)
    } else {
        first_offer(all.skip(1), package)
    }
}

/// The version that a package manager offers.
pub open spec fn candidate_in(stdout: Seq<u8>, package: Seq<char>) -> Option<Seq<char>> {
    if valid_utf8(stdout) {
        first_offer(lines_of(decode_utf8(stdout)), package)
    } else {
        None
    }
}

fn read_offer(line: &str, package: &str) -> (res: Option<String>)
    ensures
        opt_view(res) == offered(line@, package@),
{
    let chars = chars_of(line);
    assert(chars@.skip(0) =~= line@);
    let (name, end) = next_word(&chars, 0);
    let (version, _) = next_word(&chars, end);
    if name.as_str().is_empty() || version.as_str().is_empty() {
        return None;
    }
    if same(name.as_str(), package) {
        return Some(version);
    }
    let letters = chars_of(name.as_str());
    let n: usize = package.unicode_len();
    if starts_with(name.as_str(), package) && letters.len() > n && letters[n] == '.' {
        Some(version)
    } else {
        None
    }
}

/// The version that a package manager offers.
pub fn parse_package_candidate(stdout: &[u8], package: &str) -> (res: Option<String>)
    ensures
        opt_view(res) == candidate_in(stdout@, package@),
{
    let text = match utf8_text(stdout) {
        Some(text) => text,
        None => {
            return None;
        },
    };
    let all = lines(text.as_str());
    let ghost views = texts(all@);
    let mut i: usize = 0;
    assert(views.skip(0) =~= views);
    while i < all.len()
        invariant
            i <= all@.len(),
            views == texts(all@),
            valid_utf8(stdout@),
            views == lines_of(decode_utf8(stdout@)),
            first_offer(views.skip(i as int), package@) == first_offer(views, package@),
        decreases all@.len() - i,
    {
        proof {
            let rest = views.skip(i as int);
            assert(rest[0] == all@[i as int]@);
            assert(rest.skip(1) =~= views.skip(i + 1));
        }
        let found = read_offer(all[i].as_str(), package);
        if found.is_some() {
            return found;
        }
        i = i + 1;
    }
    None
}

/// What a package manager's answer means: nothing to do, or a newer package; any
/// other exit code tells nothing.
pub open spec fn manager_verdict(
    status: Option<i32>,
    stdout: Seq<u8>,
    package: Seq<char>,
    running: Seq<char>,
    manager: Seq<char>,
    command: Option<Seq<char>>,
) -> Option<VerdictView> {
    if status == Some(0i32) {
        Some(VerdictView::UpToDate)
    } else if status == Some(100i32) {
        match candidate_in(stdout, package) {
            Some(latest) => Some(
                VerdictView::Upgrade(
                    NoticeView {
                        package,
                        current: running,
                        latest,
                        command: match command {
                            Some(c) => c,
                            None => "sudo "@ + manager + " update "@ + package,
                        },
                    },
                ),
            ),
            None => None,
        }
    } else {
        None
    }
}

/// What a package manager's answer means.
pub fn classify_package_manager_output(
    status: Option<i32>,
    stdout: &[u8],
    package: &str,
    running_version: &str,
    manager: &str,
    upgrade_command: Option<&str>,
) -> (res: Option<UpgradeVerdict>)
    ensures
        maybe_verdict(res) == manager_verdict(
            status,
            stdout@,
            package@,
            running_version@,
            manager@,
            match upgrade_command {
                Some(c) => Some(c@),
                None => None,
            },
        ),
{
    let code: i32 = match status {
        Some(code) => code,
        None => {
            return None;
        },
    };
    if code == 0 {
        return Some(UpgradeVerdict::UpToDate);
    }
    if code != 100 {
        return None;
    }
    let latest = match parse_package_candidate(stdout, package) {
        Some(latest) => latest,
        None => {
            return None;
        },
    };
    let command: String = match upgrade_command {
        Some(c) => c.to_owned(),
        None => "sudo ".to_owned().concat(manager).concat(" update ").concat(package),
    };
    Some(
        UpgradeVerdict::Upgrade(
            UpgradeNotice {
                package: package.to_owned(),
                current: running_version.to_owned(),
                latest,
                command,
            },
        ),
    )
}

/// The end of the parts of a system-wide installation.
pub open spec fn system_layout() -> Seq<Seq<char>> {
    seq!["usr"@, "local"@, "libexec"@, "anolisa"@, "cosh-ng"@, "cosh-shell"@]
}

/// The end of the parts of an installation of one user.
pub open spec fn user_layout() -> Seq<Seq<char>> {
    seq![".local"@, "lib"@, "anolisa"@, "libexec"@, "cosh-ng"@, "cosh-shell"@]
}

/// The parts as a path again.
pub open spec fn path_of(path: Seq<char>, parts: Seq<Seq<char>>) -> Seq<char> {
    (if absolute(path) {
        "/"@
    } else if starts_here(path) {
        "./"@
    } else {
        ""@
    }) + joined(parts, "/"@)
}

/// The component manager that belongs to a managed executable: beside it, in
/// the `bin` of the same installation.
pub open spec fn manager_for(executable: Seq<char>) -> Option<Seq<char>> {
    let parts = named_parts(pieces(executable, '/'));
    let n = parts.len();
    if n >= 6 && parts.skip(n - 6) == system_layout() {
        Some(path_of(executable, parts.take(n - 4) + seq!["bin"@, "anolisa"@]))
    } else if n >= 6 && parts.skip(n - 6) == user_layout() {
        Some(path_of(executable, parts.take(n - 5) + seq!["bin"@, "anolisa"@]))
    } else {
        None
    }
}

fn ends_as(
    parts: &Vec<String>,
    a: &str,
    b: &str,
    c: &str,
    d: &str,
    e: &str,
    f: &str,
) -> (res: bool)
    requires
        parts@.len() >= 6,
    ensures
        res == (texts(parts@).skip(parts@.len() - 6) == seq![a@, b@, c@, d@, e@, f@]),
{
    let n: usize = parts.len();
    let res: bool = same(parts[n - 6].as_str(), a) && same(parts[n - 5].as_str(), b) && same(
        parts[n - 4].as_str(),
        c,
    ) && same(parts[n - 3].as_str(), d) && same(parts[n - 2].as_str(), e) && same(
        parts[n - 1].as_str(),
        f,
    );
    proof {
        let tail = texts(parts@).skip(parts@.len() - 6);
        let wanted = seq![a@, b@, c@, d@, e@, f@];
        assert(tail.len() == 6);
        assert(tail[0] == parts@[n - 6]@);
        assert(tail[1] == parts@[n - 5]@);
        assert(tail[2] == parts@[n - 4]@);
        assert(tail[3] == parts@[n - 3]@);
        assert(tail[4] == parts@[n - 2]@);
        assert(tail[5] == parts@[n - 1]@);
        if res {
            assert(tail =~= wanted);
        } else {
            assert(tail[0] != wanted[0] || tail[1] != wanted[1] || tail[2] != wanted[2] || tail[3]
                != wanted[3] || tail[4] != wanted[4] || tail[5] != wanted[5]);
        }
    }
    res
}

fn manager_in(executable: &str, parts: Vec<String>, keep: usize, rooted: bool, here: bool) -> (res: String)
    requires
        keep <= parts@.len(),
        rooted == absolute(executable@),
        here == starts_here(executable@),
    ensures
        res@ == path_of(executable@, texts(parts@).take(keep as int) + seq!["bin"@, "anolisa"@]),
{
    let ghost all = texts(parts@);
    let mut kept = parts;
    kept.truncate(keep);
    assert(texts(kept@) =~= all.take(keep as int));
    kept.push("bin".to_owned());
    kept.push("anolisa".to_owned());
    assert(texts(kept@) =~= all.take(keep as int) + seq!["bin"@, "anolisa"@]);
    let tail = join(&kept, "/");
    let head: &str = if rooted {
        "/"
    } else if here {
        "./"
    } else {
        ""
    };
    head.to_owned().concat(tail.as_str())
}

/// The component manager that belongs to a managed executable.
pub fn anolisa_candidate_for_managed_executable(executable: &str) -> (res: Option<String>)
    ensures
        opt_view(res) == manager_for(executable@),
{
    let (rooted, here, parts) = components(executable);
    assert(texts(parts@).len() == parts@.len());
    let n: usize = parts.len();
    if n < 6 {
        return None;
    }
    if ends_as(&parts, "usr", "local", "libexec", "anolisa", "cosh-ng", "cosh-shell") {
        return Some(manager_in(executable, parts, n - 4, rooted, here));
    }
    if ends_as(&parts, ".local", "lib", "anolisa", "libexec", "cosh-ng", "cosh-shell") {
        return Some(manager_in(executable, parts, n - 5, rooted, here));
    }
    None
}

/// The component manager that is asked.
pub open spec fn chosen_manager(configured: Option<Seq<char>>, found: Option<Seq<char>>) -> Option<
    Seq<char>,
> {
    if configured is Some {
        configured
    } else {
        found
    }
}

/// The component manager that is asked: a configured one comes before one that
/// was found.
pub fn choose_manager(configured: Option<String>, found: Option<String>) -> (res: Option<String>)
    ensures
        opt_view(res) == chosen_manager(opt_view(configured), opt_view(found)),
        opt_view(res) == (if configured is Some {
            opt_view(configured)
        } else {
            opt_view(found)
        }),
{
    if configured.is_some() {
        configured
    } else {
        found
    }
}

/// How an upgrade was found.
#[derive(Clone, Copy, Debug, PartialEq, Eq, Structural)]
pub enum DetectionMethod {
    Anolisa,
    Rpm,
}

/// What the search waits for.
#[derive(Clone, Copy, Debug, PartialEq, Eq, Structural)]
pub enum SearchStage {
    /// The component manager of a managed executable.
    LocatingManaged,
    /// Its answer.
    AskingManaged,
    /// The package that owns the executable.
    FindingOwner,
    /// Any component manager.
    Locating,
    /// Its answer.
    Asking,
    /// The answer of the package manager, on behalf of the component manager.
    CheckingForAnolisa,
    /// The answer of the package manager.
    Checking,
    Finished,
}

/// What the search asks for.
pub enum SearchAction {
    /// The configured component manager, else this one if it is executable.
    LocateManaged(String),
    /// The configured component manager, else one on the search path.
    Locate,
    /// What the component manager says.
    Ask(String),
    /// The package that owns the executable.
    FindOwner,
    /// What the package manager says of a package, and which command is shown.
    Check(String, Option<String>),
    /// The search is over.
    Finish(Option<(DetectionMethod, UpgradeVerdict)>),
}

/// What a [`SearchAction`] says.
#[verifier::ext_equal]
pub enum SearchActionView {
    LocateManaged(Seq<char>),
    Locate,
    Ask(Seq<char>),
    FindOwner,
    Check(Seq<char>, Option<Seq<char>>),
    Finish(Option<(DetectionMethod, VerdictView)>),
}

impl View for SearchAction {
    type V = SearchActionView;

    open spec fn view(&self) -> SearchActionView {
        match self {
            SearchAction::LocateManaged(c) => SearchActionView::LocateManaged(c@),
            SearchAction::Locate => SearchActionView::Locate,
            SearchAction::Ask(p) => SearchActionView::Ask(p@),
            SearchAction::FindOwner => SearchActionView::FindOwner,
            SearchAction::Check(p, c) => SearchActionView::Check(p@, opt_view(*c)),
            SearchAction::Finish(r) => SearchActionView::Finish(
                match r {
                    Some((m, v)) => Some((*m, v@)),
                    None => None,
                },
            ),
        }
    }
}

/// What came back.
pub enum SearchEvent {
    Located(Option<String>),
    Owner(Option<String>),
    /// What was made of the answer.
    Judged(Option<UpgradeVerdict>),
}

/// What a [`SearchEvent`] says.
pub enum SearchEventView {
    Located(Option<Seq<char>>),
    Owner(Option<Seq<char>>),
    Judged(Option<VerdictView>),
}

impl View for SearchEvent {
    type V = SearchEventView;

    open spec fn view(&self) -> SearchEventView {
        match self {
            SearchEvent::Located(p) => SearchEventView::Located(opt_view(*p)),
            SearchEvent::Owner(p) => SearchEventView::Owner(opt_view(*p)),
            SearchEvent::Judged(v) => SearchEventView::Judged(maybe_verdict(*v)),
        }
    }
}

/// The search for an upgrade of one executable.
pub struct UpgradeSearch {
    stage: SearchStage,
    package: Option<String>,
}

/// What an [`UpgradeSearch`] holds.
#[verifier::ext_equal]
pub struct UpgradeSearchView {
    pub stage: SearchStage,
    pub package: Option<Seq<char>>,
}

impl View for UpgradeSearch {
    type V = UpgradeSearchView;

    closed spec fn view(&self) -> UpgradeSearchView {
        UpgradeSearchView { stage: self.stage, package: opt_view(self.package) }
    }
}

impl UpgradeSearchView {
    /// Once the owner is known, the package is.
    pub open spec fn wf(self) -> bool {
        self.stage == SearchStage::Locating || self.stage == SearchStage::Asking || self.stage
            == SearchStage::CheckingForAnolisa || self.stage == SearchStage::Checking
            ==> self.package is Some
    }
}

/// The search at its start: a managed executable has its own component manager.
pub open spec fn search_begun(executable: Seq<char>) -> (UpgradeSearchView, SearchActionView) {
    match manager_for(executable) {
        Some(candidate) => (
            UpgradeSearchView { stage: SearchStage::LocatingManaged, package: None },
            SearchActionView::LocateManaged(candidate),
        ),
        None => (
            UpgradeSearchView { stage: SearchStage::FindingOwner, package: None },
            SearchActionView::FindOwner,
        ),
    }
}

/// The search at its end.
pub open spec fn search_done(
    s: UpgradeSearchView,
    found: Option<(DetectionMethod, VerdictView)>,
) -> (UpgradeSearchView, SearchActionView) {
    (
        UpgradeSearchView { stage: SearchStage::Finished, ..s },
        SearchActionView::Finish(found),
    )
}

/// The search with the package manager asked.
pub open spec fn search_check(
    s: UpgradeSearchView,
    stage: SearchStage,
    command: Option<Seq<char>>,
) -> (UpgradeSearchView, SearchActionView) {
    (UpgradeSearchView { stage, ..s }, SearchActionView::Check(s.package->0, command))
}

/// The search after something came back. What answers another question changes
/// nothing.
pub open spec fn search_advanced(s: UpgradeSearchView, event: SearchEventView) -> Option<
    (UpgradeSearchView, SearchActionView),
> {
    match (s.stage, event) {
        (SearchStage::LocatingManaged, SearchEventView::Located(Some(path))) => Some(
            (
                UpgradeSearchView { stage: SearchStage::AskingManaged, ..s },
                SearchActionView::Ask(path),
            ),
        ),
        (SearchStage::LocatingManaged, SearchEventView::Located(None)) => Some(
            (
                UpgradeSearchView { stage: SearchStage::FindingOwner, ..s },
                SearchActionView::FindOwner,
            ),
        ),
        (SearchStage::AskingManaged, SearchEventView::Judged(verdict)) => Some(
            search_done(
                s,
                match verdict {
                    None => None,
                    Some(VerdictView::Unavailable) => None,
                    Some(v) => Some((DetectionMethod::Anolisa, v)),
                },
            ),
        ),
        (SearchStage::FindingOwner, SearchEventView::Owner(None)) => Some(search_done(s, None)),
        (SearchStage::FindingOwner, SearchEventView::Owner(Some(package))) => Some(
            (
                UpgradeSearchView { stage: SearchStage::Locating, package: Some(package) },
                SearchActionView::Locate,
            ),
        ),
        (SearchStage::Locating, SearchEventView::Located(Some(path))) => Some(
            (
                UpgradeSearchView { stage: SearchStage::Asking, ..s },
                SearchActionView::Ask(path),
            ),
        ),
        (SearchStage::Locating, SearchEventView::Located(None)) => Some(
            search_check(s, SearchStage::Checking, None),
        ),
        (SearchStage::Asking, SearchEventView::Judged(verdict)) => Some(
            match verdict {
                None => search_check(s, SearchStage::Checking, None),
                Some(VerdictView::Unavailable) => search_check(
                    s,
                    SearchStage::CheckingForAnolisa,
                    Some("anolisa update cosh-ng"@),
                ),
                Some(v) => search_done(s, Some((DetectionMethod::Anolisa, v))),
            },
        ),
        (SearchStage::CheckingForAnolisa, SearchEventView::Judged(verdict)) => Some(
            search_done(
                s,
                match verdict {
                    Some(v) => Some((DetectionMethod::Anolisa, v)),
                    None => None,
                },
            ),
        ),
        (SearchStage::Checking, SearchEventView::Judged(verdict)) => Some(
            search_done(
                s,
                match verdict {
                    Some(v) => Some((DetectionMethod::Rpm, v)),
                    None => None,
                },
            ),
        ),
        _ => None,
    }
}

impl UpgradeSearch {
    /// Starts the search.
    pub fn begin(executable: &str) -> (res: (UpgradeSearch, SearchAction))
        ensures
            (res.0@, res.1@) == search_begun(executable@),
            res.0@.wf(),
    {
        match anolisa_candidate_for_managed_executable(executable) {
            Some(candidate) => (
                UpgradeSearch { stage: SearchStage::LocatingManaged, package: None },
                SearchAction::LocateManaged(candidate),
            ),
            None => (
                UpgradeSearch { stage: SearchStage::FindingOwner, package: None },
                SearchAction::FindOwner,
            ),
        }
    }

    fn check(&mut self, stage: SearchStage, command: Option<String>) -> (res: SearchAction)
        requires
            old(self)@.package is Some,
        ensures
            (final(self)@, res@) == search_check(old(self)@, stage, opt_view(command)),
    {
        self.stage = stage;
        match &self.package {
            Some(package) => SearchAction::Check(package.clone(), command),
            None => vstd::pervasive::unreached(),
        }
    }

    fn finish(&mut self, found: Option<(DetectionMethod, UpgradeVerdict)>) -> (res: SearchAction)
        ensures
            (final(self)@, res@) == search_done(
                old(self)@,
                match found {
                    Some((m, v)) => Some((m, v@)),
                    None => None,
                },
            ),
    {
        self.stage = SearchStage::Finished;
        SearchAction::Finish(found)
    }

    fn on_located(&mut self, path: Option<String>) -> (res: Option<SearchAction>)
        requires
            old(self)@.wf(),
        ensures
            match search_advanced(old(self)@, SearchEventView::Located(opt_view(path))) {
                Some((s, a)) => res is Some && (final(self)@, res->0@) == (s, a),
                None => res is None && final(self)@ == old(self)@,
            },
            final(self)@.wf(),
    {
        match self.stage {
            SearchStage::LocatingManaged => match path {
                Some(p) => {
                    self.stage = SearchStage::AskingManaged;
                    Some(SearchAction::Ask(p))
                },
                None => {
                    self.stage = SearchStage::FindingOwner;
                    Some(SearchAction::FindOwner)
                },
            },
            SearchStage::Locating => match path {
                Some(p) => {
                    self.stage = SearchStage::Asking;
                    Some(SearchAction::Ask(p))
                },
                None => Some(self.check(SearchStage::Checking, None)),
            },
            _ => None,
        }
    }

    fn on_owner(&mut self, package: Option<String>) -> (res: Option<SearchAction>)
        requires
            old(self)@.wf(),
        ensures
            match search_advanced(old(self)@, SearchEventView::Owner(opt_view(package))) {
                Some((s, a)) => res is Some && (final(self)@, res->0@) == (s, a),
                None => res is None && final(self)@ == old(self)@,
            },
            final(self)@.wf(),
    {
        if self.stage != SearchStage::FindingOwner {
            return None;
        }
        match package {
            Some(p) => {
                self.stage = SearchStage::Locating;
                self.package = Some(p);
                Some(SearchAction::Locate)
            },
            None => Some(self.finish(None)),
        }
    }

    fn on_judged(&mut self, verdict: Option<UpgradeVerdict>) -> (res: Option<SearchAction>)
        requires
            old(self)@.wf(),
        ensures
            match search_advanced(old(self)@, SearchEventView::Judged(maybe_verdict(verdict))) {
                Some((s, a)) => res is Some && (final(self)@, res->0@) == (s, a),
                None => res is None && final(self)@ == old(self)@,
            },
            final(self)@.wf(),
    {
        match self.stage {
            SearchStage::AskingManaged => match verdict {
                None => Some(self.finish(None)),
                Some(UpgradeVerdict::Unavailable) => Some(self.finish(None)),
                Some(v) => Some(self.finish(Some((DetectionMethod::Anolisa, v)))),
            },
            SearchStage::Asking => match verdict {
                None => Some(self.check(SearchStage::Checking, None)),
                Some(UpgradeVerdict::Unavailable) => Some(
                    self.check(
                        SearchStage::CheckingForAnolisa,
                        Some("anolisa update cosh-ng".to_owned()),
                    ),
                ),
                Some(v) => Some(self.finish(Some((DetectionMethod::Anolisa, v)))),
            },
            SearchStage::CheckingForAnolisa => match verdict {
                Some(v) => Some(self.finish(Some((DetectionMethod::Anolisa, v)))),
                None => Some(self.finish(None)),
            },
            SearchStage::Checking => match verdict {
                Some(v) => Some(self.finish(Some((DetectionMethod::Rpm, v)))),
                None => Some(self.finish(None)),
            },
            _ => None,
        }
    }

    /// Goes on after something came back; `None` if it answers another question.
    pub fn advance(&mut self, event: SearchEvent) -> (res: Option<SearchAction>)
        requires
            old(self)@.wf(),
        ensures
            match search_advanced(old(self)@, event@) {
                Some((s, a)) => res is Some && (final(self)@, res->0@) == (s, a),
                None => res is None && final(self)@ == old(self)@,
            },
            final(self)@.wf(),
    {
        match event {
            SearchEvent::Located(path) => self.on_located(path),
            SearchEvent::Owner(package) => self.on_owner(package),
            SearchEvent::Judged(verdict) => self.on_judged(verdict),
        }
    }
}

/// An executable that is not managed never borrows a component manager: the
/// search first asks for its owner, and ends if there is none.
pub proof fn unmanaged_executables_borrow_nothing(executable: Seq<char>)
    requires
        manager_for(executable) is None,
    ensures
        search_begun(executable).1 is FindOwner,
        search_advanced(search_begun(executable).0, SearchEventView::Owner(None)) == Some(
            search_done(search_begun(executable).0, None),
        ),
{
}

/// A managed executable is only ever judged by its component manager.
pub proof fn managed_executables_ask_no_package_manager(s: UpgradeSearchView, event: SearchEventView)
    requires
        s.stage == SearchStage::AskingManaged,
    ensures
        search_advanced(s, event) matches Some((_, action)) ==> action is Finish,
{
}

/// What is kept between two starts.
pub struct UpgradeCache {
    pub version: u32,
    pub checked_at: u64,
    pub executable: String,
    pub method: DetectionMethod,
    pub notice: Option<UpgradeNotice>,
}

/// The view of a notice that may be missing.
pub open spec fn maybe_notice(n: Option<UpgradeNotice>) -> Option<NoticeView> {
    match n {
        Some(x) => Some(x@),
        None => None,
    }
}

/// The notice of a verdict.
pub open spec fn notice_of(verdict: VerdictView) -> Option<NoticeView> {
    match verdict {
        VerdictView::Upgrade(n) => Some(n),
        _ => None,
    }
}

/// The notice of a verdict.
pub fn verdict_notice(verdict: &UpgradeVerdict) -> (res: Option<UpgradeNotice>)
    ensures
        maybe_notice(res) == notice_of(verdict@),
{
    match verdict {
        UpgradeVerdict::Upgrade(n) => Some(n.copy()),
        _ => None,
    }
}

/// What is kept of a search. Nothing is kept if it could not be told.
pub fn cache_for(
    executable: &str,
    method: DetectionMethod,
    verdict: &UpgradeVerdict,
    checked_at: u64,
) -> (res: Option<UpgradeCache>)
    ensures
        match res {
            Some(cache) => !(verdict@ is Unavailable) && cache.version == CACHE_VERSION
                && cache.checked_at == checked_at && cache.executable@ == executable@
                && cache.method == method && maybe_notice(cache.notice) == notice_of(verdict@),
            None => verdict@ is Unavailable,
        },
{
    if matches!(verdict, UpgradeVerdict::Unavailable) {
        return None;
    }
    Some(
        UpgradeCache {
            version: CACHE_VERSION,
            checked_at,
            executable: executable.to_owned(),
            method,
            notice: verdict_notice(verdict),
        },
    )
}

/// The notice that a cache still holds for an executable: only while the
/// running version is older.
pub open spec fn cached_notice(cache: UpgradeCache, executable: Seq<char>, running: Seq<char>) -> Option<
    NoticeView,
> {
    match maybe_notice(cache.notice) {
        Some(n) => if cache.version == CACHE_VERSION && same_components(cache.executable@, executable)
            && filled_in(n.package) && filled_in(n.latest) && filled_in(n.command)
            && versions_order(n.latest, running) == Some(VersionOrder::Newer) {
            Some(NoticeView { current: running, ..n })
        } else {
            None
        },
        None => None,
    }
}

fn is_blank_text(s: &str) -> (res: bool)
    ensures
        res == !filled_in(s@),
{
    let t = trim(s);
    t.as_str().is_empty()
}

/// The notice that a cache still holds.
pub fn read_cached_notice(cache: UpgradeCache, executable: &str, running_version: &str) -> (res: Option<
    UpgradeNotice,
>)
    ensures
        maybe_notice(res) == cached_notice(cache, executable@, running_version@),
{
    if cache.version != CACHE_VERSION || !same_path(cache.executable.as_str(), executable) {
        return None;
    }
    match cache.notice {
        None => None,
        Some(notice) => {
            let mut notice = notice;
            let ghost before = notice@;
            if is_blank_text(notice.package.as_str()) || is_blank_text(notice.latest.as_str())
                || is_blank_text(notice.command.as_str()) {
                return None;
            }
            match compare_versions(notice.latest.as_str(), running_version) {
                Some(VersionOrder::Newer) => {
                    notice.current = running_version.to_owned();
                    assert(notice@ =~~= (NoticeView { current: running_version@, ..before }));
                    Some(notice)
                },
                _ => None,
            }
        },
    }
}

/// Whether a cache file is small enough to be read.
pub fn cache_is_readable(len: u64) -> (res: bool)
    ensures
        res == (len <= MAX_CACHE_BYTES),
{
    len <= MAX_CACHE_BYTES
}

/// Whether the directory of the cache is closed to others: always that of the
/// default place, elsewhere only if it was made for the cache.
pub fn closes_directory(custom_path: bool, existed: bool) -> (res: bool)
    ensures
        res == (!custom_path || !existed),
{
    !custom_path || !existed
}

/// Whether upgrades are looked for: unless that was switched off.
pub open spec fn check_enabled(value: Option<Seq<char>>) -> bool {
    match value {
        Some(v) => {
            let word = ascii_lowered(trimmed(v));
            !(word == "off"@ || word == "0"@ || word == "false"@ || word == "no"@)
        },
        None => true,
    }
}

/// Whether upgrades are looked for.
pub fn startup_upgrade_check_enabled(value: Option<&str>) -> (res: bool)
    ensures
        res == check_enabled(
            match value {
                Some(v) => Some(v@),
                None => None,
            },
        ),
{
    match value {
        Some(v) => {
            let t = trim(v);
            let word = to_ascii_lower(t.as_str());
            !(same(word.as_str(), "off") || same(word.as_str(), "0") || same(
                word.as_str(),
                "false",
            ) || same(word.as_str(), "no"))
        },
        None => true,
    }
}

/// What a look for the answer of the search brought.
pub enum ProbeMessage {
    Ready(Option<UpgradeNotice>),
    Nothing,
    /// The search will never answer.
    Gone,
}

/// The search at startup, as the banner sees it.
pub struct StartupUpgradeState {
    pub pending: bool,
    /// The answer, once it is there.
    pub resolved: Option<Option<UpgradeNotice>>,
    pub rendered: bool,
}

/// What a [`StartupUpgradeState`] says.
#[verifier::ext_equal]
pub struct StartupView {
    pub pending: bool,
    pub resolved: Option<Option<NoticeView>>,
    pub rendered: bool,
}

/// The view of an answer that may be missing.
pub open spec fn maybe_answer(a: Option<Option<UpgradeNotice>>) -> Option<Option<NoticeView>> {
    match a {
        Some(n) => Some(maybe_notice(n)),
        None => None,
    }
}

impl View for StartupUpgradeState {
    type V = StartupView;

    open spec fn view(&self) -> StartupView {
        StartupView {
            pending: self.pending,
            resolved: maybe_answer(self.resolved),
            rendered: self.rendered,
        }
    }
}

/// The state after a look: the first answer stays.
pub open spec fn startup_after(s: StartupView, message: ProbeMessage) -> StartupView {
    if s.resolved is Some || !s.pending {
        s
    } else {
        match message {
            ProbeMessage::Ready(n) => StartupView {
                resolved: Some(maybe_notice(n)),
                pending: false,
                ..s
            },
            ProbeMessage::Nothing => s,
            ProbeMessage::Gone => StartupView { pending: false, ..s },
        }
    }
}

impl StartupUpgradeState {
    /// The search has been started, or not.
    pub fn new(pending: bool) -> (res: StartupUpgradeState)
        ensures
            res@ == (StartupView { pending, resolved: None, rendered: false }),
    {
        StartupUpgradeState { pending, resolved: None, rendered: false }
    }

    /// Takes note of a look for the answer.
    pub fn on_message(&mut self, message: ProbeMessage)
        ensures
            final(self)@ == startup_after(old(self)@, message),
    {
        if self.resolved.is_some() || !self.pending {
            return;
        }
        match message {
            ProbeMessage::Ready(notice) => {
                self.resolved = Some(notice);
                self.pending = false;
            },
            ProbeMessage::Nothing => {},
            ProbeMessage::Gone => {
                self.pending = false;
            },
        }
    }

    /// The upgrade to announce.
    pub fn notice(&self) -> (res: Option<&UpgradeNotice>)
        ensures
            match res {
                Some(n) => self@.resolved == Some(Some(n@)),
                None => self@.resolved is None || self@.resolved == Some(None::<NoticeView>),
            },
    {
        match &self.resolved {
            Some(Some(n)) => Some(n),
            _ => None,
        }
    }
}

/// Once there is an answer it stays, whatever comes after.
pub proof fn the_first_answer_stays(s: StartupView, message: ProbeMessage)
    requires
        s.resolved is Some,
    ensures
        startup_after(s, message) == s,
{
}

/// What a search found is announced at the next start as long as it is newer,
/// and never once the running version has caught up.
pub proof fn caches_announce_only_newer_versions(
    cache: UpgradeCache,
    executable: Seq<char>,
    running: Seq<char>,
)
    ensures
        cached_notice(cache, executable, running) matches Some(n) ==> versions_order(
            n.latest,
            running,
        ) == Some(VersionOrder::Newer) && n.current == running,
        cached_notice(cache, executable, running) is Some ==> same_components(
            cache.executable@,
            executable,
        ),
{
}

/// What a command printed, up to a limit.
pub struct Capture {
    output: Vec<u8>,
    truncated: bool,
}

/// What a [`Capture`] holds.
#[verifier::ext_equal]
pub struct CaptureView {
    pub output: Seq<u8>,
    pub truncated: bool,
}

impl View for Capture {
    type V = CaptureView;

    closed spec fn view(&self) -> CaptureView {
        CaptureView { output: self.output@, truncated: self.truncated }
    }
}

/// What is kept once more was printed.
pub open spec fn captured(c: CaptureView, bytes: Seq<u8>) -> CaptureView {
    let all = c.output + bytes;
    CaptureView {
        output: if all.len() > MAX_PIPE_OUTPUT_BYTES {
            all.take(MAX_PIPE_OUTPUT_BYTES as int)
        } else {
            all
        },
        truncated: c.truncated || all.len() > MAX_PIPE_OUTPUT_BYTES,
    }
}

impl Capture {
    /// Nothing was printed.
    pub fn new() -> (res: Capture)
        ensures
            res@ == (CaptureView { output: Seq::empty(), truncated: false }),
    {
        Capture { output: Vec::new(), truncated: false }
    }

    /// Takes in what was printed.
    pub fn push(&mut self, bytes: &[u8])
        requires
            old(self)@.output.len() <= MAX_PIPE_OUTPUT_BYTES,
        ensures
            final(self)@ == captured(old(self)@, bytes@),
            final(self)@.output.len() <= MAX_PIPE_OUTPUT_BYTES,
    {
        let n: usize = bytes.len();
        let room: usize = MAX_PIPE_OUTPUT_BYTES - self.output.len();
        let take: usize = if n < room {
            n
        } else {
            room
        };
        let mut i: usize = 0;
        while i < take
            invariant
                i <= take <= bytes@.len(),
                self.truncated == old(self).truncated,
                self.output@ == old(self).output@ + bytes@.take(i as int),
            decreases take - i,
        {
            self.output.push(bytes[i]);
            i = i + 1;
            assert(self.output@ =~= old(self).output@ + bytes@.take(i as int));
        }
        if n > room {
            self.truncated = true;
        }
        proof {
            let all = old(self).output@ + bytes@;
            if all.len() > MAX_PIPE_OUTPUT_BYTES {
                assert(self.output@ =~= all.take(MAX_PIPE_OUTPUT_BYTES as int));
            } else {
                assert(self.output@ =~= all);
            }
            assert(self@ =~= captured(old(self)@, bytes@));
        }
    }

    /// What was printed, unless it was too much.
    pub fn into_output(self) -> (res: Option<Vec<u8>>)
        ensures
            match res {
                Some(bytes) => !self@.truncated && bytes@ == self@.output,
                None => self@.truncated,
            },
    {
        if self.truncated {
            None
        } else {
            Some(self.output)
        }
    }
}

} // verus!
