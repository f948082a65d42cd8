//! The check of an instance's role, run by a child process of its own.
//!
//! The child gets one request line and answers with one response line. It is
//! stopped when the check is cancelled or late, and cleaned up by its owner.

use vstd::prelude::*;
use vstd::string::*;

use crate::core_service::wire::{
    answers, is_registry_response_for, registry_request, registry_tree, RegistryCommand,
};
use crate::login_shell::table::{first_of, is_blank, lemma_first_of_is};
use crate::text::{decimal, decimal_text, is_text, opt_view, same, texts};
use crate::tree::{
    bool_at, json_copy, json_get, json_object, json_parse_bytes, json_read_bytes, json_text,
    json_tree, put_text, text_at, Tree,
};

verus! {

/// How long a check may take, in milliseconds.
pub const PROBE_TIMEOUT: u64 = 5_000;

/// The longest response that is read.
pub const MAX_RESPONSE_BYTES: usize = 131_072;

/// Whether an action can be checked this way.
pub fn is_probe_action(action: &str) -> (res: bool)
    ensures
        res == (action@ == "prepare"@ || action@ == "verify"@),
{
    same(action, "prepare") || same(action, "verify")
}

/// The workspace of a check: the shell's directory, else that of the session.
pub fn probe_workspace(shell_cwd: Option<String>, session: Option<String>) -> (res: Option<String>)
    ensures
        opt_view(res) == (if shell_cwd is Some {
            opt_view(shell_cwd)
        } else {
            opt_view(session)
        }),
{
    if shell_cwd.is_some() {
        shell_cwd
    } else {
        session
    }
}

/// The arguments of the child.
pub open spec fn arguments_for(workspace: Option<Seq<char>>) -> Seq<Seq<char>> {
    match workspace {
        Some(w) => seq!["--registry"@, "--workspace"@, w],
        None => seq!["--registry"@],
    }
}

/// The arguments of the child.
pub fn probe_arguments(workspace: &Option<String>) -> (res: Vec<String>)
    ensures
        texts(res@) == arguments_for(opt_view(*workspace)),
{
    let mut out: Vec<String> = Vec::new();
    out.push("--registry".to_owned());
    if let Some(w) = workspace {
        out.push("--workspace".to_owned());
        out.push(w.clone());
    }
    assert(texts(out@) =~= arguments_for(opt_view(*workspace)));
    out
}

/// The id of the `n`th request of a process.
pub fn probe_request_id(pid: u32, n: u64) -> (res: String)
    ensures
        res@ == "ecs-probe-"@ + decimal(pid as nat) + "-"@ + decimal(n as nat),
{
    let pid_text = decimal_text(pid as u128);
    let n_text = decimal_text(n as u128);
    "ecs-probe-".to_owned().concat(pid_text.as_str()).concat("-").concat(n_text.as_str())
}

/// The request as a document.
pub open spec fn probe_document(request_id: Seq<char>, action: Seq<char>) -> Tree {
    Tree::Object(
        Map::empty().insert("type"@, Tree::Text("registry_request"@)).insert(
            "request_id"@,
            Tree::Text(request_id),
        ).insert("domain"@, Tree::Text("auth"@)).insert("action"@, Tree::Text(action)).insert(
            "params"@,
            Tree::Object(
                Map::empty().insert("provider_type"@, Tree::Text("aliyun"@)).insert(
                    "auth_source"@,
                    Tree::Text("ecs_ram_role"@),
                ),
            ),
        ),
    )
}

/// The request line.
pub fn probe_request(request_id: &str, action: &str) -> (res: String)
    ensures
        res@ == json_text(probe_document(request_id@, action@)) + "\n"@,
{
    let mut params = json_object();
    put_text(&mut params, "provider_type", "aliyun");
    put_text(&mut params, "auth_source", "ecs_ram_role");
    let command = RegistryCommand {
        request_id: request_id.to_owned(),
        domain: "auth".to_owned(),
        action: action.to_owned(),
        params,
    };
    assert(registry_tree(command) == probe_document(request_id@, action@));
    registry_request(&command).concat("\n")
}

/// A check goes on until it is cancelled or its time is up.
pub fn check_deadline(cancelled: bool, now: u64, deadline: u64) -> (res: Result<(), String>)
    ensures
        match res {
            Ok(_) => !cancelled && now < deadline,
            Err(m) => if cancelled {
                m@ == "ECS probe cancelled"@
            } else {
                now >= deadline && m@ == "ECS probe timed out"@
            },
        },
{
    if cancelled {
        Err("ECS probe cancelled".to_owned())
    } else if now >= deadline {
        Err("ECS probe timed out".to_owned())
    } else {
        Ok(())
    }
}

/// How long to wait for the child at once, in milliseconds.
pub fn wait_slice(now: u64, deadline: u64) -> (res: i32)
    ensures
        now >= deadline ==> res == 0,
        now < deadline && deadline - now <= 100 ==> res == deadline - now,
        now < deadline && deadline - now > 100 ==> res == 100,
{
    if now >= deadline {
        0
    } else if deadline - now > 100 {
        100
    } else {
        (deadline - now) as i32
    }
}

/// How a write to or a read from the child went.
#[derive(Clone, Copy, Debug, PartialEq, Eq, Structural)]
pub enum Transfer {
    /// This many bytes went over.
    Moved(usize),
    /// Nothing can be moved right now.
    WouldBlock,
    /// A signal came in between.
    Interrupted,
    /// It failed.
    Failed,
}

/// How a transfer goes on.
#[derive(Clone, Copy, Debug, PartialEq, Eq, Structural)]
pub enum Next {
    /// Try at once.
    Again,
    /// Wait until the child is ready.
    Wait,
    /// All is over there.
    Complete,
}

/// Takes note of a write: how many bytes of the request are over, and how to go
/// on.
pub fn on_write(written: usize, total: usize, outcome: Transfer) -> (res: Result<
    (usize, Next),
    String,
>)
    requires
        written < total,
        outcome matches Transfer::Moved(n) ==> written + n <= total,
    ensures
        match outcome {
            Transfer::Moved(n) => if n == 0 {
                res is Err && res->Err_0@ == "ECS probe stdin closed"@
            } else {
                res == Ok::<(usize, Next), String>(
                    (
                        (written + n) as usize,
                        if written + n == total {
                            Next::Complete
                        } else {
                            Next::Again
                        },
                    ),
                )
            },
            Transfer::WouldBlock => res == Ok::<(usize, Next), String>((written, Next::Wait)),
            Transfer::Interrupted => res == Ok::<(usize, Next), String>((written, Next::Again)),
            Transfer::Failed => res is Err && res->Err_0@ == "Could not write ECS probe request"@,
        },
{
    match outcome {
        Transfer::Moved(n) => {
            if n == 0 {
                return Err("ECS probe stdin closed".to_owned());
            }
            let over: usize = written + n;
            Ok(
                (
                    over,
                    if over == total {
                        Next::Complete
                    } else {
                        Next::Again
                    },
                ),
            )
        },
        Transfer::WouldBlock => Ok((written, Next::Wait)),
        Transfer::Interrupted => Ok((written, Next::Again)),
        Transfer::Failed => Err("Could not write ECS probe request".to_owned()),
    }
}

/// Nothing but white space.
pub open spec fn all_blank(s: Seq<u8>) -> bool {
    forall|i: int| 0 <= i < s.len() ==> is_blank(#[trigger] s[i])
}

/// The first line that is not blank, and what is left once it and the blank
/// lines before it are gone.
pub open spec fn next_line(buffer: Seq<u8>) -> (Seq<u8>, Option<Seq<u8>>)
    decreases buffer.len(),
{
    let n = first_of(buffer, 10);
    if 0 <= n < buffer.len() {
        let line = buffer.take(n + 1);
        let rest = buffer.skip(n + 1);
        if all_blank(line) {
            next_line(rest)
        } else {
            (rest, Some(line))
        }
    } else {
        (buffer, None)
    }
}

/// What the child has answered so far.
pub struct ResponseReader {
    buffer: Vec<u8>,
}

impl View for ResponseReader {
    type V = Seq<u8>;

    closed spec fn view(&self) -> Seq<u8> {
        self.buffer@
    }
}

/// What the answer means so far.
pub open spec fn read_outcome(buffer: Seq<u8>, request_id: Seq<char>) -> Option<
    Result<Tree, Seq<char>>,
> {
    if buffer.len() > MAX_RESPONSE_BYTES {
        Some(Err("ECS probe response exceeded its size limit"@))
    } else {
        match next_line(buffer).1 {
            Some(line) => Some(response_in(line, request_id)),
            None => None,
        }
    }
}

/// The result of a check, by its view.
pub open spec fn result_view(r: Result<serde_json::Value, String>) -> Result<Tree, Seq<char>> {
    match r {
        Ok(v) => Ok(json_tree(v)),
        Err(m) => Err(m@),
    }
}

impl ResponseReader {
    /// Nothing has come yet.
    pub fn new() -> (res: ResponseReader)
        ensures
            res@ == Seq::<u8>::empty(),
    {
        ResponseReader { buffer: Vec::new() }
    }

    /// Takes in what was read. A result is there once a line is complete or the
    /// answer is too long; blank lines are passed over.
    pub fn push(&mut self, bytes: &Vec<u8>, request_id: &str) -> (res: Option<
        Result<serde_json::Value, String>,
    >)
        requires
            old(self)@.len() <= MAX_RESPONSE_BYTES,
        ensures
            match res {
                Some(r) => read_outcome(old(self)@ + bytes@, request_id@) == Some(result_view(r)),
                None => read_outcome(old(self)@ + bytes@, request_id@) is None && final(self)@
                    == next_line(old(self)@ + bytes@).0 && final(self)@.len() <= MAX_RESPONSE_BYTES,
            },
    {
        let mut i: usize = 0;
        while i < bytes.len()
            invariant
                i <= bytes@.len(),
                self@ == old(self)@ + bytes@.take(i as int),
            decreases bytes@.len() - i,
        {
            self.buffer.push(bytes[i]);
            i = i + 1;
            assert(self@ =~= old(self)@ + bytes@.take(i as int));
        }
        assert(bytes@.take(bytes@.len() as int) =~= bytes@);
        let ghost all = self@;
        assert(all == old(self)@ + bytes@);
        if self.buffer.len() > MAX_RESPONSE_BYTES {
            return Some(Err("ECS probe response exceeded its size limit".to_owned()));
        }
        let mut start: usize = 0;
        let mut at: usize = 0;
        let mut blank: bool = true;
        assert(all.skip(0) =~= all);
        while at < self.buffer.len()
            invariant
                start <= at <= self@.len(),
                self@ == all,
                all == old(self)@ + bytes@,
                all.len() <= MAX_RESPONSE_BYTES,
                next_line(all.skip(start as int)) == next_line(all),
                blank == all_blank(all.subrange(start as int, at as int)),
                forall|j: int| start <= j < at ==> all[j] != 10,
            decreases self@.len() - at,
        {
            let b: u8 = self.buffer[at];
            let space: bool = b == 0x20 || b == 0x09 || b == 0x0a || b == 0x0c || b == 0x0d;
            proof {
                let line = all.subrange(start as int, at as int);
                let longer = all.subrange(start as int, at + 1);
                assert(longer =~= line.push(b));
                assert(all_blank(longer) == (blank && space)) by {
                    assert(longer.last() == b);
                    if blank && space {
                        assert forall|i: int| 0 <= i < longer.len() implies is_blank(
                            #[trigger] longer[i],
                        ) by {
                            if i < line.len() {
                                assert(longer[i] == line[i]);
                            }
                        }
                    }
                    if all_blank(longer) {
                        assert forall|i: int| 0 <= i < line.len() implies is_blank(
                            #[trigger] line[i],
                        ) by {
                            assert(longer[i] == line[i]);
                        }
                        assert(is_blank(longer[longer.len() - 1]));
                    }
                }
            }
            if b == 10 {
                proof {
                    let rest = all.skip(start as int);
                    lemma_first_of_is(rest, 10, at - start);
                    assert(rest.take(at - start + 1) =~= all.subrange(start as int, at + 1));
                    assert(rest.skip(at - start + 1) =~= all.skip(at + 1));
                }
                if !(blank && space) {
                    let line = copy_range(&self.buffer, start, at + 1);
                    return Some(parse_response(&line, request_id));
                }
                start = at + 1;
                blank = true;
                assert(all.subrange(start as int, start as int) =~= Seq::empty());
            } else {
                blank = blank && space;
            }
            at = at + 1;
        }
        proof {
            let rest = all.skip(start as int);
            lemma_first_of_is(rest, 10, rest.len() as int);
        }
        let left = copy_range(&self.buffer, start, self.buffer.len());
        assert(left@ =~= all.skip(start as int));
        self.buffer = left;
        None
    }
}

fn copy_range(v: &Vec<u8>, from: usize, to: usize) -> (res: Vec<u8>)
    requires
        from <= to <= v@.len(),
    ensures
        res@ == v@.subrange(from as int, to as int),
{
    let mut out: Vec<u8> = Vec::new();
    let mut i: usize = from;
    while i < to
        invariant
            from <= i <= to <= v@.len(),
            out@ == v@.subrange(from as int, i as int),
        decreases to - i,
    {
        out.push(v[i]);
        i = i + 1;
        assert(out@ =~= v@.subrange(from as int, i as int));
    }
    out
}

/// What a read means that brought nothing.
pub fn on_idle_read(outcome: Transfer) -> (res: Result<Next, String>)
    ensures
        match outcome {
            Transfer::Moved(n) => if n == 0 {
                res is Err && res->Err_0@ == "ECS probe response ended unexpectedly"@
            } else {
                res == Ok::<Next, String>(Next::Again)
            },
            Transfer::WouldBlock => res == Ok::<Next, String>(Next::Wait),
            Transfer::Interrupted => res == Ok::<Next, String>(Next::Again),
            Transfer::Failed => res is Err && res->Err_0@ == "Could not read ECS probe response"@,
        },
{
    match outcome {
        Transfer::Moved(n) => {
            if n == 0 {
                Err("ECS probe response ended unexpectedly".to_owned())
            } else {
                Ok(Next::Again)
            }
        },
        Transfer::WouldBlock => Ok(Next::Wait),
        Transfer::Interrupted => Ok(Next::Again),
        Transfer::Failed => Err("Could not read ECS probe response".to_owned()),
    }
}

/// The message for the code of a failed check.
pub open spec fn failure_message(code: Option<Seq<char>>) -> Seq<char> {
    if code == Some("metadata_access_denied"@) {
        "Instance metadata access was denied"@
    } else if code == Some("metadata_timeout"@) {
        "Instance metadata request timed out"@
    } else if code == Some("metadata_unreachable"@) {
        "Instance metadata could not be reached"@
    } else if code == Some("invalid_metadata_response"@) {
        "Instance metadata returned invalid credentials"@
    } else {
        "ECS credential check failed"@
    }
}

/// What a response means.
pub open spec fn response_result(response: Tree, request_id: Seq<char>) -> Result<Tree, Seq<char>> {
    if !answers(response, request_id) {
        Err("Mismatched ECS probe response"@)
    } else if response.bool_at("success"@) == Some(true) {
        match response.member("data"@) {
            Some(data) => Ok(data),
            None => Err("Missing ECS probe result"@),
        }
    } else {
        Err(
            failure_message(
                match response.member("data"@) {
                    Some(data) => data.text_at("error_code"@),
                    None => None,
                },
            ),
        )
    }
}

/// What a response line means.
pub open spec fn response_in(line: Seq<u8>, request_id: Seq<char>) -> Result<Tree, Seq<char>> {
    match json_read_bytes(line) {
        Some(response) => response_result(response, request_id),
        None => Err("Invalid ECS probe response"@),
    }
}

/// What a response means: its data, or a fixed message for each known code.
/// Nothing else that the child says gets out.
pub fn judge_response(response: &serde_json::Value, request_id: &str) -> (res: Result<
    serde_json::Value,
    String,
>)
    ensures
        result_view(res) == response_result(json_tree(*response), request_id@),
{
    if !is_registry_response_for(response, request_id) {
        return Err("Mismatched ECS probe response".to_owned());
    }
    let success: bool = match bool_at(response, "success") {
        Some(b) => b,
        None => false,
    };
    let data = json_get(response, "data");
    if success {
        return match data {
            Some(data) => Ok(json_copy(data)),
            None => Err("Missing ECS probe result".to_owned()),
        };
    }
    let code: Option<String> = match data {
        Some(data) => text_at(data, "error_code"),
        None => None,
    };
    if is_text(&code, "metadata_access_denied") {
        Err("Instance metadata access was denied".to_owned())
    } else if is_text(&code, "metadata_timeout") {
        Err("Instance metadata request timed out".to_owned())
    } else if is_text(&code, "metadata_unreachable") {
        Err("Instance metadata could not be reached".to_owned())
    } else if is_text(&code, "invalid_metadata_response") {
        Err("Instance metadata returned invalid credentials".to_owned())
    } else {
        Err("ECS credential check failed".to_owned())
    }
}

/// What a response line means.
pub fn parse_response(line: &Vec<u8>, request_id: &str) -> (res: Result<serde_json::Value, String>)
    ensures
        result_view(res) == response_in(line@, request_id@),
{
    match json_parse_bytes(line.as_slice()) {
        Some(response) => judge_response(&response, request_id),
        None => Err("Invalid ECS probe response".to_owned()),
    }
}

/// Why the child could not be set up.
#[derive(Clone, Copy, Debug, PartialEq, Eq, Structural)]
pub enum SetupFailure {
    Start,
    Stdin,
    Stdout,
    ConfigureStdin,
    ConfigureStdout,
}

impl SetupFailure {
    /// The message of each failure.
    pub open spec fn text(self) -> Seq<char> {
        match self {
            SetupFailure::Start => "Could not start ECS probe"@,
            SetupFailure::Stdin => "ECS probe stdin unavailable"@,
            SetupFailure::Stdout => "ECS probe stdout unavailable"@,
            SetupFailure::ConfigureStdin => "Could not configure ECS probe stdin"@,
            SetupFailure::ConfigureStdout => "Could not configure ECS probe stdout"@,
        }
    }

    fn message(self) -> (res: String)
        ensures
            res@ == self.text(),
    {
        match self {
            SetupFailure::Start => "Could not start ECS probe".to_owned(),
            SetupFailure::Stdin => "ECS probe stdin unavailable".to_owned(),
            SetupFailure::Stdout => "ECS probe stdout unavailable".to_owned(),
            SetupFailure::ConfigureStdin => "Could not configure ECS probe stdin".to_owned(),
            SetupFailure::ConfigureStdout => "Could not configure ECS probe stdout".to_owned(),
        }
    }
}

/// What a check waits for.
#[derive(Clone, Copy, Debug, PartialEq, Eq, Structural)]
pub enum ProbeStage {
    Starting,
    Writing,
    /// The child takes no more bytes right now.
    Blocked,
    Closing,
    Reading,
    /// The child has said nothing more yet.
    Idle,
    Done,
}

/// A piece of work that a check asks for.
pub enum ProbeAction {
    /// Start the child.
    Start,
    /// Write the request from this byte on.
    Write(usize),
    /// Wait this many milliseconds until the child takes bytes.
    AwaitInput(i32),
    /// Close the input of the child.
    CloseInput,
    /// Read what the child says.
    Read,
    /// Wait this many milliseconds until the child says something.
    AwaitOutput(i32),
    /// Nothing; an answer to another question came in.
    Ignore,
    /// The check is over.
    Finish(Result<serde_json::Value, String>),
}

/// What a [`ProbeAction`] says.
pub enum ProbeActionView {
    Start,
    Write(usize),
    AwaitInput(i32),
    CloseInput,
    Read,
    AwaitOutput(i32),
    Ignore,
    Finish(Result<Tree, Seq<char>>),
}

impl View for ProbeAction {
    type V = ProbeActionView;

    open spec fn view(&self) -> ProbeActionView {
        match self {
            ProbeAction::Start => ProbeActionView::Start,
            ProbeAction::Write(n) => ProbeActionView::Write(*n),
            ProbeAction::AwaitInput(ms) => ProbeActionView::AwaitInput(*ms),
            ProbeAction::CloseInput => ProbeActionView::CloseInput,
            ProbeAction::Read => ProbeActionView::Read,
            ProbeAction::AwaitOutput(ms) => ProbeActionView::AwaitOutput(*ms),
            ProbeAction::Ignore => ProbeActionView::Ignore,
            ProbeAction::Finish(r) => ProbeActionView::Finish(result_view(*r)),
        }
    }
}

/// How a piece of work of a check went.
pub enum ProbeEvent {
    /// The child runs, or could not be set up.
    Started(Option<SetupFailure>),
    Wrote(Transfer),
    /// Whether waiting worked.
    Awaited(bool),
    InputClosed,
    /// These bytes came.
    Heard(Vec<u8>),
    /// Nothing came.
    Silent(Transfer),
}

/// What a [`ProbeEvent`] says.
pub enum ProbeNews {
    Started(Option<SetupFailure>),
    Wrote(Transfer),
    Awaited(bool),
    InputClosed,
    Heard(Seq<u8>),
    Silent(Transfer),
}

impl View for ProbeEvent {
    type V = ProbeNews;

    open spec fn view(&self) -> ProbeNews {
        match self {
            ProbeEvent::Started(f) => ProbeNews::Started(*f),
            ProbeEvent::Wrote(t) => ProbeNews::Wrote(*t),
            ProbeEvent::Awaited(ok) => ProbeNews::Awaited(*ok),
            ProbeEvent::InputClosed => ProbeNews::InputClosed,
            ProbeEvent::Heard(bytes) => ProbeNews::Heard(bytes@),
            ProbeEvent::Silent(t) => ProbeNews::Silent(*t),
        }
    }
}

/// A check on its way: one request out, one answer in, within its time.
pub struct Exchange {
    stage: ProbeStage,
    request_id: String,
    total: usize,
    written: usize,
    reader: ResponseReader,
    deadline: u64,
}

/// What an [`Exchange`] holds.
#[verifier::ext_equal]
pub struct ExchangeView {
    pub stage: ProbeStage,
    pub request_id: Seq<char>,
    /// The length of the request.
    pub total: usize,
    pub written: usize,
    pub heard: Seq<u8>,
    pub deadline: u64,
}

impl View for Exchange {
    type V = ExchangeView;

    closed spec fn view(&self) -> ExchangeView {
        ExchangeView {
            stage: self.stage,
            request_id: self.request_id@,
            total: self.total,
            written: self.written,
            heard: self.reader@,
            deadline: self.deadline,
        }
    }
}

impl ExchangeView {
    /// A request that is being written is not over, and what was heard fits.
    pub open spec fn wf(self) -> bool {
        &&& self.stage == ProbeStage::Starting || self.stage == ProbeStage::Writing || self.stage
            == ProbeStage::Blocked ==> self.written < self.total
        &&& self.heard.len() <= MAX_RESPONSE_BYTES
    }

    /// An event that a child can bring: it takes no more bytes than there are.
    pub open spec fn possible(self, news: ProbeNews) -> bool {
        self.stage == ProbeStage::Writing ==> (news matches ProbeNews::Wrote(Transfer::Moved(n))
            ==> self.written + n <= self.total)
    }
}

/// Whether a check has to end now, and why.
pub open spec fn late(cancelled: bool, now: u64, deadline: u64) -> Option<Seq<char>> {
    if cancelled {
        Some("ECS probe cancelled"@)
    } else if now >= deadline {
        Some("ECS probe timed out"@)
    } else {
        None
    }
}

/// The check is over.
pub open spec fn concluded(e: ExchangeView, result: Result<Tree, Seq<char>>) -> (
    ExchangeView,
    ProbeActionView,
) {
    (
        ExchangeView { stage: ProbeStage::Done, heard: Seq::empty(), ..e },
        ProbeActionView::Finish(result),
    )
}

/// How long to wait at once.
pub open spec fn slice_of(now: u64, deadline: u64) -> i32 {
    if now >= deadline {
        0
    } else if deadline - now > 100 {
        100
    } else {
        (deadline - now) as i32
    }
}

/// The work of a stage, unless the check has to end.
pub open spec fn asked(e: ExchangeView, stage: ProbeStage, cancelled: bool, now: u64) -> (
    ExchangeView,
    ProbeActionView,
) {
    match late(cancelled, now, e.deadline) {
        Some(error) => concluded(e, Err(error)),
        None => (
            ExchangeView { stage, ..e },
            match stage {
                ProbeStage::Starting => ProbeActionView::Start,
                ProbeStage::Writing => ProbeActionView::Write(e.written),
                ProbeStage::Blocked => ProbeActionView::AwaitInput(slice_of(now, e.deadline)),
                ProbeStage::Closing => ProbeActionView::CloseInput,
                ProbeStage::Reading => ProbeActionView::Read,
                ProbeStage::Idle => ProbeActionView::AwaitOutput(slice_of(now, e.deadline)),
                ProbeStage::Done => ProbeActionView::Ignore,
            },
        ),
    }
}

/// The first step of a check.
pub open spec fn exchange_begun(request_id: Seq<char>, total: usize, cancelled: bool, now: u64) -> (
    ExchangeView,
    ProbeActionView,
) {
    asked(
        ExchangeView {
            stage: ProbeStage::Starting,
            request_id,
            total,
            written: 0,
            heard: Seq::empty(),
            deadline: (now + PROBE_TIMEOUT) as u64,
        },
        ProbeStage::Starting,
        cancelled,
        now,
    )
}

/// A write is accounted for.
pub open spec fn wrote(e: ExchangeView, outcome: Transfer, cancelled: bool, now: u64) -> (
    ExchangeView,
    ProbeActionView,
) {
    match outcome {
        Transfer::Moved(n) => if n == 0 {
            concluded(e, Err("ECS probe stdin closed"@))
        } else {
            let next = ExchangeView { written: (e.written + n) as usize, ..e };
            if next.written == e.total {
                (ExchangeView { stage: ProbeStage::Closing, ..next }, ProbeActionView::CloseInput)
            } else {
                asked(next, ProbeStage::Writing, cancelled, now)
            }
        },
        Transfer::WouldBlock => asked(e, ProbeStage::Blocked, cancelled, now),
        Transfer::Interrupted => asked(e, ProbeStage::Writing, cancelled, now),
        Transfer::Failed => concluded(e, Err("Could not write ECS probe request"@)),
    }
}

/// What came from the child is taken in.
pub open spec fn heard(e: ExchangeView, bytes: Seq<u8>, cancelled: bool, now: u64) -> (
    ExchangeView,
    ProbeActionView,
) {
    match read_outcome(e.heard + bytes, e.request_id) {
        Some(result) => concluded(e, result),
        None => asked(
            ExchangeView { heard: next_line(e.heard + bytes).0, ..e },
            ProbeStage::Reading,
            cancelled,
            now,
        ),
    }
}

/// One step of a check.
pub open spec fn exchanged(e: ExchangeView, news: ProbeNews, cancelled: bool, now: u64) -> (
    ExchangeView,
    ProbeActionView,
) {
    match (e.stage, news) {
        (ProbeStage::Starting, ProbeNews::Started(None)) => asked(e, ProbeStage::Writing, cancelled, now),
        (ProbeStage::Starting, ProbeNews::Started(Some(f))) => concluded(e, Err(f.text())),
        (ProbeStage::Writing, ProbeNews::Wrote(outcome)) => wrote(e, outcome, cancelled, now),
        (ProbeStage::Blocked, ProbeNews::Awaited(true)) => asked(e, ProbeStage::Writing, cancelled, now),
        (ProbeStage::Blocked, ProbeNews::Awaited(false)) => concluded(
            e,
            Err("ECS probe readiness check failed"@),
        ),
        (ProbeStage::Closing, ProbeNews::InputClosed) => asked(e, ProbeStage::Reading, cancelled, now),
        (ProbeStage::Reading, ProbeNews::Heard(bytes)) => if bytes.len() == 0 {
            concluded(e, Err("ECS probe response ended unexpectedly"@))
        } else {
            heard(e, bytes, cancelled, now)
        },
        (ProbeStage::Reading, ProbeNews::Silent(Transfer::WouldBlock)) => asked(
            e,
            ProbeStage::Idle,
            cancelled,
            now,
        ),
        (ProbeStage::Reading, ProbeNews::Silent(Transfer::Interrupted)) => asked(
            e,
            ProbeStage::Reading,
            cancelled,
            now,
        ),
        (ProbeStage::Reading, ProbeNews::Silent(Transfer::Failed)) => concluded(
            e,
            Err("Could not read ECS probe response"@),
        ),
        (ProbeStage::Reading, ProbeNews::Silent(Transfer::Moved(n))) => if n == 0 {
            concluded(e, Err("ECS probe response ended unexpectedly"@))
        } else {
            asked(e, ProbeStage::Reading, cancelled, now)
        },
        (ProbeStage::Idle, ProbeNews::Awaited(true)) => asked(e, ProbeStage::Reading, cancelled, now),
        (ProbeStage::Idle, ProbeNews::Awaited(false)) => concluded(
            e,
            Err("ECS probe readiness check failed"@),
        ),
        _ => (e, ProbeActionView::Ignore),
    }
}

impl Exchange {
    /// Begins a check whose request has `total` bytes.
    pub fn begin(request_id: &str, total: usize, cancelled: bool, now: u64) -> (res: (
        Exchange,
        ProbeAction,
    ))
        requires
            total > 0,
            now + PROBE_TIMEOUT <= u64::MAX,
        ensures
            (res.0@, res.1@) == exchange_begun(request_id@, total, cancelled, now),
            res.0@.wf(),
    {
        let mut exchange = Exchange {
            stage: ProbeStage::Starting,
            request_id: request_id.to_owned(),
            total,
            written: 0,
            reader: ResponseReader::new(),
            deadline: now + PROBE_TIMEOUT,
        };
        let action = exchange.ask(ProbeStage::Starting, cancelled, now);
        (exchange, action)
    }

    fn conclude(&mut self, result: Result<serde_json::Value, String>) -> (res: ProbeAction)
        ensures
            (final(self)@, res@) == concluded(old(self)@, result_view(result)),
            final(self)@.wf(),
    {
        self.stage = ProbeStage::Done;
        self.reader = ResponseReader::new();
        assert(self@ =~~= concluded(old(self)@, result_view(result)).0);
        ProbeAction::Finish(result)
    }

    fn ask(&mut self, stage: ProbeStage, cancelled: bool, now: u64) -> (res: ProbeAction)
        requires
            old(self)@.heard.len() <= MAX_RESPONSE_BYTES,
            stage == ProbeStage::Starting || stage == ProbeStage::Writing || stage
                == ProbeStage::Blocked ==> old(self)@.written < old(self)@.total,
        ensures
            (final(self)@, res@) == asked(old(self)@, stage, cancelled, now),
            final(self)@.wf(),
    {
        if let Err(error) = check_deadline(cancelled, now, self.deadline) {
            return self.conclude(Err(error));
        }
        self.stage = stage;
        assert(self@ =~~= asked(old(self)@, stage, cancelled, now).0);
        match stage {
            ProbeStage::Starting => ProbeAction::Start,
            ProbeStage::Writing => ProbeAction::Write(self.written),
            ProbeStage::Blocked => ProbeAction::AwaitInput(wait_slice(now, self.deadline)),
            ProbeStage::Closing => ProbeAction::CloseInput,
            ProbeStage::Reading => ProbeAction::Read,
            ProbeStage::Idle => ProbeAction::AwaitOutput(wait_slice(now, self.deadline)),
            ProbeStage::Done => ProbeAction::Ignore,
        }
    }

    fn on_wrote(&mut self, outcome: Transfer, cancelled: bool, now: u64) -> (res: ProbeAction)
        requires
            old(self)@.wf(),
            old(self)@.stage == ProbeStage::Writing,
            outcome matches Transfer::Moved(n) ==> old(self)@.written + n <= old(self)@.total,
        ensures
            (final(self)@, res@) == wrote(old(self)@, outcome, cancelled, now),
            final(self)@.wf(),
    {
        match on_write(self.written, self.total, outcome) {
            Ok((written, next)) => {
                let ghost start = old(self)@;
                self.written = written;
                assert(self@ =~~= (ExchangeView { written, ..start }));
                match next {
                    Next::Again => self.ask(ProbeStage::Writing, cancelled, now),
                    Next::Wait => self.ask(ProbeStage::Blocked, cancelled, now),
                    Next::Complete => {
                        self.stage = ProbeStage::Closing;
                        assert(self@ =~~= (ExchangeView {
                            written,
                            stage: ProbeStage::Closing,
                            ..start
                        }));
                        ProbeAction::CloseInput
                    },
                }
            },
            Err(error) => self.conclude(Err(error)),
        }
    }

    fn on_heard(&mut self, bytes: &Vec<u8>, cancelled: bool, now: u64) -> (res: ProbeAction)
        requires
            old(self)@.wf(),
            old(self)@.stage == ProbeStage::Reading,
        ensures
            (final(self)@, res@) == heard(old(self)@, bytes@, cancelled, now),
            final(self)@.wf(),
    {
        let ghost start = old(self)@;
        match self.reader.push(bytes, self.request_id.as_str()) {
            Some(result) => {
                let action = self.conclude(result);
                assert(self@ =~~= concluded(start, result_view(result)).0);
                action
            },
            None => {
                assert(self@ =~~= (ExchangeView { heard: next_line(start.heard + bytes@).0, ..start }));
                self.ask(ProbeStage::Reading, cancelled, now)
            },
        }
    }

    fn on_silent(&mut self, outcome: Transfer, cancelled: bool, now: u64) -> (res: ProbeAction)
        requires
            old(self)@.wf(),
            old(self)@.stage == ProbeStage::Reading,
        ensures
            (final(self)@, res@) == exchanged(old(self)@, ProbeNews::Silent(outcome), cancelled, now),
            final(self)@.wf(),
    {
        match on_idle_read(outcome) {
            Ok(Next::Wait) => self.ask(ProbeStage::Idle, cancelled, now),
            Ok(_) => self.ask(ProbeStage::Reading, cancelled, now),
            Err(error) => self.conclude(Err(error)),
        }
    }

    /// Takes the check one step on.
    pub fn advance(&mut self, event: ProbeEvent, cancelled: bool, now: u64) -> (res: ProbeAction)
        requires
            old(self)@.wf(),
            old(self)@.possible(event@),
        ensures
            (final(self)@, res@) == exchanged(old(self)@, event@, cancelled, now),
            final(self)@.wf(),
    {
        match (self.stage, event) {
            (ProbeStage::Starting, ProbeEvent::Started(failure)) => match failure {
                None => self.ask(ProbeStage::Writing, cancelled, now),
                Some(f) => self.conclude(Err(f.message())),
            },
            (ProbeStage::Writing, ProbeEvent::Wrote(outcome)) => self.on_wrote(outcome, cancelled, now),
            (ProbeStage::Blocked, ProbeEvent::Awaited(ready)) => {
                if ready {
                    self.ask(ProbeStage::Writing, cancelled, now)
                } else {
                    self.conclude(Err("ECS probe readiness check failed".to_owned()))
                }
            },
            (ProbeStage::Closing, ProbeEvent::InputClosed) => self.ask(
                ProbeStage::Reading,
                cancelled,
                now,
            ),
            (ProbeStage::Reading, ProbeEvent::Heard(bytes)) => {
                if bytes.len() == 0 {
                    self.conclude(Err("ECS probe response ended unexpectedly".to_owned()))
                } else {
                    self.on_heard(&bytes, cancelled, now)
                }
            },
            (ProbeStage::Reading, ProbeEvent::Silent(outcome)) => self.on_silent(outcome, cancelled, now),
            (ProbeStage::Idle, ProbeEvent::Awaited(ready)) => {
                if ready {
                    self.ask(ProbeStage::Reading, cancelled, now)
                } else {
                    self.conclude(Err("ECS probe readiness check failed".to_owned()))
                }
            },
            _ => ProbeAction::Ignore,
        }
    }
}

/// A check that is cancelled or late asks for nothing more: it ends, or at most
/// closes the input of its child.
pub proof fn late_checks_end(e: ExchangeView, news: ProbeNews, cancelled: bool, now: u64)
    requires
        cancelled || now >= e.deadline,
    ensures
        ({
            let action = exchanged(e, news, cancelled, now).1;
            action is Finish || action is CloseInput || action is Ignore
        }),
{
}

/// An answer is only read once the whole request is over.
pub proof fn answers_follow_the_request(e: ExchangeView, news: ProbeNews, cancelled: bool, now: u64)
    requires
        e.wf(),
        e.possible(news),
        exchanged(e, news, cancelled, now).1 is CloseInput,
    ensures
        exchanged(e, news, cancelled, now).0.written == e.total,
{
}

/// How waiting for the child went.
#[derive(Clone, Copy, Debug, PartialEq, Eq, Structural)]
pub enum WaitOutcome {
    /// It still runs.
    Running,
    /// It has ended and was reaped.
    Exited,
    /// There is no such child any more.
    NoChild,
    /// Waiting failed.
    Failed,
}

/// Whether the recorded number still names the child's process group. Once the
/// child is reaped, the number can name an unrelated group.
pub fn owns_signalable_group(wait: WaitOutcome) -> (res: bool)
    ensures
        res == (wait is Running),
{
    wait == WaitOutcome::Running
}

/// The cleanup of a child.
#[derive(Clone, Copy, Debug, PartialEq, Eq, Structural)]
pub struct Reaper {
    /// Whether the group was told to stop.
    pub signalled: bool,
    /// Whether a failure was reported.
    pub reported: bool,
}

/// What to do next for a child.
#[derive(Clone, Copy, Debug, PartialEq, Eq, Structural)]
pub struct ReapStep {
    /// Stop its group now.
    pub signal: bool,
    /// Report that it cannot be reaped.
    pub report: bool,
    /// Wait this many milliseconds and look again; `None` if it is gone.
    pub wait: Option<u64>,
}

/// The cleanup after a look at the child.
pub open spec fn reaping(reaper: Reaper, wait: WaitOutcome) -> (Reaper, ReapStep) {
    let signal = wait is Running && !reaper.signalled;
    let report = wait is Failed && !reaper.reported;
    (
        Reaper { signalled: reaper.signalled || signal, reported: reaper.reported || report },
        ReapStep {
            signal,
            report,
            wait: match wait {
                WaitOutcome::Running => Some(5u64),
                WaitOutcome::Failed => Some(50u64),
                WaitOutcome::Exited | WaitOutcome::NoChild => None,
            },
        },
    )
}

impl Reaper {
    /// The child was neither stopped nor complained about.
    pub fn new() -> (res: Reaper)
        ensures
            res == (Reaper { signalled: false, reported: false }),
    {
        Reaper { signalled: false, reported: false }
    }

    /// Takes note of a look at the child, and says what to do next. It is
    /// stopped once, while its number is still its own, and stays owned until
    /// it is gone.
    pub fn observe(&mut self, wait: WaitOutcome) -> (res: ReapStep)
        ensures
            (*final(self), res) == reaping(*old(self), wait),
    {
        let signal: bool = owns_signalable_group(wait) && !self.signalled;
        let report: bool = wait == WaitOutcome::Failed && !self.reported;
        self.signalled = self.signalled || signal;
        self.reported = self.reported || report;
        ReapStep {
            signal,
            report,
            wait: match wait {
                WaitOutcome::Running => Some(5u64),
                WaitOutcome::Failed => Some(50u64),
                WaitOutcome::Exited | WaitOutcome::NoChild => None,
            },
        }
    }
}

/// The cleanup after a series of looks at the child.
pub open spec fn reaping_all(reaper: Reaper, waits: Seq<WaitOutcome>) -> Reaper
    decreases waits.len(),
{
    if waits.len() == 0 {
        reaper
    } else {
        reaping(reaping_all(reaper, waits.drop_last()), waits.last()).0
    }
}

/// A child's group is stopped at most once, whatever is seen of it.
pub proof fn groups_are_stopped_once(reaper: Reaper, waits: Seq<WaitOutcome>, wait: WaitOutcome)
    requires
        reaper.signalled,
    ensures
        !reaping(reaping_all(reaper, waits), wait).1.signal,
    decreases waits.len(),
{
    if waits.len() > 0 {
        groups_are_stopped_once(reaper, waits.drop_last(), wait);
        lemma_signalled(reaper, waits);
    }
}

proof fn lemma_signalled(reaper: Reaper, waits: Seq<WaitOutcome>)
    requires
        reaper.signalled,
    ensures
        reaping_all(reaper, waits).signalled,
    decreases waits.len(),
{
    if waits.len() > 0 {
        lemma_signalled(reaper, waits.drop_last());
    }
}

/// A group is only stopped while its child is unreaped.
pub proof fn only_unreaped_children_are_stopped(reaper: Reaper, wait: WaitOutcome)
    requires
        reaping(reaper, wait).1.signal,
    ensures
        wait is Running,
{
}

} // verus!
