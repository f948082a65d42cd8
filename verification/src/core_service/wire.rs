//! The lines exchanged with the core process.

use vstd::prelude::*;
use vstd::string::*;

use crate::core_service::event::{AgentEvent, EventView};
use crate::text::{decimal, decimal_text, opt_view, trim, trimmed};
use crate::tree::{
    bool_at, has_text, json_copy, json_get, json_is_object, json_members, json_null, json_object,
    json_parse, json_put, json_read, json_render, json_text, json_tree, json_u64, put_text,
    text_at, Tree,
};

verus! {

/// How much of the error output is kept.
pub const STDERR_TAIL_MAX_BYTES: usize = 65_536;

/// The last `n` bytes of `s`, or all of it.
pub open spec fn last_bytes(s: Seq<u8>, n: int) -> Seq<u8> {
    if s.len() > n {
        s.skip(s.len() - n)
    } else {
        s
    }
}

/// Appends `bytes` and drops what no longer fits from the front.
pub fn append_bounded(tail: &mut Vec<u8>, bytes: &[u8])
    ensures
        final(tail)@ == last_bytes(old(tail)@ + bytes@, STDERR_TAIL_MAX_BYTES as int),
{
    tail.extend_from_slice(bytes);
    let n: usize = tail.len();
    if n > STDERR_TAIL_MAX_BYTES {
        let ghost all = tail@;
        let kept = tail.split_off(n - STDERR_TAIL_MAX_BYTES);
        *tail = kept;
        assert(tail@ =~= all.skip(n - STDERR_TAIL_MAX_BYTES));
    }
}

/// The error output never outgrows its bound, and what is kept is its end.
pub proof fn the_tail_is_bounded(s: Seq<u8>, more: Seq<u8>)
    ensures
        last_bytes(s + more, STDERR_TAIL_MAX_BYTES as int).len() <= STDERR_TAIL_MAX_BYTES,
        more.len() <= STDERR_TAIL_MAX_BYTES ==> exists|i: int|
            #![trigger last_bytes(s + more, STDERR_TAIL_MAX_BYTES as int).skip(i)]
            0 <= i <= last_bytes(s + more, STDERR_TAIL_MAX_BYTES as int).len() && last_bytes(
                s + more,
                STDERR_TAIL_MAX_BYTES as int,
            ).skip(i) == more,
{
    let kept = last_bytes(s + more, STDERR_TAIL_MAX_BYTES as int);
    if more.len() <= STDERR_TAIL_MAX_BYTES {
        assert(kept.skip(kept.len() - more.len()) =~= more);
    }
}

/// Appending in two steps keeps the same tail as appending at once.
pub proof fn tails_compose(s: Seq<u8>, a: Seq<u8>, b: Seq<u8>)
    ensures
        last_bytes(last_bytes(s + a, STDERR_TAIL_MAX_BYTES as int) + b, STDERR_TAIL_MAX_BYTES as int)
            == last_bytes(s + (a + b), STDERR_TAIL_MAX_BYTES as int),
{
    assert(last_bytes(last_bytes(s + a, STDERR_TAIL_MAX_BYTES as int) + b, STDERR_TAIL_MAX_BYTES as int)
        =~= last_bytes(s + (a + b), STDERR_TAIL_MAX_BYTES as int));
}

/// A control request: its fields, if they are an object, join the subtype.
pub open spec fn control_tree(subtype: Seq<char>, request_id: Seq<char>, fields: Tree) -> Tree {
    let base = Map::empty().insert("subtype"@, Tree::Text(subtype));
    let request = match fields {
        Tree::Object(m) => base.union_prefer_right(m),
        _ => base,
    };
    Tree::Object(
        Map::empty().insert("type"@, Tree::Text("control_request"@)).insert(
            "request_id"@,
            Tree::Text(request_id),
        ).insert("request"@, Tree::Object(request)),
    )
}

/// A control request as a document.
pub fn control_document(subtype: &str, request_id: &str, fields: &serde_json::Value) -> (res: serde_json::Value)
    ensures
        json_tree(res) == control_tree(subtype@, request_id@, json_tree(*fields)),
{
    let mut request = json_object();
    put_text(&mut request, "subtype", subtype);
    let ghost base = Map::<Seq<char>, Tree>::empty().insert("subtype"@, Tree::Text(subtype@));
    let ghost tree = json_tree(*fields);
    if json_is_object(fields) {
        let members = json_members(fields);
        let ghost all = tree->Object_0;
        let mut i: usize = 0;
        while i < members.len()
            invariant
                i <= members@.len(),
                tree == json_tree(*fields),
                tree == Tree::Object(all),
                json_tree(request) is Object,
                forall|j: int|
                    0 <= j < members@.len() ==> tree.member((#[trigger] members@[j]).0@) == Some(
                        json_tree(members@[j].1),
                    ),
                forall|j: int|
                    0 <= j < i ==> json_tree(request)->Object_0.contains_key((#[trigger] members@[j]).0@)
                        && json_tree(request)->Object_0[members@[j].0@] == all[members@[j].0@],
                forall|k: Seq<char>| #[trigger]
                    json_tree(request)->Object_0.contains_key(k) ==> (all.contains_key(k)
                        && json_tree(request)->Object_0[k] == all[k]) || (base.contains_key(k)
                        && json_tree(request)->Object_0[k] == base[k]),
                forall|k: Seq<char>| #[trigger]
                    base.contains_key(k) ==> json_tree(request)->Object_0.contains_key(k),
            decreases members@.len() - i,
        {
            json_put(&mut request, members[i].0.as_str(), json_copy(&members[i].1));
            i = i + 1;
        }
        proof {
            let m = json_tree(request)->Object_0;
            assert forall|k: Seq<char>| #[trigger] all.contains_key(k) implies m.contains_key(k) && m[k]
                == all[k] by {
                assert(tree.member(k) is Some);
                let j = choose|j: int| 0 <= j < members@.len() && (#[trigger] members@[j]).0@ == k;
                assert(m.contains_key(members@[j].0@));
            }
            let joined = base.union_prefer_right(all);
            assert forall|k: Seq<char>| m.contains_key(k) == joined.contains_key(k) by {
                assert(m.contains_key(k) ==> all.contains_key(k) || base.contains_key(k));
                assert(base.contains_key(k) ==> m.contains_key(k));
                assert(all.contains_key(k) ==> m.contains_key(k));
                assert(joined.contains_key(k) == (base.contains_key(k) || all.contains_key(k)));
            }
            assert forall|k: Seq<char>| m.contains_key(k) implies m[k] == joined[k] by {
                if !all.contains_key(k) {
                    assert(m[k] == base[k]);
                }
            }
            assert(m =~= joined);
        }
    }
    let mut out = json_object();
    put_text(&mut out, "type", "control_request");
    put_text(&mut out, "request_id", request_id);
    json_put(&mut out, "request", request);
    out
}

/// A control request as a line.
pub fn control_request(subtype: &str, request_id: &str, fields: &serde_json::Value) -> (res: String)
    ensures
        res@ == json_text(control_tree(subtype@, request_id@, json_tree(*fields))),
{
    let document = control_document(subtype, request_id, fields);
    json_render(&document)
}

/// The interrupt that cancels a turn.
pub fn interrupt_request() -> (res: String)
    ensures
        res@ == json_text(control_tree("interrupt"@, "interrupt-1"@, Tree::Null)),
{
    let none = json_null();
    control_request("interrupt", "interrupt-1", &none)
}

/// The request that ends the process.
pub fn shutdown_request() -> (res: String)
    ensures
        res@ == json_text(control_tree("shutdown"@, "shutdown-1"@, Tree::Null)),
{
    let none = json_null();
    control_request("shutdown", "shutdown-1", &none)
}

/// The user's message. The text as typed goes along only where it is known.
pub open spec fn user_tree(
    content: Seq<char>,
    raw: Option<Seq<char>>,
    session_id: Option<Seq<char>>,
    cwd: Seq<char>,
) -> Tree {
    let plain = Map::empty().insert("role"@, Tree::Text("user"@)).insert("content"@, Tree::Text(content));
    let message = match raw {
        Some(text) => plain.insert("raw_user_input"@, Tree::Text(text)),
        None => plain,
    };
    Tree::Object(
        Map::empty().insert("type"@, Tree::Text("user"@)).insert("message"@, Tree::Object(message)).insert(
            "parent_tool_use_id"@,
            Tree::Null,
        ).insert(
            "session_id"@,
            Tree::Text(
                match session_id {
                    Some(id) => id,
                    None => "default"@,
                },
            ),
        ).insert(
            "shell_context"@,
            Tree::Object(
                Map::empty().insert("cwd"@, Tree::Text(cwd)).insert(
                    "env"@,
                    Tree::Object(Map::empty()),
                ).insert("last_exit_code"@, Tree::Int(0)),
            ),
        ),
    )
}

/// The user's message as a document.
pub fn user_document(content: &str, raw: Option<&str>, session_id: Option<&str>, cwd: &str) -> (res: serde_json::Value)
    ensures
        json_tree(res) == user_tree(
            content@,
            match raw {
                Some(s) => Some(s@),
                None => None,
            },
            match session_id {
                Some(s) => Some(s@),
                None => None,
            },
            cwd@,
        ),
{
    let mut message = json_object();
    put_text(&mut message, "role", "user");
    put_text(&mut message, "content", content);
    if let Some(text) = raw {
        put_text(&mut message, "raw_user_input", text);
    }
    let mut context = json_object();
    put_text(&mut context, "cwd", cwd);
    json_put(&mut context, "env", json_object());
    json_put(&mut context, "last_exit_code", json_u64(0));
    let mut out = json_object();
    put_text(&mut out, "type", "user");
    json_put(&mut out, "message", message);
    json_put(&mut out, "parent_tool_use_id", json_null());
    match session_id {
        Some(id) => put_text(&mut out, "session_id", id),
        None => put_text(&mut out, "session_id", "default"),
    }
    json_put(&mut out, "shell_context", context);
    out
}

/// The user's message as a line.
pub fn user_message_with_raw_input(content: &str, raw: Option<&str>, session_id: Option<&str>, cwd: &str) -> (res: String)
    ensures
        res@ == json_text(
            user_tree(
                content@,
                match raw {
                    Some(s) => Some(s@),
                    None => None,
                },
                match session_id {
                    Some(s) => Some(s@),
                    None => None,
                },
                cwd@,
            ),
        ),
{
    let document = user_document(content, raw, session_id, cwd);
    json_render(&document)
}

/// A registry command.
pub struct RegistryCommand {
    pub request_id: String,
    pub domain: String,
    pub action: String,
    pub params: serde_json::Value,
}

/// A registry command on the wire.
pub open spec fn registry_tree(command: RegistryCommand) -> Tree {
    Tree::Object(
        Map::empty().insert("type"@, Tree::Text("registry_request"@)).insert(
            "request_id"@,
            Tree::Text(command.request_id@),
        ).insert("domain"@, Tree::Text(command.domain@)).insert(
            "action"@,
            Tree::Text(command.action@),
        ).insert("params"@, json_tree(command.params)),
    )
}

/// A registry command as a line.
pub fn registry_request(command: &RegistryCommand) -> (res: String)
    ensures
        res@ == json_text(registry_tree(*command)),
{
    let mut out = json_object();
    put_text(&mut out, "type", "registry_request");
    put_text(&mut out, "request_id", command.request_id.as_str());
    put_text(&mut out, "domain", command.domain.as_str());
    put_text(&mut out, "action", command.action.as_str());
    json_put(&mut out, "params", json_copy(&command.params));
    json_render(&out)
}

/// Why a registry command failed.
#[derive(Clone, Debug)]
pub enum RegistryQueryError {
    /// The command did not get through.
    Transport(String),
    /// The core refused the command, with this message and code.
    Response(String, Option<String>),
}

/// What a [`RegistryQueryError`] says.
pub enum QueryErrorView {
    Transport(Seq<char>),
    Response(Seq<char>, Option<Seq<char>>),
}

impl View for RegistryQueryError {
    type V = QueryErrorView;

    open spec fn view(&self) -> QueryErrorView {
        match self {
            RegistryQueryError::Transport(m) => QueryErrorView::Transport(m@),
            RegistryQueryError::Response(m, code) => QueryErrorView::Response(m@, opt_view(*code)),
        }
    }
}

impl QueryErrorView {
    /// The message of either kind.
    pub open spec fn message(self) -> Seq<char> {
        match self {
            QueryErrorView::Transport(m) => m,
            QueryErrorView::Response(m, _) => m,
        }
    }
}

impl RegistryQueryError {
    /// The message of either kind.
    pub fn into_message(self) -> (res: String)
        ensures
            res@ == self@.message(),
    {
        match self {
            RegistryQueryError::Transport(m) => m,
            RegistryQueryError::Response(m, _) => m,
        }
    }
}

/// A line answers a command only when both its kind and its identifier match.
pub open spec fn answers(response: Tree, request_id: Seq<char>) -> bool {
    response.text_at("type"@) == Some("registry_response"@) && response.text_at("request_id"@) == Some(
        request_id,
    )
}

/// Whether a line answers the command.
pub fn is_registry_response_for(response: &serde_json::Value, request_id: &str) -> (res: bool)
    ensures
        res == answers(json_tree(*response), request_id@),
{
    has_text(response, "type", "registry_response") && has_text(response, "request_id", request_id)
}

/// What a registry answer says: its data on success, else message and code.
pub open spec fn reply_in(response: Tree) -> Result<Tree, QueryErrorView> {
    if response.bool_at("success"@) == Some(true) {
        Ok(
            match response.member("data"@) {
                Some(data) => data,
                None => Tree::Null,
            },
        )
    } else {
        Err(
            QueryErrorView::Response(
                match response.text_at("error"@) {
                    Some(m) => m,
                    None => "unknown live registry error"@,
                },
                match response.member("data"@) {
                    Some(data) => data.text_at("error_code"@),
                    None => None,
                },
            ),
        )
    }
}

/// The view of a registry result.
pub open spec fn query_view(r: Result<serde_json::Value, RegistryQueryError>) -> Result<Tree, QueryErrorView> {
    match r {
        Ok(v) => Ok(json_tree(v)),
        Err(e) => Err(e@),
    }
}

/// What a registry answer says.
pub fn registry_reply(response: &serde_json::Value) -> (res: Result<serde_json::Value, RegistryQueryError>)
    ensures
        query_view(res) == reply_in(json_tree(*response)),
{
    let granted: bool = match bool_at(response, "success") {
        Some(b) => b,
        None => false,
    };
    if granted {
        return match json_get(response, "data") {
            Some(data) => Ok(json_copy(data)),
            None => Ok(json_null()),
        };
    }
    let message: String = match text_at(response, "error") {
        Some(m) => m,
        None => "unknown live registry error".to_owned(),
    };
    let code: Option<String> = match json_get(response, "data") {
        Some(data) => text_at(data, "error_code"),
        None => None,
    };
    Err(RegistryQueryError::Response(message, code))
}

/// What came while a registry command was waiting.
pub enum RegistrySignal {
    Line(String),
    StreamError(String),
    Timeout,
    Disconnected,
}

/// What a signal means to a waiting command: a result, or nothing yet.
pub open spec fn registry_outcome(signal: RegistrySignal, request_id: Seq<char>) -> Option<
    Result<Tree, QueryErrorView>,
> {
    match signal {
        RegistrySignal::Line(line) => match json_read(trimmed(line@)) {
            Some(response) => if answers(response, request_id) {
                Some(reply_in(response))
            } else {
                None
            },
            None => None,
        },
        RegistrySignal::StreamError(error) => Some(Err(QueryErrorView::Transport(error@))),
        RegistrySignal::Timeout => Some(
            Err(QueryErrorView::Transport("live registry query timed out"@)),
        ),
        RegistrySignal::Disconnected => Some(
            Err(QueryErrorView::Transport("cosh-core output stream disconnected"@)),
        ),
    }
}

/// Decides what a signal means to a waiting command.
pub fn on_registry_signal(signal: RegistrySignal, request_id: &str) -> (res: Option<
    Result<serde_json::Value, RegistryQueryError>,
>)
    ensures
        match res {
            Some(r) => registry_outcome(signal, request_id@) == Some(query_view(r)),
            None => registry_outcome(signal, request_id@) is None,
        },
{
    match signal {
        RegistrySignal::Line(line) => {
            let text = trim(line.as_str());
            match json_parse(text.as_str()) {
                Some(response) => {
                    if is_registry_response_for(&response, request_id) {
                        Some(registry_reply(&response))
                    } else {
                        None
                    }
                },
                None => None,
            }
        },
        RegistrySignal::StreamError(error) => Some(Err(RegistryQueryError::Transport(error))),
        RegistrySignal::Timeout => Some(
            Err(RegistryQueryError::Transport("live registry query timed out".to_owned())),
        ),
        RegistrySignal::Disconnected => Some(
            Err(RegistryQueryError::Transport("cosh-core output stream disconnected".to_owned())),
        ),
    }
}

/// What a waiting registry command does next.
pub enum QueryStep {
    /// Wait this long for a signal.
    Wait(u64),
    /// The command is over.
    Finish(Result<serde_json::Value, RegistryQueryError>),
}

/// What a [`QueryStep`] says.
pub enum QueryStepView {
    Wait(u64),
    Finish(Result<Tree, QueryErrorView>),
}

impl View for QueryStep {
    type V = QueryStepView;

    open spec fn view(&self) -> QueryStepView {
        match self {
            QueryStep::Wait(time) => QueryStepView::Wait(*time),
            QueryStep::Finish(result) => QueryStepView::Finish(query_view(*result)),
        }
    }
}

/// A command waits until its deadline.
pub open spec fn query_wait(deadline: u64, now: u64) -> QueryStepView {
    if now >= deadline {
        QueryStepView::Finish(Err(QueryErrorView::Transport("live registry query timed out"@)))
    } else {
        QueryStepView::Wait((deadline - now) as u64)
    }
}

/// One step of a waiting command.
pub open spec fn query_step(
    signal: RegistrySignal,
    request_id: Seq<char>,
    deadline: u64,
    now: u64,
) -> QueryStepView {
    match registry_outcome(signal, request_id) {
        Some(result) => QueryStepView::Finish(result),
        None => query_wait(deadline, now),
    }
}

fn wait_for_reply(deadline: u64, now: u64) -> (res: QueryStep)
    ensures
        res@ == query_wait(deadline, now),
{
    if now >= deadline {
        QueryStep::Finish(
            Err(RegistryQueryError::Transport("live registry query timed out".to_owned())),
        )
    } else {
        QueryStep::Wait(deadline - now)
    }
}

/// A registry command that waits for its reply.
pub struct RegistryWait {
    pub request_id: String,
    pub deadline: u64,
}

/// Begins to wait for the reply to a command, given whether the command was
/// sent.
pub fn execute_registry(command: &RegistryCommand, sent: Result<(), String>, now: u64, timeout: u64) -> (res:
    (RegistryWait, QueryStep))
    requires
        now + timeout <= u64::MAX,
    ensures
        res.0.request_id@ == command.request_id@,
        res.0.deadline == now + timeout,
        res.1@ == (match sent {
            Ok(_) => query_wait((now + timeout) as u64, now),
            Err(error) => QueryStepView::Finish(Err(QueryErrorView::Transport(error@))),
        }),
{
    let deadline: u64 = now + timeout;
    let wait = RegistryWait { request_id: command.request_id.clone(), deadline };
    let step = match sent {
        Ok(_) => wait_for_reply(deadline, now),
        Err(error) => QueryStep::Finish(Err(RegistryQueryError::Transport(error))),
    };
    (wait, step)
}

impl RegistryWait {
    /// Takes in a signal: a line that is no reply to this command is passed
    /// over, and everything else ends the wait.
    pub fn on_signal(&self, signal: RegistrySignal, now: u64) -> (res: QueryStep)
        ensures
            res@ == query_step(signal, self.request_id@, self.deadline, now),
    {
        match on_registry_signal(signal, self.request_id.as_str()) {
            Some(result) => QueryStep::Finish(result),
            None => wait_for_reply(self.deadline, now),
        }
    }
}

/// A command never waits past its deadline: there every signal ends it.
pub proof fn commands_end_at_their_deadline(
    signal: RegistrySignal,
    request_id: Seq<char>,
    deadline: u64,
    now: u64,
)
    requires
        now >= deadline,
    ensures
        query_step(signal, request_id, deadline, now) is Finish,
{
}

/// Whether a command did not get through: then the process is of no more use.
pub fn log_registry_transport_failure(result: &Result<serde_json::Value, RegistryQueryError>) -> (res: bool)
    ensures
        res == (query_view(*result) matches Err(QueryErrorView::Transport(_))),
{
    match result {
        Err(RegistryQueryError::Transport(_)) => true,
        _ => false,
    }
}

/// The command that replays a deferred extension reload.
pub fn reload_command(pid: u32) -> (res: RegistryCommand)
    ensures
        res.request_id@ == "deferred-reload-"@ + decimal(pid as nat),
        res.domain@ == "extensions"@,
        res.action@ == "reload"@,
        json_tree(res.params) == Tree::Null,
{
    let number = decimal_text(pid as u128);
    RegistryCommand {
        request_id: "deferred-reload-".to_owned().concat(number.as_str()),
        domain: "extensions".to_owned(),
        action: "reload".to_owned(),
        params: json_null(),
    }
}

/// What a replayed reload leads to: any failure is shown, and one of the
/// transport also ends the process.
pub fn reload_outcome(run_id: &str, result: Result<serde_json::Value, RegistryQueryError>) -> (res: (
    Option<AgentEvent>,
    Option<RegistryQueryError>,
))
    ensures
        match query_view(result) {
            Ok(_) => res.0 is None && res.1 is None,
            Err(error) => {
                &&& res.0 is Some
                &&& res.0->0@ == EventView::StatusChanged(
                    run_id@,
                    "extension_reload_failed"@,
                    error.message(),
                )
                &&& res.1 is Some == error is Transport
                &&& res.1 is Some ==> res.1->0@ == error
            },
        },
{
    match result {
        Ok(_) => (None, None),
        Err(error) => {
            let message: String = match &error {
                RegistryQueryError::Transport(m) => m.clone(),
                RegistryQueryError::Response(m, _) => m.clone(),
            };
            let event = AgentEvent::StatusChanged(
                run_id.to_owned(),
                "extension_reload_failed".to_owned(),
                message,
            );
            let broken: bool = match &error {
                RegistryQueryError::Transport(_) => true,
                _ => false,
            };
            if broken {
                (Some(event), Some(error))
            } else {
                (Some(event), None)
            }
        },
    }
}

/// What the reader says when the output of the process is over.
pub fn stream_end(error: Option<&str>) -> (res: String)
    ensures
        res@ == (match error {
            Some(e) => "failed to read cosh-core stream: "@ + e@,
            None => "cosh-core output reached EOF"@,
        }),
{
    match error {
        Some(e) => "failed to read cosh-core stream: ".to_owned().concat(e),
        None => "cosh-core output reached EOF".to_owned(),
    }
}

/// What a failed write is reported as.
pub fn write_failure(error: &str) -> (res: String)
    ensures
        res@ == "failed to write cosh-core request: "@ + error@,
{
    "failed to write cosh-core request: ".to_owned().concat(error)
}

/// A line for another command is passed over, whatever it says.
pub proof fn foreign_lines_are_passed_over(line: String, response: Tree, request_id: Seq<char>)
    requires
        json_read(trimmed(line@)) == Some(response),
        response.text_at("request_id"@) != Some(request_id),
    ensures
        registry_outcome(RegistrySignal::Line(line), request_id) is None,
{
}

/// The user's text goes along exactly when it is known.
pub proof fn raw_input_is_optional(
    content: Seq<char>,
    raw: Option<Seq<char>>,
    session_id: Option<Seq<char>>,
    cwd: Seq<char>,
)
    ensures
        user_tree(content, raw, session_id, cwd).member("message"@) matches Some(message)
            && message.text_at("raw_user_input"@) == raw && message.text_at("content"@) == Some(content),
{
    reveal_strlit("message");
    reveal_strlit("type");
    reveal_strlit("parent_tool_use_id");
    reveal_strlit("session_id");
    reveal_strlit("shell_context");
    reveal_strlit("role");
    reveal_strlit("content");
    reveal_strlit("raw_user_input");
    assert("message"@.len() == 7 && "type"@.len() == 4 && "parent_tool_use_id"@.len() == 18
        && "session_id"@.len() == 10 && "shell_context"@.len() == 13);
    assert("role"@.len() == 4 && "content"@.len() == 7 && "raw_user_input"@.len() == 14);
}

} // verus!
