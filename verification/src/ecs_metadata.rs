//! Bounded ECS credential checks. They expose classifications, never metadata
//! or credentials.

use vstd::prelude::*;
use vstd::string::*;
use vstd::utf8::*;

use crate::clock::{parse_rfc3339, rfc3339_time, UtcTime};
use crate::text::{
    ascii_alnum, chars_of, is_ascii_alnum, opt_view, text_of, trim, trimmed, utf8_text,
};
use crate::tree::{has_text, json_parse_bytes, json_read_bytes, text_at, Tree};

pub mod laws;

verus! {

/// The largest accepted response.
pub const MAX_RESPONSE_BYTES: usize = 65_536;

/// The largest accepted session token.
pub const MAX_TOKEN_BYTES: usize = 4_096;

/// Availability of complete, unexpired metadata credentials.
#[derive(Clone, Copy, Debug, PartialEq, Eq, Structural)]
pub enum CredentialStatus {
    /// The role supplied structurally valid, unexpired credentials.
    Ready,
    /// The role or refreshed credentials are not yet available.
    NotReady(NotReadyReason),
}

/// Conditions for which waiting for role configuration or refresh is appropriate.
#[derive(Clone, Copy, Debug, PartialEq, Eq, Structural)]
pub enum NotReadyReason {
    /// The role endpoint returned HTTP 404.
    RoleMissing,
    /// Complete credentials have reached their expiration time.
    CredentialsExpired,
}

impl NotReadyReason {
    /// The reason as the registry protocol spells it.
    pub open spec fn token(self) -> Seq<char> {
        match self {
            NotReadyReason::RoleMissing => "role_missing"@,
            NotReadyReason::CredentialsExpired => "credentials_expired"@,
        }
    }

    /// Stable reason sent over the registry protocol.
    pub fn as_str(self) -> (res: &'static str)
        ensures
            res@ == self.token(),
    {
        match self {
            NotReadyReason::RoleMissing => "role_missing",
            NotReadyReason::CredentialsExpired => "credentials_expired",
        }
    }
}

/// Safe metadata failures that do not retain upstream errors or response bodies.
#[derive(Clone, Copy, Debug, PartialEq, Eq, Structural)]
pub enum ProbeError {
    /// Metadata access was rejected by HTTP 401 or 403.
    AccessDenied,
    /// The response was too large or did not contain valid credentials.
    InvalidResponse,
    /// The metadata transport failed.
    Unreachable,
    /// The metadata request exceeded its deadline.
    Timeout,
    /// Metadata returned another non-success HTTP status.
    Http,
}

impl ProbeError {
    /// The code of each failure.
    pub open spec fn code_text(self) -> Seq<char> {
        match self {
            ProbeError::AccessDenied => "metadata_access_denied"@,
            ProbeError::InvalidResponse => "invalid_metadata_response"@,
            ProbeError::Unreachable => "metadata_unreachable"@,
            ProbeError::Timeout => "metadata_timeout"@,
            ProbeError::Http => "metadata_http_error"@,
        }
    }

    /// The message of each failure.
    pub open spec fn message_text(self) -> Seq<char> {
        match self {
            ProbeError::AccessDenied => "Unable to access ECS instance metadata."@,
            ProbeError::InvalidResponse => "ECS instance metadata returned an invalid response."@,
            ProbeError::Unreachable => "Unable to reach ECS instance metadata."@,
            ProbeError::Timeout => "ECS instance metadata request timed out."@,
            ProbeError::Http => "ECS instance metadata returned an HTTP error."@,
        }
    }

    /// Stable error code shared by verify and configure preflight.
    pub fn code(&self) -> (res: &'static str)
        ensures
            res@ == self.code_text(),
    {
        match self {
            ProbeError::AccessDenied => "metadata_access_denied",
            ProbeError::InvalidResponse => "invalid_metadata_response",
            ProbeError::Unreachable => "metadata_unreachable",
            ProbeError::Timeout => "metadata_timeout",
            ProbeError::Http => "metadata_http_error",
        }
    }

    /// The message shown to the user.
    pub fn message(&self) -> (res: String)
        ensures
            res@ == self.message_text(),
    {
        match self {
            ProbeError::AccessDenied => "Unable to access ECS instance metadata.".to_owned(),
            ProbeError::InvalidResponse => {
                "ECS instance metadata returned an invalid response.".to_owned()
            },
            ProbeError::Unreachable => "Unable to reach ECS instance metadata.".to_owned(),
            ProbeError::Timeout => "ECS instance metadata request timed out.".to_owned(),
            ProbeError::Http => "ECS instance metadata returned an HTTP error.".to_owned(),
        }
    }
}

/// Credentials for signing requests.
#[derive(Clone)]
pub struct SysomCredentials {
    pub access_key_id: String,
    pub access_key_secret: String,
    pub security_token: Option<String>,
}

/// What the credentials say.
#[verifier::ext_equal]
pub struct CredentialsView {
    pub access_key_id: Seq<char>,
    pub access_key_secret: Seq<char>,
    pub security_token: Option<Seq<char>>,
}

impl View for SysomCredentials {
    type V = CredentialsView;

    open spec fn view(&self) -> CredentialsView {
        CredentialsView {
            access_key_id: self.access_key_id@,
            access_key_secret: self.access_key_secret@,
            security_token: opt_view(self.security_token),
        }
    }
}

/// What the role endpoint supplied.
pub enum RoleCredentials {
    Ready(SysomCredentials),
    NotReady(NotReadyReason),
}

/// What a [`RoleCredentials`] says.
pub enum RoleView {
    Ready(CredentialsView),
    NotReady(NotReadyReason),
}

impl View for RoleCredentials {
    type V = RoleView;

    open spec fn view(&self) -> RoleView {
        match self {
            RoleCredentials::Ready(c) => RoleView::Ready(c@),
            RoleCredentials::NotReady(r) => RoleView::NotReady(*r),
        }
    }
}

impl RoleView {
    /// The classification without the credentials.
    pub open spec fn status(self) -> CredentialStatus {
        match self {
            RoleView::Ready(_) => CredentialStatus::Ready,
            RoleView::NotReady(r) => CredentialStatus::NotReady(r),
        }
    }
}

impl RoleCredentials {
    /// The classification without the credentials.
    pub fn status(&self) -> (res: CredentialStatus)
        ensures
            res == self@.status(),
    {
        match self {
            RoleCredentials::Ready(_) => CredentialStatus::Ready,
            RoleCredentials::NotReady(reason) => CredentialStatus::NotReady(*reason),
        }
    }
}

/// What an HTTP status means.
pub open spec fn status_result(status: u16) -> Result<(), ProbeError> {
    if 200 <= status <= 299 {
        Ok(())
    } else if status == 401 || status == 403 {
        Err(ProbeError::AccessDenied)
    } else {
        Err(ProbeError::Http)
    }
}

/// Accepts a success status and classifies any other.
pub fn check_status(status: u16) -> (res: Result<(), ProbeError>)
    ensures
        res == status_result(status),
{
    if 200 <= status && status <= 299 {
        Ok(())
    } else if status == 401 || status == 403 {
        Err(ProbeError::AccessDenied)
    } else {
        Err(ProbeError::Http)
    }
}

/// A field that is a text and not blank.
pub open spec fn filled_field(body: Tree, name: Seq<char>) -> Option<Seq<char>> {
    match body.text_at(name) {
        Some(s) => if trimmed(s).len() > 0 {
            Some(s)
        } else {
            None
        },
        None => None,
    }
}

fn read_field(body: &serde_json::Value, name: &str) -> (res: Result<String, ProbeError>)
    ensures
        match res {
            Ok(s) => filled_field(crate::tree::json_tree(*body), name@) == Some(s@),
            Err(e) => e == ProbeError::InvalidResponse && filled_field(
                crate::tree::json_tree(*body),
                name@,
            ) is None,
        },
{
    match text_at(body, name) {
        Some(value) => {
            let kept = trim(value.as_str());
            if kept.as_str().is_empty() {
                Err(ProbeError::InvalidResponse)
            } else {
                Ok(value)
            }
        },
        None => Err(ProbeError::InvalidResponse),
    }
}

/// What a credentials document says at `now`: it must report success and hold
/// every field, and it is ready until its expiration.
pub open spec fn credentials_in(body: Tree, now: UtcTime) -> Result<RoleView, ProbeError> {
    let id = filled_field(body, "AccessKeyId"@);
    let secret = filled_field(body, "AccessKeySecret"@);
    let token = filled_field(body, "SecurityToken"@);
    let expiration = match filled_field(body, "Expiration"@) {
        Some(text) => rfc3339_time(text),
        None => None,
    };
    if body.text_at("Code"@) != Some("Success"@) || id is None || secret is None || token is None
        || expiration is None {
        Err(ProbeError::InvalidResponse)
    } else if expiration->0.at_or_before(now) {
        Ok(RoleView::NotReady(NotReadyReason::CredentialsExpired))
    } else {
        Ok(
            RoleView::Ready(
                CredentialsView {
                    access_key_id: id->0,
                    access_key_secret: secret->0,
                    security_token: Some(token->0),
                },
            ),
        )
    }
}

/// What the role endpoint's response says at `now`. A missing role is told by
/// the status alone, and so is every failed request.
pub open spec fn role_in(status: u16, body: Seq<u8>, now: UtcTime) -> Result<RoleView, ProbeError> {
    if status == 404 {
        Ok(RoleView::NotReady(NotReadyReason::RoleMissing))
    } else {
        match status_result(status) {
            Err(e) => Err(e),
            Ok(_) => if body.len() > MAX_RESPONSE_BYTES {
                Err(ProbeError::InvalidResponse)
            } else {
                match json_read_bytes(body) {
                    Some(tree) => credentials_in(tree, now),
                    None => Err(ProbeError::InvalidResponse),
                }
            },
        }
    }
}

/// The view of a role result.
pub open spec fn role_result(r: Result<RoleCredentials, ProbeError>) -> Result<RoleView, ProbeError> {
    match r {
        Ok(c) => Ok(c@),
        Err(e) => Err(e),
    }
}

/// What a credentials document says at `now`.
pub fn credentials_from(body: &serde_json::Value, now: UtcTime) -> (res: Result<RoleCredentials, ProbeError>)
    ensures
        role_result(res) == credentials_in(crate::tree::json_tree(*body), now),
{
    if !has_text(body, "Code", "Success") {
        return Err(ProbeError::InvalidResponse);
    }
    let access_key_id = match read_field(body, "AccessKeyId") {
        Ok(s) => s,
        Err(e) => {
            return Err(e);
        },
    };
    let access_key_secret = match read_field(body, "AccessKeySecret") {
        Ok(s) => s,
        Err(e) => {
            return Err(e);
        },
    };
    let security_token = match read_field(body, "SecurityToken") {
        Ok(s) => s,
        Err(e) => {
            return Err(e);
        },
    };
    let expiration = match read_field(body, "Expiration") {
        Ok(s) => s,
        Err(e) => {
            return Err(e);
        },
    };
    match parse_rfc3339(expiration.as_str()) {
        Some(time) => {
            if time.not_after(now) {
                Ok(RoleCredentials::NotReady(NotReadyReason::CredentialsExpired))
            } else {
                Ok(
                    RoleCredentials::Ready(
                        SysomCredentials {
                            access_key_id,
                            access_key_secret,
                            security_token: Some(security_token),
                        },
                    ),
                )
            }
        },
        None => Err(ProbeError::InvalidResponse),
    }
}

/// What the role endpoint's response says at `now`.
pub fn validate_credentials(status: u16, body: &[u8], now: UtcTime) -> (res: Result<RoleCredentials, ProbeError>)
    ensures
        role_result(res) == role_in(status, body@, now),
{
    if status == 404 {
        return Ok(RoleCredentials::NotReady(NotReadyReason::RoleMissing));
    }
    if let Err(e) = check_status(status) {
        return Err(e);
    }
    if body.len() > MAX_RESPONSE_BYTES {
        return Err(ProbeError::InvalidResponse);
    }
    match json_parse_bytes(body) {
        Some(value) => credentials_from(&value, now),
        None => Err(ProbeError::InvalidResponse),
    }
}

/// The classification of the role endpoint's response at `now`.
pub fn classify_credentials(status: u16, body: &[u8], now: UtcTime) -> (res: Result<CredentialStatus, ProbeError>)
    ensures
        res == (match role_in(status, body@, now) {
            Ok(role) => Ok(role.status()),
            Err(e) => Err(e),
        }),
{
    match validate_credentials(status, body, now) {
        Ok(credentials) => Ok(credentials.status()),
        Err(e) => Err(e),
    }
}

/// What a failed request means.
pub open spec fn transport_meaning(timed_out: bool, connecting: bool) -> ProbeError {
    if timed_out {
        ProbeError::Timeout
    } else if connecting {
        ProbeError::Unreachable
    } else {
        ProbeError::InvalidResponse
    }
}

/// What a failed request means. A connected peer that sends malformed HTTP is
/// no evidence that this is not an ECS instance.
pub fn transport_error(timed_out: bool, connecting: bool) -> (res: ProbeError)
    ensures
        res == transport_meaning(timed_out, connecting),
        res == (if timed_out {
            ProbeError::Timeout
        } else if connecting {
            ProbeError::Unreachable
        } else {
            ProbeError::InvalidResponse
        }),
{
    if timed_out {
        ProbeError::Timeout
    } else if connecting {
        ProbeError::Unreachable
    } else {
        ProbeError::InvalidResponse
    }
}

/// A response body that is being read.
pub struct BodyReader {
    limit: usize,
    body: Vec<u8>,
}

impl BodyReader {
    /// The largest body that is accepted.
    pub closed spec fn bound(&self) -> usize {
        self.limit
    }

    /// What has been read so far.
    pub closed spec fn bytes(&self) -> Seq<u8> {
        self.body@
    }

    /// The body fits.
    pub open spec fn wf(&self) -> bool {
        self.bytes().len() <= self.bound()
    }

    /// Starts to read a response. The body of a failed request is never read,
    /// and an announced length over the limit is refused.
    pub fn start(status: u16, content_length: Option<u64>, limit: usize) -> (res: Result<
        Option<BodyReader>,
        ProbeError,
    >)
        ensures
            match res {
                Ok(Some(r)) => 200 <= status <= 299 && !(content_length matches Some(n) && n > limit)
                    && r.wf() && r.bound() == limit && r.bytes() == Seq::<u8>::empty(),
                Ok(None) => !(200 <= status <= 299),
                Err(e) => 200 <= status <= 299 && content_length is Some && content_length->0 > limit
                    && e == ProbeError::InvalidResponse,
            },
    {
        if !(200 <= status && status <= 299) {
            return Ok(None);
        }
        if let Some(length) = content_length {
            if length > limit as u64 {
                return Err(ProbeError::InvalidResponse);
            }
        }
        Ok(Some(BodyReader { limit, body: Vec::new() }))
    }

    /// Takes a chunk; one that does not fit is refused.
    pub fn push(&mut self, chunk: &[u8]) -> (res: Result<(), ProbeError>)
        requires
            old(self).wf(),
        ensures
            final(self).wf(),
            final(self).bound() == old(self).bound(),
            match res {
                Ok(_) => final(self).bytes() == old(self).bytes() + chunk@,
                Err(e) => e == ProbeError::InvalidResponse && final(self).bytes() == old(self).bytes()
                    && old(self).bytes().len() + chunk@.len() > old(self).bound(),
            },
    {
        if chunk.len() > self.limit - self.body.len() {
            return Err(ProbeError::InvalidResponse);
        }
        self.body.extend_from_slice(chunk);
        Ok(())
    }

    /// The body that was read.
    pub fn into_body(self) -> (res: Vec<u8>)
        ensures
            res@ == self.bytes(),
    {
        self.body
    }
}

/// A printable ASCII character that is not a space.
pub open spec fn is_graphic(b: u8) -> bool {
    0x21 <= b <= 0x7e
}

/// What the token endpoint's response says: a success status and a non-empty
/// token of graphic characters.
pub open spec fn token_in(status: u16, body: Seq<u8>) -> Result<(), ProbeError> {
    match status_result(status) {
        Err(e) => Err(e),
        Ok(_) => if body.len() > 0 && forall|i: int| 0 <= i < body.len() ==> is_graphic(#[trigger] body[i]) {
            Ok(())
        } else {
            Err(ProbeError::InvalidResponse)
        },
    }
}

/// Whether the response of the token endpoint holds a token.
pub fn check_token(status: u16, body: &[u8]) -> (res: Result<(), ProbeError>)
    ensures
        res == token_in(status, body@),
{
    if let Err(e) = check_status(status) {
        return Err(e);
    }
    if body.len() == 0 {
        return Err(ProbeError::InvalidResponse);
    }
    let mut i: usize = 0;
    while i < body.len()
        invariant
            status_result(status) is Ok,
            i <= body@.len(),
            forall|j: int| 0 <= j < i ==> is_graphic(#[trigger] body@[j]),
        decreases body@.len() - i,
    {
        let b: u8 = body[i];
        if !(0x21 <= b && b <= 0x7e) {
            assert(!is_graphic(body@[i as int]));
            return Err(ProbeError::InvalidResponse);
        }
        i = i + 1;
    }
    Ok(())
}

/// An identity text: letters, digits and dashes.
pub open spec fn is_identity(s: Seq<char>) -> bool {
    s.len() > 0 && forall|i: int| 0 <= i < s.len() ==> is_ascii_alnum(#[trigger] s[i]) || s[i] == '-'
}

/// What a metadata endpoint's text response says. Identity fields become parts
/// of a URL, so anything else is refused.
pub open spec fn text_in(status: u16, body: Seq<u8>) -> Result<Seq<char>, ProbeError> {
    match status_result(status) {
        Err(e) => Err(e),
        Ok(_) => if valid_utf8(body) && is_identity(trimmed(decode_utf8(body))) {
            Ok(trimmed(decode_utf8(body)))
        } else {
            Err(ProbeError::InvalidResponse)
        },
    }
}

/// The view of a text result.
pub open spec fn text_result(r: Result<String, ProbeError>) -> Result<Seq<char>, ProbeError> {
    match r {
        Ok(s) => Ok(s@),
        Err(e) => Err(e),
    }
}

/// What a metadata endpoint's text response says.
pub fn read_text(status: u16, body: &[u8]) -> (res: Result<String, ProbeError>)
    ensures
        text_result(res) == text_in(status, body@),
{
    if let Err(e) = check_status(status) {
        return Err(e);
    }
    let text = match utf8_text(body) {
        Some(s) => trim(s.as_str()),
        None => {
            return Err(ProbeError::InvalidResponse);
        },
    };
    let chars = chars_of(text.as_str());
    if chars.len() == 0 {
        return Err(ProbeError::InvalidResponse);
    }
    let mut i: usize = 0;
    while i < chars.len()
        invariant
            status_result(status) is Ok,
            text@ == trimmed(decode_utf8(body@)),
            i <= chars@.len(),
            chars@ == text@,
            forall|j: int| 0 <= j < i ==> is_ascii_alnum(#[trigger] text@[j]) || text@[j] == '-',
        decreases chars@.len() - i,
    {
        if !(ascii_alnum(chars[i]) || chars[i] == '-') {
            assert(!(is_ascii_alnum(text@[i as int]) || text@[i as int] == '-'));
            return Err(ProbeError::InvalidResponse);
        }
        i = i + 1;
    }
    Ok(text)
}

/// An instance identifier: `i-` and something behind it.
pub open spec fn is_instance_id(s: Seq<char>) -> bool {
    s.len() > 2 && s[0] == 'i' && s[1] == '-'
}

/// What the instance endpoint's response says.
pub open spec fn instance_in(status: u16, body: Seq<u8>) -> Result<Seq<char>, ProbeError> {
    match text_in(status, body) {
        Ok(s) => if is_instance_id(s) {
            Ok(s)
        } else {
            Err(ProbeError::InvalidResponse)
        },
        Err(e) => Err(e),
    }
}

/// What the instance endpoint's response says.
pub fn read_instance_id(status: u16, body: &[u8]) -> (res: Result<String, ProbeError>)
    ensures
        text_result(res) == instance_in(status, body@),
{
    match read_text(status, body) {
        Ok(s) => {
            let chars = chars_of(s.as_str());
            if chars.len() > 2 && chars[0] == 'i' && chars[1] == '-' {
                Ok(s)
            } else {
                Err(ProbeError::InvalidResponse)
            }
        },
        Err(e) => Err(e),
    }
}

/// The region of a zone: the zone without a suffix of a dash and one character.
pub open spec fn region_of(zone: Seq<char>) -> Option<Seq<char>> {
    if zone.len() == 0 {
        None
    } else if zone.len() > 2 && zone[zone.len() - 2] == '-' {
        Some(zone.take(zone.len() - 2))
    } else {
        Some(zone)
    }
}

/// The region of a zone.
pub fn region_id_from_zone_id(zone: &str) -> (res: Option<String>)
    ensures
        opt_view(res) == region_of(zone@),
{
    let chars = chars_of(zone);
    let n: usize = chars.len();
    if n == 0 {
        None
    } else if n > 2 && chars[n - 2] == '-' {
        let region = text_of(&chars, 0, n - 2);
        assert(zone@.subrange(0, n - 2) =~= zone@.take(n - 2));
        Some(region)
    } else {
        Some(zone.to_owned())
    }
}

/// The page on which a role is attached to an instance.
pub open spec fn console_url(instance_id: Seq<char>, region: Seq<char>) -> Seq<char> {
    "https://alinux.console.aliyun.com/"@ + region + "/guide/cosh?instance="@ + instance_id
}

/// The page on which a role is attached to an instance.
pub fn generate_console_url(instance_id: &str, region: &str) -> (res: String)
    ensures
        res@ == console_url(instance_id@, region@),
{
    "https://alinux.console.aliyun.com/".to_owned().concat(region).concat("/guide/cosh?instance=").concat(
        instance_id,
    )
}

/// An instance and where to attach its role.
#[derive(Clone, Debug)]
pub struct EcsAuthChallenge {
    pub instance_id: String,
    pub console_url: String,
}

/// How identifying the instance goes on once its session was attempted.
#[derive(Clone, Copy, Debug, PartialEq, Eq, Structural)]
pub enum SessionOutcome {
    /// This is an ECS instance: ask for its identity.
    Continue,
    /// This is no ECS instance: credentials are entered by hand.
    Manual,
    /// The session failed.
    Failed(ProbeError),
}

/// How identifying the instance goes on.
pub open spec fn session_meaning(session: Result<(), ProbeError>) -> SessionOutcome {
    match session {
        Ok(_) => SessionOutcome::Continue,
        Err(ProbeError::Unreachable) => SessionOutcome::Manual,
        Err(ProbeError::Timeout) => SessionOutcome::Manual,
        Err(e) => SessionOutcome::Failed(e),
    }
}

/// Only an unreachable or silent metadata service means that this is no ECS
/// instance.
pub fn session_outcome(session: Result<(), ProbeError>) -> (res: SessionOutcome)
    ensures
        res == session_meaning(session),
        res == (match session {
            Ok(_) => SessionOutcome::Continue,
            Err(ProbeError::Unreachable) => SessionOutcome::Manual,
            Err(ProbeError::Timeout) => SessionOutcome::Manual,
            Err(e) => SessionOutcome::Failed(e),
        }),
{
    match session {
        Ok(_) => SessionOutcome::Continue,
        Err(ProbeError::Unreachable) => SessionOutcome::Manual,
        Err(ProbeError::Timeout) => SessionOutcome::Manual,
        Err(e) => SessionOutcome::Failed(e),
    }
}

/// The challenge that an established session leads to. A valid token proves an
/// ECS instance, so a later failure never selects manual credentials.
pub open spec fn challenge_in(
    instance: Result<Seq<char>, ProbeError>,
    zone: Result<Seq<char>, ProbeError>,
) -> Result<(Seq<char>, Seq<char>), ProbeError> {
    match (instance, zone) {
        (Err(e), _) => Err(e),
        (Ok(_), Err(e)) => Err(e),
        (Ok(id), Ok(z)) => match region_of(z) {
            Some(region) => Ok((id, console_url(id, region))),
            None => Err(ProbeError::InvalidResponse),
        },
    }
}

/// The challenge that an established session leads to.
pub fn challenge_from(instance: Result<String, ProbeError>, zone: Result<String, ProbeError>) -> (res: Result<
    EcsAuthChallenge,
    ProbeError,
>)
    ensures
        match res {
            Ok(c) => challenge_in(text_result(instance), text_result(zone)) == Ok::<
                (Seq<char>, Seq<char>),
                ProbeError,
            >((c.instance_id@, c.console_url@)),
            Err(e) => challenge_in(text_result(instance), text_result(zone)) == Err::<
                (Seq<char>, Seq<char>),
                ProbeError,
            >(e),
        },
{
    let id = match instance {
        Ok(id) => id,
        Err(e) => {
            return Err(e);
        },
    };
    let zone_id = match zone {
        Ok(z) => z,
        Err(e) => {
            return Err(e);
        },
    };
    match region_id_from_zone_id(zone_id.as_str()) {
        Some(region) => {
            let url = generate_console_url(id.as_str(), region.as_str());
            Ok(EcsAuthChallenge { instance_id: id, console_url: url })
        },
        None => Err(ProbeError::InvalidResponse),
    }
}

/// Failed requests are told apart by their status alone: the body of an error
/// page, which may echo secrets, never matters.
pub proof fn error_pages_are_not_read(status: u16, a: Seq<u8>, b: Seq<u8>, now: UtcTime)
    requires
        !(200 <= status <= 299),
    ensures
        role_in(status, a, now) == role_in(status, b, now),
        token_in(status, a) == token_in(status, b),
        text_in(status, a) == text_in(status, b),
        instance_in(status, a) == instance_in(status, b),
{
}

/// Credentials are ready strictly before their expiration, and only then.
pub proof fn credentials_expire(body: Tree, earlier: UtcTime, later: UtcTime)
    requires
        credentials_in(body, earlier) == Ok::<RoleView, ProbeError>(
            RoleView::NotReady(NotReadyReason::CredentialsExpired),
        ),
        earlier.at_or_before(later),
    ensures
        credentials_in(body, later) == Ok::<RoleView, ProbeError>(
            RoleView::NotReady(NotReadyReason::CredentialsExpired),
        ),
{
}

/// What is no credentials document is never ready.
pub proof fn only_complete_documents_are_ready(status: u16, body: Seq<u8>, now: UtcTime)
    requires
        role_in(status, body, now) matches Ok(RoleView::Ready(_)),
    ensures
        200 <= status <= 299,
        body.len() <= MAX_RESPONSE_BYTES,
        json_read_bytes(body) matches Some(tree) && tree.text_at("Code"@) == Some("Success"@)
            && filled_field(tree, "AccessKeyId"@) is Some && filled_field(tree, "AccessKeySecret"@) is Some
            && filled_field(tree, "SecurityToken"@) is Some,
{
}

/// Failures have codes of their own.
pub proof fn failure_codes_differ(a: ProbeError, b: ProbeError)
    requires
        a.code_text() == b.code_text(),
    ensures
        a == b,
{
    reveal_strlit("metadata_access_denied");
    reveal_strlit("invalid_metadata_response");
    reveal_strlit("metadata_unreachable");
    reveal_strlit("metadata_timeout");
    reveal_strlit("metadata_http_error");
    let x = a.code_text();
    let y = b.code_text();
    assert(x.len() == y.len());
    assert(x[9] == y[9]);
}

} // verus!
