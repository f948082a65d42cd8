//! What holds of every answer of the metadata service.

use vstd::prelude::*;
use vstd::utf8::{decode_utf8, valid_utf8};

use crate::clock::{rfc3339_time, UtcTime};
use crate::ecs_metadata::{
    challenge_in, credentials_in, filled_field, instance_in, is_graphic, region_of, role_in,
    session_meaning, status_result, text_in, token_in, transport_meaning, CredentialStatus,
    NotReadyReason, ProbeError, RoleView, SessionOutcome, MAX_RESPONSE_BYTES,
};
use crate::text::{is_ascii_alnum, trimmed};
use crate::tree::{json_read_bytes, Tree};

verus! {

/// Every success status is one, a refusal is told from any other failure, and
/// nothing else is.
pub proof fn statuses_are_told_apart(status: u16)
    ensures
        status_result(status) is Ok <==> 200 <= status <= 299,
        status_result(status) == Err::<(), ProbeError>(ProbeError::AccessDenied) <==> status == 401
            || status == 403,
        status_result(status) == Err::<(), ProbeError>(ProbeError::Http) <==> !(200 <= status <= 299)
            && status != 401 && status != 403,
{
}

/// A complete document gives its own credentials until it expires, and from then on
/// says so; an incomplete one gives nothing.
pub proof fn complete_documents_give_their_credentials(body: Tree, now: UtcTime)
    ensures
        ({
            let id = filled_field(body, "AccessKeyId"@);
            let secret = filled_field(body, "AccessKeySecret"@);
            let token = filled_field(body, "SecurityToken"@);
            let expiration = filled_field(body, "Expiration"@);
            let whole = body.text_at("Code"@) == Some("Success"@) && id is Some && secret is Some
                && token is Some && expiration is Some && rfc3339_time(expiration->0) is Some;
            let result = credentials_in(body, now);
            &&& result is Ok <==> whole
            &&& !whole ==> result == Err::<RoleView, ProbeError>(ProbeError::InvalidResponse)
            &&& whole ==> {
                let over = rfc3339_time(expiration->0)->0.at_or_before(now);
                &&& over ==> result->Ok_0 == RoleView::NotReady(NotReadyReason::CredentialsExpired)
                &&& !over ==> {
                    &&& result->Ok_0 is Ready
                    &&& result->Ok_0->Ready_0.access_key_id == id->0
                    &&& result->Ok_0->Ready_0.access_key_secret == secret->0
                    &&& result->Ok_0->Ready_0.security_token == token
                }
            }
        }),
{
}

/// A field counts if it is a text with anything but white space in it.
pub proof fn blank_fields_do_not_count(body: Tree, name: Seq<char>)
    ensures
        filled_field(body, name) is Some <==> body.text_at(name) is Some && trimmed(
            body.text_at(name)->0,
        ).len() > 0,
        filled_field(body, name) is Some ==> filled_field(body, name) == body.text_at(name),
{
}

/// A missing role is told by its status, and a role that is there by its document
/// alone.
pub proof fn roles_are_told_by_their_document(status: u16, body: Seq<u8>, tree: Tree, now: UtcTime)
    ensures
        role_in(404, body, now) == Ok::<RoleView, ProbeError>(
            RoleView::NotReady(NotReadyReason::RoleMissing),
        ),
        status == 401 || status == 403 ==> role_in(status, body, now) == Err::<RoleView, ProbeError>(
            ProbeError::AccessDenied,
        ),
        200 <= status <= 299 && body.len() <= MAX_RESPONSE_BYTES && json_read_bytes(body) == Some(tree)
            ==> role_in(status, body, now) == credentials_in(tree, now),
        200 <= status <= 299 && (body.len() > MAX_RESPONSE_BYTES || json_read_bytes(body) is None)
            ==> role_in(status, body, now) == Err::<RoleView, ProbeError>(ProbeError::InvalidResponse),
        !(200 <= status <= 299) && status != 404 ==> role_in(status, body, now) is Err,
{
}

/// A classification says what the role is, and nothing of its credentials.
pub proof fn classifications_hide_credentials(role: RoleView)
    ensures
        role is Ready ==> role.status() == CredentialStatus::Ready,
        role matches RoleView::NotReady(reason) ==> role.status() == CredentialStatus::NotReady(reason),
{
}

/// A session token is accepted exactly if it came with success, is not empty and
/// holds nothing but visible ASCII characters.
pub proof fn tokens_are_visible(status: u16, body: Seq<u8>)
    ensures
        token_in(status, body) is Ok <==> 200 <= status <= 299 && body.len() > 0 && forall|i: int|
            0 <= i < body.len() ==> 0x21 <= #[trigger] body[i] <= 0x7e,
        200 <= status <= 299 && token_in(status, body) is Err ==> token_in(status, body) == Err::<
            (),
            ProbeError,
        >(ProbeError::InvalidResponse),
{
    if 200 <= status <= 299 && body.len() > 0 {
        if forall|i: int| 0 <= i < body.len() ==> 0x21 <= #[trigger] body[i] <= 0x7e {
            assert forall|i: int| 0 <= i < body.len() implies is_graphic(
                #[trigger] body[i],
            ) by {}
        }
        if token_in(status, body) is Ok {
            assert forall|i: int| 0 <= i < body.len() implies 0x21 <= #[trigger] body[i] <= 0x7e by {
                assert(is_graphic(body[i]));
            }
        }
    }
}

/// An identity is the text of the answer without white space around it, and holds
/// nothing that would mean something in an address.
pub proof fn identities_are_harmless(status: u16, body: Seq<u8>)
    ensures
        text_in(status, body) matches Ok(text) ==> {
            &&& 200 <= status <= 299
            &&& valid_utf8(body) && text == trimmed(decode_utf8(body))
            &&& text.len() > 0
            &&& forall|i: int|
                0 <= i < text.len() ==> is_ascii_alnum(#[trigger] text[i]) || text[i] == '-'
        },
        instance_in(status, body) matches Ok(id) ==> text_in(status, body) == Ok::<
            Seq<char>,
            ProbeError,
        >(id) && id.len() > 2 && id[0] == 'i' && id[1] == '-',
        text_in(status, body) matches Ok(id) ==> (id.len() > 2 && id[0] == 'i' && id[1] == '-'
            ==> instance_in(status, body) == Ok::<Seq<char>, ProbeError>(id)),
        text_in(status, body) matches Err(e) ==> instance_in(status, body) == Err::<
            Seq<char>,
            ProbeError,
        >(e),
{
}

/// The region of a zone is the zone without the letter of the zone.
pub proof fn zones_belong_to_a_region(region: Seq<char>, letter: char)
    requires
        region.len() > 0,
    ensures
        region_of(region + seq!['-', letter]) == Some(region),
        region.len() < 3 || region[region.len() - 2] != '-' ==> region_of(region) == Some(region),
        region_of(Seq::empty()) is None,
{
    let zone = region + seq!['-', letter];
    assert(zone[zone.len() - 2] == '-');
    assert(zone.take(zone.len() - 2) =~= region);
}

/// A challenge names the instance and the page of its region. The first failure
/// counts.
pub proof fn challenges_name_their_instance(
    instance: Seq<char>,
    region: Seq<char>,
    letter: char,
    error: ProbeError,
    zone: Result<Seq<char>, ProbeError>,
)
    requires
        region.len() > 0,
    ensures
        challenge_in(Ok(instance), Ok(region + seq!['-', letter])) == Ok::<
            (Seq<char>, Seq<char>),
            ProbeError,
        >(
            (
                instance,
                "https://alinux.console.aliyun.com/"@ + region + "/guide/cosh?instance="@ + instance,
            ),
        ),
        challenge_in(Err(error), zone) == Err::<(Seq<char>, Seq<char>), ProbeError>(error),
        challenge_in(Ok(instance), Err(error)) == Err::<(Seq<char>, Seq<char>), ProbeError>(error),
{
    zones_belong_to_a_region(region, letter);
}

/// Only a service that cannot be reached, or says nothing, means that this is no
/// instance.
pub proof fn only_silence_means_no_instance(error: ProbeError)
    ensures
        session_meaning(Ok(())) == SessionOutcome::Continue,
        session_meaning(Err(error)) == SessionOutcome::Manual <==> error == ProbeError::Unreachable
            || error == ProbeError::Timeout,
        error != ProbeError::Unreachable && error != ProbeError::Timeout ==> session_meaning(Err(error))
            == SessionOutcome::Failed(error),
{
}

/// A request that failed was late, could not connect, or was answered with what is
/// no answer.
pub proof fn failed_requests_are_told_apart(connecting: bool)
    ensures
        transport_meaning(true, connecting) == ProbeError::Timeout,
        transport_meaning(false, true) == ProbeError::Unreachable,
        transport_meaning(false, false) == ProbeError::InvalidResponse,
{
}

/// Each failure has its own code and message, and each reason its own word.
pub proof fn failures_have_their_words()
    ensures
        ProbeError::AccessDenied.code_text() == "metadata_access_denied"@,
        ProbeError::InvalidResponse.code_text() == "invalid_metadata_response"@,
        ProbeError::Unreachable.code_text() == "metadata_unreachable"@,
        ProbeError::Timeout.code_text() == "metadata_timeout"@,
        ProbeError::Http.code_text() == "metadata_http_error"@,
        ProbeError::AccessDenied.message_text() == "Unable to access ECS instance metadata."@,
        ProbeError::InvalidResponse.message_text()
            == "ECS instance metadata returned an invalid response."@,
        ProbeError::Unreachable.message_text() == "Unable to reach ECS instance metadata."@,
        ProbeError::Timeout.message_text() == "ECS instance metadata request timed out."@,
        ProbeError::Http.message_text() == "ECS instance metadata returned an HTTP error."@,
        NotReadyReason::RoleMissing.token() == "role_missing"@,
        NotReadyReason::CredentialsExpired.token() == "credentials_expired"@,
{
}

} // verus!
