//! English texts of the authentication panel.

use vstd::prelude::*;

use crate::i18n::slots::{lemma_rest, named_from, slots};
use crate::i18n::MessageId;

verus! {

/// The text of each message of this catalog.
pub open spec fn text(id: MessageId) -> Option<Seq<char>> {
    match id {
        MessageId::AuthSelectProviderQuestion => Some("\u{1f511} Authentication Required \u{2014} Select your AI provider:"@),
        MessageId::AuthEcsChecking => Some("Checking ECS RAM Role..."@),
        MessageId::AuthEcsWaiting => Some("Waiting for ECS RAM Role authorization. Configuration will continue automatically."@),
        MessageId::AuthEcsRefreshing => Some("Waiting for ECS credentials to refresh. Configuration will continue automatically."@),
        MessageId::AuthEcsRetry => Some("Check again"@),
        MessageId::AuthEcsCancelling => Some("Stopping ECS check and releasing resources..."@),
        MessageId::AuthEcsCleanupFailed => Some("ECS cleanup has not completed. New checks are disabled until resources are released."@),
        MessageId::AuthEcsTimedOut => Some("ECS credential wait timed out. Automatic checks have stopped."@),
        MessageId::AuthEcsFailed => Some("ECS authentication check failed."@),
        MessageId::AuthEcsSaving => Some("Validating and saving ECS configuration. This submission cannot be cancelled."@),
        MessageId::AuthEcsUnknown => Some("Save result is unknown. Check provider management before submitting again."@),
        MessageId::AuthEcsReturn => Some("Return to provider management"@),
        MessageId::AuthEcsCancelHint => Some("Press Esc or Ctrl+C to cancel."@),
        _ => None,
    }
}

/// The text of `id`, if this catalog holds it.
pub fn message(id: MessageId) -> (res: Option<&'static str>)
    ensures
        match res {
            Some(s) => text(id) == Some(s@),
            None => text(id) is None,
        },
{
    match id {
        MessageId::AuthSelectProviderQuestion => Some("\u{1f511} Authentication Required \u{2014} Select your AI provider:"),
        MessageId::AuthEcsChecking => Some("Checking ECS RAM Role..."),
        MessageId::AuthEcsWaiting => Some("Waiting for ECS RAM Role authorization. Configuration will continue automatically."),
        MessageId::AuthEcsRefreshing => Some("Waiting for ECS credentials to refresh. Configuration will continue automatically."),
        MessageId::AuthEcsRetry => Some("Check again"),
        MessageId::AuthEcsCancelling => Some("Stopping ECS check and releasing resources..."),
        MessageId::AuthEcsCleanupFailed => Some("ECS cleanup has not completed. New checks are disabled until resources are released."),
        MessageId::AuthEcsTimedOut => Some("ECS credential wait timed out. Automatic checks have stopped."),
        MessageId::AuthEcsFailed => Some("ECS authentication check failed."),
        MessageId::AuthEcsSaving => Some("Validating and saving ECS configuration. This submission cannot be cancelled."),
        MessageId::AuthEcsUnknown => Some("Save result is unknown. Check provider management before submitting again."),
        MessageId::AuthEcsReturn => Some("Return to provider management"),
        MessageId::AuthEcsCancelHint => Some("Press Esc or Ctrl+C to cancel."),
        _ => None,
    }
}

/// No text of this catalog is empty, and between its braces stand the slots of its
/// message.
pub(crate) proof fn lemma_slots(id: MessageId)
    ensures
        text(id) matches Some(t) ==> t.len() > 0 && named_from(t, 0, None) == slots(id),
{
    if let Some(t) = text(id) {
        match id {
            MessageId::AuthSelectProviderQuestion => {
                reveal_strlit("\u{1f511} Authentication Required \u{2014} Select your AI provider:");
                lemma_rest(t, 0);
            },
            MessageId::AuthEcsChecking => {
                reveal_strlit("Checking ECS RAM Role...");
                lemma_rest(t, 0);
            },
            MessageId::AuthEcsWaiting => {
                reveal_strlit("Waiting for ECS RAM Role authorization. Configuration will continue automatically.");
                lemma_rest(t, 0);
            },
            MessageId::AuthEcsRefreshing => {
                reveal_strlit("Waiting for ECS credentials to refresh. Configuration will continue automatically.");
                lemma_rest(t, 0);
            },
            MessageId::AuthEcsRetry => {
                reveal_strlit("Check again");
                lemma_rest(t, 0);
            },
            MessageId::AuthEcsCancelling => {
                reveal_strlit("Stopping ECS check and releasing resources...");
                lemma_rest(t, 0);
            },
            MessageId::AuthEcsCleanupFailed => {
                reveal_strlit("ECS cleanup has not completed. New checks are disabled until resources are released.");
                lemma_rest(t, 0);
            },
            MessageId::AuthEcsTimedOut => {
                reveal_strlit("ECS credential wait timed out. Automatic checks have stopped.");
                lemma_rest(t, 0);
            },
            MessageId::AuthEcsFailed => {
                reveal_strlit("ECS authentication check failed.");
                lemma_rest(t, 0);
            },
            MessageId::AuthEcsSaving => {
                reveal_strlit("Validating and saving ECS configuration. This submission cannot be cancelled.");
                lemma_rest(t, 0);
            },
            MessageId::AuthEcsUnknown => {
                reveal_strlit("Save result is unknown. Check provider management before submitting again.");
                lemma_rest(t, 0);
            },
            MessageId::AuthEcsReturn => {
                reveal_strlit("Return to provider management");
                lemma_rest(t, 0);
            },
            MessageId::AuthEcsCancelHint => {
                reveal_strlit("Press Esc or Ctrl+C to cancel.");
                lemma_rest(t, 0);
            },
            _ => {},
        }
        assert(named_from(t, 0, None) =~= slots(id));
    }
}

} // verus!
