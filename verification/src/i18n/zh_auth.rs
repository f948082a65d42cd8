//! Chinese texts of the authentication panel.

use vstd::prelude::*;

use crate::i18n::slots::{lemma_rest, named_from, slots};
use crate::i18n::MessageId;

verus! {

/// The text of each message of this catalog.
pub open spec fn text(id: MessageId) -> Option<Seq<char>> {
    match id {
        MessageId::AuthSelectProviderQuestion => Some("\u{1f511} 需要认证 \u{2014} 选择 AI 服务："@),
        MessageId::AuthEcsChecking => Some("正在检查 ECS RAM Role..."@),
        MessageId::AuthEcsWaiting => Some("正在等待 ECS RAM Role 授权，配置完成后将自动继续。"@),
        MessageId::AuthEcsRefreshing => Some("正在等待 ECS 凭据刷新，刷新后将自动继续配置。"@),
        MessageId::AuthEcsRetry => Some("重新检查"@),
        MessageId::AuthEcsCancelling => Some("正在停止 ECS 检查并回收资源..."@),
        MessageId::AuthEcsCleanupFailed => Some("ECS 资源尚未回收完成，暂不能发起新的检查。"@),
        MessageId::AuthEcsTimedOut => Some("等待 ECS 凭据已超时，自动检查已停止。"@),
        MessageId::AuthEcsFailed => Some("ECS 认证检查失败。"@),
        MessageId::AuthEcsSaving => Some("正在验证并保存 ECS 配置，此次提交不可取消。"@),
        MessageId::AuthEcsUnknown => Some("保存结果未确认，请先返回服务管理核实配置，不要重复提交。"@),
        MessageId::AuthEcsReturn => Some("返回服务管理"@),
        MessageId::AuthEcsCancelHint => Some("按 Esc 或 Ctrl+C 取消。"@),
        _ => None,
    }
}

/// The text of `id`, if this catalog holds it.
pub fn message(id: MessageId) -> (res: Option<&'static str>)
    ensures
        match res {
            Some(s) => text(id) == Some(s@),
            None => text(id) is None,
        },
{
    match id {
        MessageId::AuthSelectProviderQuestion => Some("\u{1f511} 需要认证 \u{2014} 选择 AI 服务："),
        MessageId::AuthEcsChecking => Some("正在检查 ECS RAM Role..."),
        MessageId::AuthEcsWaiting => Some("正在等待 ECS RAM Role 授权，配置完成后将自动继续。"),
        MessageId::AuthEcsRefreshing => Some("正在等待 ECS 凭据刷新，刷新后将自动继续配置。"),
        MessageId::AuthEcsRetry => Some("重新检查"),
        MessageId::AuthEcsCancelling => Some("正在停止 ECS 检查并回收资源..."),
        MessageId::AuthEcsCleanupFailed => Some("ECS 资源尚未回收完成，暂不能发起新的检查。"),
        MessageId::AuthEcsTimedOut => Some("等待 ECS 凭据已超时，自动检查已停止。"),
        MessageId::AuthEcsFailed => Some("ECS 认证检查失败。"),
        MessageId::AuthEcsSaving => Some("正在验证并保存 ECS 配置，此次提交不可取消。"),
        MessageId::AuthEcsUnknown => Some("保存结果未确认，请先返回服务管理核实配置，不要重复提交。"),
        MessageId::AuthEcsReturn => Some("返回服务管理"),
        MessageId::AuthEcsCancelHint => Some("按 Esc 或 Ctrl+C 取消。"),
        _ => None,
    }
}

/// No text of this catalog is empty, and between its braces stand the slots of its
/// message.
pub(crate) proof fn lemma_slots(id: MessageId)
    ensures
        text(id) matches Some(t) ==> t.len() > 0 && named_from(t, 0, None) == slots(id),
{
    if let Some(t) = text(id) {
        match id {
            MessageId::AuthSelectProviderQuestion => {
                reveal_strlit("\u{1f511} 需要认证 \u{2014} 选择 AI 服务：");
                lemma_rest(t, 0);
            },
            MessageId::AuthEcsChecking => {
                reveal_strlit("正在检查 ECS RAM Role...");
                lemma_rest(t, 0);
            },
            MessageId::AuthEcsWaiting => {
                reveal_strlit("正在等待 ECS RAM Role 授权，配置完成后将自动继续。");
                lemma_rest(t, 0);
            },
            MessageId::AuthEcsRefreshing => {
                reveal_strlit("正在等待 ECS 凭据刷新，刷新后将自动继续配置。");
                lemma_rest(t, 0);
            },
            MessageId::AuthEcsRetry => {
                reveal_strlit("重新检查");
                lemma_rest(t, 0);
            },
            MessageId::AuthEcsCancelling => {
                reveal_strlit("正在停止 ECS 检查并回收资源...");
                lemma_rest(t, 0);
            },
            MessageId::AuthEcsCleanupFailed => {
                reveal_strlit("ECS 资源尚未回收完成，暂不能发起新的检查。");
                lemma_rest(t, 0);
            },
            MessageId::AuthEcsTimedOut => {
                reveal_strlit("等待 ECS 凭据已超时，自动检查已停止。");
                lemma_rest(t, 0);
            },
            MessageId::AuthEcsFailed => {
                reveal_strlit("ECS 认证检查失败。");
                lemma_rest(t, 0);
            },
            MessageId::AuthEcsSaving => {
                reveal_strlit("正在验证并保存 ECS 配置，此次提交不可取消。");
                lemma_rest(t, 0);
            },
            MessageId::AuthEcsUnknown => {
                reveal_strlit("保存结果未确认，请先返回服务管理核实配置，不要重复提交。");
                lemma_rest(t, 0);
            },
            MessageId::AuthEcsReturn => {
                reveal_strlit("返回服务管理");
                lemma_rest(t, 0);
            },
            MessageId::AuthEcsCancelHint => {
                reveal_strlit("按 Esc 或 Ctrl+C 取消。");
                lemma_rest(t, 0);
            },
            _ => {},
        }
        assert(named_from(t, 0, None) =~= slots(id));
    }
}

} // verus!
