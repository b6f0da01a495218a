use std::collections::HashMap;
use mod_oud::moderation::audit::{
    audit_sync_plan, map_audit_action, AuditSync, map_audit_action_at, AuditChange, AuditEntry, AUDIT_MEMBER_UPDATE,
};
use mod_oud::moderation::category::{
    category_purged_message, child_channel_ids, count_deleted, parse_guild_id, DeleteCategoryPayload,
    DeleteCategoryResponse,
};
use mod_oud::moderation::durations::{ban_duration_label, mute_duration_label, parse_duration};
use mod_oud::moderation::hierarchy::{
    check_hierarchy, find_role_position, get_highest_role_pos, pre_flight_check, validate_hierarchy,
    HierarchyError, HierarchyFacts, PreFlight,
};
use mod_oud::moderation::interval::{to_pg_interval, PgInterval, MICROS_PER_DAY};
use mod_oud::moderation::lockdown::{
    calculate_lockdown_overwrite, global_lock_log_reason, global_sweep_lock_key, global_unlock_log_reason,
    in_sweep_scope, lock_reason, lockdown_deny_bits, lockdown_redis_key, pre_lockdown_state, restore_plan,
    sweep_targets, tally_sweep, GlobalLockdownReport, LockChannelKind, LockdownChannel, Overwrite,
    StoredOverwriteState, ADD_REACTIONS, CONNECT, SEND_MESSAGES, SEND_MESSAGES_IN_THREADS, SPEAK,
};
use mod_oud::moderation::messages::{
    dm_color, dm_title, global_lock_reply, global_unlock_reply, lock_reply, unlock_reply, DmAction, GLOBAL_LOCK_BUSY,
    GLOBAL_UNLOCK_BUSY, SOFTBAN_NOTICE,
};
use mod_oud::moderation::placeholders::{invite_link, mentions_invite, ModerationCtx, ModeratorRef};
use mod_oud::moderation::types::{ActionType, TempBanRecord, MODERATION_FOOTER};

/// Builds an audit log entry with Discord's action code and optional changes.
fn make_entry(action_num: u8, changes: Option<Vec<AuditChange>>) -> AuditEntry {
    AuditEntry { action_code: action_num, changes }
}

fn unix(rfc3339: &str) -> i64 {
    chrono::DateTime::parse_from_rfc3339(rfc3339).expect("valid timestamp").timestamp()
}

fn timeout_change(new_value: Option<i64>) -> Vec<AuditChange> {
    vec![AuditChange::CommunicationDisabledUntil { new: new_value }]
}

#[test]
fn ignores_non_moderation_actions() {
    // 10 = channel create, 30 = role create, 21 = prune, 25 = role update.
    for action_num in [10_u8, 30, 21, 25] {
        let entry = make_entry(action_num, None);
        assert!(map_audit_action(&entry).is_none(), "action {action_num} should be ignored");
    }
}

#[test]
fn maps_kick_ban_unban() {
    for (action_num, expected) in [(20_u8, ActionType::Kick), (22, ActionType::Ban), (23, ActionType::Unban)] {
        let entry = make_entry(action_num, None);
        let (action, duration) = map_audit_action(&entry).expect("should map");
        assert_eq!(action, expected);
        assert!(duration.is_none());
    }
}

#[test]
fn maps_future_timeout_to_mute() {
    let entry = make_entry(24, Some(timeout_change(Some(unix("2030-01-01T00:00:00.000Z")))));
    let (action, duration) = map_audit_action(&entry).expect("should map");
    assert_eq!(action, ActionType::Mute);
    let duration = duration.expect("mute should carry a duration");
    assert!(duration > 0);
}

#[test]
fn maps_cleared_timeout_to_unmute() {
    let entry = make_entry(24, Some(timeout_change(None)));
    let (action, duration) = map_audit_action(&entry).expect("should map");
    assert_eq!(action, ActionType::Unmute);
    assert!(duration.is_none());
}

#[test]
fn maps_expired_timeout_to_unmute() {
    let entry = make_entry(24, Some(timeout_change(Some(unix("2000-01-01T00:00:00.000Z")))));
    let (action, _) = map_audit_action(&entry).expect("should map");
    assert_eq!(action, ActionType::Unmute);
}

#[test]
fn ignores_member_update_without_timeout_change() {
    let entry = make_entry(24, Some(vec![]));
    assert!(map_audit_action(&entry).is_none());
}

#[test]
fn timeout_duration_is_time_left_at_a_fixed_clock() {
    let entry = make_entry(
        AUDIT_MEMBER_UPDATE,
        Some(vec![AuditChange::Other, AuditChange::CommunicationDisabledUntil { new: Some(1_000_600) }]),
    );
    assert_eq!(map_audit_action_at(&entry, 1_000_000), Some((ActionType::Mute, Some(600))));
    assert_eq!(map_audit_action_at(&entry, 1_000_600), Some((ActionType::Unmute, None)));
    let no_list = make_entry(AUDIT_MEMBER_UPDATE, None);
    assert_eq!(map_audit_action_at(&no_list, 0), None);
}

#[test]
fn hierarchy_rules() {
    // The owner only needs the bot to outrank the target.
    assert_eq!(validate_hierarchy(1, 1, 0, 5, 6), Ok(()));
    assert_eq!(validate_hierarchy(1, 1, 0, 5, 5), Err(HierarchyError::BotTooLow));
    // Anyone else must outrank the target, and so must the bot.
    assert_eq!(validate_hierarchy(2, 1, 5, 5, 9), Err(HierarchyError::ExecutorTooLow));
    assert_eq!(validate_hierarchy(2, 1, 6, 5, 4), Err(HierarchyError::BotTooLow));
    assert_eq!(validate_hierarchy(2, 1, 6, 5, 9), Ok(()));
}

#[test]
fn highest_role_position_uses_known_roles_only() {
    let roles: HashMap<u64, u16> = HashMap::from([(10, 3), (11, 7), (12, 5)]);
    assert_eq!(find_role_position(&roles, 11), Some(7));
    assert_eq!(find_role_position(&roles, 99), None);
    assert_eq!(get_highest_role_pos(&vec![10, 12, 99], &roles), 5);
    assert_eq!(get_highest_role_pos(&vec![99], &roles), 0);
    assert_eq!(get_highest_role_pos(&vec![], &roles), 0);
}

fn facts(author: u64, target_roles: Option<Vec<u64>>, executor: Option<Vec<u64>>, bot: Option<Vec<u64>>) -> HierarchyFacts {
    HierarchyFacts {
        in_guild: true,
        author_id: author,
        owner_id: 1,
        target_id: 3,
        target_roles,
        executor_roles: executor,
        bot_roles: bot,
        roles: HashMap::from([(10, 3), (11, 7), (12, 5)]),
    }
}

#[test]
fn hierarchy_check_covers_every_refusal() {
    let mut outside = facts(2, None, None, None);
    outside.in_guild = false;
    assert_eq!(check_hierarchy(&outside), Err(HierarchyError::OutsideGuild));
    let mut owner = facts(2, Some(vec![]), Some(vec![]), Some(vec![]));
    owner.target_id = 1;
    assert_eq!(check_hierarchy(&owner), Err(HierarchyError::TargetIsOwner));
    assert_eq!(check_hierarchy(&facts(2, None, None, None)), Ok(()));
    assert_eq!(check_hierarchy(&facts(2, Some(vec![10]), None, Some(vec![11]))), Err(HierarchyError::ExecutorUnavailable));
    assert_eq!(check_hierarchy(&facts(2, Some(vec![10]), Some(vec![11]), None)), Err(HierarchyError::BotUnavailable));
    assert_eq!(check_hierarchy(&facts(2, Some(vec![11]), Some(vec![12]), Some(vec![11]))), Err(HierarchyError::ExecutorTooLow));
    assert_eq!(check_hierarchy(&facts(2, Some(vec![12]), Some(vec![11]), Some(vec![10]))), Err(HierarchyError::BotTooLow));
    assert_eq!(check_hierarchy(&facts(2, Some(vec![10]), Some(vec![11]), Some(vec![12]))), Ok(()));
    assert_eq!(
        HierarchyError::TargetIsOwner.message(),
        "Cannot perform moderation actions on the server owner."
    );
}

#[test]
fn pre_flight_replies() {
    let selfie = facts(3, Some(vec![]), Some(vec![]), Some(vec![]));
    assert_eq!(pre_flight_check("ban", &selfie), PreFlight::SelfModeration { reply: "You cannot ban yourself!".to_string() });
    let low = facts(2, Some(vec![11]), Some(vec![12]), Some(vec![11]));
    assert_eq!(
        pre_flight_check("kick", &low),
        PreFlight::Denied {
            reply: "❌ Action Denied: You cannot moderate this user because their highest role is equal to or higher than yours."
                .to_string()
        }
    );
    assert_eq!(pre_flight_check("kick", &facts(2, None, None, None)), PreFlight::Proceed);
}

fn channel(kind: LockChannelKind, text_based: bool, ow: Option<Overwrite>) -> LockdownChannel {
    LockdownChannel { id: 7, kind, text_based, everyone_overwrite: ow }
}

#[test]
fn lockdown_overwrite_merges_denials() {
    let chat = SEND_MESSAGES | SEND_MESSAGES_IN_THREADS | ADD_REACTIONS;
    assert_eq!(lockdown_deny_bits(LockChannelKind::Other), chat);
    assert_eq!(lockdown_deny_bits(LockChannelKind::Voice), chat | CONNECT | SPEAK);
    let existing = Overwrite { allow: 0x400, deny: 0x1 };
    let locked = calculate_lockdown_overwrite(&channel(LockChannelKind::Other, true, Some(existing)));
    assert_eq!(locked, Overwrite { allow: 0x400, deny: 0x1 | chat });
    let fresh = calculate_lockdown_overwrite(&channel(LockChannelKind::Stage, false, None));
    assert_eq!(fresh, Overwrite { allow: 0, deny: chat | CONNECT | SPEAK });
}

#[test]
fn lockdown_overwrite_revokes_allowed_chat() {
    let chat = SEND_MESSAGES | SEND_MESSAGES_IN_THREADS | ADD_REACTIONS;
    let existing = Overwrite { allow: SEND_MESSAGES | 0x400, deny: 0x1 };
    let locked = calculate_lockdown_overwrite(&channel(LockChannelKind::Other, true, Some(existing)));
    assert_eq!(locked, Overwrite { allow: 0x400, deny: 0x1 | chat });
    let voice = Overwrite { allow: CONNECT | SPEAK | 0x400, deny: 0 };
    let locked = calculate_lockdown_overwrite(&channel(LockChannelKind::Voice, false, Some(voice)));
    assert_eq!(locked, Overwrite { allow: 0x400, deny: chat | CONNECT | SPEAK });
}

#[test]
fn unlock_restores_the_pre_lockdown_overwrite() {
    let existing = Overwrite { allow: 0x400, deny: 0x1 };
    let ch = channel(LockChannelKind::Other, true, Some(existing));
    let snapshot = pre_lockdown_state(&ch);
    assert_eq!(snapshot, StoredOverwriteState::Existing { allow: 0x400, deny: 0x1 });
    let plan = restore_plan(Some(snapshot));
    assert_eq!(plan.overwrite, Some(existing));
    assert!(plan.clear_snapshot);
    let none = pre_lockdown_state(&channel(LockChannelKind::Other, true, None));
    assert_eq!(none, StoredOverwriteState::NoOverwrite);
    assert_eq!(restore_plan(Some(none)).overwrite, None);
    let missing = restore_plan(None);
    assert_eq!(missing.overwrite, None);
    assert!(!missing.clear_snapshot);
}

#[test]
fn sweep_reports_every_channel() {
    let channels = vec![
        LockdownChannel { id: 1, kind: LockChannelKind::Other, text_based: true, everyone_overwrite: None },
        LockdownChannel { id: 2, kind: LockChannelKind::Other, text_based: false, everyone_overwrite: None },
        LockdownChannel { id: 3, kind: LockChannelKind::Voice, text_based: false, everyone_overwrite: None },
    ];
    assert!(in_sweep_scope(&channels[2]));
    assert!(!in_sweep_scope(&channels[1]));
    let targets: Vec<u64> = sweep_targets(&channels).iter().map(|c| c.id).collect();
    assert_eq!(targets, vec![1, 3]);
    let report = tally_sweep(&vec![(1, true), (3, false), (4, true)]);
    assert_eq!(report.succeeded, 2);
    assert_eq!(report.failed_channel_ids, vec![3]);
    let empty = GlobalLockdownReport::default();
    assert_eq!(empty.succeeded, 0);
    assert!(empty.failed_channel_ids.is_empty());
    assert_eq!(global_lock_log_reason("raid", &report), "raid (Channels affected: 2, failed: 1)");
    assert_eq!(global_unlock_log_reason(&report), "Channels affected: 2, failed: 1");
}

#[test]
fn lockdown_keys_and_reasons() {
    assert_eq!(lockdown_redis_key(12, 34), "lockdown:overwrite:12:34");
    assert_eq!(global_sweep_lock_key(12), "lockdown:sweep-lock:12");
    assert_eq!(lock_reason(None), "No reason provided");
    assert_eq!(lock_reason(Some("spam")), "spam");
}

#[test]
fn interval_splits_days_and_microseconds() {
    assert_eq!(to_pg_interval(90_061, 500_000), PgInterval { months: 0, days: 1, microseconds: 3_661_000_500 });
    assert_eq!(to_pg_interval(59, 999), PgInterval { months: 0, days: 0, microseconds: 59_000_000 });
    let i = to_pg_interval(3 * 86_400 + 5, 0);
    assert_eq!(i.days as i64 * MICROS_PER_DAY + i.microseconds, (3 * 86_400 + 5) * 1_000_000);
}

#[test]
fn interval_of_a_negative_duration_truncates_toward_zero() {
    // -90061.9995 seconds.
    assert_eq!(
        to_pg_interval(-90_062, 500_000),
        PgInterval { months: 0, days: -1, microseconds: -3_661_999_500 }
    );
    assert_eq!(to_pg_interval(-2 * 86_400 - 5, 0), PgInterval { months: 0, days: -2, microseconds: -5_000_000 });
    let i = to_pg_interval(-1, 999_999_999);
    assert_eq!(i, PgInterval { months: 0, days: 0, microseconds: 0 });
}

#[test]
fn durations_parse_and_format() {
    assert_eq!(parse_duration("30m"), Ok((1800, 0)));
    assert_eq!(parse_duration("2h"), Ok((7200, 0)));
    assert_eq!(parse_duration("1d"), Ok((86400, 0)));
    assert_eq!(
        parse_duration("soon"),
        Err("Invalid duration format. Please use formats like '30m', '2h', or '1d'.")
    );
    assert_eq!(ban_duration_label(None), "Permanent");
    assert_eq!(ban_duration_label(Some((3600, 0))), "1h");
    assert_eq!(ban_duration_label(Some((0, 0))), "0s");
    assert_eq!(mute_duration_label(5400, 0), "1h 30min");
    assert_eq!(mute_duration_label(0, 0), "0s");
}

fn moderator() -> ModeratorRef {
    ModeratorRef { name: "mod".to_string(), id: 42 }
}

#[test]
fn placeholders_resolve() {
    let ctx = ModerationCtx::for_kick("spam".to_string(), moderator(), None);
    assert_eq!(ctx.resolve("reason").as_deref(), Some("spam"));
    assert_eq!(ctx.resolve("moderator.username").as_deref(), Some("mod"));
    assert_eq!(ctx.resolve("moderator.id").as_deref(), Some("42"));
    assert_eq!(ctx.resolve("moderator.avatar"), None);
    assert_eq!(
        ctx.resolve("invite.url").as_deref(),
        Some("<there was no invite URL. Please ask the server owner for one.>")
    );
    assert_eq!(ctx.resolve("duration").as_deref(), Some(""));
    assert_eq!(ctx.resolve("unknown"), None);
    let system = ModerationCtx::for_system_ban(Some((120, 0)));
    assert_eq!(system.resolve("moderator.id"), None);
    assert_eq!(system.resolve("reason").as_deref(), Some(""));
    assert_eq!(system.resolve("duration").as_deref(), Some("2min"));
    let mute = ModerationCtx::for_mute("noise".to_string(), moderator(), (60, 0));
    assert_eq!(mute.resolve("duration").as_deref(), Some("1min"));
    let basic = ModerationCtx::for_moderator(moderator());
    assert_eq!(basic.resolve("reason").as_deref(), Some(""));
    let reasoned = ModerationCtx::for_reason("r".to_string(), moderator());
    assert_eq!(reasoned.resolve("reason").as_deref(), Some("r"));
}

#[test]
fn kick_invites() {
    assert!(mentions_invite("join again: {invite.url}", None, None));
    assert!(mentions_invite("bye", Some("see invite.url"), None));
    assert!(mentions_invite("bye", None, Some("invite.url")));
    assert!(!mentions_invite("bye", Some("no link"), Some("title")));
    assert_eq!(invite_link("abc"), "https://discord.gg/abc");
}

#[test]
fn category_deletion() {
    let channels = vec![(1, Some(9)), (2, None), (3, Some(9)), (4, Some(8))];
    assert_eq!(child_channel_ids(&channels, 9), vec![1, 3]);
    assert_eq!(count_deleted(&vec![true, false, true]), 2);
    assert_eq!(parse_guild_id("123"), Ok(123));
    assert_eq!(parse_guild_id("+7"), Ok(7));
    assert_eq!(parse_guild_id("abc"), Err("Invalid Guild ID format"));
    assert_eq!(
        category_purged_message("Old", 3),
        "**Category Purged!**\nSuccessfully deleted **Old** along with all `3` nested channels."
    );
    let p = DeleteCategoryPayload { category_id: 5 };
    let r = DeleteCategoryResponse { category_id: p.category_id, deleted_children_count: 2 };
    assert_eq!(r.deleted_children_count, 2);
}

#[test]
fn action_names_and_records() {
    assert_eq!(ActionType::GlobalLock.db_name(), "GLOBAL_LOCK");
    assert_eq!(ActionType::DeleteWarning.db_name(), "DELETE_WARNING");
    let rec = TempBanRecord { id: 1, guild_id: 2, user_id: 3 };
    assert_eq!(rec.user_id, 3);
    assert!(MODERATION_FOOTER.starts_with("If you believe"));
}

#[test]
fn audit_entries_to_sync() {
    assert_eq!(
        audit_sync_plan(Some((ActionType::Mute, Some(60))), 5, 9, Some(7)),
        Some(AuditSync { action: ActionType::Mute, duration_secs: Some(60), target_id: 7, moderator_id: 5 })
    );
    // The bot's own actions were logged when issued.
    assert_eq!(audit_sync_plan(Some((ActionType::Kick, None)), 9, 9, Some(7)), None);
    assert_eq!(audit_sync_plan(Some((ActionType::Kick, None)), 5, 9, None), None);
    assert_eq!(audit_sync_plan(None, 5, 9, Some(7)), None);
}

#[test]
fn lockdown_replies_and_member_messages() {
    assert_eq!(lock_reply(5, "raid"), "🔒 <#5> has been locked down. \n**Reason:** raid");
    assert_eq!(unlock_reply(5), "🔓 <#5> has been unlocked.");
    assert_eq!(global_lock_reply(3, "No reason provided"), "🛑 **Global lockdown complete.** Locked 3 text channels. \n**Reason:** No reason provided");
    assert_eq!(global_unlock_reply(2), "🔓 **Global unlock complete.** Unlocked 2 text channels.");
    assert!(GLOBAL_LOCK_BUSY.starts_with("Global lockdown is already in progress"));
    assert!(GLOBAL_UNLOCK_BUSY.starts_with("Global unlock is already in progress"));
    assert_eq!(dm_title(DmAction::Kick, "Guild"), "You have been kicked from Guild");
    assert_eq!(dm_title(DmAction::Unmute, "Guild"), "You have been unmuted from Guild!");
    assert_eq!(dm_title(DmAction::Softban, "G"), "You have been soft-banned from G");
    assert_eq!(dm_color(DmAction::Ban), 0xFF4747);
    assert_eq!(dm_color(DmAction::Kick), 0xff8a42);
    assert!(SOFTBAN_NOTICE.contains("immediately unbanned"));
}
