use std::collections::HashMap;
use mod_oud::live_feed::{kind_for_channel, redis_channels, routes_to_subscriber, sse_event_name, LogEvent, LogEventKind, SseQuery};
use mod_oud::message_logging::events::{
    candidate_deleters, delete_logging_applies, deleted_payload, details_from_cache, edit_from_cache,
    edit_logging_applies, join_image_urls, message_cache_key, modified_payload, should_cache_message, user_name_in,
    first_log_step, after_shared_lookup, log_if_included, LogStep,
    DeleteAuditEntry,
};
use mod_oud::message_logging::filters::{
    extract_edit_details, fetch_cached_message, is_image_attachment, needs_role_lookup, should_exclude_from_logging,
    AttachmentInfo, CachedMessage, EditAuthor, EditEvent, MessageSnapshot,
};
use mod_oud::message_logging::types::{DistributedCachedMessage, MessageEventsConfig, MessageLoggingConfig};

fn config() -> MessageLoggingConfig {
    MessageLoggingConfig {
        ignored_channels: Some(vec![10]),
        ignored_roles: Some(vec![20]),
        ignored_users: Some(vec![30]),
        events: Some(MessageEventsConfig { message_delete: Some(true), message_edit: None }),
    }
}

#[test]
fn event_toggles() {
    let c = config();
    assert!(c.delete_enabled());
    assert!(!c.edit_enabled());
    assert!(delete_logging_applies(Some(1), Some(&c)));
    assert!(!delete_logging_applies(None, Some(&c)));
    assert!(!edit_logging_applies(Some(1), Some(&c)));
    assert!(!MessageLoggingConfig::default().delete_enabled());
    assert!(MessageEventsConfig::default().message_edit.is_none());
    assert!(should_cache_message(false, Some(1), true));
    assert!(!should_cache_message(true, Some(1), true));
    assert!(!should_cache_message(false, None, true));
}

#[test]
fn exclusions() {
    let c = config();
    assert!(should_exclude_from_logging(&c, 1, 10, None));
    assert!(should_exclude_from_logging(&c, 30, 11, None));
    assert!(should_exclude_from_logging(&c, 1, 11, Some(&vec![5, 20])));
    assert!(!should_exclude_from_logging(&c, 1, 11, Some(&vec![5])));
    assert!(!should_exclude_from_logging(&c, 1, 11, None));
    assert!(needs_role_lookup(&c, 1, 11));
    assert!(!needs_role_lookup(&c, 30, 11));
}

#[test]
fn image_attachments() {
    assert!(is_image_attachment(Some("image/png"), "a.bin"));
    assert!(is_image_attachment(None, "photo.PNG"));
    assert!(is_image_attachment(None, "dir/anim.Gif"));
    assert!(!is_image_attachment(None, "notes.txt"));
    assert!(!is_image_attachment(None, ".png"));
    assert!(!is_image_attachment(Some("video/mp4"), "clip.mp4"));
}

fn attachment(url: &str, name: &str, ct: Option<&str>) -> AttachmentInfo {
    AttachmentInfo { url: url.to_string(), file_name: name.to_string(), content_type: ct.map(str::to_string) }
}

#[test]
fn cached_messages() {
    let msg = CachedMessage {
        id: 1,
        channel_id: 2,
        author_id: 3,
        author_name: "ann".to_string(),
        author_is_bot: false,
        content: "hi".to_string(),
        attachments: vec![attachment("u1", "a.jpg", None), attachment("u2", "b.txt", None), attachment("u3", "c", Some("image/webp"))],
    };
    let d = fetch_cached_message(Some(&msg)).unwrap();
    assert_eq!(d.image_urls, vec!["u1", "u3"]);
    assert_eq!(join_image_urls(&d.image_urls), "u1,u3");
    assert_eq!(join_image_urls(&vec![]), "");
    let mut bot = msg.clone();
    bot.author_is_bot = true;
    assert!(fetch_cached_message(Some(&bot)).is_none());
    assert!(fetch_cached_message(None).is_none());
}

fn snapshot(content: &str, bot: bool) -> MessageSnapshot {
    MessageSnapshot { author_id: 3, author_name: "ann".to_string(), author_is_bot: bot, content: content.to_string() }
}

#[test]
fn edit_details() {
    let event = EditEvent { msg_id: 1, chan_id: 2, author: None, content: Some("new".to_string()) };
    let d = extract_edit_details(Some(&snapshot("old", false)), None, &event).unwrap();
    assert_eq!((d.author_id, d.author_name.as_str()), (3, "ann"));
    assert_eq!(d.old_content.as_deref(), Some("old"));
    assert_eq!(d.new_content.as_deref(), Some("new"));
    // Unchanged text, bots and unknown authors are not logged.
    assert!(extract_edit_details(Some(&snapshot("new", false)), None, &event).is_none());
    assert!(extract_edit_details(Some(&snapshot("old", true)), None, &event).is_none());
    assert!(extract_edit_details(None, None, &event).is_none());
    let by_bot = EditEvent {
        author: Some(EditAuthor { id: 9, name: "bot".to_string(), is_bot: true }),
        ..event.clone()
    };
    assert!(extract_edit_details(None, None, &by_bot).is_none());
    let from_new = EditEvent {
        author: Some(EditAuthor { id: 9, name: "bob".to_string(), is_bot: false }),
        content: None,
        ..event
    };
    let d = extract_edit_details(None, Some(&snapshot("fresh", false)), &from_new).unwrap();
    assert_eq!(d.old_content, None);
    assert_eq!(d.new_content.as_deref(), Some("fresh"));
}

#[test]
fn shared_cache_and_payloads() {
    assert_eq!(message_cache_key(2, 1), "msg:2:1");
    let cached = DistributedCachedMessage { author_id: 3, author_name: "ann".to_string(), content: "old".to_string(), image_urls: vec![] };
    let details = details_from_cache(cached.clone(), 2, 1);
    assert_eq!((details.msg_id, details.chan_id, details.content.as_str()), (1, 2, "old"));
    let (edit, updated) = edit_from_cache(cached.clone(), 1, 2, Some("new".to_string()));
    assert_eq!(edit.old_content.as_deref(), Some("old"));
    assert_eq!(updated.unwrap().content, "new");
    let (_, none) = edit_from_cache(cached, 1, 2, None);
    assert!(none.is_none());

    let entries = vec![
        DeleteAuditEntry { target_id: Some(3), channel_id: Some(2), user_id: 50 },
        DeleteAuditEntry { target_id: Some(4), channel_id: Some(2), user_id: 51 },
        DeleteAuditEntry { target_id: Some(3), channel_id: None, user_id: 52 },
        DeleteAuditEntry { target_id: Some(3), channel_id: Some(2), user_id: 53 },
    ];
    assert_eq!(candidate_deleters(&entries, 3, 2), vec![50, 53]);
    let users: HashMap<u64, String> = HashMap::from([(53, "mod".to_string()), (60, "other".to_string())]);
    assert_eq!(user_name_in(&users, 53).as_deref(), Some("mod"));
    assert_eq!(user_name_in(&users, 50), None);

    let p = deleted_payload(details, 9, "now".to_string(), "u1".to_string(), Some((53, "mod".to_string())));
    assert_eq!((p.guild_id, p.deleted_by_id, p.deleted_by_name.as_deref()), (9, Some(53), Some("mod")));
    let m = modified_payload(edit, 9, "later".to_string());
    assert_eq!((m.id, m.guild_id, m.updated_at.as_str()), (1, 9, "later"));
}

#[test]
fn live_feed_routing() {
    assert_eq!(redis_channels(), vec!["discord:deletes", "discord:updates", "discord:reports"]);
    assert_eq!(kind_for_channel("discord:updates"), Some(LogEventKind::MessageEdit));
    assert_eq!(kind_for_channel("other"), None);
    assert_eq!(sse_event_name(LogEventKind::MessageDelete), "message-delete");
    assert_eq!(sse_event_name(LogEventKind::MessageReport), "message-report");
    assert!(routes_to_subscriber(Some(4), 4));
    assert!(!routes_to_subscriber(Some(4), 5));
    let e = LogEvent::MessageReport { guild_id: 4 };
    assert_eq!(e.guild_id(), Some(4));
    assert_eq!(e.kind(), LogEventKind::MessageReport);
    let q = SseQuery { guild_id: 4, user_id: Some("1".to_string()), expires: None, sig: None };
    assert_eq!(q.ticket_parts(), None);
}

#[test]
fn shared_cache_keeps_all_attachment_urls() {
    let msg = CachedMessage {
        id: 1,
        channel_id: 2,
        author_id: 3,
        author_name: "ann".to_string(),
        author_is_bot: false,
        content: "hi".to_string(),
        attachments: vec![attachment("u1", "a.jpg", None), attachment("u2", "b.txt", None)],
    };
    let e = mod_oud::message_logging::events::shared_cache_entry(&msg);
    assert_eq!(e.image_urls, vec!["u1", "u2"]);
    assert_eq!((e.author_id, e.author_name.as_str(), e.content.as_str()), (3, "ann", "hi"));
}

#[test]
fn delete_and_edit_handlers_step_through_caches_and_filters() {
    assert_eq!(first_log_step(false, Some(7u64)), LogStep::Skip);
    assert_eq!(first_log_step(false, None::<u64>), LogStep::Skip);
    assert_eq!(first_log_step(true, Some(7u64)), LogStep::Filter(7));
    assert_eq!(first_log_step(true, None::<u64>), LogStep::FetchShared);
    assert_eq!(after_shared_lookup(Some(8u64)), LogStep::Filter(8));
    assert_eq!(after_shared_lookup(None::<u64>), LogStep::Skip);
    assert_eq!(log_if_included(true, 9u64), None);
    assert_eq!(log_if_included(false, 9u64), Some(9));
}
