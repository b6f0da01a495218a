use mod_oud::media_only::replies::{
    channel_list_text, disable_reply, exempt_roles_text, set_decision, status_label, truncated_content,
    violation_dm, violation_warning, warning_delay, warning_delay_text, SetOutcome,
};
use mod_oud::media_only::rules::{
    analyze_initial_text, attachment_is_valid, attachments_violate, has_matching_role, message_violates,
    rule_applies, thread_to_create,
};
use mod_oud::media_only::types::{media_channel_key, AllowedMedia, MediaOnlyChannel, MediaOnlyChannelRow, MediaType};

fn config() -> MediaOnlyChannel {
    MediaOnlyChannel { channel_id: 5, guild_id: 6, enabled: true, ..MediaOnlyChannel::default() }
}

#[test]
fn mime_types_classify() {
    assert_eq!(MediaType::from_mime("image/gif"), Some(MediaType::Gif));
    assert_eq!(MediaType::from_mime("image/png"), Some(MediaType::Image));
    assert_eq!(MediaType::from_mime("video/mp4"), Some(MediaType::Video));
    assert_eq!(MediaType::from_mime("audio/ogg"), Some(MediaType::Audio));
    assert_eq!(MediaType::from_mime("application/pdf"), None);
}

#[test]
fn defaults_allow_everything_but_audio() {
    let d = MediaOnlyChannel::default();
    assert!(!d.enabled);
    assert!(d.allowed_media.contains(MediaType::Image));
    assert!(!d.allowed_media.contains(MediaType::Audio));
    assert_eq!(d.thread_name_template.as_deref(), Some("Discussion - {user}"));
    assert_eq!(d.delete_warning_after_secs, 5);
    assert!(d.exempt_role_ids().is_empty());
}

#[test]
fn rule_applies_only_to_members_without_exempt_roles() {
    let mut c = config();
    c.exempt_roles = Some(vec![9]);
    assert!(rule_applies(false, Some(&c), Some(&vec![1, 2])));
    assert!(!rule_applies(false, Some(&c), Some(&vec![1, 9])));
    assert!(!rule_applies(true, Some(&c), Some(&vec![1])));
    assert!(!rule_applies(false, None, Some(&vec![1])));
    assert!(!rule_applies(false, Some(&c), None));
    c.enabled = false;
    assert!(!rule_applies(false, Some(&c), Some(&vec![1])));
    assert!(has_matching_role(&vec![3, 4], &vec![4]));
    assert!(!has_matching_role(&vec![3, 4], &vec![]));
}

#[test]
fn message_text_rules() {
    let mut c = config();
    // Text with an attachment is fine when text is allowed.
    assert!(!analyze_initial_text(&c, true, "look", 0));
    // Nothing but text breaks the rule.
    assert!(analyze_initial_text(&c, false, "just talk", 0));
    // A link alone is media.
    assert!(!analyze_initial_text(&c, false, "", 1));
    c.allowed_media.embedded_text = false;
    assert!(analyze_initial_text(&c, true, "look", 0));
    c.allowed_media.link = false;
    assert!(analyze_initial_text(&c, false, "", 1));
}

#[test]
fn attachment_rules() {
    let c = config();
    assert!(attachment_is_valid(&c, "image/png"));
    assert!(!attachment_is_valid(&c, "audio/mpeg"));
    assert!(!attachment_is_valid(&c, "text/plain"));
    assert!(attachments_violate(&c, &vec![Some("image/png".to_string()), None]));
    assert!(!attachments_violate(&c, &vec![Some("video/mp4".to_string())]));
    assert!(!message_violates(&c, "", 0, &vec![Some("image/jpeg".to_string())]));
    assert!(message_violates(&c, "", 0, &vec![Some("audio/mpeg".to_string())]));
    assert!(message_violates(&c, "", 0, &vec![]));
}

#[test]
fn auto_threads() {
    let mut c = config();
    assert_eq!(thread_to_create(&c, "ann", "2024-01-01T00:00:00Z"), None);
    c.auto_thread = true;
    assert_eq!(thread_to_create(&c, "ann", "t").as_deref(), Some("Discussion - ann"));
    c.thread_name_template = Some("{user} at {timestamp}".to_string());
    assert_eq!(thread_to_create(&c, "ann", "noon").as_deref(), Some("ann at noon"));
    c.thread_name_template = None;
    assert_eq!(thread_to_create(&c, "ann", "noon"), None);
}

#[test]
fn violation_messages() {
    assert_eq!(
        violation_dm(5, "hello"),
        "Your message has been deleted in <#5> as that is a media-only channel.\nOriginal content:\n```\nhello```\n"
    );
    assert_eq!(violation_dm(5, ""), "Your message has been deleted in <#5> as that is a media-only channel.\n");
    let long = "x".repeat(1801);
    let cut = truncated_content(&long);
    assert_eq!(cut.chars().count(), 1803);
    assert!(cut.ends_with("..."));
    assert_eq!(truncated_content(&"y".repeat(1800)), "y".repeat(1800));
    assert_eq!(violation_warning(7), "<@7>, Your message has been deleted as this is a media-only channel.");
    assert_eq!(warning_delay(5), Ok(5));
    assert_eq!(warning_delay(-1), Err("Cannot cast i16 to u64. Is it negative?"));
}

#[test]
fn set_command_decisions() {
    let mut stored = config();
    stored.enabled = false;
    match set_decision(Some(stored), 5, 6) {
        SetOutcome::Store { config, reply } => {
            assert!(config.enabled);
            assert_eq!(reply, "Enforcing media-only mode on <#5>");
        }
        SetOutcome::AlreadyEnabled { .. } => panic!("expected the rule to be stored"),
    }
    match set_decision(Some(config()), 5, 6) {
        SetOutcome::AlreadyEnabled { reply } => assert_eq!(reply, "Media-only mode is already enabled for <#5>"),
        SetOutcome::Store { .. } => panic!("expected already enabled"),
    }
    // A channel without a stored rule starts out enabled, so it is reported as
    // already enabled.
    assert!(matches!(set_decision(None, 5, 6), SetOutcome::AlreadyEnabled { .. }));
}

#[test]
fn info_and_list_texts() {
    assert_eq!(disable_reply(5, true), "Disabled media-only mode for <#5>");
    assert_eq!(disable_reply(5, false), "Media-only mode was not enabled for <#5>, ignoring");
    assert_eq!(exempt_roles_text(&Some(vec![1, 2])).as_deref(), Some("<@&1>, <@&2>"));
    assert_eq!(exempt_roles_text(&Some(vec![])), None);
    assert_eq!(exempt_roles_text(&None), None);
    assert_eq!(status_label(true), "✅ Allowed");
    assert_eq!(status_label(false), "❌ Disabled");
    assert_eq!(warning_delay_text(5), "5s");
    assert_eq!(warning_delay_text(-3), "-3s");
    assert_eq!(channel_list_text(&vec![]), "No media-only set up yet.");
    assert_eq!(channel_list_text(&vec![1, 2]), "Media only channels in this guild:\n- <#1>\n- <#2>\n");
    assert_eq!(media_channel_key(9), "media_channel:9");
}

#[test]
fn rows_round_trip() {
    let mut c = config();
    c.channel_id = u64::MAX;
    c.exempt_roles = Some(vec![u64::MAX, 3]);
    c.allowed_media = AllowedMedia { image: false, video: true, audio: true, gif: false, link: true, embedded_text: false };
    let row: MediaOnlyChannelRow = c.to_row();
    assert_eq!(row.channel_id, -1);
    assert!(row.allow_audio && !row.allow_images);
    let back = MediaOnlyChannel::from_row(row);
    assert_eq!(back.channel_id, u64::MAX);
    assert_eq!(back.exempt_roles, Some(vec![u64::MAX, 3]));
    assert_eq!(back.allowed_media, c.allowed_media);
}
