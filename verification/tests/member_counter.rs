use mod_oud::member_counter::counts::{
    count_members_with_role, counter_name, counter_result, plan_counters, stats_from_cache, stats_from_counts,
    sync_report, ChannelLookup, CounterResult, GuildCounts, GuildSnapshot, MemberSnapshot, PlannedCounter,
    PresenceStatus,
};
use mod_oud::member_counter::setup::{
    assign_channel, claim_ttl_secs, initial_channel_name, needs_channel_setup, pending_channels, reusable_category,
    sync_precheck, update_claim_key, CategoryLookup,
};
use mod_oud::member_counter::types::{default_interval, interval_secs, CounterChannel, CounterType, MemberCounterConfig};

fn guild() -> GuildSnapshot {
    GuildSnapshot {
        member_count: 10,
        members: vec![
            MemberSnapshot { is_bot: false, role_ids: vec![1] },
            MemberSnapshot { is_bot: true, role_ids: vec![1, 2] },
            MemberSnapshot { is_bot: false, role_ids: vec![] },
        ],
        presences: vec![PresenceStatus::Online, PresenceStatus::Offline, PresenceStatus::Idle, PresenceStatus::Invisible],
    }
}

fn counter(channel: Option<u64>, kind: CounterType, role: Option<u64>, template: &str) -> CounterChannel {
    CounterChannel { id: 1, channel_id: channel, counter_type: kind, role_id: role, name_template: template.to_string() }
}

#[test]
fn statistics() {
    let s = stats_from_cache(&guild());
    assert_eq!((s.total_members, s.humans_count, s.bots_count, s.online_count), (10, 2, 1, 2));
    let f = stats_from_counts(Some(50), None);
    assert_eq!((f.total_members, f.humans_count, f.bots_count, f.online_count), (50, 50, 0, 0));
    assert_eq!(count_members_with_role(Some(&guild()), 1), 2);
    assert_eq!(count_members_with_role(None, 1), 0);
}

#[test]
fn counter_names_and_plan() {
    assert_eq!(counter_name("Members: {count}", 42), "Members: 42");
    assert_eq!(counter_name("{count}/{count}", 1), "1/1");
    let config = MemberCounterConfig {
        enabled: true,
        update_interval_minutes: 1,
        counters: vec![
            counter(Some(100), CounterType::TotalMembers, None, "All {count}"),
            counter(None, CounterType::BotsOnly, None, "Bots {count}"),
            counter(Some(101), CounterType::RoleCount, Some(2), "Role {count}"),
            counter(Some(102), CounterType::OnlineMembers, None, "Online {count}"),
        ],
        category_id: None,
    };
    let g = guild();
    let plan = plan_counters(&config, stats_from_cache(&g), Some(&g));
    let names: Vec<(u64, String)> = plan.iter().map(|p| (p.channel_id, p.target_name.clone())).collect();
    assert_eq!(
        names,
        vec![(100, "All 10".to_string()), (101, "Role 1".to_string()), (102, "Online 2".to_string())]
    );
}

#[test]
fn counter_results() {
    let planned = || PlannedCounter { channel_id: 7, target_name: "All 10".to_string() };
    assert!(counter_result(planned(), &ChannelLookup::Failed).is_none());
    let same = counter_result(planned(), &ChannelLookup::GuildChannel { name: "All 10".to_string() }).unwrap();
    assert!(!same.name_changed);
    let changed = counter_result(planned(), &ChannelLookup::GuildChannel { name: "All 9".to_string() }).unwrap();
    assert!(changed.name_changed);
    assert!(!counter_result(planned(), &ChannelLookup::NotGuildChannel).unwrap().name_changed);
}

#[test]
fn sync_report_text() {
    let mut counts = GuildCounts { total_members: 3, humans_count: 2, bots_count: 1, online_count: 1, counters: vec![] };
    let header = "✅ **Member counters synchronized!**\n\n📊 **Server Overview:**\n• 👥 **Total Members:** 3\n• 🧑 **Humans:** 2\n• 🤖 **Bots:** 1\n• 🟢 **Online:** 1\n\n🏷️ **Channels Evaluated:**\n";
    assert_eq!(sync_report(&counts), format!("{header}*(No active counter channels found)*"));
    counts.counters.push(CounterResult { channel_id: 5, new_name: "All 3".to_string(), name_changed: true });
    counts.counters.push(CounterResult { channel_id: 6, new_name: "Bots 1".to_string(), name_changed: false });
    assert_eq!(
        sync_report(&counts),
        format!("{header}• <#5> ➔ `All 3` (✨ Updated)\n• <#6> ➔ `Bots 1` (👌 Up to date)\n")
    );
}

#[test]
fn schedule_and_setup() {
    assert_eq!(default_interval(), 15);
    assert_eq!(interval_secs(1), 300);
    assert_eq!(interval_secs(15), 900);
    assert_eq!(update_claim_key(77), "member_counter:update_claim:77");
    let mut config = MemberCounterConfig::default();
    assert_eq!(config.update_interval_minutes, 0);
    assert_eq!(claim_ttl_secs(Some(&config)), None);
    assert_eq!(sync_precheck(Some(&config)), Err("❌ Member counters are currently disabled or not configured on this server."));
    config.enabled = true;
    config.update_interval_minutes = 10;
    assert_eq!(claim_ttl_secs(Some(&config)), Some(600));
    assert_eq!(claim_ttl_secs(None), None);
    assert_eq!(sync_precheck(Some(&config)), Ok(()));

    let mut counters = vec![
        counter(Some(1), CounterType::TotalMembers, None, "All {count}"),
        counter(None, CounterType::HumansOnly, None, "Humans {count}"),
    ];
    assert!(needs_channel_setup(&counters));
    assert_eq!(initial_channel_name("Humans {count}"), "Humans 0");
    assert_eq!(pending_channels(&counters), vec![(1, "Humans 0".to_string())]);
    assign_channel(&mut counters, 1, 55);
    assert_eq!(counters[1].channel_id, Some(55));
    assert_eq!(counters[1].name_template, "Humans {count}");
    assert!(!needs_channel_setup(&counters));
    assert_eq!(reusable_category(Some(3), CategoryLookup::Category), Some(3));
    assert_eq!(reusable_category(Some(3), CategoryLookup::NotCategory), None);
    assert_eq!(reusable_category(None, CategoryLookup::Category), None);
}
