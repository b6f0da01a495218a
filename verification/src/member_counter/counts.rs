//! Computing member statistics and the names of counter channels.

use crate::member_counter::types::{CounterChannel, CounterType, MemberCounterConfig};
use crate::text::{decimal, push_decimal, replace_all, replace_str, u64_to_string};
use vstd::prelude::*;

verus! {

/// A member's presence status.
#[derive(Debug, Clone, Copy, PartialEq, Eq, Structural)]
pub enum PresenceStatus {
    Online,
    Idle,
    DoNotDisturb,
    Invisible,
    Offline,
}

/// What the counters read of a cached member.
#[derive(Debug, Clone)]
pub struct MemberSnapshot {
    pub is_bot: bool,
    pub role_ids: Vec<u64>,
}

/// What the counters read of a cached guild.
#[derive(Debug, Clone)]
pub struct GuildSnapshot {
    pub member_count: u64,
    pub members: Vec<MemberSnapshot>,
    pub presences: Vec<PresenceStatus>,
}

/// A guild's member statistics.
#[derive(Debug, Clone, Copy, PartialEq, Eq, Structural)]
pub struct GuildStats {
    pub total_members: u64,
    pub humans_count: u64,
    pub bots_count: u64,
    pub online_count: u64,
}

/// How many of the members are bots.
pub open spec fn bot_count(ms: Seq<MemberSnapshot>) -> nat
    decreases ms.len(),
{
    if ms.len() == 0 {
        0
    } else {
        bot_count(ms.drop_last()) + if ms.last().is_bot {
            1nat
        } else {
            0nat
        }
    }
}

/// A presence counts as online unless it is offline or invisible.
pub open spec fn is_online(p: PresenceStatus) -> bool {
    p != PresenceStatus::Offline && p != PresenceStatus::Invisible
}

/// How many presences count as online.
pub open spec fn online_count(ps: Seq<PresenceStatus>) -> nat
    decreases ps.len(),
{
    if ps.len() == 0 {
        0
    } else {
        online_count(ps.drop_last()) + if is_online(ps.last()) {
            1nat
        } else {
            0nat
        }
    }
}

/// Every presence that is online, idle or on do-not-disturb adds one to the
/// online count and an offline or invisible one adds nothing; so the count of
/// no presences is 0, of two lists together is the sum of their counts, and
/// never exceeds the number of presences.
pub proof fn law_online_count_counts_visible_presences(
    ps: Seq<PresenceStatus>,
    qs: Seq<PresenceStatus>,
    p: PresenceStatus,
)
    ensures
        online_count(Seq::<PresenceStatus>::empty()) == 0,
        online_count(ps.push(p)) == online_count(ps) + match p {
            PresenceStatus::Online | PresenceStatus::Idle | PresenceStatus::DoNotDisturb => 1int,
            PresenceStatus::Offline | PresenceStatus::Invisible => 0int,
        },
        online_count(ps + qs) == online_count(ps) + online_count(qs),
        online_count(ps) <= ps.len(),
    decreases qs.len(),
{
    assert(ps.push(p).drop_last() =~= ps);
    lemma_online_count_bounded(ps);
    if qs.len() > 0 {
        law_online_count_counts_visible_presences(ps, qs.drop_last(), p);
        assert((ps + qs).drop_last() =~= ps + qs.drop_last());
        assert((ps + qs).last() == qs.last());
    } else {
        assert(ps + qs =~= ps);
    }
}

proof fn lemma_online_count_bounded(ps: Seq<PresenceStatus>)
    ensures
        online_count(ps) <= ps.len(),
    decreases ps.len(),
{
    if ps.len() > 0 {
        lemma_online_count_bounded(ps.drop_last());
    }
}

/// How many members have the role.
pub open spec fn role_member_count(ms: Seq<MemberSnapshot>, role_id: u64) -> nat
    decreases ms.len(),
{
    if ms.len() == 0 {
        0
    } else {
        role_member_count(ms.drop_last(), role_id) + if ms.last().role_ids@.contains(role_id) {
            1nat
        } else {
            0nat
        }
    }
}

/// The statistics of a cached guild: its member count, the cached members split
/// into humans and bots, and the presences that are online.
pub open spec fn spec_cached_stats(g: GuildSnapshot) -> GuildStats {
    GuildStats {
        total_members: g.member_count,
        humans_count: (g.members@.len() - bot_count(g.members@)) as u64,
        bots_count: bot_count(g.members@) as u64,
        online_count: online_count(g.presences@) as u64,
    }
}

/// Computes the statistics of a guild found in the cache.
pub fn stats_from_cache(g: &GuildSnapshot) -> (r: GuildStats)
    ensures
        r == spec_cached_stats(*g),
        r.humans_count + r.bots_count == g.members@.len(),
{
    let mut bots: u64 = 0;
    let mut i: usize = 0;
    while i < g.members.len()
        invariant
            i <= g.members@.len(),
            bots == bot_count(g.members@.take(i as int)),
            bots <= i,
        decreases g.members@.len() - i,
    {
        proof {
            assert(g.members@.take(i as int + 1).drop_last() =~= g.members@.take(i as int));
        }
        if g.members[i].is_bot {
            bots = bots + 1;
        }
        i = i + 1;
    }
    let mut online: u64 = 0;
    let mut j: usize = 0;
    while j < g.presences.len()
        invariant
            j <= g.presences@.len(),
            online == online_count(g.presences@.take(j as int)),
            online <= j,
        decreases g.presences@.len() - j,
    {
        proof {
            assert(g.presences@.take(j as int + 1).drop_last() =~= g.presences@.take(j as int));
        }
        match g.presences[j] {
            PresenceStatus::Offline | PresenceStatus::Invisible => {},
            _ => {
                online = online + 1;
            },
        }
        j = j + 1;
    }
    proof {
        assert(g.members@.take(g.members@.len() as int) =~= g.members@);
        assert(g.presences@.take(g.presences@.len() as int) =~= g.presences@);
    }
    let humans: u64 = g.members.len() as u64 - bots;
    GuildStats { total_members: g.member_count, humans_count: humans, bots_count: bots, online_count: online }
}

/// The statistics of a guild that is not cached, from the approximate counts
/// Discord reports: every member is counted as human.
pub fn stats_from_counts(approximate_members: Option<u64>, approximate_presences: Option<u64>) -> (r: GuildStats)
    ensures
        r.total_members == match approximate_members {
            Some(n) => n,
            None => 0,
        },
        r.humans_count == r.total_members,
        r.bots_count == 0,
        r.online_count == match approximate_presences {
            Some(n) => n,
            None => 0,
        },
{
    let total = match approximate_members {
        Some(n) => n,
        None => 0,
    };
    let online = match approximate_presences {
        Some(n) => n,
        None => 0,
    };
    GuildStats { total_members: total, humans_count: total, bots_count: 0, online_count: online }
}

/// Whether a list of ids holds `x`.
pub fn contains_id(v: &Vec<u64>, x: u64) -> (r: bool)
    ensures
        r == v@.contains(x),
{
    let mut i: usize = 0;
    while i < v.len()
        invariant
            i <= v@.len(),
            forall|j: int| 0 <= j < i ==> v@[j] != x,
        decreases v@.len() - i,
    {
        if v[i] == x {
            return true;
        }
        i = i + 1;
    }
    false
}

/// How many cached members have the role; 0 for a guild that is not cached.
pub open spec fn spec_role_count(cache: Option<GuildSnapshot>, role_id: u64) -> u64 {
    match cache {
        Some(g) => role_member_count(g.members@, role_id) as u64,
        None => 0,
    }
}

/// Counts the cached members that have the role.
pub fn count_members_with_role(cache: Option<&GuildSnapshot>, role_id: u64) -> (r: u64)
    ensures
        r == spec_role_count(
            match cache {
                Some(g) => Some(*g),
                None => None,
            },
            role_id,
        ),
{
    let g = match cache {
        Some(g) => g,
        None => return 0,
    };
    let mut n: u64 = 0;
    let mut i: usize = 0;
    while i < g.members.len()
        invariant
            i <= g.members@.len(),
            n == role_member_count(g.members@.take(i as int), role_id),
            n <= i,
        decreases g.members@.len() - i,
    {
        proof {
            assert(g.members@.take(i as int + 1).drop_last() =~= g.members@.take(i as int));
        }
        if contains_id(&g.members[i].role_ids, role_id) {
            n = n + 1;
        }
        i = i + 1;
    }
    proof {
        assert(g.members@.take(g.members@.len() as int) =~= g.members@);
    }
    n
}

/// The number a counter shows; a role counter without a role counts role 0.
pub open spec fn spec_counter_value(c: CounterChannel, stats: GuildStats, cache: Option<GuildSnapshot>) -> u64 {
    match c.counter_type {
        CounterType::TotalMembers => stats.total_members,
        CounterType::HumansOnly => stats.humans_count,
        CounterType::BotsOnly => stats.bots_count,
        CounterType::OnlineMembers => stats.online_count,
        CounterType::RoleCount => spec_role_count(
            cache,
            match c.role_id {
                Some(r) => r,
                None => 0,
            },
        ),
    }
}

/// The channel name a counter should have: its template with every `{count}`
/// replaced by the number.
pub open spec fn spec_counter_name(template: Seq<char>, count: u64) -> Seq<char> {
    replace_all(template, "{count}"@, decimal(count as nat))
}

/// Renders a counter's channel name.
pub fn counter_name(template: &str, count: u64) -> (r: String)
    ensures
        r@ == spec_counter_name(template@, count),
{
    let n = u64_to_string(count);
    proof {
        reveal_strlit("{count}");
    }
    replace_str(template, "{count}", n.as_str())
}

/// A counter channel to rename, and the name it should have.
#[derive(Debug, Clone)]
pub struct PlannedCounter {
    pub channel_id: u64,
    pub target_name: String,
}

/// The planned renames of the counters that have a channel, in order.
pub open spec fn spec_plan(
    counters: Seq<CounterChannel>,
    stats: GuildStats,
    cache: Option<GuildSnapshot>,
) -> Seq<(u64, Seq<char>)>
    decreases counters.len(),
{
    if counters.len() == 0 {
        Seq::empty()
    } else {
        let rest = spec_plan(counters.drop_last(), stats, cache);
        let c = counters.last();
        match c.channel_id {
            Some(id) => rest.push(
                (id, spec_counter_name(c.name_template@, spec_counter_value(c, stats, cache))),
            ),
            None => rest,
        }
    }
}

/// The view of a planned rename.
pub open spec fn planned_view(p: PlannedCounter) -> (u64, Seq<char>) {
    (p.channel_id, p.target_name@)
}

/// Plans the renames of a guild's counters from its statistics; counters
/// without a channel are skipped.
pub fn plan_counters(config: &MemberCounterConfig, stats: GuildStats, cache: Option<&GuildSnapshot>) -> (r: Vec<PlannedCounter>)
    ensures
        r@.map_values(|p: PlannedCounter| planned_view(p)) == spec_plan(
            config.counters@,
            stats,
            match cache {
                Some(g) => Some(*g),
                None => None,
            },
        ),
{
    let ghost gc = match cache {
        Some(g) => Some(*g),
        None => None::<GuildSnapshot>,
    };
    let mut r: Vec<PlannedCounter> = Vec::new();
    let mut i: usize = 0;
    while i < config.counters.len()
        invariant
            i <= config.counters@.len(),
            gc == match cache {
                Some(g) => Some(*g),
                None => None::<GuildSnapshot>,
            },
            r@.map_values(|p: PlannedCounter| planned_view(p)) == spec_plan(
                config.counters@.take(i as int),
                stats,
                gc,
            ),
        decreases config.counters@.len() - i,
    {
        proof {
            assert(config.counters@.take(i as int + 1).drop_last() =~= config.counters@.take(i as int));
        }
        let c = &config.counters[i];
        match c.channel_id {
            Some(id) => {
                let value = match c.counter_type {
                    CounterType::TotalMembers => stats.total_members,
                    CounterType::HumansOnly => stats.humans_count,
                    CounterType::BotsOnly => stats.bots_count,
                    CounterType::OnlineMembers => stats.online_count,
                    CounterType::RoleCount => {
                        let role = match c.role_id {
                            Some(r) => r,
                            None => 0,
                        };
                        count_members_with_role(cache, role)
                    },
                };
                let name = counter_name(c.name_template.as_str(), value);
                let ghost before = r@;
                r.push(PlannedCounter { channel_id: id, target_name: name });
                proof {
                    assert(r@.map_values(|p: PlannedCounter| planned_view(p)) =~= before.map_values(
                        |p: PlannedCounter| planned_view(p),
                    ).push((id, name@)));
                }
            },
            None => {},
        }
        i = i + 1;
    }
    proof {
        assert(config.counters@.take(config.counters@.len() as int) =~= config.counters@);
    }
    r
}

/// What fetching a counter channel gave: a failure, a channel outside a guild,
/// or a guild channel with its current name.
#[derive(Debug, Clone)]
pub enum ChannelLookup {
    Failed,
    NotGuildChannel,
    GuildChannel { name: String },
}

/// The report of one counter update.
#[derive(Debug, Clone)]
pub struct CounterResult {
    pub channel_id: u64,
    pub new_name: String,
    pub name_changed: bool,
}

/// The outcome of one planned rename: skipped when the channel could not be
/// fetched; otherwise reported, marked changed when a guild channel's name
/// differed (only then is it renamed).
pub fn counter_result(planned: PlannedCounter, current: &ChannelLookup) -> (r: Option<CounterResult>)
    ensures
        match current {
            ChannelLookup::Failed => r is None,
            ChannelLookup::NotGuildChannel => r matches Some(c) && c.channel_id == planned.channel_id
                && c.new_name@ == planned.target_name@ && !c.name_changed,
            ChannelLookup::GuildChannel { name } => r matches Some(c) && c.channel_id
                == planned.channel_id && c.new_name@ == planned.target_name@ && c.name_changed == (
            name@ != planned.target_name@),
        },
{
    match current {
        ChannelLookup::Failed => None,
        ChannelLookup::NotGuildChannel => Some(
            CounterResult { channel_id: planned.channel_id, new_name: planned.target_name, name_changed: false },
        ),
        ChannelLookup::GuildChannel { name } => {
            let changed = !(*name == planned.target_name);
            Some(
                CounterResult {
                    channel_id: planned.channel_id,
                    new_name: planned.target_name,
                    name_changed: changed,
                },
            )
        },
    }
}

/// A guild's statistics and the report of each counter channel.
#[derive(Debug, Clone)]
pub struct GuildCounts {
    pub total_members: u64,
    pub humans_count: u64,
    pub bots_count: u64,
    pub online_count: u64,
    pub counters: Vec<CounterResult>,
}

/// One line of the sync report.
pub open spec fn spec_counter_line(c: CounterResult) -> Seq<char> {
    "• <#"@ + decimal(c.channel_id as nat) + "> ➔ `"@ + c.new_name@ + "` ("@ + (if c.name_changed {
        "✨ Updated"@
    } else {
        "👌 Up to date"@
    }) + ")\n"@
}

/// The lines of the sync report, one per counter.
pub open spec fn spec_counter_lines(cs: Seq<CounterResult>) -> Seq<char>
    decreases cs.len(),
{
    if cs.len() == 0 {
        Seq::empty()
    } else {
        spec_counter_lines(cs.drop_last()) + spec_counter_line(cs.last())
    }
}

/// The reply of the counter sync command.
pub open spec fn spec_sync_report(c: GuildCounts) -> Seq<char> {
    "✅ **Member counters synchronized!**\n\n📊 **Server Overview:**\n• 👥 **Total Members:** "@
        + decimal(c.total_members as nat) + "\n• 🧑 **Humans:** "@ + decimal(c.humans_count as nat)
        + "\n• 🤖 **Bots:** "@ + decimal(c.bots_count as nat) + "\n• 🟢 **Online:** "@ + decimal(
        c.online_count as nat,
    ) + "\n\n🏷️ **Channels Evaluated:**\n"@ + if c.counters@.len() == 0 {
        "*(No active counter channels found)*"@
    } else {
        spec_counter_lines(c.counters@)
    }
}

/// Writes the reply of the counter sync command.
pub fn sync_report(c: &GuildCounts) -> (r: String)
    ensures
        r@ == spec_sync_report(*c),
{
    let mut r = String::from_str("✅ **Member counters synchronized!**\n\n📊 **Server Overview:**\n• 👥 **Total Members:** ");
    push_decimal(&mut r, c.total_members);
    r.append("\n• 🧑 **Humans:** ");
    push_decimal(&mut r, c.humans_count);
    r.append("\n• 🤖 **Bots:** ");
    push_decimal(&mut r, c.bots_count);
    r.append("\n• 🟢 **Online:** ");
    push_decimal(&mut r, c.online_count);
    r.append("\n\n🏷️ **Channels Evaluated:**\n");
    let ghost head = r@;
    if c.counters.len() == 0 {
        r.append("*(No active counter channels found)*");
        return r;
    }
    let mut i: usize = 0;
    while i < c.counters.len()
        invariant
            i <= c.counters@.len(),
            r@ == head + spec_counter_lines(c.counters@.take(i as int)),
        decreases c.counters@.len() - i,
    {
        proof {
            assert(c.counters@.take(i as int + 1).drop_last() =~= c.counters@.take(i as int));
        }
        let item = &c.counters[i];
        let ghost before = r@;
        r.append("• <#");
        push_decimal(&mut r, item.channel_id);
        r.append("> ➔ `");
        r.append(item.new_name.as_str());
        r.append("` (");
        if item.name_changed {
            r.append("✨ Updated");
        } else {
            r.append("👌 Up to date");
        }
        r.append(")\n");
        proof {
            assert(r@ =~= before + spec_counter_line(*item));
        }
        i = i + 1;
    }
    proof {
        assert(c.counters@.take(c.counters@.len() as int) =~= c.counters@);
    }
    r
}

} // verus!
