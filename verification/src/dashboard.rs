use vstd::prelude::*;

use crate::model::NotifyMedium;

verus! {

/// What the counts of a dashboard need to know of a group.
#[derive(Clone, Copy, Debug)]
pub struct GroupSummary {
    pub medium: NotifyMedium,
    pub paused: bool,
}

/// The number of groups sending to `medium`.
pub open spec fn count_medium(gs: Seq<GroupSummary>, medium: NotifyMedium) -> nat
    decreases gs.len(),
{
    if gs.len() == 0 {
        0
    } else {
        count_medium(gs.drop_last(), medium) + if gs.last().medium == medium { 1nat } else { 0 }
    }
}

/// The number of paused groups.
pub open spec fn count_paused(gs: Seq<GroupSummary>) -> nat
    decreases gs.len(),
{
    if gs.len() == 0 {
        0
    } else {
        count_paused(gs.drop_last()) + if gs.last().paused { 1nat } else { 0 }
    }
}

/// Whether a group lacks a webhook: `config` is `None` when the group has no
/// settings row, else whether the row holds a webhook.
pub open spec fn webhook_missing(config: Option<bool>) -> bool {
    config != Some(true)
}

/// The number of groups that lack a webhook.
pub open spec fn count_missing(configs: Seq<Option<bool>>) -> nat
    decreases configs.len(),
{
    if configs.len() == 0 {
        0
    } else {
        count_missing(configs.drop_last()) + if webhook_missing(configs.last()) { 1nat } else { 0 }
    }
}

/// Groups by medium, for the dashboard.
#[derive(Clone, Copy, Debug)]
pub struct MediumBreakdown {
    pub discord: u32,
    pub slack: u32,
}

/// A user's groups and filters, for the administrator.
#[derive(Clone, Copy, Debug)]
pub struct UserSummaryData {
    pub group_count: u32,
    pub filter_count: u32,
    pub discord_group_count: u32,
    pub slack_group_count: u32,
}

/// The filter counts that storage computes for a user.
#[derive(Clone, Copy, Debug)]
pub struct FilterBreakdown {
    pub total: u32,
    pub unique_ticker_count: u32,
    pub unique_company_name_count: u32,
}

/// A user's dashboard; `H` is a notification history entry.
pub struct DashboardData<H> {
    pub group_count: u32,
    pub filter_count: u32,
    pub unique_ticker_count: u32,
    pub unique_company_name_count: u32,
    pub discord_group_count: u32,
    pub slack_group_count: u32,
    pub paused_group_count: u32,
    pub webhook_missing_count: u32,
    pub recent_sent: Vec<H>,
    pub recent_failed: Vec<H>,
}

proof fn lemma_counts_bounded(gs: Seq<GroupSummary>)
    ensures
        count_medium(gs, NotifyMedium::Discord) <= gs.len(),
        count_medium(gs, NotifyMedium::Slack) <= gs.len(),
        count_paused(gs) <= gs.len(),
        count_medium(gs, NotifyMedium::Discord) + count_medium(gs, NotifyMedium::Slack) == gs.len(),
    decreases gs.len(),
{
    if gs.len() > 0 {
        lemma_counts_bounded(gs.drop_last());
    }
}

struct GroupCounts {
    discord: u32,
    slack: u32,
    paused: u32,
}

fn count_groups(groups: &Vec<GroupSummary>) -> (c: GroupCounts)
    requires
        groups@.len() <= u32::MAX,
    ensures
        c.discord == count_medium(groups@, NotifyMedium::Discord),
        c.slack == count_medium(groups@, NotifyMedium::Slack),
        c.paused == count_paused(groups@),
{
    let mut c = GroupCounts { discord: 0, slack: 0, paused: 0 };
    let mut i: usize = 0;
    while i < groups.len()
        invariant
            i <= groups@.len(),
            groups@.len() <= u32::MAX,
            c.discord == count_medium(groups@.take(i as int), NotifyMedium::Discord),
            c.slack == count_medium(groups@.take(i as int), NotifyMedium::Slack),
            c.paused == count_paused(groups@.take(i as int)),
        decreases groups@.len() - i,
    {
        proof {
            lemma_counts_bounded(groups@.take(i as int));
            assert(groups@.take(i + 1).drop_last() =~= groups@.take(i as int));
        }
        let g = groups[i];
        match g.medium {
            NotifyMedium::Discord => { c.discord = c.discord + 1; },
            NotifyMedium::Slack => { c.slack = c.slack + 1; },
        }
        if g.paused {
            c.paused = c.paused + 1;
        }
        i = i + 1;
    }
    assert(groups@.take(groups@.len() as int) =~= groups@);
    c
}

/// A user's summary for the administrator: their groups, by medium, and their filters.
pub fn user_summary(groups: &Vec<GroupSummary>, filter_total: u32) -> (s: UserSummaryData)
    requires
        groups@.len() <= u32::MAX,
    ensures
        s.group_count == groups@.len(),
        s.filter_count == filter_total,
        s.discord_group_count == count_medium(groups@, NotifyMedium::Discord),
        s.slack_group_count == count_medium(groups@, NotifyMedium::Slack),
{
    let c = count_groups(groups);
    UserSummaryData {
        group_count: groups.len() as u32,
        filter_count: filter_total,
        discord_group_count: c.discord,
        slack_group_count: c.slack,
    }
}

/// The number of groups that lack a webhook.
pub fn count_webhook_missing(configs: &Vec<Option<bool>>) -> (n: u32)
    requires
        configs@.len() <= u32::MAX,
    ensures
        n == count_missing(configs@),
{
    let mut n: u32 = 0;
    let mut i: usize = 0;
    while i < configs.len()
        invariant
            i <= configs@.len(),
            configs@.len() <= u32::MAX,
            n == count_missing(configs@.take(i as int)),
            n <= i,
        decreases configs@.len() - i,
    {
        assert(configs@.take(i + 1).drop_last() =~= configs@.take(i as int));
        let missing = match configs[i] {
            Some(true) => false,
            _ => true,
        };
        if missing {
            n = n + 1;
        }
        i = i + 1;
    }
    assert(configs@.take(configs@.len() as int) =~= configs@);
    n
}

/// A user's dashboard. `webhook_configs[i]` tells of group `i`'s settings row
/// (`None`: no row; else whether it holds a webhook); `breakdown` counts the
/// user's filters; the recent entries are passed through.
pub fn get_dashboard<H>(
    groups: &Vec<GroupSummary>,
    webhook_configs: &Vec<Option<bool>>,
    breakdown: FilterBreakdown,
    recent_sent: Vec<H>,
    recent_failed: Vec<H>,
) -> (d: DashboardData<H>)
    requires
        groups@.len() <= u32::MAX,
        webhook_configs@.len() == groups@.len(),
    ensures
        d.group_count == groups@.len(),
        d.filter_count == breakdown.total,
        d.unique_ticker_count == breakdown.unique_ticker_count,
        d.unique_company_name_count == breakdown.unique_company_name_count,
        d.discord_group_count == count_medium(groups@, NotifyMedium::Discord),
        d.slack_group_count == count_medium(groups@, NotifyMedium::Slack),
        d.paused_group_count == count_paused(groups@),
        d.webhook_missing_count == count_missing(webhook_configs@),
        d.recent_sent == recent_sent,
        d.recent_failed == recent_failed,
{
    let c = count_groups(groups);
    let missing = count_webhook_missing(webhook_configs);
    DashboardData {
        group_count: groups.len() as u32,
        filter_count: breakdown.total,
        unique_ticker_count: breakdown.unique_ticker_count,
        unique_company_name_count: breakdown.unique_company_name_count,
        discord_group_count: c.discord,
        slack_group_count: c.slack,
        paused_group_count: c.paused,
        webhook_missing_count: missing,
        recent_sent,
        recent_failed,
    }
}

/// The medium breakdown of a dashboard.
pub fn medium_breakdown<H>(d: &DashboardData<H>) -> (m: MediumBreakdown)
    ensures
        m.discord == d.discord_group_count,
        m.slack == d.slack_group_count,
{
    MediumBreakdown { discord: d.discord_group_count, slack: d.slack_group_count }
}

/// Whether the entries of the recent window suffice: there are at least
/// `min_count` of them (their number taken as a `u32`); else the latest
/// `min_count` entries are shown instead.
pub fn window_suffices(window_len: usize, min_count: u32) -> (b: bool)
    ensures
        b == ((window_len as u32) >= min_count),
{
    (window_len as u32) >= min_count
}

} // verus!

verus! {

/// Every group sends to Discord or to Slack: the two medium counts add up to the group count.
pub proof fn law_mediums_partition_groups(gs: Seq<GroupSummary>)
    ensures
        count_medium(gs, NotifyMedium::Discord) + count_medium(gs, NotifyMedium::Slack) == gs.len(),
        count_paused(gs) <= gs.len(),
{
    lemma_counts_bounded(gs);
}

} // verus!
