//! The ranking engine: finished groups ordered by a chosen duration, groups
//! that visited every post first, ties kept in their given order, ranks
//! 1, 2, 3, ... by position.
use vstd::prelude::*;

use crate::model::{same_text, Group, Post, Scan};
use crate::progress::{find_scan, visit_at};
use crate::stats::scans_in_range;

verus! {

/// The duration that orders the ranking.
#[derive(Debug, Clone, Copy, PartialEq, Eq, Structural)]
pub enum SortBy {
    Total,
    Walking,
}

/// A group with its visits.
#[derive(Debug)]
pub struct GroupRecord {
    pub group: Group,
    pub scans: Vec<Scan>,
}

/// A finished group's place in the ranking, with its durations in seconds.
#[derive(Debug)]
pub struct RankedGroup {
    pub rank: usize,
    pub group: Group,
    pub total_time_secs: Option<i128>,
    pub walking_time_secs: Option<i128>,
    pub idle_time_secs: i128,
    pub posts_visited: usize,
    pub total_posts: usize,
    pub visited_all_posts: bool,
}

/// The time spent at post `k`, counted only once the group has left it.
pub open spec fn departed_dwell(posts: Seq<Post>, scans: Seq<Scan>, k: int) -> int {
    match visit_at(scans, posts[k].id@) {
        Some(j) => match scans[j].departure_time {
            Some(d) => d - scans[j].arrival_time,
            None => 0,
        },
        None => 0,
    }
}

/// The time spent at the first `k` posts that the group has left.
pub open spec fn departed_idle_upto(posts: Seq<Post>, scans: Seq<Scan>, k: int) -> int
    decreases k,
{
    if k <= 0 {
        0
    } else {
        departed_idle_upto(posts, scans, k - 1) + departed_dwell(posts, scans, k - 1)
    }
}

/// The time between start and finish, when both are set.
pub open spec fn finished_total(group: Group) -> Option<int> {
    match (group.start_time, group.finish_time) {
        (Some(s), Some(f)) => Some(f - s),
        _ => None,
    }
}

/// The ranking entry of a group (its rank not yet assigned).
pub open spec fn entry_of(rec: GroupRecord, posts: Seq<Post>) -> RankedGroup {
    let idle = departed_idle_upto(posts, rec.scans@, posts.len() as int);
    RankedGroup {
        rank: 0,
        group: rec.group,
        total_time_secs: match finished_total(rec.group) {
            Some(t) => Some(t as i128),
            None => None,
        },
        walking_time_secs: match finished_total(rec.group) {
            Some(t) => Some((t - idle) as i128),
            None => None,
        },
        idle_time_secs: idle as i128,
        posts_visited: rec.scans@.len() as usize,
        total_posts: posts.len() as usize,
        visited_all_posts: rec.scans.len() >= posts.len(),
    }
}

/// The entries of the finished groups among the first `k` records, in order.
pub open spec fn finished_entries(records: Seq<GroupRecord>, posts: Seq<Post>, k: int) -> Seq<
    RankedGroup,
>
    decreases k,
{
    if k <= 0 {
        Seq::empty()
    } else if records[k - 1].group.finish_time is Some {
        finished_entries(records, posts, k - 1).push(entry_of(records[k - 1], posts))
    } else {
        finished_entries(records, posts, k - 1)
    }
}

/// Groups that visited every post come first.
pub open spec fn tier(e: RankedGroup) -> int {
    if e.visited_all_posts {
        0
    } else {
        1
    }
}

/// The chosen duration, with the largest value standing in for a missing one.
pub open spec fn metric(e: RankedGroup, by: SortBy) -> int {
    let m = match by {
        SortBy::Total => e.total_time_secs,
        SortBy::Walking => e.walking_time_secs,
    };
    match m {
        Some(v) => v as int,
        None => i128::MAX as int,
    }
}

/// `a` ranks strictly ahead of `b` on the sort key.
pub open spec fn key_less(a: RankedGroup, b: RankedGroup, by: SortBy) -> bool {
    tier(a) < tier(b) || (tier(a) == tier(b) && metric(a, by) < metric(b, by))
}

/// Entry `x` comes before entry `y`: ahead on the key, or level and earlier.
pub open spec fn ranks_before(entries: Seq<RankedGroup>, by: SortBy, x: int, y: int) -> bool {
    key_less(entries[x], entries[y], by) || (!key_less(entries[y], entries[x], by) && x < y)
}

/// `order` lists every entry's index once, in ranking order.
pub open spec fn is_rank_order(entries: Seq<RankedGroup>, by: SortBy, order: Seq<int>) -> bool {
    &&& order.len() == entries.len()
    &&& forall|i: int| 0 <= i < order.len() ==> 0 <= #[trigger] order[i] < entries.len()
    &&& forall|i: int, j: int|
        0 <= i < j < order.len() ==> ranks_before(entries, by, #[trigger] order[i], #[trigger] order[j])
}

/// `ranked` is `entries` in ranking order, ranked 1, 2, 3, ... by position.
pub open spec fn is_ranking(ranked: Seq<RankedGroup>, entries: Seq<RankedGroup>, by: SortBy) -> bool {
    &&& ranked.len() == entries.len()
    &&& ranked.len() <= usize::MAX
    &&& exists|order: Seq<int>|
        is_rank_order(entries, by, order) && forall|i: int|
            0 <= i < ranked.len() ==> #[trigger] ranked[i] == (RankedGroup {
                rank: (i + 1) as usize,
                ..entries[order[i]]
            })
}

impl SortBy {
    /// The sort a request names: walking time for `walking`, else total time.
    pub fn parse(sort: &Option<String>) -> (r: SortBy)
        ensures
            r == if sort matches Some(s) && s@ == "walking"@ {
                SortBy::Walking
            } else {
                SortBy::Total
            },
    {
        match sort {
            Some(s) => {
                if same_text(s.as_str(), "walking") {
                    SortBy::Walking
                } else {
                    SortBy::Total
                }
            },
            None => SortBy::Total,
        }
    }
}

/// The ranking entry of one group, for the posts of the event.
pub fn rank_entry(rec: &GroupRecord, posts: &Vec<Post>) -> (r: RankedGroup)
    requires
        rec.group.times_in_range(),
        scans_in_range(rec.scans@),
    ensures
        r == entry_of(*rec, posts@),
{
    let scans = &rec.scans;
    let mut idle: i128 = 0;
    let mut k: usize = 0;
    while k < posts.len()
        invariant
            0 <= k <= posts.len(),
            scans_in_range(scans@),
            idle == departed_idle_upto(posts@, scans@, k as int),
            -(k as int) * 17592186044416 <= idle <= (k as int) * 17592186044416,
        decreases posts.len() - k,
    {
        match find_scan(scans, posts[k].id.as_str()) {
            Some(j) => {
                assert(scans@[j as int].times_in_range());
                match scans[j].departure_time {
                    Some(d) => {
                        idle = idle + (d as i128 - scans[j].arrival_time as i128);
                    },
                    None => {},
                }
            },
            None => {},
        }
        k = k + 1;
    }
    let g = &rec.group;
    let total: Option<i128> = match (g.start_time, g.finish_time) {
        (Some(s), Some(f)) => Some(f as i128 - s as i128),
        _ => None,
    };
    let walking: Option<i128> = match total {
        Some(t) => Some(t - idle),
        None => None,
    };
    RankedGroup {
        rank: 0,
        group: g.cloned(),
        total_time_secs: total,
        walking_time_secs: walking,
        idle_time_secs: idle,
        posts_visited: scans.len(),
        total_posts: posts.len() as usize,
        visited_all_posts: scans.len() >= posts.len(),
    }
}

fn metric_value(e: &RankedGroup, by: SortBy) -> (r: i128)
    ensures
        r as int == metric(*e, by),
{
    let m = match by {
        SortBy::Total => e.total_time_secs,
        SortBy::Walking => e.walking_time_secs,
    };
    match m {
        Some(v) => v,
        None => i128::MAX,
    }
}

fn ahead_on_key(a: &RankedGroup, b: &RankedGroup, by: SortBy) -> (r: bool)
    ensures
        r == key_less(*a, *b, by),
{
    let ta: u8 = if a.visited_all_posts {
        0
    } else {
        1
    };
    let tb: u8 = if b.visited_all_posts {
        0
    } else {
        1
    };
    ta < tb || (ta == tb && metric_value(a, by) < metric_value(b, by))
}

/// The indices of `entries` in ranking order: by tier (all posts visited
/// first), then by the chosen duration, then by position in `entries`.
pub fn ranking_order(entries: &Vec<RankedGroup>, by: SortBy) -> (r: Vec<usize>)
    ensures
        is_rank_order(entries@, by, r@.map_values(|x: usize| x as int)),
{
    let mut order: Vec<usize> = Vec::new();
    let mut i: usize = 0;
    while i < entries.len()
        invariant
            0 <= i <= entries.len(),
            order.len() == i,
            forall|q: int| 0 <= q < i ==> #[trigger] order@[q] < i,
            forall|a: int, b: int|
                0 <= a < b < i ==> ranks_before(
                    entries@,
                    by,
                    #[trigger] order@[a] as int,
                    #[trigger] order@[b] as int,
                ),
        decreases entries.len() - i,
    {
        let mut p: usize = 0;
        while p < order.len() && !ahead_on_key(&entries[i], &entries[order[p]], by)
            invariant
                0 <= p <= order.len(),
                order.len() == i,
                i < entries.len(),
                forall|q: int| 0 <= q < i ==> #[trigger] order@[q] < i,
                forall|q: int|
                    0 <= q < p ==> !key_less(entries@[i as int], entries@[#[trigger] order@[q] as int], by),
            decreases order.len() - p,
        {
            p = p + 1;
        }
        let ghost old_order = order@;
        order.insert(p, i);
        assert forall|a: int, b: int| 0 <= a < b < i + 1 implies ranks_before(
            entries@,
            by,
            #[trigger] order@[a] as int,
            #[trigger] order@[b] as int,
        ) by {
            if b < p {
                assert(order@[a] == old_order[a] && order@[b] == old_order[b]);
            } else if a > p {
                assert(order@[a] == old_order[a - 1] && order@[b] == old_order[b - 1]);
            } else if a < p && b > p {
                assert(order@[a] == old_order[a] && order@[b] == old_order[b - 1]);
            } else if a == p {
                assert(order@[a] == i);
                assert(order@[b] == old_order[b - 1]);
                if b - 1 > p {
                    assert(ranks_before(entries@, by, old_order[p as int] as int, old_order[b - 1] as int));
                }
            } else {
                assert(b == p && order@[b] == i && order@[a] == old_order[a]);
            }
        }
        i = i + 1;
    }
    order
}

/// Ranks the finished groups among `records` for the posts of the event;
/// groups that have not finished get no rank.
pub fn rank_groups(records: &Vec<GroupRecord>, posts: &Vec<Post>, by: SortBy) -> (r: Vec<
    RankedGroup,
>)
    requires
        forall|k: int|
            0 <= k < records.len() ==> (#[trigger] records@[k]).group.times_in_range()
                && scans_in_range(records@[k].scans@),
    ensures
        is_ranking(r@, finished_entries(records@, posts@, records.len() as int), by),
{
    let mut entries: Vec<RankedGroup> = Vec::new();
    let mut k: usize = 0;
    while k < records.len()
        invariant
            0 <= k <= records.len(),
            forall|q: int|
                0 <= q < records.len() ==> (#[trigger] records@[q]).group.times_in_range()
                    && scans_in_range(records@[q].scans@),
            entries@ == finished_entries(records@, posts@, k as int),
        decreases records.len() - k,
    {
        if records[k].group.finish_time.is_some() {
            let e = rank_entry(&records[k], posts);
            entries.push(e);
        }
        k = k + 1;
    }
    let order = ranking_order(&entries, by);
    let ghost ord = order@.map_values(|x: usize| x as int);
    let mut ranked: Vec<RankedGroup> = Vec::new();
    let mut i: usize = 0;
    while i < order.len()
        invariant
            0 <= i <= order.len(),
            is_rank_order(entries@, by, ord),
            ord == order@.map_values(|x: usize| x as int),
            ranked.len() == i,
            forall|q: int|
                0 <= q < i ==> #[trigger] ranked@[q] == (RankedGroup {
                    rank: (q + 1) as usize,
                    ..entries@[ord[q]]
                }),
        decreases order.len() - i,
    {
        assert(0 <= ord[i as int] < entries.len());
        let e = &entries[order[i]];
        ranked.push(
            RankedGroup {
                rank: i + 1,
                group: e.group.cloned(),
                total_time_secs: e.total_time_secs,
                walking_time_secs: e.walking_time_secs,
                idle_time_secs: e.idle_time_secs,
                posts_visited: e.posts_visited,
                total_posts: e.total_posts,
                visited_all_posts: e.visited_all_posts,
            },
        );
        i = i + 1;
    }
    ranked
}

/// In any ranking, a group that visited every post is never ranked below one
/// that did not, whatever their times.
pub proof fn lemma_complete_groups_first(
    ranked: Seq<RankedGroup>,
    entries: Seq<RankedGroup>,
    by: SortBy,
    i: int,
    j: int,
)
    requires
        is_ranking(ranked, entries, by),
        0 <= i < j < ranked.len(),
        ranked[j].visited_all_posts,
    ensures
        ranked[i].visited_all_posts,
{
    let order = choose|order: Seq<int>|
        is_rank_order(entries, by, order) && forall|q: int|
            0 <= q < ranked.len() ==> #[trigger] ranked[q] == (RankedGroup {
                rank: (q + 1) as usize,
                ..entries[order[q]]
            });
    assert(ranked[i] == (RankedGroup { rank: (i + 1) as usize, ..entries[order[i]] }));
    assert(ranked[j] == (RankedGroup { rank: (j + 1) as usize, ..entries[order[j]] }));
    assert(ranks_before(entries, by, order[i], order[j]));
}

/// Groups level on the sort key keep their given relative order.
pub proof fn lemma_ties_keep_order(
    entries: Seq<RankedGroup>,
    by: SortBy,
    order: Seq<int>,
    i: int,
    j: int,
)
    requires
        is_rank_order(entries, by, order),
        0 <= i < j < order.len(),
        tier(entries[order[i]]) == tier(entries[order[j]]),
        metric(entries[order[i]], by) == metric(entries[order[j]], by),
    ensures
        order[i] < order[j],
{
    assert(ranks_before(entries, by, order[i], order[j]));
}

/// In any ranking the ranks are 1, 2, 3, ... by position: no two groups share one.
pub proof fn lemma_ranks_distinct(
    ranked: Seq<RankedGroup>,
    entries: Seq<RankedGroup>,
    by: SortBy,
    i: int,
)
    requires
        is_ranking(ranked, entries, by),
        0 <= i < ranked.len(),
    ensures
        ranked[i].rank == i + 1,
{
    let order = choose|order: Seq<int>|
        is_rank_order(entries, by, order) && forall|q: int|
            0 <= q < ranked.len() ==> #[trigger] ranked[q] == (RankedGroup {
                rank: (q + 1) as usize,
                ..entries[order[q]]
            });
    assert(ranked[i] == (RankedGroup { rank: (i + 1) as usize, ..entries[order[i]] }));
}

} // verus!
