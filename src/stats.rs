//! The timing calculator: time at each post, time at posts in all ("idle"),
//! time since the start ("total"), and the rest ("walking").
use vstd::prelude::*;

use crate::error::EngineError;
use crate::model::{Group, Post, Scan};
use crate::progress::{find_scan, visit_at};
use crate::time::{now_naive, valid_time, TIME_BOUND};

verus! {

/// One post of a group's progress, with its visit and the time spent there.
#[derive(Debug)]
pub struct PostScanInfo {
    pub post: Post,
    pub scan: Option<Scan>,
    pub idle_time: Option<i128>,
}

/// A group's durations in seconds, with the per-post breakdown.
#[derive(Debug)]
pub struct GroupStats {
    pub total_time: Option<i128>,
    pub walking_time: Option<i128>,
    pub idle_time: i128,
    pub post_scans: Vec<PostScanInfo>,
}

/// The time spent at a visit; an open visit counts up to `now`.
pub open spec fn dwell(scan: Scan, now: i64) -> int {
    match scan.departure_time {
        Some(d) => d - scan.arrival_time,
        None => now - scan.arrival_time,
    }
}

/// The time spent at post `k`, when the group has visited it.
pub open spec fn post_dwell(posts: Seq<Post>, scans: Seq<Scan>, k: int, now: i64) -> Option<int> {
    match visit_at(scans, posts[k].id@) {
        Some(j) => Some(dwell(scans[j], now)),
        None => None,
    }
}

/// The time spent at the first `k` posts.
pub open spec fn idle_upto(posts: Seq<Post>, scans: Seq<Scan>, now: i64, k: int) -> int
    decreases k,
{
    if k <= 0 {
        0
    } else {
        idle_upto(posts, scans, now, k - 1) + match post_dwell(posts, scans, k - 1, now) {
            Some(d) => d,
            None => 0,
        }
    }
}

/// The time spent at all posts.
pub open spec fn idle_time_of(posts: Seq<Post>, scans: Seq<Scan>, now: i64) -> int {
    idle_upto(posts, scans, now, posts.len() as int)
}

/// The time since the start, up to the finish or, while running, up to `now`;
/// none before the start.
pub open spec fn total_time_of(group: Group, now: i64) -> Option<int> {
    match group.start_time {
        Some(s) => match group.finish_time {
            Some(f) => Some(f - s),
            None => Some(now - s),
        },
        None => None,
    }
}

/// The time not spent at posts, when the total is defined.
pub open spec fn walking_time_of(group: Group, posts: Seq<Post>, scans: Seq<Scan>, now: i64) -> Option<
    int,
> {
    match total_time_of(group, now) {
        Some(t) => Some(t - idle_time_of(posts, scans, now)),
        None => None,
    }
}

/// An optional duration as a mathematical integer.
pub open spec fn opt_int(d: Option<i128>) -> Option<int> {
    match d {
        Some(v) => Some(v as int),
        None => None,
    }
}

/// All visits have their timestamps in range.
pub open spec fn scans_in_range(scans: Seq<Scan>) -> bool {
    forall|i: int| 0 <= i < scans.len() ==> (#[trigger] scans[i]).times_in_range()
}

/// Entry `k` of the breakdown describes post `k` at time `now`.
pub open spec fn entry_matches(
    e: PostScanInfo,
    posts: Seq<Post>,
    scans: Seq<Scan>,
    k: int,
    now: i64,
) -> bool {
    &&& e.post == posts[k]
    &&& e.scan == match visit_at(scans, posts[k].id@) {
        Some(j) => Some(scans[j]),
        None => None::<Scan>,
    }
    &&& opt_int(e.idle_time) == post_dwell(posts, scans, k, now)
}

/// `st` holds the durations of `group` at time `now`.
pub open spec fn stats_match(
    st: GroupStats,
    group: Group,
    posts: Seq<Post>,
    scans: Seq<Scan>,
    now: i64,
) -> bool {
    &&& st.post_scans.len() == posts.len()
    &&& forall|k: int|
        0 <= k < posts.len() ==> entry_matches(#[trigger] st.post_scans@[k], posts, scans, k, now)
    &&& st.idle_time == idle_time_of(posts, scans, now)
    &&& opt_int(st.total_time) == total_time_of(group, now)
    &&& opt_int(st.walking_time) == walking_time_of(group, posts, scans, now)
}

/// The durations of `group` at time `now`, for the posts in route order and the
/// group's visits. Visits at posts not in `posts` are left out.
pub fn group_stats_at(group: &Group, scans: &Vec<Scan>, posts: &Vec<Post>, now: i64) -> (r:
    GroupStats)
    requires
        group.times_in_range(),
        scans_in_range(scans@),
        valid_time(now),
    ensures
        stats_match(r, *group, posts@, scans@, now),
{
    let mut post_scans: Vec<PostScanInfo> = Vec::new();
    let mut idle: i128 = 0;
    let mut k: usize = 0;
    while k < posts.len()
        invariant
            0 <= k <= posts.len(),
            valid_time(now),
            scans_in_range(scans@),
            post_scans.len() == k,
            forall|q: int|
                0 <= q < k ==> entry_matches(#[trigger] post_scans@[q], posts@, scans@, q, now),
            idle == idle_upto(posts@, scans@, now, k as int),
            -(k as int) * 17592186044416 <= idle <= (k as int) * 17592186044416,
        decreases posts.len() - k,
    {
        let found = find_scan(scans, posts[k].id.as_str());
        let (scan, dw) = match found {
            Some(j) => {
                let s = &scans[j];
                assert(s.times_in_range());
                let end: i64 = match s.departure_time {
                    Some(d) => d,
                    None => now,
                };
                let d: i128 = end as i128 - s.arrival_time as i128;
                (Some(s.cloned()), Some(d))
            },
            None => (None, None),
        };
        match dw {
            Some(d) => {
                idle = idle + d;
            },
            None => {},
        }
        post_scans.push(PostScanInfo { post: posts[k].cloned(), scan, idle_time: dw });
        k = k + 1;
    }
    let total_time: Option<i128> = match group.start_time {
        Some(s) => {
            let end: i64 = match group.finish_time {
                Some(f) => f,
                None => now,
            };
            Some(end as i128 - s as i128)
        },
        None => None,
    };
    let walking_time: Option<i128> = match total_time {
        Some(t) => Some(t - idle),
        None => None,
    };
    GroupStats { total_time, walking_time, idle_time: idle, post_scans }
}

/// The durations of `group` as of now.
pub fn calculate_group_stats(group: &Group, scans: &Vec<Scan>, posts: &Vec<Post>) -> (r:
    GroupStats)
    requires
        group.times_in_range(),
        scans_in_range(scans@),
    ensures
        exists|now: i64| valid_time(now) && stats_match(r, *group, posts@, scans@, now),
{
    let now = now_naive();
    group_stats_at(group, scans, posts, now)
}

/// A duration that is present and negative.
pub open spec fn negative(d: Option<i128>) -> bool {
    match d {
        Some(v) => v < 0,
        None => false,
    }
}

impl GroupStats {
    /// Whether any duration came out negative.
    pub open spec fn has_negative(&self) -> bool {
        ||| self.idle_time < 0
        ||| negative(self.total_time)
        ||| negative(self.walking_time)
        ||| exists|k: int|
            0 <= k < self.post_scans.len() && negative(#[trigger] self.post_scans@[k].idle_time)
    }

    /// Reports a negative duration as a data integrity fault.
    pub fn integrity(&self) -> (r: Result<(), EngineError>)
        ensures
            r == if self.has_negative() {
                Err(EngineError::DataIntegrityFault)
            } else {
                Ok(())
            },
    {
        let mut k: usize = 0;
        while k < self.post_scans.len()
            invariant
                0 <= k <= self.post_scans.len(),
                forall|q: int|
                    0 <= q < k ==> !negative(#[trigger] self.post_scans@[q].idle_time),
            decreases self.post_scans.len() - k,
        {
            match self.post_scans[k].idle_time {
                Some(d) => {
                    if d < 0 {
                        return Err(EngineError::DataIntegrityFault);
                    }
                },
                None => {},
            }
            k = k + 1;
        }
        let neg_total = match self.total_time {
            Some(t) => t < 0,
            None => false,
        };
        let neg_walk = match self.walking_time {
            Some(w) => w < 0,
            None => false,
        };
        if self.idle_time < 0 || neg_total || neg_walk {
            Err(EngineError::DataIntegrityFault)
        } else {
            Ok(())
        }
    }
}

proof fn lemma_idle_upto_grows(posts: Seq<Post>, scans: Seq<Scan>, early: i64, late: i64, k: int)
    requires
        early <= late,
    ensures
        idle_upto(posts, scans, early, k) <= idle_upto(posts, scans, late, k),
    decreases k,
{
    if k > 0 {
        lemma_idle_upto_grows(posts, scans, early, late, k - 1);
    }
}

/// Re-computing the idle time later, with nothing changed, never gives less:
/// only open visits depend on the time, and they only grow.
pub proof fn lemma_idle_time_monotone(posts: Seq<Post>, scans: Seq<Scan>, early: i64, late: i64)
    requires
        early <= late,
    ensures
        idle_time_of(posts, scans, early) <= idle_time_of(posts, scans, late),
{
    lemma_idle_upto_grows(posts, scans, early, late, posts.len() as int);
}

/// Whenever the total time is defined, it is exactly the idle time plus the
/// walking time.
pub proof fn lemma_total_is_idle_plus_walking(
    group: Group,
    posts: Seq<Post>,
    scans: Seq<Scan>,
    now: i64,
)
    requires
        total_time_of(group, now) is Some,
    ensures
        walking_time_of(group, posts, scans, now) matches Some(w) && total_time_of(group, now)
            == Some(idle_time_of(posts, scans, now) + w),
{
}

} // verus!
