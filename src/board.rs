//! The arrival board of one post: which started groups are there now, which
//! have left, and which are on their way.
use vstd::prelude::*;

use crate::auth::{may_operate_post, AuthSession};
use crate::model::{same_text, Group, Post, Scan};

verus! {

/// A group seen at the post, with its visit's times.
#[derive(Debug)]
pub struct GroupStatus {
    pub group: Group,
    pub arrival_time: i64,
    pub departure_time: Option<i64>,
}

/// The board of one post.
#[derive(Debug)]
pub struct PostBoard {
    pub groups_at_post: Vec<GroupStatus>,
    pub groups_left: Vec<GroupStatus>,
    pub groups_coming: Vec<Group>,
}

/// The index of the first visit at or after `i` by group `group_id`.
pub open spec fn visit_by_group(scans: Seq<Scan>, group_id: Seq<char>, i: int) -> Option<int>
    decreases scans.len() - i,
    when 0 <= i
{
    if i >= scans.len() {
        None
    } else if scans[i].group_id@ == group_id {
        Some(i)
    } else {
        visit_by_group(scans, group_id, i + 1)
    }
}

/// Some visit at or after `i` by group `group_id` has a departure.
pub open spec fn departed_from(scans: Seq<Scan>, group_id: Seq<char>, i: int) -> bool
    decreases scans.len() - i,
    when 0 <= i
{
    if i >= scans.len() {
        false
    } else {
        (scans[i].group_id@ == group_id && scans[i].departure_time is Some) || departed_from(
            scans,
            group_id,
            i + 1,
        )
    }
}

/// The index of the first post at or after `i` whose order is below `order`.
pub open spec fn earlier_post(posts: Seq<Post>, order: i32, i: int) -> Option<int>
    decreases posts.len() - i,
    when 0 <= i
{
    if i >= posts.len() {
        None
    } else if posts[i].post_order < order {
        Some(i)
    } else {
        earlier_post(posts, order, i + 1)
    }
}

/// The status row of a group with the given visit.
pub open spec fn status_of(g: Group, s: Scan) -> GroupStatus {
    GroupStatus { group: g, arrival_time: s.arrival_time, departure_time: s.departure_time }
}

/// A started group with an open visit here.
pub open spec fn is_at_post(g: Group, here: Seq<Scan>) -> bool {
    g.start_time is Some && (visit_by_group(here, g.id@, 0) matches Some(j)
        && here[j].departure_time is None)
}

/// A started group whose visit here has a departure.
pub open spec fn has_left(g: Group, here: Seq<Scan>) -> bool {
    g.start_time is Some && (visit_by_group(here, g.id@, 0) matches Some(j)
        && here[j].departure_time is Some)
}

/// A started group without a visit here that is on its way: every such group
/// when there is no earlier post, else one that has left the earlier post.
pub open spec fn is_coming(g: Group, here: Seq<Scan>, has_earlier: bool, earlier: Seq<Scan>) -> bool {
    g.start_time is Some && visit_by_group(here, g.id@, 0) is None && (!has_earlier
        || departed_from(earlier, g.id@, 0))
}

/// The board rows for the first `k` groups, in group order.
pub open spec fn board_upto(
    groups: Seq<Group>,
    here: Seq<Scan>,
    has_earlier: bool,
    earlier: Seq<Scan>,
    k: int,
) -> (Seq<GroupStatus>, Seq<GroupStatus>, Seq<Group>)
    decreases k,
{
    if k <= 0 {
        (Seq::empty(), Seq::empty(), Seq::empty())
    } else {
        let (at, left, coming) = board_upto(groups, here, has_earlier, earlier, k - 1);
        let g = groups[k - 1];
        if is_at_post(g, here) {
            (at.push(status_of(g, here[visit_by_group(here, g.id@, 0)->Some_0])), left, coming)
        } else if has_left(g, here) {
            (at, left.push(status_of(g, here[visit_by_group(here, g.id@, 0)->Some_0])), coming)
        } else if is_coming(g, here, has_earlier, earlier) {
            (at, left, coming.push(g))
        } else {
            (at, left, coming)
        }
    }
}

proof fn lemma_visit_by_group_found(scans: Seq<Scan>, group_id: Seq<char>, i: int)
    requires
        0 <= i,
    ensures
        visit_by_group(scans, group_id, i) matches Some(j) ==> i <= j < scans.len(),
    decreases scans.len() - i,
{
    if i < scans.len() {
        lemma_visit_by_group_found(scans, group_id, i + 1);
    }
}

/// The earlier post whose leavers this post's board shows as coming: the
/// first post of the route whose order is below `post_order`.
pub fn previous_post(posts: &Vec<Post>, post_order: i32) -> (r: Option<usize>)
    ensures
        match r {
            Some(i) => i < posts.len() && earlier_post(posts@, post_order, 0) == Some(i as int),
            None => earlier_post(posts@, post_order, 0) is None,
        },
{
    let mut i: usize = 0;
    while i < posts.len()
        invariant
            0 <= i <= posts.len(),
            earlier_post(posts@, post_order, 0) == earlier_post(posts@, post_order, i as int),
        decreases posts.len() - i,
    {
        if posts[i].post_order < post_order {
            return Some(i);
        }
        i = i + 1;
    }
    None
}

fn find_group_visit(scans: &Vec<Scan>, group_id: &str) -> (r: Option<usize>)
    ensures
        match r {
            Some(i) => i < scans.len() && visit_by_group(scans@, group_id@, 0) == Some(i as int),
            None => visit_by_group(scans@, group_id@, 0) is None,
        },
{
    let mut i: usize = 0;
    while i < scans.len()
        invariant
            0 <= i <= scans.len(),
            visit_by_group(scans@, group_id@, 0) == visit_by_group(scans@, group_id@, i as int),
        decreases scans.len() - i,
    {
        if same_text(scans[i].group_id.as_str(), group_id) {
            return Some(i);
        }
        i = i + 1;
    }
    None
}

fn has_departed(scans: &Vec<Scan>, group_id: &str) -> (r: bool)
    ensures
        r == departed_from(scans@, group_id@, 0),
{
    let mut i: usize = 0;
    while i < scans.len()
        invariant
            0 <= i <= scans.len(),
            departed_from(scans@, group_id@, 0) == departed_from(scans@, group_id@, i as int),
        decreases scans.len() - i,
    {
        if scans[i].departure_time.is_some() && same_text(scans[i].group_id.as_str(), group_id) {
            return true;
        }
        i = i + 1;
    }
    false
}

/// The board of a post, given all groups, the visits at the post, whether
/// there is an earlier post, and the visits at that earlier post. Groups that
/// have not started are not shown.
pub fn post_overview(
    groups: &Vec<Group>,
    here: &Vec<Scan>,
    has_earlier: bool,
    earlier: &Vec<Scan>,
) -> (r: PostBoard)
    ensures
        (r.groups_at_post@, r.groups_left@, r.groups_coming@) == board_upto(
            groups@,
            here@,
            has_earlier,
            earlier@,
            groups.len() as int,
        ),
{
    let mut at: Vec<GroupStatus> = Vec::new();
    let mut left: Vec<GroupStatus> = Vec::new();
    let mut coming: Vec<Group> = Vec::new();
    let mut k: usize = 0;
    while k < groups.len()
        invariant
            0 <= k <= groups.len(),
            (at@, left@, coming@) == board_upto(groups@, here@, has_earlier, earlier@, k as int),
        decreases groups.len() - k,
    {
        let g = &groups[k];
        if g.start_time.is_some() {
            proof {
                lemma_visit_by_group_found(here@, g.id@, 0);
            }
            match find_group_visit(here, g.id.as_str()) {
                Some(j) => {
                    let s = &here[j];
                    let row = GroupStatus {
                        group: g.cloned(),
                        arrival_time: s.arrival_time,
                        departure_time: s.departure_time,
                    };
                    if s.departure_time.is_some() {
                        left.push(row);
                    } else {
                        at.push(row);
                    }
                },
                None => {
                    if !has_earlier || has_departed(earlier, g.id.as_str()) {
                        coming.push(g.cloned());
                    }
                },
            }
        }
        k = k + 1;
    }
    PostBoard { groups_at_post: at, groups_left: left, groups_coming: coming }
}

} // verus!
