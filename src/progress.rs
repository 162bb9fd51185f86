//! The progress state machine: the single next step of a group, derived from
//! its clock and its visits each time it is asked for, and the text form of a
//! step as forms carry it.
use vstd::prelude::*;

use crate::model::{same_text, Group, Post, Scan};

verus! {

/// A step of a group's progress.
#[derive(Debug)]
pub enum NextAction {
    /// Start the group's clock (administrator only).
    StartTimer,
    /// The group arrives at a post.
    Arrive { post_id: String },
    /// The group leaves a post.
    Leave { post_id: String },
    /// Stop the group's clock (administrator only).
    StopTimer,
}

/// The index of the first visit at or after `i` that is at post `post_id`.
pub open spec fn scan_for_post(scans: Seq<Scan>, post_id: Seq<char>, i: int) -> Option<int>
    decreases scans.len() - i,
    when 0 <= i
{
    if i >= scans.len() {
        None
    } else if scans[i].post_id@ == post_id {
        Some(i)
    } else {
        scan_for_post(scans, post_id, i + 1)
    }
}

/// The index of the visit at post `post_id`, if there is one.
pub open spec fn visit_at(scans: Seq<Scan>, post_id: Seq<char>) -> Option<int> {
    scan_for_post(scans, post_id, 0)
}

/// At most one visit per post: the stored invariant of a group's visits.
pub open spec fn one_visit_per_post(scans: Seq<Scan>) -> bool {
    forall|i: int, j: int|
        0 <= i < j < scans.len() ==> #[trigger] scans[i].post_id@ != #[trigger] scans[j].post_id@
}

/// The step due once the posts before `k` are done: arrive at the first post
/// from `k` on without a visit, or leave the first whose visit is open,
/// whichever comes first in the order of `posts`; stop the clock when none is left.
pub open spec fn step_from(posts: Seq<Post>, scans: Seq<Scan>, k: int) -> NextAction
    decreases posts.len() - k,
    when 0 <= k
{
    if k >= posts.len() {
        NextAction::StopTimer
    } else {
        match visit_at(scans, posts[k].id@) {
            None => NextAction::Arrive { post_id: posts[k].id },
            Some(j) => if scans[j].departure_time is None {
                NextAction::Leave { post_id: posts[k].id }
            } else {
                step_from(posts, scans, k + 1)
            },
        }
    }
}

/// The next step of `group`: none once finished, starting the clock before
/// it has started, else the first unfinished post in the order of `posts`.
pub open spec fn next_action_of(group: Group, posts: Seq<Post>, scans: Seq<Scan>) -> Option<
    NextAction,
> {
    if group.finish_time is Some {
        None
    } else if group.start_time is None {
        Some(NextAction::StartTimer)
    } else {
        Some(step_from(posts, scans, 0))
    }
}

/// The text that forms carry for a step.
pub open spec fn action_text(a: NextAction) -> Seq<char> {
    match a {
        NextAction::StartTimer => "__START_TIMER__"@,
        NextAction::Arrive { post_id } => "ARRIVE_"@ + post_id@,
        NextAction::Leave { post_id } => "LEAVE_"@ + post_id@,
        NextAction::StopTimer => "__STOP_TIMER__"@,
    }
}

/// The index of the visit at post `post_id`.
pub fn find_scan(scans: &Vec<Scan>, post_id: &str) -> (r: Option<usize>)
    ensures
        match r {
            Some(i) => i < scans.len() && visit_at(scans@, post_id@) == Some(i as int),
            None => visit_at(scans@, post_id@) is None,
        },
{
    let mut i: usize = 0;
    while i < scans.len()
        invariant
            0 <= i <= scans.len(),
            visit_at(scans@, post_id@) == scan_for_post(scans@, post_id@, i as int),
        decreases scans.len() - i,
    {
        if same_text(scans[i].post_id.as_str(), post_id) {
            return Some(i);
        }
        i = i + 1;
    }
    None
}

/// The next step of `group`, given the posts in route order (ascending
/// `post_order`) and the group's visits.
pub fn get_next_action(group: &Group, posts: &Vec<Post>, scans: &Vec<Scan>) -> (r: Option<
    NextAction,
>)
    ensures
        r == next_action_of(*group, posts@, scans@),
{
    if group.finish_time.is_some() {
        return None;
    }
    if group.start_time.is_none() {
        return Some(NextAction::StartTimer);
    }
    let mut k: usize = 0;
    while k < posts.len()
        invariant
            0 <= k <= posts.len(),
            group.finish_time is None,
            group.start_time is Some,
            next_action_of(*group, posts@, scans@) == Some(step_from(posts@, scans@, k as int)),
        decreases posts.len() - k,
    {
        match find_scan(scans, posts[k].id.as_str()) {
            None => {
                return Some(NextAction::Arrive { post_id: posts[k].id.clone() });
            },
            Some(j) => {
                if scans[j].departure_time.is_none() {
                    return Some(NextAction::Leave { post_id: posts[k].id.clone() });
                }
            },
        }
        k = k + 1;
    }
    Some(NextAction::StopTimer)
}

/// `s` without the leading `prefix`, when it starts with it.
fn strip_prefix(s: &str, prefix: &str) -> (r: Option<String>)
    ensures
        match r {
            Some(rest) => s@ == prefix@ + rest@,
            None => !(prefix@.len() <= s@.len() && s@.subrange(0, prefix@.len() as int) == prefix@),
        },
{
    let n = s.unicode_len();
    let m = prefix.unicode_len();
    if m > n {
        return None;
    }
    let head = s.substring_char(0, m);
    if !same_text(head, prefix) {
        return None;
    }
    let rest = s.substring_char(m, n);
    proof {
        assert(s@ =~= prefix@ + rest@);
    }
    Some(String::from_str(rest))
}

fn text_of(lit: &str) -> (r: String)
    ensures
        r@ == lit@,
{
    String::from_str(lit)
}

impl NextAction {
    /// The text that forms carry for this step.
    pub fn action_id(&self) -> (r: String)
        ensures
            r@ == action_text(*self),
    {
        match self {
            NextAction::StartTimer => text_of("__START_TIMER__"),
            NextAction::Arrive { post_id } => {
                let mut s = text_of("ARRIVE_");
                s.append(post_id.as_str());
                s
            },
            NextAction::Leave { post_id } => {
                let mut s = text_of("LEAVE_");
                s.append(post_id.as_str());
                s
            },
            NextAction::StopTimer => text_of("__STOP_TIMER__"),
        }
    }

    /// Reads the step that a form's text names; `None` for any other text.
    pub fn parse(text: &str) -> (r: Option<NextAction>)
        ensures
            match r {
                Some(a) => action_text(a) == text@,
                None => forall|a: NextAction| action_text(a) != text@,
            },
    {
        proof {
            reveal_strlit("__START_TIMER__");
            reveal_strlit("__STOP_TIMER__");
            reveal_strlit("ARRIVE_");
            reveal_strlit("LEAVE_");
        }
        if same_text(text, "__START_TIMER__") {
            return Some(NextAction::StartTimer);
        }
        if same_text(text, "__STOP_TIMER__") {
            return Some(NextAction::StopTimer);
        }
        match strip_prefix(text, "ARRIVE_") {
            Some(rest) => {
                return Some(NextAction::Arrive { post_id: rest });
            },
            None => {},
        }
        match strip_prefix(text, "LEAVE_") {
            Some(rest) => {
                return Some(NextAction::Leave { post_id: rest });
            },
            None => {},
        }
        proof {
            assert forall|a: NextAction| action_text(a) != text@ by {
                match a {
                    NextAction::Arrive { post_id } => {
                        if action_text(a) == text@ {
                            assert(text@.subrange(0, 7) =~= "ARRIVE_"@);
                        }
                    },
                    NextAction::Leave { post_id } => {
                        if action_text(a) == text@ {
                            assert(text@.subrange(0, 6) =~= "LEAVE_"@);
                        }
                    },
                    _ => {},
                }
            }
        }
        None
    }
}

/// A visit found for a post lies in range and is at that post.
pub proof fn lemma_scan_for_post_found(scans: Seq<Scan>, post_id: Seq<char>, i: int)
    requires
        0 <= i,
    ensures
        scan_for_post(scans, post_id, i) matches Some(j) ==> i <= j < scans.len()
            && scans[j].post_id@ == post_id,
    decreases scans.len() - i,
{
    if i < scans.len() {
        lemma_scan_for_post_found(scans, post_id, i + 1);
    }
}

/// The visit found for a post is the only one there, wherever the search starts before it.
proof fn lemma_unique_visit_found(scans: Seq<Scan>, post_id: Seq<char>, i: int, j: int)
    requires
        one_visit_per_post(scans),
        0 <= i <= j < scans.len(),
        scans[j].post_id@ == post_id,
    ensures
        scan_for_post(scans, post_id, i) == Some(j),
    decreases j - i,
{
    if i < j {
        assert(scans[i].post_id@ != scans[j].post_id@);
        lemma_unique_visit_found(scans, post_id, i + 1, j);
    }
}

proof fn lemma_done_from(posts: Seq<Post>, scans: Seq<Scan>, k: int)
    requires
        0 <= k <= posts.len(),
        one_visit_per_post(scans),
        forall|q: int|
            0 <= q < posts.len() ==> exists|j: int|
                0 <= j < scans.len() && #[trigger] scans[j].post_id@ == (#[trigger] posts[q]).id@
                    && scans[j].departure_time is Some,
    ensures
        step_from(posts, scans, k) == NextAction::StopTimer,
    decreases posts.len() - k,
{
    if k < posts.len() {
        let j = choose|j: int|
            0 <= j < scans.len() && #[trigger] scans[j].post_id@ == posts[k].id@
                && scans[j].departure_time is Some;
        lemma_unique_visit_found(scans, posts[k].id@, 0, j);
        lemma_done_from(posts, scans, k + 1);
    }
}

/// A group whose clock has not started and that has no visits is due to start its clock.
pub proof fn lemma_unstarted_group_starts(group: Group, posts: Seq<Post>, scans: Seq<Scan>)
    requires
        group.wf(),
        group.start_time is None,
        scans.len() == 0,
    ensures
        next_action_of(group, posts, scans) == Some(NextAction::StartTimer),
{
}

/// A running group with a departed visit at every post is due to stop its clock.
pub proof fn lemma_all_departed_group_stops(group: Group, posts: Seq<Post>, scans: Seq<Scan>)
    requires
        group.start_time is Some,
        group.finish_time is None,
        one_visit_per_post(scans),
        forall|q: int|
            0 <= q < posts.len() ==> exists|j: int|
                0 <= j < scans.len() && #[trigger] scans[j].post_id@ == (#[trigger] posts[q]).id@
                    && scans[j].departure_time is Some,
    ensures
        next_action_of(group, posts, scans) == Some(NextAction::StopTimer),
{
    lemma_done_from(posts, scans, 0);
}

} // verus!
