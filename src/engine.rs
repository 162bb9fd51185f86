//! Executing steps and manual corrections. Each operation checks the caller's
//! capability and the stored invariants and returns what to write, or why it
//! was refused; the storage layer performs the write.
use vstd::prelude::*;

use crate::auth::{is_admin, can_operate_post, is_admin_session, may_operate_post, AuthSession};
use crate::error::EngineError;
use crate::model::{clock_consistent, new_id, same_text, Group, Post, Scan};
use crate::progress::{find_scan, lemma_scan_for_post_found, scan_for_post, visit_at, NextAction};
use crate::time::{now_naive, valid_time};

verus! {

/// A write for the storage layer to perform.
#[derive(Debug)]
pub enum Write {
    /// Set the group's start time.
    SetStart { group_id: String, time: i64 },
    /// Set the group's finish time.
    SetFinish { group_id: String, time: i64 },
    /// Store a new visit.
    InsertScan { scan: Scan },
    /// Set the departure time of the visit `scan_id`.
    SetDeparture { scan_id: String, time: i64 },
    /// Nothing to write.
    Unchanged,
}

/// The index of the first post at or after `i` with identifier `post_id`.
pub open spec fn post_index(posts: Seq<Post>, post_id: Seq<char>, i: int) -> Option<int>
    decreases posts.len() - i,
    when 0 <= i
{
    if i >= posts.len() {
        None
    } else if posts[i].id@ == post_id {
        Some(i)
    } else {
        post_index(posts, post_id, i + 1)
    }
}

/// The outcome of performing step `action` for `group` at time `now`; a new
/// visit gets the identifier `new_id`.
pub open spec fn step_outcome(
    session: Option<AuthSession>,
    group: Option<Group>,
    posts: Seq<Post>,
    scans: Seq<Scan>,
    action: NextAction,
    now: i64,
    new_id: String,
) -> Result<Write, EngineError> {
    match group {
        None => Err(EngineError::NotFound),
        Some(g) => match action {
            NextAction::StartTimer => if !is_admin_session(session) {
                Err(EngineError::PermissionDenied)
            } else if !clock_consistent(Some(now), g.finish_time) {
                Err(EngineError::InvalidInput)
            } else {
                Ok(Write::SetStart { group_id: g.id, time: now })
            },
            NextAction::StopTimer => if !is_admin_session(session) {
                Err(EngineError::PermissionDenied)
            } else if !clock_consistent(g.start_time, Some(now)) {
                Err(EngineError::InvalidInput)
            } else {
                Ok(Write::SetFinish { group_id: g.id, time: now })
            },
            NextAction::Arrive { post_id } => if !may_operate_post(session, post_id@) {
                Err(EngineError::PermissionDenied)
            } else if post_index(posts, post_id@, 0) is None {
                Err(EngineError::NotFound)
            } else if visit_at(scans, post_id@) is Some {
                Err(EngineError::Conflict)
            } else {
                Ok(
                    Write::InsertScan {
                        scan: Scan {
                            id: new_id,
                            group_id: g.id,
                            post_id,
                            arrival_time: now,
                            departure_time: None,
                        },
                    },
                )
            },
            NextAction::Leave { post_id } => if !may_operate_post(session, post_id@) {
                Err(EngineError::PermissionDenied)
            } else {
                match visit_at(scans, post_id@) {
                    None => Err(EngineError::NotFound),
                    Some(j) => if scans[j].departure_time is Some {
                        Ok(Write::Unchanged)
                    } else if now < scans[j].arrival_time {
                        Err(EngineError::InvalidInput)
                    } else {
                        Ok(Write::SetDeparture { scan_id: scans[j].id, time: now })
                    },
                }
            },
        },
    }
}

/// The group after `w`.
pub open spec fn group_after(g: Group, w: Write) -> Group {
    match w {
        Write::SetStart { time, .. } => Group { start_time: Some(time), ..g },
        Write::SetFinish { time, .. } => Group { finish_time: Some(time), ..g },
        _ => g,
    }
}

/// The group's visits after `w`.
pub open spec fn scans_after(scans: Seq<Scan>, w: Write) -> Seq<Scan> {
    match w {
        Write::InsertScan { scan } => scans.push(scan),
        Write::SetDeparture { scan_id, time } => scans.map_values(
            |s: Scan|
                if s.id@ == scan_id@ {
                    Scan { departure_time: Some(time), ..s }
                } else {
                    s
                },
        ),
        _ => scans,
    }
}

/// The index of the post with identifier `post_id`.
pub fn find_post(posts: &Vec<Post>, post_id: &str) -> (r: Option<usize>)
    ensures
        match r {
            Some(i) => i < posts.len() && post_index(posts@, post_id@, 0) == Some(i as int),
            None => post_index(posts@, post_id@, 0) is None,
        },
{
    let mut i: usize = 0;
    while i < posts.len()
        invariant
            0 <= i <= posts.len(),
            post_index(posts@, post_id@, 0) == post_index(posts@, post_id@, i as int),
        decreases posts.len() - i,
    {
        if same_text(posts[i].id.as_str(), post_id) {
            return Some(i);
        }
        i = i + 1;
    }
    None
}

/// Decides step `action` for `group` (`None` when it does not exist) at time
/// `now`, with `new_id` for a visit it creates, given the posts and the group's
/// visits: the write to perform, or why the step is refused.
pub fn plan_scan(
    session: &Option<AuthSession>,
    group: &Option<Group>,
    posts: &Vec<Post>,
    scans: &Vec<Scan>,
    action: &NextAction,
    now: i64,
    new_id: String,
) -> (r: Result<Write, EngineError>)
    ensures
        r == step_outcome(*session, *group, posts@, scans@, *action, now, new_id),
{
    let g = match group {
        None => {
            return Err(EngineError::NotFound);
        },
        Some(g) => g,
    };
    match action {
        NextAction::StartTimer => {
            if !is_admin(session) {
                return Err(EngineError::PermissionDenied);
            }
            match g.finish_time {
                Some(f) => {
                    if f < now {
                        return Err(EngineError::InvalidInput);
                    }
                },
                None => {},
            }
            Ok(Write::SetStart { group_id: g.id.clone(), time: now })
        },
        NextAction::StopTimer => {
            if !is_admin(session) {
                return Err(EngineError::PermissionDenied);
            }
            match g.start_time {
                Some(s) => {
                    if now < s {
                        return Err(EngineError::InvalidInput);
                    }
                },
                None => {
                    return Err(EngineError::InvalidInput);
                },
            }
            Ok(Write::SetFinish { group_id: g.id.clone(), time: now })
        },
        NextAction::Arrive { post_id } => {
            if !can_operate_post(session, post_id.as_str()) {
                return Err(EngineError::PermissionDenied);
            }
            if find_post(posts, post_id.as_str()).is_none() {
                return Err(EngineError::NotFound);
            }
            if find_scan(scans, post_id.as_str()).is_some() {
                return Err(EngineError::Conflict);
            }
            Ok(
                Write::InsertScan {
                    scan: Scan {
                        id: new_id,
                        group_id: g.id.clone(),
                        post_id: post_id.clone(),
                        arrival_time: now,
                        departure_time: None,
                    },
                },
            )
        },
        NextAction::Leave { post_id } => {
            if !can_operate_post(session, post_id.as_str()) {
                return Err(EngineError::PermissionDenied);
            }
            match find_scan(scans, post_id.as_str()) {
                None => Err(EngineError::NotFound),
                Some(j) => {
                    if scans[j].departure_time.is_some() {
                        Ok(Write::Unchanged)
                    } else if now < scans[j].arrival_time {
                        Err(EngineError::InvalidInput)
                    } else {
                        Ok(Write::SetDeparture { scan_id: scans[j].id.clone(), time: now })
                    }
                },
            }
        },
    }
}

/// Performs step `action` now: decides it as `plan_scan` does, at the
/// current time and with a fresh identifier for a visit it creates.
pub fn record_scan(
    session: &Option<AuthSession>,
    group: &Option<Group>,
    posts: &Vec<Post>,
    scans: &Vec<Scan>,
    action: &NextAction,
) -> (r: Result<Write, EngineError>)
    ensures
        exists|now: i64, new_id: String|
            valid_time(now) && r == step_outcome(*session, *group, posts@, scans@, *action, now, new_id),
{
    let now = now_naive();
    let id = new_id();
    plan_scan(session, group, posts, scans, action, now, id)
}

proof fn lemma_found_in_pushed(scans: Seq<Scan>, x: Scan, post_id: Seq<char>, i: int)
    requires
        0 <= i <= scans.len(),
        x.post_id@ == post_id,
    ensures
        scan_for_post(scans.push(x), post_id, i) is Some,
    decreases scans.len() - i,
{
    if i < scans.len() {
        assert(scans.push(x)[i] == scans[i]);
        lemma_found_in_pushed(scans, x, post_id, i + 1);
    } else {
        assert(scans.push(x)[i] == x);
    }
}

proof fn lemma_found_after_departure(
    scans: Seq<Scan>,
    scan_id: String,
    time: i64,
    post_id: Seq<char>,
    i: int,
)
    requires
        0 <= i <= scans.len(),
    ensures
        scan_for_post(scans_after(scans, Write::SetDeparture { scan_id, time }), post_id, i)
            == scan_for_post(scans, post_id, i),
    decreases scans.len() - i,
{
    if i < scans.len() {
        lemma_found_after_departure(scans, scan_id, time, post_id, i + 1);
    }
}

/// Once an arrival at a post has been recorded, arriving there again (with no
/// visit deleted in between) is refused as a conflict.
pub proof fn lemma_second_arrival_conflicts(
    session: Option<AuthSession>,
    group: Group,
    posts: Seq<Post>,
    scans: Seq<Scan>,
    post_id: String,
    first_time: i64,
    first_id: String,
    second_time: i64,
    second_id: String,
)
    requires
        step_outcome(
            session,
            Some(group),
            posts,
            scans,
            NextAction::Arrive { post_id },
            first_time,
            first_id,
        ) is Ok,
    ensures
        ({
            let w = step_outcome(
                session,
                Some(group),
                posts,
                scans,
                NextAction::Arrive { post_id },
                first_time,
                first_id,
            )->Ok_0;
            step_outcome(
                session,
                Some(group_after(group, w)),
                posts,
                scans_after(scans, w),
                NextAction::Arrive { post_id },
                second_time,
                second_id,
            ) == Err::<Write, EngineError>(EngineError::Conflict)
        }),
{
    let w = step_outcome(
        session,
        Some(group),
        posts,
        scans,
        NextAction::Arrive { post_id },
        first_time,
        first_id,
    )->Ok_0;
    if let Write::InsertScan { scan } = w {
        lemma_found_in_pushed(scans, scan, post_id@, 0);
    }
}

/// Departing twice in a row: the second departure changes nothing, and the
/// visit keeps the first departure's time.
pub proof fn lemma_departure_idempotent(
    session: Option<AuthSession>,
    group: Group,
    posts: Seq<Post>,
    scans: Seq<Scan>,
    post_id: String,
    first_time: i64,
    first_id: String,
    second_time: i64,
    second_id: String,
)
    requires
        step_outcome(
            session,
            Some(group),
            posts,
            scans,
            NextAction::Leave { post_id },
            first_time,
            first_id,
        ) is Ok,
    ensures
        ({
            let w = step_outcome(
                session,
                Some(group),
                posts,
                scans,
                NextAction::Leave { post_id },
                first_time,
                first_id,
            )->Ok_0;
            let later = scans_after(scans, w);
            &&& step_outcome(
                session,
                Some(group_after(group, w)),
                posts,
                later,
                NextAction::Leave { post_id },
                second_time,
                second_id,
            ) == Ok::<Write, EngineError>(Write::Unchanged)
            &&& w is SetDeparture ==> (visit_at(later, post_id@) matches Some(j)
                && later[j].departure_time == Some(first_time))
        }),
{
    let w = step_outcome(
        session,
        Some(group),
        posts,
        scans,
        NextAction::Leave { post_id },
        first_time,
        first_id,
    )->Ok_0;
    lemma_scan_for_post_found(scans, post_id@, 0);
    if let Write::SetDeparture { scan_id, time } = w {
        lemma_found_after_departure(scans, scan_id, time, post_id@, 0);
        let j = visit_at(scans, post_id@)->Some_0;
        assert(scans_after(scans, w)[j].departure_time == Some(time));
    }
}

/// A post holder is refused any step at another post.
pub proof fn lemma_other_post_denied(
    holder_post: String,
    group: Group,
    posts: Seq<Post>,
    scans: Seq<Scan>,
    action: NextAction,
    now: i64,
    new_id: String,
)
    requires
        action matches NextAction::Arrive { post_id } ==> post_id@ != holder_post@,
        action matches NextAction::Leave { post_id } ==> post_id@ != holder_post@,
    ensures
        step_outcome(
            Some(AuthSession::PostHolder { post_id: holder_post }),
            Some(group),
            posts,
            scans,
            action,
            now,
            new_id,
        ) == Err::<Write, EngineError>(EngineError::PermissionDenied),
{
}

} // verus!
