//! Manual corrections and administrative operations. They bypass the
//! next-step derivation but keep the stored invariants: an edit that would put
//! a departure before its arrival, or a finish before its start, is refused.
use vstd::prelude::*;

use crate::auth::{
    can_edit_details, can_operate_post, is_admin, is_admin_session, may_edit_details,
    may_operate_post, AuthSession,
};
use crate::engine::{find_post, post_index};
use crate::error::EngineError;
use crate::model::{clock_consistent, Group, Post, Scan};
use crate::progress::{find_scan, visit_at};
use crate::time::{form_time_of, parse_form_time, valid_time};

verus! {

/// A change to an optional timestamp.
#[derive(Debug, Clone, Copy, PartialEq, Eq, Structural)]
pub enum TimeEdit {
    Keep,
    Clear,
    SetTo { time: i64 },
}

/// The form that corrects a visit's times.
pub struct UpdateScanForm {
    pub arrival_time: String,
    pub departure_time: Option<String>,
    pub clear_departure: Option<String>,
}

/// The form that adds a visit by hand.
pub struct AddScanForm {
    pub post_id: String,
    pub arrival_time: String,
    pub departure_time: Option<String>,
}

/// The form that corrects a group's clock.
pub struct UpdateGroupForm {
    pub start_time: Option<String>,
    pub finish_time: Option<String>,
    pub clear_start: Option<String>,
    pub clear_finish: Option<String>,
}

/// The form that changes a group's details, and may start its clock.
pub struct UpdateGroupDetailsForm {
    pub name: String,
    pub scout_group: String,
    pub members: String,
    pub phone_number: String,
    pub group_number: i32,
    pub route: String,
    pub start_timer: Option<String>,
}

/// The form that registers a group under a pre-assigned identifier.
pub struct NewGroupForm {
    pub name: String,
    pub scout_group: String,
    pub members: String,
    pub phone_number: String,
    pub group_number: i32,
    pub route: String,
}

/// The administrator's form for a new group.
pub struct NewGroup {
    pub name: String,
}

/// The administrator's form for a new post.
pub struct NewPost {
    pub name: String,
    pub order: i32,
}

/// The timestamp after an edit.
pub open spec fn edited(old: Option<i64>, e: TimeEdit) -> Option<i64> {
    match e {
        TimeEdit::Keep => old,
        TimeEdit::Clear => None,
        TimeEdit::SetTo { time } => Some(time),
    }
}

/// The edit that a form field asks for: clearing when the clear box is
/// ticked, keeping when the field is absent or empty, else setting the time
/// it names; `None` when that text is not a time.
pub open spec fn time_edit_of(text: Option<String>, clear: bool) -> Option<TimeEdit> {
    if clear {
        Some(TimeEdit::Clear)
    } else {
        match text {
            Some(t) => if t@.len() == 0 {
                Some(TimeEdit::Keep)
            } else {
                match form_time_of(t@) {
                    Some(v) => Some(TimeEdit::SetTo { time: v }),
                    None => None,
                }
            },
            None => Some(TimeEdit::Keep),
        }
    }
}

/// The visit with its times replaced.
pub open spec fn edited_scan(scan: Scan, arrival: i64, departure: TimeEdit) -> Scan {
    Scan { arrival_time: arrival, departure_time: edited(scan.departure_time, departure), ..scan }
}

/// Whether a correction of a visit's times is allowed.
pub open spec fn scan_edit_outcome(
    session: Option<AuthSession>,
    scan: Scan,
    arrival: i64,
    departure: TimeEdit,
) -> Result<(), EngineError> {
    if !may_operate_post(session, scan.post_id@) {
        Err(EngineError::PermissionDenied)
    } else if edited(scan.departure_time, departure) matches Some(d) && d < arrival {
        Err(EngineError::InvalidInput)
    } else {
        Ok(())
    }
}

/// Whether a correction of a group's clock is allowed.
pub open spec fn clock_edit_outcome(
    session: Option<AuthSession>,
    group: Group,
    start: TimeEdit,
    finish: TimeEdit,
) -> Result<(), EngineError> {
    if !is_admin_session(session) {
        Err(EngineError::PermissionDenied)
    } else if !clock_consistent(edited(group.start_time, start), edited(group.finish_time, finish)) {
        Err(EngineError::InvalidInput)
    } else {
        Ok(())
    }
}

/// The visit that a manual insertion creates, or why it is refused.
pub open spec fn added_scan_outcome(
    session: Option<AuthSession>,
    group: Option<Group>,
    posts: Seq<Post>,
    scans: Seq<Scan>,
    post_id: String,
    arrival: i64,
    departure: Option<i64>,
    new_id: String,
) -> Result<Scan, EngineError> {
    match group {
        None => Err(EngineError::NotFound),
        Some(g) => if !may_operate_post(session, post_id@) {
            Err(EngineError::PermissionDenied)
        } else if post_index(posts, post_id@, 0) is None {
            Err(EngineError::NotFound)
        } else if visit_at(scans, post_id@) is Some {
            Err(EngineError::Conflict)
        } else if departure matches Some(d) && d < arrival {
            Err(EngineError::InvalidInput)
        } else {
            Ok(
                Scan {
                    id: new_id,
                    group_id: g.id,
                    post_id,
                    arrival_time: arrival,
                    departure_time: departure,
                },
            )
        },
    }
}

/// Reads the edit that a form field asks for.
pub fn read_time_edit(text: &Option<String>, clear: bool) -> (r: Option<TimeEdit>)
    ensures
        r == time_edit_of(*text, clear),
{
    if clear {
        return Some(TimeEdit::Clear);
    }
    match text {
        Some(t) => {
            if t.as_str().is_empty() {
                Some(TimeEdit::Keep)
            } else {
                match parse_form_time(t.as_str()) {
                    Some(v) => Some(TimeEdit::SetTo { time: v }),
                    None => None,
                }
            }
        },
        None => Some(TimeEdit::Keep),
    }
}

/// Corrects a visit's arrival and departure. A refused correction leaves the
/// visit as it was.
pub fn edit_scan_times(
    session: &Option<AuthSession>,
    scan: &mut Scan,
    arrival: i64,
    departure: TimeEdit,
) -> (r: Result<(), EngineError>)
    ensures
        r == scan_edit_outcome(*session, *old(scan), arrival, departure),
        r is Ok ==> *final(scan) == edited_scan(*old(scan), arrival, departure),
        r is Err ==> *final(scan) == *old(scan),
{
    if !can_operate_post(session, scan.post_id.as_str()) {
        return Err(EngineError::PermissionDenied);
    }
    let new_departure = match departure {
        TimeEdit::Keep => scan.departure_time,
        TimeEdit::Clear => None,
        TimeEdit::SetTo { time } => Some(time),
    };
    match new_departure {
        Some(d) => {
            if d < arrival {
                return Err(EngineError::InvalidInput);
            }
        },
        None => {},
    }
    scan.arrival_time = arrival;
    scan.departure_time = new_departure;
    Ok(())
}

/// Applies the visit correction form: the caller must operate the visit's
/// post, and every time given must be well-formed.
pub fn update_scan(session: &Option<AuthSession>, scan: &mut Scan, form: &UpdateScanForm) -> (r:
    Result<(), EngineError>)
    ensures
        !may_operate_post(*session, old(scan).post_id@) ==> r == Err::<(), EngineError>(
            EngineError::PermissionDenied,
        ),
        may_operate_post(*session, old(scan).post_id@) ==> match (
            form_time_of(form.arrival_time@),
            time_edit_of(form.departure_time, form.clear_departure is Some),
        ) {
            (Some(a), Some(e)) => r == scan_edit_outcome(*session, *old(scan), a, e) && (r is Ok
                ==> *final(scan) == edited_scan(*old(scan), a, e)),
            _ => r == Err::<(), EngineError>(EngineError::InvalidInput),
        },
        r is Err ==> *final(scan) == *old(scan),
{
    if !can_operate_post(session, scan.post_id.as_str()) {
        return Err(EngineError::PermissionDenied);
    }
    let arrival = match parse_form_time(form.arrival_time.as_str()) {
        Some(a) => a,
        None => {
            return Err(EngineError::InvalidInput);
        },
    };
    let departure = match read_time_edit(&form.departure_time, form.clear_departure.is_some()) {
        Some(e) => e,
        None => {
            return Err(EngineError::InvalidInput);
        },
    };
    edit_scan_times(session, scan, arrival, departure)
}

/// Corrects a group's start and finish (administrator only). A refused
/// correction leaves the group as it was.
pub fn edit_group_clock(
    session: &Option<AuthSession>,
    group: &mut Group,
    start: TimeEdit,
    finish: TimeEdit,
) -> (r: Result<(), EngineError>)
    ensures
        r == clock_edit_outcome(*session, *old(group), start, finish),
        r is Ok ==> *final(group) == (Group {
            start_time: edited(old(group).start_time, start),
            finish_time: edited(old(group).finish_time, finish),
            ..*old(group)
        }),
        r is Err ==> *final(group) == *old(group),
{
    if !is_admin(session) {
        return Err(EngineError::PermissionDenied);
    }
    let new_start = match start {
        TimeEdit::Keep => group.start_time,
        TimeEdit::Clear => None,
        TimeEdit::SetTo { time } => Some(time),
    };
    let new_finish = match finish {
        TimeEdit::Keep => group.finish_time,
        TimeEdit::Clear => None,
        TimeEdit::SetTo { time } => Some(time),
    };
    match new_finish {
        Some(f) => match new_start {
            Some(s) => {
                if f < s {
                    return Err(EngineError::InvalidInput);
                }
            },
            None => {
                return Err(EngineError::InvalidInput);
            },
        },
        None => {},
    }
    group.start_time = new_start;
    group.finish_time = new_finish;
    Ok(())
}

/// Applies the clock correction form (administrator only).
pub fn update_group(session: &Option<AuthSession>, group: &mut Group, form: &UpdateGroupForm) -> (r:
    Result<(), EngineError>)
    ensures
        !is_admin_session(*session) ==> r == Err::<(), EngineError>(EngineError::PermissionDenied),
        is_admin_session(*session) ==> match (
            time_edit_of(form.start_time, form.clear_start is Some),
            time_edit_of(form.finish_time, form.clear_finish is Some),
        ) {
            (Some(s), Some(f)) => r == clock_edit_outcome(*session, *old(group), s, f) && (r is Ok
                ==> *final(group) == (Group {
                start_time: edited(old(group).start_time, s),
                finish_time: edited(old(group).finish_time, f),
                ..*old(group)
            })),
            _ => r == Err::<(), EngineError>(EngineError::InvalidInput),
        },
        r is Err ==> *final(group) == *old(group),
{
    if !is_admin(session) {
        return Err(EngineError::PermissionDenied);
    }
    let start = match read_time_edit(&form.start_time, form.clear_start.is_some()) {
        Some(e) => e,
        None => {
            return Err(EngineError::InvalidInput);
        },
    };
    let finish = match read_time_edit(&form.finish_time, form.clear_finish.is_some()) {
        Some(e) => e,
        None => {
            return Err(EngineError::InvalidInput);
        },
    };
    edit_group_clock(session, group, start, finish)
}

/// Decides a manual insertion of a visit at `post_id` with the given times;
/// the new visit gets the identifier `new_id`.
pub fn plan_added_scan(
    session: &Option<AuthSession>,
    group: &Option<Group>,
    posts: &Vec<Post>,
    scans: &Vec<Scan>,
    post_id: &String,
    arrival: i64,
    departure: Option<i64>,
    new_id: String,
) -> (r: Result<Scan, EngineError>)
    ensures
        r == added_scan_outcome(
            *session,
            *group,
            posts@,
            scans@,
            *post_id,
            arrival,
            departure,
            new_id,
        ),
{
    let g = match group {
        None => {
            return Err(EngineError::NotFound);
        },
        Some(g) => g,
    };
    if !can_operate_post(session, post_id.as_str()) {
        return Err(EngineError::PermissionDenied);
    }
    if find_post(posts, post_id.as_str()).is_none() {
        return Err(EngineError::NotFound);
    }
    if find_scan(scans, post_id.as_str()).is_some() {
        return Err(EngineError::Conflict);
    }
    match departure {
        Some(d) => {
            if d < arrival {
                return Err(EngineError::InvalidInput);
            }
        },
        None => {},
    }
    Ok(
        Scan {
            id: new_id,
            group_id: g.id.clone(),
            post_id: post_id.clone(),
            arrival_time: arrival,
            departure_time: departure,
        },
    )
}

/// Applies the manual insertion form: the arrival must be a time, and the
/// departure, when given and not empty, too.
pub fn add_scan(
    session: &Option<AuthSession>,
    group: &Option<Group>,
    posts: &Vec<Post>,
    scans: &Vec<Scan>,
    form: &AddScanForm,
    new_id: String,
) -> (r: Result<Scan, EngineError>)
    ensures
        group is None ==> r == Err::<Scan, EngineError>(EngineError::NotFound),
        group is Some && !may_operate_post(*session, form.post_id@) ==> r == Err::<
            Scan,
            EngineError,
        >(EngineError::PermissionDenied),
        group is Some && may_operate_post(*session, form.post_id@) ==> match (
            form_time_of(form.arrival_time@),
            time_edit_of(form.departure_time, false),
        ) {
            (Some(a), Some(TimeEdit::Keep)) => r == added_scan_outcome(
                *session,
                *group,
                posts@,
                scans@,
                form.post_id,
                a,
                None,
                new_id,
            ),
            (Some(a), Some(TimeEdit::SetTo { time })) => r == added_scan_outcome(
                *session,
                *group,
                posts@,
                scans@,
                form.post_id,
                a,
                Some(time),
                new_id,
            ),
            _ => r == Err::<Scan, EngineError>(EngineError::InvalidInput),
        },
{
    if group.is_none() {
        return Err(EngineError::NotFound);
    }
    if !can_operate_post(session, form.post_id.as_str()) {
        return Err(EngineError::PermissionDenied);
    }
    let arrival = match parse_form_time(form.arrival_time.as_str()) {
        Some(a) => a,
        None => {
            return Err(EngineError::InvalidInput);
        },
    };
    let departure = match read_time_edit(&form.departure_time, false) {
        Some(TimeEdit::SetTo { time }) => Some(time),
        Some(_) => None,
        None => {
            return Err(EngineError::InvalidInput);
        },
    };
    plan_added_scan(session, group, posts, scans, &form.post_id, arrival, departure, new_id)
}

/// Whether the caller may delete `scan`: only one who operates its post.
pub fn delete_scan(session: &Option<AuthSession>, scan: &Scan) -> (r: Result<(), EngineError>)
    ensures
        r is Ok == may_operate_post(*session, scan.post_id@),
        r is Err ==> r == Err::<(), EngineError>(EngineError::PermissionDenied),
{
    if can_operate_post(session, scan.post_id.as_str()) {
        Ok(())
    } else {
        Err(EngineError::PermissionDenied)
    }
}

/// Changes a group's details, and starts its clock at `now` when the
/// administrator asks for it. A post holder may change the details only
/// before the clock has started; a request to start the clock from anyone
/// else is ignored. A refused change leaves the group as it was.
pub fn update_group_details(
    session: &Option<AuthSession>,
    group: &mut Group,
    form: &UpdateGroupDetailsForm,
    now: i64,
) -> (r: Result<(), EngineError>)
    ensures
        ({
            let starts = form.start_timer is Some && is_admin_session(*session);
            &&& r == if !may_edit_details(*session, *old(group)) {
                Err(EngineError::PermissionDenied)
            } else if starts && !clock_consistent(Some(now), old(group).finish_time) {
                Err(EngineError::InvalidInput)
            } else {
                Ok(())
            }
            &&& r is Ok ==> *final(group) == (Group {
                name: form.name,
                scout_group: form.scout_group,
                members: form.members,
                phone_number: form.phone_number,
                group_number: form.group_number,
                route: form.route,
                start_time: if starts {
                    Some(now)
                } else {
                    old(group).start_time
                },
                ..*old(group)
            })
            &&& r is Err ==> *final(group) == *old(group)
        }),
{
    if !can_edit_details(session, group) {
        return Err(EngineError::PermissionDenied);
    }
    let starts = form.start_timer.is_some() && is_admin(session);
    if starts {
        match group.finish_time {
            Some(f) => {
                if f < now {
                    return Err(EngineError::InvalidInput);
                }
            },
            None => {},
        }
        group.start_time = Some(now);
    }
    group.name = form.name.clone();
    group.scout_group = form.scout_group.clone();
    group.members = form.members.clone();
    group.phone_number = form.phone_number.clone();
    group.group_number = form.group_number;
    group.route = form.route.clone();
    Ok(())
}

/// Registers a group under the identifier from its scanned link. Any
/// authenticated caller may; a visitor may not.
pub fn create_group_from_scan(
    session: &Option<AuthSession>,
    group_id: String,
    form: &NewGroupForm,
    now: i64,
) -> (r: Result<Group, EngineError>)
    requires
        valid_time(now),
    ensures
        match r {
            Ok(g) => session is Some && g == (Group {
                id: group_id,
                name: form.name,
                scout_group: form.scout_group,
                members: form.members,
                phone_number: form.phone_number,
                group_number: form.group_number,
                route: form.route,
                start_time: None,
                finish_time: None,
                created_at: now,
            }),
            Err(e) => session is None && e == EngineError::PermissionDenied,
        },
{
    if session.is_none() {
        return Err(EngineError::PermissionDenied);
    }
    Ok(
        Group::new_with_id(
            group_id,
            form.name.clone(),
            form.scout_group.clone(),
            form.members.clone(),
            form.phone_number.clone(),
            form.group_number,
            form.route.clone(),
            now,
        ),
    )
}

/// Creates a group with a fresh identifier (administrator only).
pub fn create_group(session: &Option<AuthSession>, form: &NewGroup) -> (r: Result<
    Group,
    EngineError,
>)
    ensures
        match r {
            Ok(g) => is_admin_session(*session) && g.name == form.name && g.start_time is None
                && g.finish_time is None && g.wf(),
            Err(e) => !is_admin_session(*session) && e == EngineError::PermissionDenied,
        },
{
    if !is_admin(session) {
        return Err(EngineError::PermissionDenied);
    }
    Ok(Group::new(form.name.clone()))
}

/// Creates a post with a fresh identifier (administrator only).
pub fn create_post(session: &Option<AuthSession>, form: &NewPost) -> (r: Result<
    Post,
    EngineError,
>)
    ensures
        match r {
            Ok(p) => is_admin_session(*session) && p.name == form.name && p.post_order
                == form.order && p.password is None,
            Err(e) => !is_admin_session(*session) && e == EngineError::PermissionDenied,
        },
{
    if !is_admin(session) {
        return Err(EngineError::PermissionDenied);
    }
    Ok(Post::new(form.name.clone(), form.order))
}

/// Whether the caller may delete `group` (with its visits): the group must
/// exist and the caller must be the administrator.
pub fn delete_group(session: &Option<AuthSession>, group: &Option<Group>) -> (r: Result<
    (),
    EngineError,
>)
    ensures
        r == if group is None {
            Err(EngineError::NotFound)
        } else if !is_admin_session(*session) {
            Err(EngineError::PermissionDenied)
        } else {
            Ok(())
        },
{
    if group.is_none() {
        return Err(EngineError::NotFound);
    }
    if !is_admin(session) {
        return Err(EngineError::PermissionDenied);
    }
    Ok(())
}

/// Whether the caller may delete `post` (with its visits): the post must
/// exist and the caller must be the administrator.
pub fn delete_post(session: &Option<AuthSession>, post: &Option<Post>) -> (r: Result<
    (),
    EngineError,
>)
    ensures
        r == if post is None {
            Err(EngineError::NotFound)
        } else if !is_admin_session(*session) {
            Err(EngineError::PermissionDenied)
        } else {
            Ok(())
        },
{
    if post.is_none() {
        return Err(EngineError::NotFound);
    }
    if !is_admin(session) {
        return Err(EngineError::PermissionDenied);
    }
    Ok(())
}

/// The posts among the first `k` that the caller may edit visits at, in order.
pub open spec fn visible_upto(session: Option<AuthSession>, posts: Seq<Post>, k: int) -> Seq<Post>
    decreases k,
{
    if k <= 0 {
        Seq::empty()
    } else if may_operate_post(session, posts[k - 1].id@) {
        visible_upto(session, posts, k - 1).push(posts[k - 1])
    } else {
        visible_upto(session, posts, k - 1)
    }
}

/// The posts whose visits the caller may edit: all for the administrator,
/// their own for a post holder, none for a visitor.
pub fn visible_posts(session: &Option<AuthSession>, posts: &Vec<Post>) -> (r: Vec<Post>)
    ensures
        r@ == visible_upto(*session, posts@, posts.len() as int),
{
    let mut out: Vec<Post> = Vec::new();
    let mut k: usize = 0;
    while k < posts.len()
        invariant
            0 <= k <= posts.len(),
            out@ == visible_upto(*session, posts@, k as int),
        decreases posts.len() - k,
    {
        if can_operate_post(session, posts[k].id.as_str()) {
            out.push(posts[k].cloned());
        }
        k = k + 1;
    }
    out
}

/// A refused correction of a visit whose departure would come before its
/// arrival: the answer is `InvalidInput` and the visit stays as stored.
pub proof fn lemma_departure_before_arrival_refused(
    session: Option<AuthSession>,
    scan: Scan,
    arrival: i64,
    departure: i64,
)
    requires
        may_operate_post(session, scan.post_id@),
        departure < arrival,
    ensures
        scan_edit_outcome(session, scan, arrival, TimeEdit::SetTo { time: departure }) == Err::<
            (),
            EngineError,
        >(EngineError::InvalidInput),
{
}

} // verus!
