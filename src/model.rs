//! The three stored entities: groups, posts (checkpoints) and scans (visits).
use vstd::prelude::*;

use crate::time::{now_naive, valid_opt_time, valid_time};

verus! {

/// A participant group. Times are seconds since the epoch.
#[derive(Debug)]
pub struct Group {
    pub id: String,
    pub name: String,
    pub scout_group: String,
    pub members: String,
    pub phone_number: String,
    pub group_number: i32,
    pub route: String,
    pub start_time: Option<i64>,
    pub finish_time: Option<i64>,
    pub created_at: i64,
}

/// A checkpoint on the route, visited in ascending `post_order`.
#[derive(Debug)]
pub struct Post {
    pub id: String,
    pub name: String,
    pub post_order: i32,
    /// When set, whoever presents it may operate this post.
    pub password: Option<String>,
    pub created_at: i64,
}

/// One visit of a group at a post: the arrival and, once it left, the departure.
#[derive(Debug)]
pub struct Scan {
    pub id: String,
    pub group_id: String,
    pub post_id: String,
    pub arrival_time: i64,
    pub departure_time: Option<i64>,
}

/// Relies on uuid's `Uuid::new_v4` and its `Display`: a fresh random identifier.
#[verifier::external_body]
pub(crate) fn new_id() -> (r: String) {
    uuid::Uuid::new_v4().to_string()
}

/// The path that a group's scannable link points to; it carries the group's
/// identifier and nothing else.
pub fn scan_path(group_id: &str) -> (r: String)
    ensures
        r@ == "/scan/"@ + group_id@,
{
    let mut p = String::from_str("/scan/");
    p.append(group_id);
    p
}

/// Whether two texts are equal.
pub(crate) fn same_text(a: &str, b: &str) -> (r: bool)
    ensures
        r == (a@ == b@),
{
    let x = String::from_str(a);
    let y = String::from_str(b);
    x == y
}

fn copy_opt_string(s: &Option<String>) -> (r: Option<String>)
    ensures
        r == *s,
{
    match s {
        Some(v) => Some(v.clone()),
        None => None,
    }
}

/// Whether `finish` may stand beside `start`: a finish needs a start no later than it.
pub open spec fn clock_consistent(start: Option<i64>, finish: Option<i64>) -> bool {
    match finish {
        Some(f) => match start {
            Some(s) => s <= f,
            None => false,
        },
        None => true,
    }
}

impl Group {
    /// Every timestamp of the group lies in chrono's range.
    pub open spec fn times_in_range(&self) -> bool {
        valid_time(self.created_at) && valid_opt_time(self.start_time) && valid_opt_time(
            self.finish_time,
        )
    }

    /// The stored invariant: times in range, and a finish only after a start.
    pub open spec fn wf(&self) -> bool {
        self.times_in_range() && clock_consistent(self.start_time, self.finish_time)
    }

    /// A group that has not started, with the given details.
    pub fn new_with_id(
        id: String,
        name: String,
        scout_group: String,
        members: String,
        phone_number: String,
        group_number: i32,
        route: String,
        created_at: i64,
    ) -> (r: Group)
        requires
            valid_time(created_at),
        ensures
            r == (Group {
                id,
                name,
                scout_group,
                members,
                phone_number,
                group_number,
                route,
                start_time: None,
                finish_time: None,
                created_at,
            }),
            r.wf(),
    {
        Group {
            id,
            name,
            scout_group,
            members,
            phone_number,
            group_number,
            route,
            start_time: None,
            finish_time: None,
            created_at,
        }
    }

    /// A new group with a fresh identifier, created now, with only a name.
    pub fn new(name: String) -> (r: Group)
        ensures
            r.name == name,
            r.scout_group@.len() == 0,
            r.members@.len() == 0,
            r.phone_number@.len() == 0,
            r.route@.len() == 0,
            r.group_number == 0,
            r.start_time is None,
            r.finish_time is None,
            r.wf(),
    {
        let id = new_id();
        let now = now_naive();
        Group::new_with_id(id, name, String::new(), String::new(), String::new(), 0, String::new(), now)
    }

    /// An equal copy.
    pub fn cloned(&self) -> (r: Group)
        ensures
            r == *self,
    {
        Group {
            id: self.id.clone(),
            name: self.name.clone(),
            scout_group: self.scout_group.clone(),
            members: self.members.clone(),
            phone_number: self.phone_number.clone(),
            group_number: self.group_number,
            route: self.route.clone(),
            start_time: self.start_time,
            finish_time: self.finish_time,
            created_at: self.created_at,
        }
    }
}

impl Post {
    /// A new post with a fresh identifier, created now, without a password.
    pub fn new(name: String, post_order: i32) -> (r: Post)
        ensures
            r.name == name,
            r.post_order == post_order,
            r.password is None,
            valid_time(r.created_at),
    {
        Post { id: new_id(), name, post_order, password: None, created_at: now_naive() }
    }

    /// An equal copy.
    pub fn cloned(&self) -> (r: Post)
        ensures
            r == *self,
    {
        Post {
            id: self.id.clone(),
            name: self.name.clone(),
            post_order: self.post_order,
            password: copy_opt_string(&self.password),
            created_at: self.created_at,
        }
    }
}

impl Scan {
    /// Both timestamps lie in chrono's range.
    pub open spec fn times_in_range(&self) -> bool {
        valid_time(self.arrival_time) && valid_opt_time(self.departure_time)
    }

    /// The stored invariant: times in range, and no departure before the arrival.
    pub open spec fn wf(&self) -> bool {
        self.times_in_range() && match self.departure_time {
            Some(d) => self.arrival_time <= d,
            None => true,
        }
    }

    /// An open visit of `group_id` at `post_id` with a fresh identifier, arriving now.
    pub fn new(group_id: String, post_id: String) -> (r: Scan)
        ensures
            r.group_id == group_id,
            r.post_id == post_id,
            r.departure_time is None,
            r.wf(),
    {
        Scan { id: new_id(), group_id, post_id, arrival_time: now_naive(), departure_time: None }
    }

    /// An equal copy.
    pub fn cloned(&self) -> (r: Scan)
        ensures
            r == *self,
    {
        Scan {
            id: self.id.clone(),
            group_id: self.group_id.clone(),
            post_id: self.post_id.clone(),
            arrival_time: self.arrival_time,
            departure_time: self.departure_time,
        }
    }
}

} // verus!
