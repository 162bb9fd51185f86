//! Access policy: who may do what. A caller's credential resolves to an
//! `Option<AuthSession>`: `None` is an unauthenticated visitor, `Admin` has
//! full control, and `PostHolder` operates exactly one post.
use vstd::prelude::*;

use crate::model::{same_text, Group, Post};

verus! {

/// An authenticated session.
#[derive(Debug)]
pub enum AuthSession {
    Admin,
    PostHolder { post_id: String },
}

/// Proof that the caller is the administrator.
pub struct Admin;

/// Any authenticated caller, as the pages read it.
pub struct AnyAuth {
    pub is_admin: bool,
    pub post_id: Option<String>,
}

/// The path of the page being served.
pub struct CurrentPath(pub String);

/// What the pages show of the caller's capability.
pub struct AuthContext {
    pub is_admin: bool,
    pub is_post_holder: bool,
    pub holder_post_id: Option<String>,
}

/// The caller has full administrative control.
pub open spec fn is_admin_session(session: Option<AuthSession>) -> bool {
    session matches Some(AuthSession::Admin)
}

/// The caller may record and edit visits at the post `post_id`.
pub open spec fn may_operate_post(session: Option<AuthSession>, post_id: Seq<char>) -> bool {
    match session {
        Some(AuthSession::Admin) => true,
        Some(AuthSession::PostHolder { post_id: p }) => p@ == post_id,
        None => false,
    }
}

/// The caller may change a group's details: the administrator always, a post
/// holder only before the group's clock has started, a visitor never.
pub open spec fn may_edit_details(session: Option<AuthSession>, group: Group) -> bool {
    match session {
        Some(AuthSession::Admin) => true,
        Some(AuthSession::PostHolder { .. }) => group.start_time is None,
        None => false,
    }
}

/// The first post, in list order, whose password is exactly `password`.
pub open spec fn post_with_password(posts: Seq<Post>, password: Seq<char>, i: int) -> Option<int>
    decreases posts.len() - i,
    when 0 <= i
{
    if i >= posts.len() {
        None
    } else if posts[i].password matches Some(p) && p@ == password {
        Some(i)
    } else {
        post_with_password(posts, password, i + 1)
    }
}

/// The session that a password opens: the administrator's when the configured
/// administrator password is non-empty and matches, else that of the first post
/// whose password matches, else none.
pub open spec fn session_for_password(
    password: Seq<char>,
    admin_password: Seq<char>,
    posts: Seq<Post>,
) -> Option<AuthSession> {
    if admin_password.len() > 0 && password == admin_password {
        Some(AuthSession::Admin)
    } else {
        match post_with_password(posts, password, 0) {
            Some(i) => Some(AuthSession::PostHolder { post_id: posts[i].id }),
            None => None,
        }
    }
}

impl AuthSession {
    /// An equal copy.
    pub fn cloned(&self) -> (r: AuthSession)
        ensures
            r == *self,
    {
        match self {
            AuthSession::Admin => AuthSession::Admin,
            AuthSession::PostHolder { post_id } => AuthSession::PostHolder { post_id: post_id.clone() },
        }
    }
}

/// The capability a decoded credential grants: a post holder's session whose
/// post no longer exists is stale and counts as no session.
pub open spec fn current_session(decoded: Option<AuthSession>, posts: Seq<Post>) -> Option<
    AuthSession,
> {
    match decoded {
        Some(AuthSession::PostHolder { post_id }) => if exists|k: int|
            0 <= k < posts.len() && (#[trigger] posts[k]).id@ == post_id@ {
            decoded
        } else {
            None
        },
        _ => decoded,
    }
}

/// Classifies the credential decoded from the request against the current
/// posts.
pub fn get_current_auth(decoded: Option<AuthSession>, posts: &Vec<Post>) -> (r: Option<AuthSession>)
    ensures
        r == current_session(decoded, posts@),
{
    let post_id = match &decoded {
        Some(AuthSession::PostHolder { post_id }) => post_id,
        _ => {
            return decoded;
        },
    };
    let mut k: usize = 0;
    while k < posts.len()
        invariant
            0 <= k <= posts.len(),
            decoded == Some(AuthSession::PostHolder { post_id: *post_id }),
            forall|q: int| 0 <= q < k ==> (#[trigger] posts@[q]).id@ != post_id@,
        decreases posts.len() - k,
    {
        if same_text(posts[k].id.as_str(), post_id.as_str()) {
            assert((posts@[k as int]).id@ == post_id@);
            return decoded;
        }
        k = k + 1;
    }
    None
}

/// Ends the session.
pub fn logout(session: &mut Option<AuthSession>)
    ensures
        *final(session) is None,
{
    *session = None;
}

/// Whether the session is the administrator's.
pub fn is_admin(session: &Option<AuthSession>) -> (r: bool)
    ensures
        r == is_admin_session(*session),
{
    match session {
        Some(AuthSession::Admin) => true,
        _ => false,
    }
}

/// The session as the pages show it.
pub fn get_auth_context(session: &Option<AuthSession>) -> (r: AuthContext)
    ensures
        r.is_admin == is_admin_session(*session),
        r.is_post_holder == (session matches Some(AuthSession::PostHolder { .. })),
        r.holder_post_id == match *session {
            Some(AuthSession::PostHolder { post_id }) => Some(post_id),
            _ => None::<String>,
        },
{
    let admin = is_admin(session);
    let holder_post_id = match session {
        Some(AuthSession::PostHolder { post_id }) => Some(post_id.clone()),
        _ => None,
    };
    let is_post_holder = holder_post_id.is_some();
    AuthContext { is_admin: admin, is_post_holder, holder_post_id }
}

/// Whether the session may record or edit visits at `post_id`.
pub fn can_operate_post(session: &Option<AuthSession>, post_id: &str) -> (r: bool)
    ensures
        r == may_operate_post(*session, post_id@),
{
    match session {
        Some(AuthSession::Admin) => true,
        Some(AuthSession::PostHolder { post_id: p }) => same_text(p.as_str(), post_id),
        None => false,
    }
}

/// Whether the session may change `group`'s details.
pub fn can_edit_details(session: &Option<AuthSession>, group: &Group) -> (r: bool)
    ensures
        r == may_edit_details(*session, *group),
{
    match session {
        Some(AuthSession::Admin) => true,
        Some(AuthSession::PostHolder { .. }) => group.start_time.is_none(),
        None => false,
    }
}

/// Whether `password` is the administrator password; an unset (empty) one
/// matches nothing.
pub fn check_admin_password(password: &str, admin_password: &str) -> (r: bool)
    ensures
        r == (admin_password@.len() > 0 && password@ == admin_password@),
{
    !admin_password.is_empty() && same_text(password, admin_password)
}

/// The index of the first post whose password is `password`.
pub fn find_post_by_password(posts: &Vec<Post>, password: &str) -> (r: Option<usize>)
    ensures
        match r {
            Some(i) => i < posts.len() && post_with_password(posts@, password@, 0) == Some(i as int),
            None => post_with_password(posts@, password@, 0) is None,
        },
{
    let mut i: usize = 0;
    while i < posts.len()
        invariant
            0 <= i <= posts.len(),
            post_with_password(posts@, password@, 0) == post_with_password(posts@, password@, i as int),
        decreases posts.len() - i,
    {
        let hit = match &posts[i].password {
            Some(p) => same_text(p.as_str(), password),
            None => false,
        };
        if hit {
            return Some(i);
        }
        i = i + 1;
    }
    None
}

/// Resolves a login password into the session it opens, if any.
pub fn login(password: &str, admin_password: &str, posts: &Vec<Post>) -> (r: Option<AuthSession>)
    ensures
        r == session_for_password(password@, admin_password@, posts@),
{
    if check_admin_password(password, admin_password) {
        return Some(AuthSession::Admin);
    }
    match find_post_by_password(posts, password) {
        Some(i) => Some(AuthSession::PostHolder { post_id: posts[i].id.clone() }),
        None => None,
    }
}

impl Admin {
    /// The administrator guard: present only for the administrator's session.
    pub fn from_session(session: &Option<AuthSession>) -> (r: Option<Admin>)
        ensures
            r is Some == is_admin_session(*session),
    {
        if is_admin(session) {
            Some(Admin)
        } else {
            None
        }
    }
}

impl AnyAuth {
    /// The guard for any authenticated caller: absent for a visitor.
    pub fn from_session(session: &Option<AuthSession>) -> (r: Option<AnyAuth>)
        ensures
            match *session {
                Some(AuthSession::Admin) => r == Some(AnyAuth { is_admin: true, post_id: None }),
                Some(AuthSession::PostHolder { post_id }) => r == Some(
                    AnyAuth { is_admin: false, post_id: Some(post_id) },
                ),
                None => r is None,
            },
    {
        match session {
            Some(AuthSession::Admin) => Some(AnyAuth { is_admin: true, post_id: None }),
            Some(AuthSession::PostHolder { post_id }) => Some(
                AnyAuth { is_admin: false, post_id: Some(post_id.clone()) },
            ),
            None => None,
        }
    }

    /// The session this guard was made from.
    pub fn session(&self) -> (r: Option<AuthSession>)
        ensures
            r == if self.is_admin {
                Some(AuthSession::Admin)
            } else {
                match self.post_id {
                    Some(p) => Some(AuthSession::PostHolder { post_id: p }),
                    None => None,
                }
            },
    {
        if self.is_admin {
            Some(AuthSession::Admin)
        } else {
            match &self.post_id {
                Some(p) => Some(AuthSession::PostHolder { post_id: p.clone() }),
                None => None,
            }
        }
    }
}

/// Where the login page sends a caller who is already signed in: the
/// administrator to the group list, a post holder to their post's board;
/// `None` shows the login form.
pub fn login_page(session: &Option<AuthSession>) -> (r: Option<String>)
    ensures
        match *session {
            Some(AuthSession::Admin) => r matches Some(t) && t@ == "/admin/groups"@,
            Some(AuthSession::PostHolder { post_id }) => r matches Some(t) && t@ == "/post/"@
                + post_id@,
            None => r is None,
        },
{
    match session {
        Some(AuthSession::Admin) => Some(String::from_str("/admin/groups")),
        Some(AuthSession::PostHolder { post_id }) => {
            let mut t = String::from_str("/post/");
            t.append(post_id.as_str());
            Some(t)
        },
        None => None,
    }
}

/// A redirect target after login: `next` when it is a local path (starts
/// with `/`), else the root.
pub fn login_redirect_target(next: &str) -> (r: String)
    ensures
        r@ == if next@.len() > 0 && next@[0] == '/' {
            next@
        } else {
            seq!['/']
        },
{
    if next.unicode_len() > 0 && next.get_char(0) == '/' {
        String::from_str(next)
    } else {
        let mut s = String::new();
        s.append("/");
        proof {
            reveal_strlit("/");
        }
        s
    }
}

} // verus!
