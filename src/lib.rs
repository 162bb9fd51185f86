//! Progress and timing engine for a timed outdoor event: groups walk an
//! ordered sequence of posts, arrivals and departures are recorded, and the
//! next allowed step, the time spent at posts and walking, and the final
//! ranking are derived from that record.
//!
//! - `model`: groups, posts and visits, and their stored invariants.
//! - `auth`: the access policy over sessions.
//! - `progress`: the next step of a group.
//! - `engine`: performing steps; `edits`: manual corrections and administration.
//! - `stats`: durations; `ranking`: the ranking of finished groups.
//! - `board`: the arrival board of a post.

pub mod auth;
pub mod board;
pub mod edits;
pub mod engine;
pub mod error;
pub mod model;
pub mod progress;
pub mod ranking;
pub mod stats;
pub mod time;

pub use auth::{
    can_edit_details, can_operate_post, check_admin_password, find_post_by_password,
    get_auth_context, get_current_auth, is_admin, login, login_page, login_redirect_target, logout,
    Admin, AnyAuth, AuthContext, AuthSession, CurrentPath,
};
pub use board::{post_overview, previous_post, GroupStatus, PostBoard};
pub use edits::{
    add_scan, create_group, create_group_from_scan, create_post, delete_group, delete_post,
    delete_scan, edit_group_clock, edit_scan_times, plan_added_scan, read_time_edit, update_group,
    update_group_details, update_scan, visible_posts, AddScanForm, NewGroup, NewGroupForm, NewPost,
    TimeEdit, UpdateGroupDetailsForm, UpdateGroupForm, UpdateScanForm,
};
pub use engine::{find_post, plan_scan, record_scan, Write};
pub use error::EngineError;
pub use model::{scan_path, Group, Post, Scan};
pub use progress::{find_scan, get_next_action, NextAction};
pub use ranking::{rank_entry, rank_groups, ranking_order, GroupRecord, RankedGroup, SortBy};
pub use stats::{calculate_group_stats, group_stats_at, GroupStats, PostScanInfo};
pub use time::{now_naive, parse_form_time, TIME_BOUND};
