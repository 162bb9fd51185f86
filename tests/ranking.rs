use trail_timer::{rank_groups, Group, GroupRecord, Post, Scan, SortBy};

const T0: i64 = 1_700_000_000;

fn group(id: &str, start: Option<i64>, finish: Option<i64>) -> Group {
    Group {
        id: id.to_string(),
        name: id.to_uppercase(),
        scout_group: String::new(),
        members: String::new(),
        phone_number: String::new(),
        group_number: 0,
        route: String::new(),
        start_time: start,
        finish_time: finish,
        created_at: T0 - 10,
    }
}

fn post(id: &str, order: i32) -> Post {
    Post { id: id.to_string(), name: id.to_string(), post_order: order, password: None, created_at: T0 }
}

fn scan(gid: &str, post_id: &str, arrival: i64, departure: Option<i64>) -> Scan {
    Scan {
        id: format!("{gid}-{post_id}"),
        group_id: gid.to_string(),
        post_id: post_id.to_string(),
        arrival_time: arrival,
        departure_time: departure,
    }
}

fn posts() -> Vec<Post> {
    vec![post("a", 1), post("b", 2)]
}

fn all_posts_scans(gid: &str) -> Vec<Scan> {
    vec![scan(gid, "a", T0 + 10, Some(T0 + 20)), scan(gid, "b", T0 + 30, Some(T0 + 40))]
}

#[test]
fn complete_group_ranks_above_faster_incomplete_one() {
    let records = vec![
        GroupRecord { group: group("b", Some(T0), Some(T0 + 1800)), scans: vec![scan("b", "a", T0 + 5, Some(T0 + 6))] },
        GroupRecord { group: group("a", Some(T0), Some(T0 + 3600)), scans: all_posts_scans("a") },
    ];
    let ranked = rank_groups(&records, &posts(), SortBy::Total);
    assert_eq!(ranked.len(), 2);
    assert_eq!(ranked[0].group.id, "a");
    assert_eq!(ranked[0].rank, 1);
    assert!(ranked[0].visited_all_posts);
    assert_eq!(ranked[0].total_time_secs, Some(3600));
    assert_eq!(ranked[1].group.id, "b");
    assert_eq!(ranked[1].rank, 2);
    assert!(!ranked[1].visited_all_posts);
    assert_eq!(ranked[1].posts_visited, 1);
    assert_eq!(ranked[1].total_posts, 2);
}

#[test]
fn ties_keep_their_order_and_get_distinct_ranks() {
    let records = vec![
        GroupRecord { group: group("slow", Some(T0), Some(T0 + 200)), scans: all_posts_scans("slow") },
        GroupRecord { group: group("first", Some(T0), Some(T0 + 100)), scans: all_posts_scans("first") },
        GroupRecord { group: group("second", Some(T0), Some(T0 + 100)), scans: all_posts_scans("second") },
    ];
    let ranked = rank_groups(&records, &posts(), SortBy::Total);
    let ids: Vec<&str> = ranked.iter().map(|r| r.group.id.as_str()).collect();
    assert_eq!(ids, vec!["first", "second", "slow"]);
    let ranks: Vec<usize> = ranked.iter().map(|r| r.rank).collect();
    assert_eq!(ranks, vec![1, 2, 3]);
}

#[test]
fn unfinished_groups_are_not_ranked() {
    let records = vec![
        GroupRecord { group: group("run", Some(T0), None), scans: all_posts_scans("run") },
        GroupRecord { group: group("new", None, None), scans: vec![] },
        GroupRecord { group: group("done", Some(T0), Some(T0 + 500)), scans: all_posts_scans("done") },
    ];
    let ranked = rank_groups(&records, &posts(), SortBy::Total);
    assert_eq!(ranked.len(), 1);
    assert_eq!(ranked[0].group.id, "done");
}

#[test]
fn walking_sort_uses_departed_visits_only() {
    // x: total 300, idle 20 (two departed visits of 10 s) -> walking 280
    // y: total 400, idle 200 -> walking 200
    let records = vec![
        GroupRecord { group: group("x", Some(T0), Some(T0 + 300)), scans: all_posts_scans("x") },
        GroupRecord {
            group: group("y", Some(T0), Some(T0 + 400)),
            scans: vec![scan("y", "a", T0, Some(T0 + 150)), scan("y", "b", T0 + 200, Some(T0 + 250))],
        },
    ];
    let by_total = rank_groups(&records, &posts(), SortBy::Total);
    assert_eq!(by_total[0].group.id, "x");
    let by_walking = rank_groups(&records, &posts(), SortBy::Walking);
    assert_eq!(by_walking[0].group.id, "y");
    assert_eq!(by_walking[0].walking_time_secs, Some(200));
    assert_eq!(by_walking[0].idle_time_secs, 200);
    assert_eq!(by_walking[1].walking_time_secs, Some(280));
}

#[test]
fn missing_metric_sorts_last() {
    let records = vec![
        GroupRecord { group: group("odd", None, Some(T0 + 10)), scans: all_posts_scans("odd") },
        GroupRecord { group: group("ok", Some(T0), Some(T0 + 999)), scans: all_posts_scans("ok") },
    ];
    let ranked = rank_groups(&records, &posts(), SortBy::Total);
    assert_eq!(ranked[0].group.id, "ok");
    assert_eq!(ranked[1].total_time_secs, None);
}

#[test]
fn sort_names() {
    assert_eq!(SortBy::parse(&Some("walking".to_string())), SortBy::Walking);
    assert_eq!(SortBy::parse(&Some("total".to_string())), SortBy::Total);
    assert_eq!(SortBy::parse(&None), SortBy::Total);
}

#[test]
fn empty_ranking() {
    let ranked = rank_groups(&vec![], &posts(), SortBy::Walking);
    assert!(ranked.is_empty());
}
