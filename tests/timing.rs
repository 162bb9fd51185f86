use trail_timer::{
    calculate_group_stats, group_stats_at, EngineError, Group, Post, Scan,
};

const T0: i64 = 1_700_000_000;

fn group(start: Option<i64>, finish: Option<i64>) -> Group {
    Group {
        id: "g".to_string(),
        name: "Foxes".to_string(),
        scout_group: String::new(),
        members: String::new(),
        phone_number: String::new(),
        group_number: 1,
        route: String::new(),
        start_time: start,
        finish_time: finish,
        created_at: T0 - 10,
    }
}

fn post(id: &str, order: i32) -> Post {
    Post { id: id.to_string(), name: id.to_string(), post_order: order, password: None, created_at: T0 }
}

fn scan(post_id: &str, arrival: i64, departure: Option<i64>) -> Scan {
    Scan {
        id: format!("s-{post_id}"),
        group_id: "g".to_string(),
        post_id: post_id.to_string(),
        arrival_time: arrival,
        departure_time: departure,
    }
}

fn posts() -> Vec<Post> {
    vec![post("a", 1), post("b", 2), post("c", 3)]
}

#[test]
fn durations_of_a_running_group() {
    let g = group(Some(T0), None);
    let scans = vec![scan("a", T0 + 100, Some(T0 + 400)), scan("b", T0 + 1000, None)];
    let st = group_stats_at(&g, &scans, &posts(), T0 + 1600);
    assert_eq!(st.idle_time, 300 + 600);
    assert_eq!(st.total_time, Some(1600));
    assert_eq!(st.walking_time, Some(700));
    assert_eq!(st.post_scans.len(), 3);
    assert_eq!(st.post_scans[0].idle_time, Some(300));
    assert_eq!(st.post_scans[1].idle_time, Some(600));
    assert_eq!(st.post_scans[2].idle_time, None);
    assert!(st.post_scans[2].scan.is_none());
    assert_eq!(st.post_scans[1].post.id, "b");
    assert_eq!(st.integrity(), Ok(()));
}

#[test]
fn idle_time_grows_while_a_visit_is_open() {
    let g = group(Some(T0), None);
    let scans = vec![scan("a", T0 + 100, None)];
    let early = group_stats_at(&g, &scans, &posts(), T0 + 200);
    let late = group_stats_at(&g, &scans, &posts(), T0 + 900);
    assert_eq!(early.idle_time, 100);
    assert_eq!(late.idle_time, 800);
    assert!(late.idle_time >= early.idle_time);
}

#[test]
fn total_is_idle_plus_walking() {
    let g = group(Some(T0), Some(T0 + 5000));
    let scans = vec![
        scan("a", T0 + 100, Some(T0 + 700)),
        scan("b", T0 + 1000, Some(T0 + 1300)),
        scan("c", T0 + 2000, Some(T0 + 2050)),
    ];
    let st = group_stats_at(&g, &scans, &posts(), T0 + 99_999);
    assert_eq!(st.total_time, Some(5000));
    assert_eq!(st.idle_time, 950);
    assert_eq!(st.total_time.unwrap(), st.idle_time + st.walking_time.unwrap());
}

#[test]
fn unstarted_group_has_no_total() {
    let g = group(None, None);
    let st = group_stats_at(&g, &vec![], &posts(), T0);
    assert_eq!(st.total_time, None);
    assert_eq!(st.walking_time, None);
    assert_eq!(st.idle_time, 0);
}

#[test]
fn visits_at_unknown_posts_are_left_out() {
    let g = group(Some(T0), Some(T0 + 100));
    let scans = vec![scan("zzz", T0, Some(T0 + 50))];
    let st = group_stats_at(&g, &scans, &posts(), T0 + 100);
    assert_eq!(st.idle_time, 0);
    assert_eq!(st.walking_time, Some(100));
}

#[test]
fn negative_duration_is_an_integrity_fault() {
    let g = group(Some(T0), Some(T0 + 100));
    let scans = vec![scan("a", T0 + 50, Some(T0 + 10))];
    let st = group_stats_at(&g, &scans, &posts(), T0 + 100);
    assert_eq!(st.post_scans[0].idle_time, Some(-40));
    assert_eq!(st.integrity(), Err(EngineError::DataIntegrityFault));
}

#[test]
fn stats_now_use_the_current_clock() {
    let g = group(Some(T0), None);
    let st = calculate_group_stats(&g, &vec![], &posts());
    // the current time is after T0 (November 2023)
    assert!(st.total_time.unwrap() > 0);
}
