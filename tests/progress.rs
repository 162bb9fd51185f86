use trail_timer::{
    get_next_action, plan_scan, AuthSession, EngineError, Group, NextAction, Post, Scan, Write,
};

const T0: i64 = 1_700_000_000;

fn group(id: &str, start: Option<i64>, finish: Option<i64>) -> Group {
    Group {
        id: id.to_string(),
        name: "Wolves".to_string(),
        scout_group: String::new(),
        members: String::new(),
        phone_number: String::new(),
        group_number: 7,
        route: "A".to_string(),
        start_time: start,
        finish_time: finish,
        created_at: T0 - 1000,
    }
}

fn post(id: &str, name: &str, order: i32) -> Post {
    Post { id: id.to_string(), name: name.to_string(), post_order: order, password: None, created_at: T0 - 2000 }
}

fn scan(id: &str, post_id: &str, arrival: i64, departure: Option<i64>) -> Scan {
    Scan {
        id: id.to_string(),
        group_id: "g".to_string(),
        post_id: post_id.to_string(),
        arrival_time: arrival,
        departure_time: departure,
    }
}

fn route() -> Vec<Post> {
    vec![post("gate", "Gate", 1), post("bridge", "Bridge", 2), post("camp", "Camp", 3)]
}

fn admin() -> Option<AuthSession> {
    Some(AuthSession::Admin)
}

fn holder(p: &str) -> Option<AuthSession> {
    Some(AuthSession::PostHolder { post_id: p.to_string() })
}

#[test]
fn unstarted_group_starts_timer() {
    let g = group("g", None, None);
    let next = get_next_action(&g, &route(), &vec![]);
    assert!(matches!(next, Some(NextAction::StartTimer)));
}

#[test]
fn all_departed_group_stops_timer() {
    let g = group("g", Some(T0), None);
    let scans = vec![
        scan("s1", "gate", T0 + 10, Some(T0 + 20)),
        scan("s2", "bridge", T0 + 30, Some(T0 + 40)),
        scan("s3", "camp", T0 + 50, Some(T0 + 60)),
    ];
    let next = get_next_action(&g, &route(), &scans);
    assert!(matches!(next, Some(NextAction::StopTimer)));
}

#[test]
fn finished_group_has_no_next_action() {
    let g = group("g", Some(T0), Some(T0 + 100));
    assert!(get_next_action(&g, &route(), &vec![]).is_none());
}

#[test]
fn open_visit_is_left_next() {
    let g = group("g", Some(T0), None);
    let scans = vec![scan("s1", "gate", T0 + 10, None)];
    match get_next_action(&g, &route(), &scans) {
        Some(NextAction::Leave { post_id }) => assert_eq!(post_id, "gate"),
        other => panic!("unexpected {:?}", other),
    }
}

#[test]
fn next_arrival_follows_route_order_not_stray_visits() {
    let g = group("g", Some(T0), None);
    let scans = vec![
        scan("s1", "gate", T0 + 300, Some(T0 + 600)),
        scan("s9", "camp", T0 + 900, None),
    ];
    match get_next_action(&g, &route(), &scans) {
        Some(NextAction::Arrive { post_id }) => assert_eq!(post_id, "bridge"),
        other => panic!("unexpected {:?}", other),
    }
}

#[test]
fn second_arrival_is_a_conflict() {
    let g = Some(group("g", Some(T0), None));
    let posts = route();
    let mut scans: Vec<Scan> = vec![];
    let action = NextAction::Arrive { post_id: "gate".to_string() };
    let first = plan_scan(&admin(), &g, &posts, &scans, &action, T0 + 5, "v1".to_string());
    match first {
        Ok(Write::InsertScan { scan }) => {
            assert_eq!(scan.arrival_time, T0 + 5);
            assert_eq!(scan.group_id, "g");
            assert_eq!(scan.post_id, "gate");
            assert_eq!(scan.id, "v1");
            assert!(scan.departure_time.is_none());
            scans.push(scan);
        }
        other => panic!("unexpected {:?}", other),
    }
    let second = plan_scan(&admin(), &g, &posts, &scans, &action, T0 + 9, "v2".to_string());
    assert_eq!(second.unwrap_err(), EngineError::Conflict);
}

#[test]
fn departure_twice_keeps_first_time() {
    let g = Some(group("g", Some(T0), None));
    let posts = route();
    let mut scans = vec![scan("s1", "gate", T0 + 10, None)];
    let action = NextAction::Leave { post_id: "gate".to_string() };
    match plan_scan(&holder("gate"), &g, &posts, &scans, &action, T0 + 50, "x".to_string()) {
        Ok(Write::SetDeparture { scan_id, time }) => {
            assert_eq!(scan_id, "s1");
            assert_eq!(time, T0 + 50);
            scans[0].departure_time = Some(time);
        }
        other => panic!("unexpected {:?}", other),
    }
    let again = plan_scan(&holder("gate"), &g, &posts, &scans, &action, T0 + 90, "y".to_string());
    assert!(matches!(again, Ok(Write::Unchanged)));
    assert_eq!(scans[0].departure_time, Some(T0 + 50));
}

#[test]
fn operator_of_other_post_is_denied() {
    let g = Some(group("g", Some(T0), None));
    let scans = vec![scan("s1", "gate", T0 + 10, None)];
    let action = NextAction::Leave { post_id: "gate".to_string() };
    let r = plan_scan(&holder("bridge"), &g, &route(), &scans, &action, T0 + 50, "x".to_string());
    assert_eq!(r.unwrap_err(), EngineError::PermissionDenied);
}

#[test]
fn missing_group_is_not_found() {
    let action = NextAction::StartTimer;
    let r = plan_scan(&admin(), &None, &route(), &vec![], &action, T0, "x".to_string());
    assert_eq!(r.unwrap_err(), EngineError::NotFound);
}

#[test]
fn clock_actions_need_the_administrator() {
    let g = Some(group("g", None, None));
    let r = plan_scan(&holder("gate"), &g, &route(), &vec![], &NextAction::StartTimer, T0, String::new());
    assert_eq!(r.unwrap_err(), EngineError::PermissionDenied);
    let r = plan_scan(&None, &g, &route(), &vec![], &NextAction::StartTimer, T0, String::new());
    assert_eq!(r.unwrap_err(), EngineError::PermissionDenied);
    match plan_scan(&admin(), &g, &route(), &vec![], &NextAction::StartTimer, T0, String::new()) {
        Ok(Write::SetStart { group_id, time }) => {
            assert_eq!(group_id, "g");
            assert_eq!(time, T0);
        }
        other => panic!("unexpected {:?}", other),
    }
}

#[test]
fn stopping_before_the_start_is_invalid() {
    let g = Some(group("g", Some(T0), None));
    let r = plan_scan(&admin(), &g, &route(), &vec![], &NextAction::StopTimer, T0 - 1, String::new());
    assert_eq!(r.unwrap_err(), EngineError::InvalidInput);
    let unstarted = Some(group("g", None, None));
    let r = plan_scan(&admin(), &unstarted, &route(), &vec![], &NextAction::StopTimer, T0, String::new());
    assert_eq!(r.unwrap_err(), EngineError::InvalidInput);
    match plan_scan(&admin(), &g, &route(), &vec![], &NextAction::StopTimer, T0 + 7, String::new()) {
        Ok(Write::SetFinish { time, .. }) => assert_eq!(time, T0 + 7),
        other => panic!("unexpected {:?}", other),
    }
}

#[test]
fn arrival_at_unknown_post_is_not_found() {
    let g = Some(group("g", Some(T0), None));
    let action = NextAction::Arrive { post_id: "lake".to_string() };
    let r = plan_scan(&admin(), &g, &route(), &vec![], &action, T0, String::new());
    assert_eq!(r.unwrap_err(), EngineError::NotFound);
}

#[test]
fn departure_without_visit_is_not_found() {
    let g = Some(group("g", Some(T0), None));
    let action = NextAction::Leave { post_id: "gate".to_string() };
    let r = plan_scan(&admin(), &g, &route(), &vec![], &action, T0, String::new());
    assert_eq!(r.unwrap_err(), EngineError::NotFound);
}

#[test]
fn action_text_round_trips() {
    let actions = vec![
        NextAction::StartTimer,
        NextAction::Arrive { post_id: "p-1".to_string() },
        NextAction::Leave { post_id: "p-2".to_string() },
        NextAction::StopTimer,
    ];
    let texts = ["__START_TIMER__", "ARRIVE_p-1", "LEAVE_p-2", "__STOP_TIMER__"];
    for (a, t) in actions.iter().zip(texts.iter()) {
        assert_eq!(a.action_id(), *t);
        let back = NextAction::parse(t).unwrap();
        assert_eq!(back.action_id(), *t);
    }
    assert!(NextAction::parse("JUMP_x").is_none());
    assert!(NextAction::parse("").is_none());
}
