use trunk::attrs::Attrs;
use trunk::permissions::Permissions;
use trunk::serve::{csp_header, inject_addresses, is_rewritable, show_address, ws_base_with_slash};
use trunk::watch::{
    ancestor_of, build_error_reason, is_event_relevant, path_components, path_eq, BuildDecision, EventKind,
    EventOutcome, WatchState,
};
use trunk::ws::{BrowserEvent, ClientMessage, State, WsAction, WsEvent, WsSession};

#[test]
fn each_address_is_announced_once() {
    let mut cache = Vec::new();
    let first = show_address(&mut cache, true, "http://127.0.0.1:8080/".to_string()).expect("new");
    assert!(first.local);
    assert_eq!(first.address, "http://127.0.0.1:8080/");
    assert!(show_address(&mut cache, false, "http://127.0.0.1:8080/".to_string()).is_none());
    assert!(show_address(&mut cache, false, "http://192.168.0.2:8080/".to_string()).is_some());
    assert_eq!(cache.len(), 2);
}

#[test]
fn served_html_gets_address_base_and_nonce() {
    let body = "const a = '{{__TRUNK_ADDRESS__}}'; const b = `{{__TRUNK_ADDRESS__}}`; const c = '{{__TRUNK_WS_BASE__}}'; <script nonce=\"{{NONCE}}\">";
    let out = inject_addresses(body, &Some("localhost:8080".to_string()), "/app/", &Some(("{{NONCE}}".to_string(), "abc".to_string())));
    assert_eq!(out, "const a = 'localhost:8080'; const b = 'localhost:8080'; const c = '/app/'; <script nonce=\"abc\">");
    let out = inject_addresses("x='{{__TRUNK_ADDRESS__}}'", &None, "/", &None);
    assert_eq!(out, "x=window.location.host");
    assert_eq!(ws_base_with_slash("/app"), "/app/");
    assert_eq!(ws_base_with_slash("/app/"), "/app/");
}

#[test]
fn only_successful_html_is_rewritten() {
    assert!(is_rewritable(true, &Some(b"text/html".to_vec())));
    assert!(!is_rewritable(false, &Some(b"text/html".to_vec())));
    assert!(!is_rewritable(true, &Some(b"text/css".to_vec())));
    assert!(!is_rewritable(true, &None));
}

#[test]
fn content_security_policy_header() {
    let d = vec!["default-src 'self'".to_string(), "script-src 'nonce-{{NONCE}}'".to_string()];
    assert_eq!(csp_header(&d, "n0"), "default-src 'self';script-src 'nonce-n0'");
    assert_eq!(csp_header(&vec![], "n0"), "");
}

#[test]
fn build_error_reason_lists_causes() {
    let chain = vec!["error building".to_string(), "cargo failed".to_string(), "exit 101".to_string()];
    assert_eq!(
        build_error_reason(&chain),
        "error building\n\nCaused by:\n\t0: cargo failed\n\t1: exit 101\n"
    );
    assert_eq!(build_error_reason(&vec!["only".to_string()]), "only\n\n");
}

#[test]
fn event_relevance() {
    let ignored = vec!["/p/dist".to_string()];
    let p = |s: &str| Some(s.to_string());
    assert!(is_event_relevant(EventKind::ModifyData, &vec![p("/p/src/main.rs")], &ignored));
    assert!(!is_event_relevant(EventKind::Other, &vec![p("/p/src/main.rs")], &ignored));
    assert!(!is_event_relevant(EventKind::Create, &vec![p("/p/dist/index.html")], &ignored));
    assert!(!is_event_relevant(EventKind::Create, &vec![p("/p/.git/HEAD")], &ignored));
    assert!(!is_event_relevant(EventKind::Remove, &vec![None], &ignored));
    assert!(is_event_relevant(EventKind::Remove, &vec![p("/p/dist/x"), p("/p/index.html")], &ignored));
    assert!(is_event_relevant(EventKind::Create, &vec![p("/p/distribution/x")], &ignored));
}

#[test]
fn paths_compare_by_components() {
    assert_eq!(path_components("/a//b/./c/"), vec!["a", "b", "c"]);
    assert!(path_eq("/a/b/", "/a//b"));
    assert!(ancestor_of("/a", "/a/b/c"));
    assert!(ancestor_of("/a/b", "/a/b"));
    assert!(!ancestor_of("/a/b", "/a/bc"));
}

#[test]
fn ignored_path_stops_builds() {
    let mut s = WatchState::new(0, vec![], None, false, false);
    s.update_ignore_list("/p/dist".to_string());
    s.update_ignore_list("/p/dist/".to_string());
    assert_eq!(s.ignored_paths.len(), 1);
    assert!(!is_event_relevant(EventKind::Create, &vec![Some("/p/dist/a.js".to_string())], &s.ignored_paths));
}

#[test]
fn builds_start_after_changes_and_wait_while_one_runs() {
    let mut s = WatchState::new(10, vec![], None, true, false);
    assert_eq!(s.check_spawn_build(11), BuildDecision::NoChanges);
    assert_eq!(s.handle_watch_event(false, 12), EventOutcome::Irrelevant);
    assert_eq!(s.handle_watch_event(true, 13), EventOutcome::Checked(BuildDecision::Start { clear_screen: true }));
    assert!(s.is_build_active());
    assert_eq!(s.handle_watch_event(true, 14), EventOutcome::Postponed);
    let (report, next) = s.build_complete(&Ok(()), 20);
    assert_eq!(report, Some(State::Success));
    assert_eq!(next, BuildDecision::Start { clear_screen: true });
    let (report, next) = s.build_complete(&Err(vec!["boom".to_string()]), 30);
    assert_eq!(report, Some(State::Failed { reason: "boom\n\n".to_string() }));
    assert_eq!(next, BuildDecision::NoChanges);
}

#[test]
fn cooldown_delays_a_build() {
    let mut s = WatchState::new(100, vec![], Some(50), false, true);
    assert_eq!(s.handle_watch_event(true, 120), EventOutcome::Checked(BuildDecision::CoolingDown { remaining: 30 }));
    assert_eq!(s.handle_watch_event(true, 160), EventOutcome::Checked(BuildDecision::Start { clear_screen: false }));
    let (report, _) = s.build_complete(&Err(vec!["boom".to_string()]), 200);
    assert_eq!(report, None);
}

#[test]
fn websocket_session_skips_the_first_success() {
    let mut session = WsSession::new();
    assert!(matches!(session.step(WsEvent::BuildState(Some(State::Success))), WsAction::Ignore));
    assert!(matches!(session.step(WsEvent::BuildState(Some(State::Success))), WsAction::Send(ClientMessage::Reload)));
    match session.step(WsEvent::BuildState(Some(State::Failed { reason: "r".to_string() }))) {
        WsAction::Send(ClientMessage::BuildFailure { reason }) => assert_eq!(reason, "r"),
        other => panic!("unexpected {:?}", other),
    }
    match session.step(WsEvent::Browser(BrowserEvent::Ping { payload: vec![1, 2] })) {
        WsAction::Pong { payload } => assert_eq!(payload, vec![1, 2]),
        other => panic!("unexpected {:?}", other),
    }
    assert!(matches!(session.step(WsEvent::Browser(BrowserEvent::Close)), WsAction::CloseAndEnd));
    assert!(matches!(session.step(WsEvent::Browser(BrowserEvent::Other)), WsAction::Ignore));
    assert!(matches!(session.step(WsEvent::Browser(BrowserEvent::Gone)), WsAction::End));
    assert!(matches!(session.step(WsEvent::BuildState(None)), WsAction::End));
    assert_eq!(State::default(), State::Success);
}

#[test]
fn a_failure_first_is_reported() {
    let mut session = WsSession::new();
    assert!(matches!(
        session.step(WsEvent::BuildState(Some(State::Failed { reason: "x".to_string() }))),
        WsAction::Send(ClientMessage::BuildFailure { .. })
    ));
    assert!(matches!(
        session.step(WsEvent::BuildState(Some(State::Success))),
        WsAction::Send(ClientMessage::Reload)
    ));
}

#[test]
fn plugin_permissions_from_attributes() {
    let mut a = Attrs::new();
    a.insert("data-permissions".to_string(), " read-html-document, call-plugin,bogus,".to_string());
    a.insert("data-permission-create-output-file".to_string(), "".to_string());
    a.insert("data-permission-unknown".to_string(), "".to_string());
    a.insert("href".to_string(), "x".to_string());
    let p = Permissions::from_link_attrs(&mut a);
    assert_eq!(p.bits, 0b10101);
    assert!(!a.contains_key("data-permissions"));
    assert!(!a.contains_key("data-permission-create-output-file"));
    assert!(!a.contains_key("data-permission-unknown"));
    assert!(a.contains_key("href"));
    assert_eq!(Permissions::from_flag_name("read-html-dir-file").map(|p| p.bits), Some(8));
    assert_eq!(Permissions::from_flag_name("none").map(|p| p.bits), Some(0));
    assert!(Permissions::from_flag_name("write").is_none());
    assert_eq!(Permissions::from_list("call-plugin , none").bits, 16);
    let mut q = Permissions::none();
    q.insert(Permissions { bits: 4 });
    assert!(q.contains(Permissions { bits: 4 }));
    assert!(!q.contains(Permissions { bits: 5 }));
    assert_eq!(Permissions::default().bits, 0);
}
