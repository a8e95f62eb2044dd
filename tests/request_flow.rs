use raycast_wallpaper::request::{Action, Event, WallpaperRequest};

const TARGET: &str = "\\\\?\\DISPLAY#GSM5B7F#4&2b9a&0&UID8#{e6f07b5f-ee97-4a90-b076-33f57bf4eaa7}";

fn device_buffer(id: &str) -> Vec<u16> {
    let mut buf: Vec<u16> = id.encode_utf16().collect();
    buf.resize(128, 0);
    buf
}

fn other_path(n: u32) -> String {
    format!("\\\\?\\DISPLAY#OTHER{}#{{e6f07b5f-ee97-4a90-b076-33f57bf4eaa7}}", n)
}

/// Runs a request over scripted answers; returns every call it asked for.
fn drive(mode: &str, events: Vec<Event>) -> (Vec<Action>, WallpaperRequest) {
    let (mut req, first) = WallpaperRequest::begin(mode);
    let mut actions = vec![first];
    for e in events {
        assert!(req.accepts(&e));
        actions.push(req.step(e));
    }
    (actions, req)
}

fn resolved_current_events() -> Vec<Event> {
    vec![
        Event::CursorQueried(true),
        Event::MonitorQueried(true),
        Event::DeviceQueried(Some(device_buffer(TARGET))),
        Event::ComponentsInitialized(Ok(())),
        Event::ServiceCreated(Ok(())),
    ]
}

fn count_sets(actions: &[Action]) -> (usize, usize) {
    let all = actions.iter().filter(|a| matches!(a, Action::SetOnAll)).count();
    let one = actions.iter().filter(|a| matches!(a, Action::SetOnPath(_))).count();
    (all, one)
}

fn ok() -> Action {
    Action::Finish(Ok("ok".to_string()))
}

#[test]
fn every_sets_all_monitors_once() {
    let (actions, req) = drive(
        "every",
        vec![
            Event::ComponentsInitialized(Ok(())),
            Event::ServiceCreated(Ok(())),
            Event::WallpaperSet(Ok(())),
        ],
    );
    assert_eq!(
        actions,
        vec![Action::InitComponents, Action::CreateService, Action::SetOnAll, ok()]
    );
    assert_eq!(count_sets(&actions), (1, 0));
    assert!(req.is_finished());
}

#[test]
fn every_set_failure_is_reported() {
    let (actions, _) = drive(
        "every",
        vec![
            Event::ComponentsInitialized(Ok(())),
            Event::ServiceCreated(Ok(())),
            Event::WallpaperSet(Err("The system cannot find the file specified.".to_string())),
        ],
    );
    assert_eq!(
        actions.last(),
        Some(&Action::Finish(Err("The system cannot find the file specified.".to_string())))
    );
}

#[test]
fn current_resolves_before_initialising() {
    let (actions, req) = drive("current", resolved_current_events());
    assert_eq!(
        actions,
        vec![
            Action::QueryCursor,
            Action::QueryMonitor,
            Action::QueryDevice,
            Action::InitComponents,
            Action::CreateService,
            Action::CountPaths,
        ]
    );
    assert!(!req.is_finished());
}

#[test]
fn current_matches_third_of_five_paths() {
    let mut events = resolved_current_events();
    events.push(Event::PathsCounted(Ok(5)));
    events.push(Event::PathRead(Ok(other_path(0))));
    events.push(Event::PathRead(Ok(other_path(1))));
    events.push(Event::PathRead(Ok(TARGET.to_string())));
    events.push(Event::WallpaperSet(Ok(())));
    let (actions, req) = drive("current", events);
    assert_eq!(
        actions[6..],
        vec![
            Action::ReadPath(0),
            Action::ReadPath(1),
            Action::ReadPath(2),
            Action::SetOnPath(2),
            ok(),
        ]
    );
    assert_eq!(count_sets(&actions), (0, 1));
    assert!(req.is_finished());
    assert!(!actions.contains(&Action::ReadPath(3)));
}

#[test]
fn current_first_of_duplicate_matches_wins() {
    let mut events = resolved_current_events();
    events.push(Event::PathsCounted(Ok(3)));
    events.push(Event::PathRead(Ok(TARGET.to_string())));
    events.push(Event::WallpaperSet(Ok(())));
    let (actions, req) = drive("current", events);
    assert_eq!(actions[6..], vec![Action::ReadPath(0), Action::SetOnPath(0), ok()]);
    assert_eq!(count_sets(&actions), (0, 1));
    assert!(req.is_finished());
}

#[test]
fn current_without_match_is_noop_success() {
    let mut events = resolved_current_events();
    events.push(Event::PathsCounted(Ok(3)));
    for n in 0..3 {
        events.push(Event::PathRead(Ok(other_path(n))));
    }
    let (actions, req) = drive("current", events);
    assert_eq!(
        actions[6..],
        vec![Action::ReadPath(0), Action::ReadPath(1), Action::ReadPath(2), ok()]
    );
    assert_eq!(count_sets(&actions), (0, 0));
    assert!(req.is_finished());
}

#[test]
fn current_with_no_paths_is_noop_success() {
    let mut events = resolved_current_events();
    events.push(Event::PathsCounted(Ok(0)));
    let (actions, _) = drive("current", events);
    assert_eq!(actions.last(), Some(&ok()));
    assert_eq!(count_sets(&actions), (0, 0));
}

#[test]
fn current_match_differs_only_in_case_is_no_match() {
    let mut events = resolved_current_events();
    events.push(Event::PathsCounted(Ok(1)));
    events.push(Event::PathRead(Ok(TARGET.to_lowercase())));
    let (actions, _) = drive("current", events);
    assert_eq!(actions.last(), Some(&ok()));
    assert_eq!(count_sets(&actions), (0, 0));
}

#[test]
fn cursor_failure_is_noop_success() {
    let (actions, req) = drive(
        "current",
        vec![
            Event::CursorQueried(false),
            Event::ComponentsInitialized(Ok(())),
            Event::ServiceCreated(Ok(())),
        ],
    );
    assert_eq!(
        actions,
        vec![Action::QueryCursor, Action::InitComponents, Action::CreateService, ok()]
    );
    assert!(req.is_finished());
}

#[test]
fn monitor_info_failure_is_noop_success() {
    let (actions, _) = drive(
        "current",
        vec![
            Event::CursorQueried(true),
            Event::MonitorQueried(false),
            Event::ComponentsInitialized(Ok(())),
            Event::ServiceCreated(Ok(())),
        ],
    );
    assert_eq!(actions.last(), Some(&ok()));
    assert_eq!(count_sets(&actions), (0, 0));
}

#[test]
fn device_enumeration_failure_is_noop_success() {
    let (actions, _) = drive(
        "current",
        vec![
            Event::CursorQueried(true),
            Event::MonitorQueried(true),
            Event::DeviceQueried(None),
            Event::ComponentsInitialized(Ok(())),
            Event::ServiceCreated(Ok(())),
        ],
    );
    assert_eq!(actions.last(), Some(&ok()));
    assert_eq!(count_sets(&actions), (0, 0));
}

#[test]
fn unrecognized_mode_is_noop_success() {
    let events = || {
        vec![Event::ComponentsInitialized(Ok(())), Event::ServiceCreated(Ok(()))]
    };
    let (banana, req) = drive("banana", events());
    assert_eq!(banana, vec![Action::InitComponents, Action::CreateService, ok()]);
    assert!(req.is_finished());
    let mut unresolved = vec![Event::CursorQueried(false)];
    unresolved.extend(events());
    let (current, _) = drive("current", unresolved);
    assert_eq!(current[1..], banana);
}

#[test]
fn service_creation_failure_is_reported() {
    let message = "Class not registered (0x80040154)".to_string();
    let (actions, req) = drive(
        "every",
        vec![Event::ComponentsInitialized(Ok(())), Event::ServiceCreated(Err(message.clone()))],
    );
    assert_eq!(actions.last(), Some(&Action::Finish(Err(message))));
    assert_eq!(count_sets(&actions), (0, 0));
    assert!(req.is_finished());
}

#[test]
fn component_init_failure_is_reported() {
    let (actions, _) = drive(
        "current",
        vec![
            Event::CursorQueried(false),
            Event::ComponentsInitialized(Err("Invalid flags".to_string())),
        ],
    );
    assert_eq!(actions.last(), Some(&Action::Finish(Err("Invalid flags".to_string()))));
}

#[test]
fn path_count_failure_is_reported() {
    let mut events = resolved_current_events();
    events.push(Event::PathsCounted(Err("count failed".to_string())));
    let (actions, _) = drive("current", events);
    assert_eq!(actions.last(), Some(&Action::Finish(Err("count failed".to_string()))));
}

#[test]
fn path_read_failure_is_reported() {
    let mut events = resolved_current_events();
    events.push(Event::PathsCounted(Ok(2)));
    events.push(Event::PathRead(Err("invalid utf-16".to_string())));
    let (actions, _) = drive("current", events);
    assert_eq!(actions.last(), Some(&Action::Finish(Err("invalid utf-16".to_string()))));
}

#[test]
fn monitor_set_failure_is_reported() {
    let mut events = resolved_current_events();
    events.push(Event::PathsCounted(Ok(1)));
    events.push(Event::PathRead(Ok(TARGET.to_string())));
    events.push(Event::WallpaperSet(Err("access denied".to_string())));
    let (actions, _) = drive("current", events);
    assert_eq!(actions.last(), Some(&Action::Finish(Err("access denied".to_string()))));
}

#[test]
fn events_out_of_turn_are_not_accepted() {
    let (req, _) = WallpaperRequest::begin("every");
    assert!(!req.accepts(&Event::CursorQueried(true)));
    assert!(!req.accepts(&Event::WallpaperSet(Ok(()))));
    assert!(req.accepts(&Event::ComponentsInitialized(Ok(()))));
    let (req, _) = WallpaperRequest::begin("current");
    assert!(req.accepts(&Event::CursorQueried(false)));
    assert!(!req.accepts(&Event::ServiceCreated(Ok(()))));
}
