use bul::args::{detect_context, detect_namespace, Args};
use bul::container::{
    ContainerEntry, ContainerLogStreamer, ContainerState, ContainerStateMatcher, LifecycleState,
    PodEntry, StreamerError,
};
use bul::history::HistoryBuffer;
use bul::mode::{ends_session, transition, Mode, ModeEvent, Signal, Transition};
use bul::record::{color_for_hash, color_of, palette, source_key, Color, ContainerLog};
use bul::search::{find_all, highlight, query_changed, receive, search};
use bul::session::{should_poll, worker_step, PollOutcome, Supervisor, WorkerAction};
use bul::text::{replace_layout_controls, sanitize};

fn state(running: bool, terminated: bool, waiting: bool) -> LifecycleState {
    LifecycleState { running, terminated, waiting }
}

fn pod(name: &str, containers: Vec<(&str, Option<LifecycleState>)>) -> PodEntry {
    PodEntry {
        name: Some(name.to_string()),
        containers: containers
            .into_iter()
            .map(|(n, s)| ContainerEntry { name: n.to_string(), state: s })
            .collect(),
    }
}

fn rec(key: &str, body: &str) -> ContainerLog {
    ContainerLog { key: key.to_string(), color: Color::Red, body: body.to_string() }
}

fn chars(s: &str) -> Vec<char> {
    s.chars().collect()
}

#[test]
fn matcher_all_accepts_everything() {
    let m = ContainerStateMatcher::new(vec![ContainerState::All]);
    assert!(m.matches(&state(false, false, false)));
    assert!(m.matches(&state(false, true, false)));
}

#[test]
fn matcher_checks_each_state() {
    let m = ContainerStateMatcher::new(vec![ContainerState::Running, ContainerState::Waiting]);
    assert!(m.matches(&state(true, false, false)));
    assert!(m.matches(&state(false, false, true)));
    assert!(!m.matches(&state(false, true, false)));
    let none = ContainerStateMatcher::new(vec![]);
    assert!(!none.matches(&state(true, false, false)));
}

#[test]
fn selects_only_matching_running_web_instance() {
    let m = ContainerStateMatcher::new(vec![ContainerState::Running]);
    let s = match ContainerLogStreamer::try_new(Some("web-.*".to_string()), m) {
        Ok(s) => s,
        Err(_) => panic!("valid pattern refused"),
    };
    let pods = vec![
        pod("web-1", vec![("app", Some(state(true, false, false)))]),
        pod("web-2", vec![("app", Some(state(false, false, true)))]),
        pod("db-1", vec![("app", Some(state(true, false, false)))]),
    ];
    let r = s.get_pod_and_containers(&pods);
    assert_eq!(r, vec![("web-1".to_string(), "app".to_string())]);
}

#[test]
fn selection_without_pattern_keeps_listing_order() {
    let m = ContainerStateMatcher::new(vec![ContainerState::All]);
    let s = ContainerLogStreamer::try_new(None, m).ok().unwrap();
    let pods = vec![
        pod("a", vec![("x", Some(state(true, false, false))), ("y", None)]),
        PodEntry { name: None, containers: vec![] },
        pod("b", vec![("z", Some(state(false, true, false)))]),
    ];
    let r = s.get_pod_and_containers(&pods);
    assert_eq!(
        r,
        vec![("a".to_string(), "x".to_string()), ("b".to_string(), "z".to_string())]
    );
}

#[test]
fn malformed_pattern_is_refused() {
    let m = ContainerStateMatcher::new(vec![ContainerState::All]);
    match ContainerLogStreamer::try_new(Some("web-(".to_string()), m) {
        Err(StreamerError::InvalidPattern(p)) => assert_eq!(p, "web-("),
        Ok(_) => panic!("malformed pattern accepted"),
    }
}

#[test]
fn one_plan_per_pair_with_key_and_color() {
    let m = ContainerStateMatcher::new(vec![ContainerState::All]);
    let s = ContainerLogStreamer::try_new(None, m).ok().unwrap();
    let pairs = vec![
        ("web-1".to_string(), "app".to_string()),
        ("web-1".to_string(), "sidecar".to_string()),
    ];
    let plans = s.plan_workers(&pairs);
    assert_eq!(plans.len(), 2);
    assert_eq!(plans[0].key, "web-1 app");
    assert_eq!(plans[1].key, "web-1 sidecar");
    assert_eq!(plans[0].color, color_of(&"web-1 app".to_string()));
}

#[test]
fn fifo_eviction_keeps_last_three() {
    let mut b: HistoryBuffer<&str> = HistoryBuffer::new(3);
    for x in ["A", "B", "C", "D", "E"] {
        b.push(x);
        assert!(b.len() <= 3);
    }
    assert_eq!(b.into_vec(), vec!["C", "D", "E"]);
}

#[test]
fn buffer_under_capacity_keeps_all() {
    let mut b: HistoryBuffer<u32> = HistoryBuffer::new(5);
    b.push(1);
    b.push(2);
    assert_eq!(b.len(), 2);
    assert_eq!(b.capacity(), 5);
    assert_eq!(b.into_vec(), vec![1, 2]);
}

#[test]
fn buffer_of_capacity_one() {
    let mut b: HistoryBuffer<u32> = HistoryBuffer::new(1);
    for x in 0..10 {
        b.push(x);
    }
    assert_eq!(b.into_vec(), vec![9]);
}

#[test]
fn buffer_of_capacity_zero_keeps_nothing() {
    let mut b: HistoryBuffer<u32> = HistoryBuffer::new(0);
    b.push(1);
    assert_eq!(b.len(), 0);
}

#[test]
fn color_is_stable_for_a_key() {
    let k = source_key(&"web-1".to_string(), &"app".to_string());
    assert_eq!(k, "web-1 app");
    assert_eq!(color_of(&k), color_of(&"web-1 app".to_string()));
}

#[test]
fn color_for_hash_uses_palette_modulo() {
    assert_eq!(color_for_hash(0), Color::Red);
    assert_eq!(color_for_hash(13), Color::DarkRed);
    assert_eq!(color_for_hash(11), Color::DarkCyan);
    assert_eq!(palette(6), Color::Blue);
}

#[test]
fn sanitize_strips_escapes_and_tabs() {
    let s = sanitize("\x1b[32mfoo\x1b[m\tbar\nbaz");
    assert_eq!(s, "foo bar baz");
    assert!(!s.chars().any(|c| c.is_control()));
    assert_eq!(sanitize(&s), s);
}

#[test]
fn spacing_replaces_only_breaks_and_tabs() {
    assert_eq!(replace_layout_controls("a\tb\nc d"), "a b c d");
    assert_eq!(replace_layout_controls(""), "");
}

#[test]
fn find_all_counts_overlapping() {
    assert_eq!(find_all(&chars("aaaa"), &chars("aa")), vec![0, 1, 2]);
    assert_eq!(find_all(&chars("abc"), &chars("")), Vec::<usize>::new());
    assert_eq!(find_all(&chars("ab"), &chars("abc")), Vec::<usize>::new());
}

#[test]
fn live_empty_query_renders_unmodified() {
    let mut b = HistoryBuffer::new(10);
    let line = receive(&mut b, rec("p c", "anything at all"), "").unwrap();
    assert_eq!(line.body, "anything at all");
    assert_eq!(line.key, "p c");
    assert!(line.marks.is_empty());
    assert_eq!(b.len(), 1);
}

#[test]
fn live_query_skips_but_buffers_nonmatching() {
    let mut b = HistoryBuffer::new(10);
    assert!(receive(&mut b, rec("p c", "no problems here"), "error").is_none());
    let line = receive(&mut b, rec("p c", "fatal error occurred"), "error").unwrap();
    assert_eq!(line.marks, vec![6]);
    assert_eq!(line.mark_len, 5);
    assert_eq!(line.body, "fatal error occurred");
    let kept = b.into_vec();
    assert_eq!(kept.len(), 2);
    assert_eq!(kept[0].body, "no problems here");
}

#[test]
fn search_keeps_matching_records_in_order() {
    let recs = vec![
        rec("a x", "started"),
        rec("a x", "read timeout after 5s"),
        rec("b y", "ok"),
        rec("b y", "timeout: retrying"),
        rec("a x", "done"),
    ];
    let r = search(&recs, "timeout");
    assert_eq!(r.len(), 2);
    assert_eq!(r[0].body, "read timeout after 5s");
    assert_eq!(r[0].marks, vec![5]);
    assert_eq!(r[1].body, "timeout: retrying");
    assert_eq!(r[1].marks, vec![0]);
    assert_eq!(r[1].mark_len, 7);
    let again = search(&recs, "timeout");
    assert_eq!(again.len(), 2);
    assert_eq!(again[0].body, r[0].body);
    assert_eq!(search(&recs, "").len(), 5);
    assert!(search(&recs, "zzz").is_empty());
}

#[test]
fn highlight_marks_every_occurrence() {
    let l = highlight(&rec("k", "err err"), "err").unwrap();
    assert_eq!(l.marks, vec![0, 4]);
    assert!(highlight(&rec("k", "fine"), "err").is_none());
}

#[test]
fn rescan_only_on_change() {
    assert!(!query_changed(&"abc".to_string(), &"abc".to_string()));
    assert!(query_changed(&"abc".to_string(), &"abcd".to_string()));
}

#[test]
fn worker_steps() {
    let key = "p c".to_string();
    assert!(matches!(worker_step(&key, Color::Green, false, PollOutcome::TimedOut), WorkerAction::Poll));
    assert!(matches!(worker_step(&key, Color::Green, true, PollOutcome::TimedOut), WorkerAction::Stop));
    assert!(matches!(worker_step(&key, Color::Green, false, PollOutcome::Ended), WorkerAction::Stop));
    assert!(matches!(worker_step(&key, Color::Green, false, PollOutcome::Failed), WorkerAction::Stop));
    match worker_step(&key, Color::Green, false, PollOutcome::Line("a\tb".to_string())) {
        WorkerAction::Emit(r) => {
            assert_eq!(r.body, "a b");
            assert_eq!(r.key, "p c");
            assert_eq!(r.color, Color::Green);
        }
        _ => panic!("line not emitted"),
    }
    assert!(should_poll(false));
    assert!(!should_poll(true));
}

#[test]
fn supervisor_spawns_one_per_source() {
    let mut s = Supervisor::new(3);
    let mut n = 0;
    while s.try_spawn() {
        n += 1;
    }
    assert_eq!(n, 3);
    s.cancel();
    for _ in 0..3 {
        assert!(!s.is_torn_down());
        s.worker_exited();
    }
    assert_eq!(s.running(), 0);
    assert!(s.is_torn_down());
}

#[test]
fn supervisor_cancelled_first_spawns_none() {
    let mut s = Supervisor::new(4);
    s.cancel();
    assert!(!s.try_spawn());
    assert_eq!(s.running(), 0);
    assert!(s.is_torn_down());
}

#[test]
fn mode_transitions() {
    assert_eq!(
        transition(Mode::Live, ModeEvent::Input(Signal::GoToDig)),
        Transition { next: Mode::Search, end_session: true }
    );
    assert_eq!(
        transition(Mode::Live, ModeEvent::Input(Signal::GoToBul)),
        Transition { next: Mode::Live, end_session: true }
    );
    assert_eq!(
        transition(Mode::Live, ModeEvent::Input(Signal::Continue)),
        Transition { next: Mode::Live, end_session: false }
    );
    assert_eq!(transition(Mode::Search, ModeEvent::SearchClosed).next, Mode::Live);
    assert_eq!(transition(Mode::Search, ModeEvent::Quit).next, Mode::Exit);
    assert!(ends_session(Signal::GoToDig));
    assert!(!ends_session(Signal::Continue));
}

fn args(context: Option<&str>, namespace: Option<&str>) -> Args {
    Args {
        context: context.map(|s| s.to_string()),
        namespace: namespace.map(|s| s.to_string()),
        pod_query: None,
        container_status: vec![ContainerState::All],
        log_retrieval_timeout_millis: 10,
        render_interval_millis: 10,
        queue_capacity: 1000,
    }
}

#[test]
fn context_and_namespace_resolution() {
    assert_eq!(detect_context(&args(Some("dev"), None), Some("prod".to_string())), Some("dev".to_string()));
    assert_eq!(detect_context(&args(None, None), Some("prod".to_string())), Some("prod".to_string()));
    assert_eq!(detect_context(&args(None, None), None), None);
    assert_eq!(detect_namespace(&args(None, Some("ns")), Some("other".to_string())), "ns");
    assert_eq!(detect_namespace(&args(None, None), Some("other".to_string())), "other");
    assert_eq!(detect_namespace(&args(None, None), None), "default");
}
