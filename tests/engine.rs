use snapvrt::catalog::{is_localhost_url, parse_host_port, rewrite_localhost, CatalogError, Storybook};
use snapvrt::config::{default_viewports, resolve_viewports, validate, CaptureConfig, ConfigError, ScreenshotKind, SourceConfig, Viewport};
use snapvrt::job::CaptureJob;
use snapvrt::pipeline::{finalize_clip, stages_after_clip, stages_before_clip, CaptureRequest, ClipBounds, ClipRect, PageAction};
use snapvrt::plan::{build_jobs, CapturePlan};
use snapvrt::pool::{channel_capacity, crashed_outcome, timed_out_outcome, worker_count, CaptureOutcome, JobQueue, Step, WorkerState};
use snapvrt::story::Story;
use snapvrt::strategy::{css_for_template_literal, escape_template_literal, Screenshot, ShotDecision};
use snapvrt::timing::CaptureTimings;
use snapvrt::transport::{idle_step, screenshot_png, Connection, IdleStep, PendingRequests, Route, ScreenshotError};

fn story(id: &str, tags: &[&str]) -> Story {
    Story {
        id: id.to_string(),
        name: "Primary".to_string(),
        title: format!("Comp/{id}"),
        tags: tags.iter().map(|t| t.to_string()).collect(),
    }
}

fn job(id: &str) -> CaptureJob {
    CaptureJob {
        source: "sb".to_string(),
        story: story(id, &[]),
        viewport: "laptop".to_string(),
        url: String::new(),
        width: 800,
        height: 600,
    }
}

fn timings() -> CaptureTimings {
    CaptureTimings {
        viewport: 1,
        navigate: 1,
        page_load: 1,
        network: 1,
        animation: 1,
        ready: 1,
        selector: 1,
        clip: 1,
        screenshot: 1,
        total: 9,
        compare: 0,
    }
}

#[test]
fn worker_and_channel_sizes() {
    assert_eq!(worker_count(10, 4), 4);
    assert_eq!(worker_count(2, 4), 2);
    assert_eq!(worker_count(5, 0), 1);
    assert_eq!(channel_capacity(4), 8);
    assert_eq!(channel_capacity(0), 2);
}

#[test]
fn queue_yields_each_job_once_lifo() {
    let mut q = JobQueue::new(vec![job("a"), job("b"), job("c")]);
    let mut seen = Vec::new();
    loop {
        match q.next_step() {
            Step::Capture(j) => {
                seen.push(j.story.id.clone());
                let out = q.deliver(CaptureOutcome::Captured(vec![1], timings()));
                assert!(matches!(out, CaptureOutcome::Captured(_, _)));
            }
            Step::Crashed(_) => panic!("browser is alive"),
            Step::Exit => break,
        }
    }
    assert_eq!(seen, vec!["c", "b", "a"]);
}

#[test]
fn crash_escalation_drains_queue() {
    let mut q = JobQueue::new(vec![job("a"), job("b"), job("c"), job("d"), job("e")]);
    let mut w = WorkerState::new();
    let mut outcomes = Vec::new();
    let mut escalated = false;
    for _ in 0..3 {
        match q.next_step() {
            Step::Capture(_) => {
                escalated = w.session_failed();
                outcomes.push(q.deliver(CaptureOutcome::Failed("Session creation failed: refused".to_string())));
            }
            _ => panic!("expected a capture step"),
        }
    }
    assert!(escalated);
    q.mark_dead();
    assert!(q.is_dead());
    loop {
        match q.next_step() {
            Step::Crashed(_) => outcomes.push(q.deliver(crashed_outcome())),
            Step::Capture(_) => panic!("no capture after the crash"),
            Step::Exit => break,
        }
    }
    assert_eq!(outcomes.len(), 5);
    for o in &outcomes[3..] {
        match o {
            CaptureOutcome::Failed(m) => assert_eq!(m, "Chrome process crashed"),
            CaptureOutcome::Captured(_, _) => panic!("no success after the crash"),
        }
    }
}

#[test]
fn late_success_after_crash_is_reported_crashed() {
    let mut q = JobQueue::new(vec![job("a")]);
    assert!(matches!(q.next_step(), Step::Capture(_)));
    q.mark_dead();
    let out = q.deliver(CaptureOutcome::Captured(vec![1, 2], timings()));
    assert!(matches!(out, CaptureOutcome::Failed(_)));
}

#[test]
fn session_failures_reset_on_success() {
    let mut w = WorkerState::new();
    assert!(!w.session_failed());
    assert!(!w.session_failed());
    w.session_opened();
    assert!(!w.session_failed());
    assert_eq!(w.consecutive_session_failures, 1);
}

#[test]
fn timeout_message() {
    match timed_out_outcome() {
        CaptureOutcome::Failed(m) => assert_eq!(m, "Capture timed out after 30s"),
        _ => panic!("expected a failure"),
    }
}

#[test]
fn unit_clip_is_legal() {
    let c = finalize_clip(ClipBounds { x: 3, y: 4, width: 1, height: 1 }, 800);
    assert_eq!(c, ClipRect { x: 3, y: 4, w: 1, h: 1 });
    let z = finalize_clip(ClipBounds { x: 0, y: 0, width: 0, height: -5 }, 800);
    assert_eq!((z.w, z.h), (1, 1));
    let wide = finalize_clip(ClipBounds { x: 0, y: 0, width: 2000, height: 10 }, 800);
    assert_eq!(wide.w, 800);
}

#[test]
fn tall_clip_resizes_once_and_restores() {
    let req = CaptureRequest { url: "u".to_string(), width: 800, height: 600 };
    let (clip, actions) = stages_after_clip(&req, ClipBounds { x: 0, y: 0, width: 300, height: 1500 });
    assert_eq!(clip.h, 1500);
    let sets: Vec<(u32, u32)> = actions
        .iter()
        .filter_map(|a| match a {
            PageAction::SetViewport { width, height } => Some((*width, *height)),
            _ => None,
        })
        .collect();
    assert_eq!(sets, vec![(800, 1500), (800, 600)]);
    assert!(matches!(actions[1], PageAction::Sleep(500)));
    let (_, short) = stages_after_clip(&req, ClipBounds { x: 0, y: 0, width: 300, height: 600 });
    assert_eq!(short.len(), 1);
    assert!(matches!(short[0], PageAction::Screenshot(_)));
    assert_eq!(stages_before_clip(&req).len(), 8);
}

#[test]
fn stable_screenshot_stops_on_repeat() {
    let mut cfg = CaptureConfig::empty();
    let s = Screenshot::from_config(&cfg);
    assert_eq!(s, Screenshot::Stable { max_attempts: 3, delay_ms: 100 });
    let mut seq = s.start();
    assert!(matches!(seq.on_shot(vec![1]), ShotDecision::Again(100)));
    match seq.on_shot(vec![1]) {
        ShotDecision::Done(b) => assert_eq!(b, vec![1]),
        _ => panic!("two equal shots end the sequence"),
    }
    let mut changing = s.start();
    assert!(matches!(changing.on_shot(vec![1]), ShotDecision::Again(_)));
    assert!(matches!(changing.on_shot(vec![2]), ShotDecision::Again(_)));
    match changing.on_shot(vec![3]) {
        ShotDecision::Done(b) => assert_eq!(b, vec![3]),
        _ => panic!("the limit ends the sequence"),
    }
    cfg.screenshot = Some(ScreenshotKind::Single);
    let mut single = Screenshot::from_config(&cfg).start();
    assert!(matches!(single.on_shot(vec![9]), ShotDecision::Done(_)));
}

#[test]
fn config_merge_and_defaults() {
    let mut base = CaptureConfig::empty();
    base.parallel = Some(2);
    base.chrome_url = Some("http://a:1".to_string());
    let mut over = CaptureConfig::empty();
    over.stability_attempts = Some(5);
    over.chrome_url = Some("http://b:2".to_string());
    base.merge(&over);
    assert_eq!(base.parallel(), 2);
    assert_eq!(base.stability_attempts, Some(5));
    assert_eq!(base.chrome_url.as_deref(), Some("http://b:2"));
    assert_eq!(CaptureConfig::empty().parallel(), 4);
    let vps = default_viewports();
    assert_eq!(vps[0].0, "laptop");
    assert_eq!(vps[0].1, Viewport { width: 1366, height: 768 });
    let src = SourceConfig::Storybook { url: "http://x".to_string(), viewports: None };
    assert_eq!(src.url(), "http://x");
    assert!(src.viewports().is_none());
}

#[test]
fn template_literal_escaping() {
    assert_eq!(escape_template_literal("a\\b`c${d}$e"), "a\\\\b\\`c\\${d}$e");
    assert!(css_for_template_literal().contains("animation: none !important;"));
}

#[test]
fn localhost_rewrite() {
    assert!(is_localhost_url("http://localhost:6006"));
    assert!(is_localhost_url("http://127.0.0.1/x"));
    assert!(!is_localhost_url("http://example.com:6006"));
    assert!(!is_localhost_url("localhost:6006"));
    assert_eq!(rewrite_localhost("http://localhost:6006", Some("10.0.0.5")).unwrap(), "http://10.0.0.5:6006");
    assert_eq!(rewrite_localhost("http://example.com", None).unwrap(), "http://example.com");
    assert!(rewrite_localhost("http://localhost:6006", None).is_none());
}

#[test]
fn storybook_urls() {
    let sb = Storybook::new("http://localhost:6006//", true, None).ok().unwrap();
    assert_eq!(sb.url(), "http://localhost:6006");
    assert_eq!(sb.story_url(&story("button--primary", &[])), "http://localhost:6006/iframe.html?id=button--primary");
    assert!(matches!(Storybook::new("http://localhost:6006", false, None), Err(CatalogError::NoHostAddress)));
}

#[test]
fn plan_crosses_stories_and_viewports() {
    let sb = Storybook::new("http://h:1", true, None).ok().unwrap();
    let stories = vec![story("a", &[]), story("b", &["snapvrt-skip"]), story("c", &[])];
    let vps = vec![
        ("laptop".to_string(), Viewport { width: 1366, height: 768 }),
        ("mobile".to_string(), Viewport { width: 375, height: 667 }),
    ];
    let jobs = build_jobs("sb", &sb, &stories, &vps, None);
    let ids: Vec<String> = jobs.iter().map(|j| j.snapshot_id()).collect();
    assert_eq!(
        ids,
        vec!["sb/laptop/Comp/a/Primary", "sb/mobile/Comp/a/Primary", "sb/laptop/Comp/c/Primary", "sb/mobile/Comp/c/Primary"]
    );
    let filtered = build_jobs("sb", &sb, &stories, &vps, Some("mobile"));
    assert_eq!(filtered.len(), 2);
    let plan = CapturePlan { config: CaptureConfig::empty(), jobs };
    assert_eq!(plan.total(), 4);
    assert_eq!(plan.job_names()[3], "sb/mobile/Comp/c/Primary");
}

#[test]
fn connection_ids_and_routing() {
    let mut c = Connection::new();
    assert_eq!(c.issue_id(), 1);
    assert_eq!(c.issue_id(), 2);
    let r = c.route_reply(2, Some(1), None, serde_json::Value::Null);
    assert!(matches!(r, Route::Dropped));
    let r = c.route_reply(2, None, Some("Network.requestWillBeSent".to_string()), serde_json::Value::Null);
    assert!(matches!(r, Route::Buffered));
    let r = c.route_reply(2, Some(2), None, serde_json::Value::Null);
    assert!(matches!(r, Route::Deliver));
    let r = c.route_event("Page.loadEventFired", Some("Page.frameNavigated".to_string()), serde_json::Value::Null);
    assert!(matches!(r, Route::Buffered));
    assert_eq!(c.buffered_len(), 2);
    assert!(c.take_event("Page.frameNavigated").is_some());
    assert!(c.take_event("Page.frameNavigated").is_none());
    assert_eq!(c.buffered_len(), 1);
    c.clear_events();
    assert_eq!(c.buffered_len(), 0);
}

#[test]
fn pending_requests_and_idle_timing() {
    let mut p = PendingRequests::new();
    assert!(p.is_empty());
    p.track("Network.requestWillBeSent", Some("r1"));
    p.track("Network.requestWillBeSent", Some("r1"));
    p.track("Network.dataReceived", Some("r1"));
    assert!(!p.is_empty());
    p.track("Network.loadingFinished", Some("r1"));
    assert!(p.is_empty());
    assert!(matches!(idle_step(0, 10_000, true), IdleStep::Read(100)));
    assert!(matches!(idle_step(9_950, 10_000, true), IdleStep::Read(50)));
    assert!(matches!(idle_step(2_000, 10_000, false), IdleStep::Read(8_000)));
    assert!(matches!(idle_step(10_000, 10_000, false), IdleStep::Done));
}

#[test]
fn screenshot_data_decodes() {
    assert_eq!(screenshot_png(Some("iVBORw==")).unwrap(), vec![0x89, 0x50, 0x4e, 0x47]);
    assert_eq!(screenshot_png(None), Err(ScreenshotError::MissingData));
    assert_eq!(screenshot_png(Some("@@@")), Err(ScreenshotError::BadEncoding));
    assert_eq!(screenshot_png(Some("")), Err(ScreenshotError::Empty));
}

#[test]
fn host_port_of_devtools_url() {
    assert_eq!(parse_host_port("ws://127.0.0.1:9222/devtools/browser/abc").unwrap(), "127.0.0.1:9222");
    assert_eq!(parse_host_port("http://chrome:9222").unwrap(), "chrome:9222");
    assert!(parse_host_port("no-scheme").is_none());
}

#[test]
fn configuration_checks_in_order() {
    let src = |vps: Option<Vec<&str>>| {
        (
            "storybook".to_string(),
            SourceConfig::Storybook {
                url: "http://x".to_string(),
                viewports: vps.map(|v| v.into_iter().map(String::from).collect()),
            },
        )
    };
    let laptop = ("laptop".to_string(), Viewport { width: 1366, height: 768 });
    assert!(matches!(validate(&vec![], &vec![laptop.clone()]), Err(ConfigError::NoSources)));
    assert!(matches!(validate(&vec![src(None)], &vec![]), Err(ConfigError::NoViewports)));
    let flat = ("flat".to_string(), Viewport { width: 10, height: 0 });
    match validate(&vec![src(None)], &vec![laptop.clone(), flat]) {
        Err(ConfigError::InvalidViewport { name, width, height }) => assert_eq!((name.as_str(), width, height), ("flat", 10, 0)),
        _ => panic!("expected an invalid viewport"),
    }
    match validate(&vec![src(Some(vec!["laptop", "tv"]))], &vec![laptop.clone()]) {
        Err(ConfigError::UnknownViewport { source, viewport }) => assert_eq!((source.as_str(), viewport.as_str()), ("storybook", "tv")),
        _ => panic!("expected an unknown viewport"),
    }
    assert!(validate(&vec![src(Some(vec!["laptop"]))], &vec![laptop]).is_ok());
}

#[test]
fn source_viewport_subset() {
    let defined = vec![
        ("laptop".to_string(), Viewport { width: 1366, height: 768 }),
        ("mobile".to_string(), Viewport { width: 375, height: 667 }),
        ("tv".to_string(), Viewport { width: 1920, height: 1080 }),
    ];
    let all = resolve_viewports(None, &defined);
    assert_eq!(all.len(), 3);
    let picked = vec!["tv".to_string(), "laptop".to_string()];
    let some = resolve_viewports(Some(&picked), &defined);
    assert_eq!(some.iter().map(|v| v.0.as_str()).collect::<Vec<_>>(), vec!["laptop", "tv"]);
}

#[test]
fn third_session_failure_declares_browser_dead() {
    let mut q = JobQueue::new(vec![job("a"), job("b"), job("c"), job("d")]);
    let mut w = WorkerState::new();
    for n in 1..=3 {
        assert!(matches!(q.next_step(), Step::Capture(_)));
        let (out, escalate) = q.session_failed(&mut w, "connection refused");
        match out {
            CaptureOutcome::Failed(m) => assert_eq!(m, "Session creation failed: connection refused"),
            _ => panic!("a failed session is a failed capture"),
        }
        assert_eq!(escalate, n == 3);
        assert_eq!(q.is_dead(), n == 3);
    }
    assert!(matches!(q.next_step(), Step::Crashed(_)));
    assert!(matches!(q.next_step(), Step::Exit));
}
