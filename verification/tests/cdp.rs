use std::time::Duration;

use crawlkit_extensions::cdp::client::{debugger_url, version_url};
use crawlkit_extensions::cdp::fetch::{FetchAction, PageFetch};
use crawlkit_extensions::cdp::pool::{CdpPool, CdpPoolBuilder, CdpStrategy, PoolBuildError};
use crawlkit_extensions::cdp::protocol::{
    create_target_command, on_call_event, on_load_event, CallProgress, CdpCommand, CdpError, LoadEvent,
    LoadProgress, WsEvent,
};
use crawlkit_extensions::cdp::{CdpClient, CdpClientBuilder};

#[test]
fn test_cdp_strategy_default() {
    assert_eq!(CdpStrategy::default(), CdpStrategy::RoundRobin);
}

#[test]
fn test_cdp_builder_defaults() {
    let builder = CdpClientBuilder::default();
    assert_eq!(builder.endpoint(), "http://127.0.0.1:9222");
    assert!(builder.name().is_none());
    assert_eq!(builder.navigation_timeout(), Duration::from_secs(30));
    assert_eq!(builder.connection_timeout(), Duration::from_secs(10));
}

#[test]
fn test_cdp_pool_builder_defaults() {
    let builder = CdpPoolBuilder::default();
    assert!(builder.endpoints().is_empty());
    assert_eq!(builder.strategy(), CdpStrategy::RoundRobin);
    assert_eq!(builder.navigation_timeout(), Duration::from_secs(30));
}

fn client(name: &str) -> CdpClient {
    CdpClient::builder().with_name(name).finish(format!("ws://{name}/devtools/browser/1"))
}

#[test]
fn cdp_builder_setters_and_finish() {
    let b = CdpClient::builder()
        .with_endpoint("http://10.0.0.1:9333")
        .with_navigation_timeout(Duration::from_secs(15))
        .with_connection_timeout(Duration::from_secs(5));
    assert_eq!(b.endpoint(), "http://10.0.0.1:9333");
    let c = b.finish("ws://10.0.0.1:9333/devtools/browser/abc".to_string());
    assert_eq!(c.endpoint_name(), "http://10.0.0.1:9333");
    assert_eq!(c.name(), "http://10.0.0.1:9333");
    assert_eq!(c.browser_ws_url(), "ws://10.0.0.1:9333/devtools/browser/abc");
    assert_eq!(c.navigation_timeout(), Duration::from_secs(15));
    assert_eq!(c.connection_timeout(), Duration::from_secs(5));
    let named = CdpClient::builder().with_name("cdp-1").finish(String::new());
    assert_eq!(named.endpoint_name(), "cdp-1");
}

#[test]
fn cdp_version_url() {
    assert_eq!(version_url("http://127.0.0.1:9222"), "http://127.0.0.1:9222/json/version");
    assert_eq!(version_url("http://127.0.0.1:9222//"), "http://127.0.0.1:9222/json/version");
    assert_eq!(version_url("ws://127.0.0.1:9222/"), "http://127.0.0.1:9222/json/version");
    assert_eq!(version_url("wss://host"), "https://host/json/version");
    let b = CdpClient::builder().with_endpoint("ws://h:1");
    assert_eq!(b.version_url(), "http://h:1/json/version");
}

#[test]
fn cdp_debugger_url() {
    assert_eq!(
        debugger_url(r#"{"Browser":"x","webSocketDebuggerUrl":"ws://127.0.0.1:9222/devtools/browser/9"}"#),
        Ok("ws://127.0.0.1:9222/devtools/browser/9".to_string())
    );
    assert_eq!(debugger_url(r#"{"Browser":"x"}"#), Err(CdpError::MissingDebuggerUrl));
    assert_eq!(debugger_url(r#"{"webSocketDebuggerUrl":3}"#), Err(CdpError::MissingDebuggerUrl));
    assert_eq!(debugger_url("not json"), Err(CdpError::VersionUnreadable));
}

#[test]
fn cdp_command_text() {
    let c = create_target_command(1);
    assert_eq!(c.to_json(), r#"{"id":1,"method":"Target.createTarget","params":{"url":"about:blank"}}"#);
    let with_session = CdpCommand {
        id: 120,
        session_id: Some("S\"1".to_string()),
        method: "Page.enable".to_string(),
        params: "{}".to_string(),
    };
    assert_eq!(
        with_session.to_json(),
        r#"{"id":120,"method":"Page.enable","params":{},"sessionId":"S\"1"}"#
    );
    let probe = CdpClient::builder().probe_command();
    assert_eq!(probe.id, 1);
    assert_eq!(probe.method, "Target.createTarget");
}

#[test]
fn cdp_call_events() {
    let other = on_call_event(2, "Page.navigate", WsEvent::Text(r#"{"id":1,"result":{}}"#.to_string()));
    assert!(matches!(other, CallProgress::Waiting));
    let event = on_call_event(2, "Page.navigate", WsEvent::Text(r#"{"method":"Page.loadEventFired"}"#.to_string()));
    assert!(matches!(event, CallProgress::Waiting));
    let garbage = on_call_event(2, "Page.navigate", WsEvent::Text("{".to_string()));
    assert!(matches!(garbage, CallProgress::Waiting));
    let reply = on_call_event(2, "Page.navigate", WsEvent::Text(r#"{"id":2,"result":{"frameId":"F"}}"#.to_string()));
    assert!(matches!(reply, CallProgress::Reply(t) if t == r#"{"id":2,"result":{"frameId":"F"}}"#));
    let failed = on_call_event(
        2,
        "Page.navigate",
        WsEvent::Text(r#"{"id":2,"error":{"message":"bad","code":-32000}}"#.to_string()),
    );
    match failed {
        CallProgress::Failed(CdpError::Command { method, error }) => {
            assert_eq!(method, "Page.navigate");
            assert_eq!(error, r#"{"code":-32000,"message":"bad"}"#);
        }
        _ => panic!("expected a command error"),
    }
    assert!(matches!(on_call_event(2, "m", WsEvent::Other), CallProgress::Waiting));
    assert!(matches!(on_call_event(2, "m", WsEvent::Close), CallProgress::Failed(CdpError::Closed)));
    assert!(matches!(on_call_event(2, "m", WsEvent::End), CallProgress::Failed(CdpError::StreamEnded)));
    assert!(matches!(
        on_call_event(2, "m", WsEvent::Failure("reset".to_string())),
        CallProgress::Failed(CdpError::Socket(e)) if e == "reset"
    ));
}

fn text(s: &str) -> LoadEvent {
    LoadEvent::Message(WsEvent::Text(s.to_string()))
}

#[test]
fn cdp_load_events() {
    let stopped = r#"{"method":"Page.frameStoppedLoading","sessionId":"S1","params":{}}"#;
    assert!(matches!(on_load_event(Some("S1"), text(stopped)), LoadProgress::Loaded));
    assert!(matches!(on_load_event(Some("S2"), text(stopped)), LoadProgress::Waiting));
    assert!(matches!(on_load_event(None, text(stopped)), LoadProgress::Loaded));
    let load = r#"{"method":"Page.lifecycleEvent","sessionId":"S1","params":{"name":"load"}}"#;
    assert!(matches!(on_load_event(Some("S1"), text(load)), LoadProgress::Loaded));
    let dom = r#"{"method":"Page.lifecycleEvent","sessionId":"S1","params":{"name":"DOMContentLoaded"}}"#;
    assert!(matches!(on_load_event(Some("S1"), text(dom)), LoadProgress::Waiting));
    assert!(matches!(on_load_event(Some("S1"), text("nonsense")), LoadProgress::Waiting));
    assert!(matches!(on_load_event(Some("S1"), LoadEvent::Message(WsEvent::Other)), LoadProgress::Waiting));
    assert!(matches!(on_load_event(Some("S1"), LoadEvent::Message(WsEvent::Close)), LoadProgress::Failed(CdpError::Closed)));
    assert!(matches!(on_load_event(Some("S1"), LoadEvent::Message(WsEvent::End)), LoadProgress::Failed(CdpError::Closed)));
    assert!(matches!(on_load_event(Some("S1"), LoadEvent::TimedOut), LoadProgress::Failed(CdpError::LoadTimeout)));
}

fn expect_send(f: &PageFetch, id: u32, method: &str, session: Option<&str>) -> CdpCommand {
    match f.action() {
        FetchAction::Send(c) => {
            assert_eq!(c.id, id);
            assert_eq!(c.method, method);
            assert_eq!(c.session_id.as_deref(), session);
            c
        }
        _ => panic!("expected a command"),
    }
}

#[test]
fn cdp_page_fetch_runs_all_steps() {
    let mut f = PageFetch::new("https://example.com");
    expect_send(&f, 1, "Target.createTarget", None);
    f.on_reply(Ok(r#"{"id":1,"result":{"targetId":"T1"}}"#.to_string()));
    let attach = expect_send(&f, 2, "Target.attachToTarget", None);
    assert_eq!(attach.params, r#"{"flatten":true,"targetId":"T1"}"#);
    f.on_reply(Ok(r#"{"id":2,"result":{"sessionId":"S1"}}"#.to_string()));
    expect_send(&f, 3, "Runtime.enable", Some("S1"));
    f.on_reply(Err(CdpError::Closed));
    expect_send(&f, 4, "Runtime.runIfWaitingForDebugger", Some("S1"));
    f.on_reply(Ok(r#"{"id":4,"result":{}}"#.to_string()));
    expect_send(&f, 5, "Page.enable", Some("S1"));
    f.on_reply(Err(CdpError::Command { method: "Page.enable".to_string(), error: "{}".to_string() }));
    let nav = expect_send(&f, 6, "Page.navigate", Some("S1"));
    assert_eq!(nav.params, r#"{"url":"https://example.com"}"#);
    f.on_reply(Ok(r#"{"id":6,"result":{"frameId":"F"}}"#.to_string()));
    assert!(matches!(f.action(), FetchAction::AwaitLoad(s) if s == "S1"));
    f.on_load(Ok(()));
    let html = expect_send(&f, 7, "Runtime.evaluate", Some("S1"));
    assert_eq!(html.params, r#"{"expression":"document.documentElement.outerHTML","returnByValue":true}"#);
    f.on_reply(Ok(r#"{"id":7,"result":{"result":{"type":"string","value":"<html></html>"}}}"#.to_string()));
    let url = expect_send(&f, 8, "Runtime.evaluate", Some("S1"));
    assert_eq!(url.params, r#"{"expression":"document.URL","returnByValue":true}"#);
    f.on_reply(Ok(r#"{"id":8,"result":{"result":{"type":"string","value":"https://example.com/"}}}"#.to_string()));
    assert!(matches!(f.action(), FetchAction::Stop));
    assert_eq!(
        f.outcome(),
        Some(Ok(("https://example.com/".to_string(), "<html></html>".to_string())))
    );
}

#[test]
fn cdp_page_fetch_defaults_for_missing_values() {
    let mut f = PageFetch::new("https://a.test");
    f.on_reply(Ok(r#"{"id":1,"result":{"targetId":"T"}}"#.to_string()));
    f.on_reply(Ok(r#"{"id":2,"result":{"sessionId":"S"}}"#.to_string()));
    f.on_reply(Ok("{}".to_string()));
    f.on_reply(Ok("{}".to_string()));
    f.on_reply(Ok("{}".to_string()));
    f.on_reply(Ok("{}".to_string()));
    f.on_load(Ok(()));
    f.on_reply(Ok(r#"{"id":7,"result":{"result":{"type":"undefined"}}}"#.to_string()));
    f.on_reply(Ok(r#"{"id":8,"result":{}}"#.to_string()));
    assert_eq!(f.outcome(), Some(Ok(("https://a.test".to_string(), String::new()))));
}

#[test]
fn cdp_page_fetch_failures() {
    let mut no_target = PageFetch::new("https://a.test");
    no_target.on_reply(Ok(r#"{"id":1,"result":{}}"#.to_string()));
    assert!(matches!(no_target.action(), FetchAction::Stop));
    assert_eq!(no_target.outcome(), Some(Err(CdpError::MissingTargetId)));

    let mut no_session = PageFetch::new("https://a.test");
    no_session.on_reply(Ok(r#"{"id":1,"result":{"targetId":"T"}}"#.to_string()));
    no_session.on_reply(Ok(r#"{"id":2,"result":{}}"#.to_string()));
    assert_eq!(no_session.outcome(), Some(Err(CdpError::MissingSessionId)));

    let mut nav_failed = PageFetch::new("https://a.test");
    nav_failed.on_reply(Ok(r#"{"id":1,"result":{"targetId":"T"}}"#.to_string()));
    nav_failed.on_reply(Ok(r#"{"id":2,"result":{"sessionId":"S"}}"#.to_string()));
    nav_failed.on_reply(Ok("{}".to_string()));
    nav_failed.on_reply(Ok("{}".to_string()));
    nav_failed.on_reply(Ok("{}".to_string()));
    nav_failed.on_reply(Err(CdpError::StreamEnded));
    assert_eq!(nav_failed.outcome(), Some(Err(CdpError::StreamEnded)));

    let mut load_failed = PageFetch::new("https://a.test");
    load_failed.on_reply(Ok(r#"{"id":1,"result":{"targetId":"T"}}"#.to_string()));
    load_failed.on_reply(Ok(r#"{"id":2,"result":{"sessionId":"S"}}"#.to_string()));
    for _ in 0..4 {
        load_failed.on_reply(Ok("{}".to_string()));
    }
    load_failed.on_load(Err(CdpError::LoadTimeout));
    assert_eq!(load_failed.outcome(), Some(Err(CdpError::LoadTimeout)));

    let running = PageFetch::new("https://a.test");
    assert_eq!(running.outcome(), None);
}

#[test]
fn cdp_pool_builder_endpoints() {
    let b = CdpPool::builder()
        .with_endpoint("http://127.0.0.1:9222")
        .with_named_endpoint("obscura", "http://127.0.0.1:9223")
        .with_strategy(CdpStrategy::Failover)
        .with_navigation_timeout(Duration::from_secs(15));
    assert_eq!(
        b.endpoints(),
        &vec![
            ("http://127.0.0.1:9222".to_string(), None),
            ("http://127.0.0.1:9223".to_string(), Some("obscura".to_string())),
        ]
    );
    assert_eq!(b.strategy(), CdpStrategy::Failover);
    let builders = match b.client_builders() {
        Ok(v) => v,
        Err(_) => panic!("expected client builders"),
    };
    assert_eq!(builders.len(), 2);
    assert_eq!(builders[0].endpoint(), "http://127.0.0.1:9222");
    assert_eq!(builders[0].name(), Some("http://127.0.0.1:9222"));
    assert_eq!(builders[1].name(), Some("obscura"));
    assert_eq!(builders[1].navigation_timeout(), Duration::from_secs(15));
    assert_eq!(builders[1].connection_timeout(), Duration::from_secs(10));
}

#[test]
fn cdp_pool_needs_an_endpoint() {
    assert!(matches!(CdpPool::builder().client_builders(), Err(PoolBuildError::NoEndpoints)));
    assert!(matches!(CdpPool::builder().assemble(Vec::new()), Err(PoolBuildError::NoEndpoints)));
}

#[test]
fn cdp_pool_all_failed_keeps_last_error() {
    let r = CdpPool::builder()
        .with_endpoint("a")
        .with_endpoint("b")
        .assemble(vec![Err("first".to_string()), Err("second".to_string())]);
    assert!(matches!(r, Err(PoolBuildError::AllFailed { last_error: Some(e) }) if e == "second"));
}

fn pool(strategy: CdpStrategy) -> CdpPool {
    let r = CdpPool::builder()
        .with_named_endpoint("a", "http://a")
        .with_named_endpoint("x", "http://x")
        .with_named_endpoint("b", "http://b")
        .with_endpoint("http://c")
        .with_strategy(strategy)
        .assemble(vec![Ok(client("a")), Err("down".to_string()), Ok(client("b")), Ok(client("c"))]);
    match r {
        Ok(p) => p,
        Err(_) => panic!("expected a pool"),
    }
}

#[test]
fn cdp_pool_keeps_connected_endpoints_in_order() {
    let p = pool(CdpStrategy::RoundRobin);
    assert_eq!(p.total_count(), 3);
    assert_eq!(p.healthy_count(), 3);
    assert_eq!(p.endpoint_label(0), "a");
    assert_eq!(p.endpoint_label(1), "b");
    assert_eq!(p.endpoint_label(2), "http://c");
    assert_eq!(p.endpoint_client(1).name(), "b");
    assert_eq!(p.name(), "cdp-pool");
}

#[test]
fn cdp_pool_round_robin_cycles() {
    let mut p = pool(CdpStrategy::RoundRobin);
    let picks: Vec<usize> = (0..6).map(|_| p.select_index().unwrap()).collect();
    assert_eq!(picks, vec![0, 1, 2, 0, 1, 2]);
    p.mark_unhealthy(1);
    assert_eq!(p.healthy_count(), 2);
    let picks: Vec<usize> = (0..4).map(|_| p.select_index().unwrap()).collect();
    assert_eq!(picks, vec![0, 2, 0, 2]);
}

#[test]
fn cdp_pool_failover_prefers_first_healthy() {
    let mut p = pool(CdpStrategy::Failover);
    assert_eq!(p.select_index(), Some(0));
    assert_eq!(p.select_index(), Some(0));
    p.mark_unhealthy(0);
    assert_eq!(p.select_index(), Some(1));
    p.mark_unhealthy(1);
    assert_eq!(p.select_index(), Some(2));
    p.mark_unhealthy(2);
    assert_eq!(p.healthy_count(), 0);
    assert_eq!(p.select_index(), Some(0));
    assert_eq!(p.healthy_count(), 3);
}

#[test]
fn cdp_pool_random_picks_healthy() {
    let mut p = pool(CdpStrategy::Random);
    p.mark_unhealthy(1);
    for _ in 0..50 {
        let i = p.select_index().unwrap();
        assert!(i == 0 || i == 2);
    }
    let mut q = pool(CdpStrategy::Random);
    q.mark_unhealthy(0);
    q.mark_unhealthy(2);
    assert_eq!(q.select_index_with(0), Some(1));
    q.mark_unhealthy(7);
    assert_eq!(q.healthy_count(), 1);
}

#[test]
fn cdp_pool_reset_all_health() {
    let mut p = pool(CdpStrategy::RoundRobin);
    p.mark_unhealthy(0);
    p.mark_unhealthy(2);
    p.reset_all_health();
    assert_eq!(p.healthy_count(), 3);
}

#[test]
fn cdp_pool_round_tries_each_endpoint_once() {
    let mut p = pool(CdpStrategy::Failover);
    let mut round = p.start_round();
    assert_eq!(round.total(), 3);
    let mut tried = Vec::new();
    while let Some(i) = p.next_attempt(&mut round) {
        tried.push(i);
        p.report_failure(&mut round, i, format!("endpoint {i} failed"));
    }
    assert_eq!(tried, vec![0, 1, 2]);
    assert_eq!(round.tried(), 3);
    assert_eq!(round.last_error(), Some("endpoint 2 failed"));
    assert_eq!(p.healthy_count(), 0);
}

#[test]
fn cdp_version_url_of_browser_websocket_endpoint() {
    assert_eq!(
        version_url("ws://127.0.0.1:9222/devtools/browser/abc"),
        "http://127.0.0.1:9222/json/version"
    );
    assert_eq!(version_url("wss://host:9/devtools/browser/x"), "https://host:9/json/version");
    assert_eq!(version_url("ws://host"), "http://host/json/version");
    assert_eq!(version_url("wsx"), "httpx/json/version");
}

#[test]
fn cdp_command_text_escapes_strings() {
    let c = CdpCommand {
        id: 9,
        session_id: Some("a\u{1}b\\\n\t\u{8}\u{c}\r\u{1f}é".to_string()),
        method: "Runtime.evaluate".to_string(),
        params: "{}".to_string(),
    };
    assert_eq!(
        c.to_json(),
        "{\"id\":9,\"method\":\"Runtime.evaluate\",\"params\":{},\"sessionId\":\"a\\u0001b\\\\\\n\\t\\b\\f\\r\\u001fé\"}"
    );
}

fn two_endpoint_pool(strategy: CdpStrategy) -> CdpPool {
    match CdpPool::builder()
        .with_named_endpoint("first", "http://a")
        .with_named_endpoint("second", "http://b")
        .with_strategy(strategy)
        .assemble(vec![Ok(client("first")), Ok(client("second"))])
    {
        Ok(p) => p,
        Err(_) => panic!("expected a pool"),
    }
}

#[test]
fn cdp_failover_moves_to_next_endpoint_after_failure() {
    let mut p = two_endpoint_pool(CdpStrategy::Failover);
    p.mark_unhealthy(1);
    let mut round = p.start_round();
    assert_eq!(p.next_attempt(&mut round), Some(0));
    p.report_failure(&mut round, 0, "first failed".to_string());
    assert_eq!(p.next_attempt(&mut round), Some(1));
    assert_eq!(p.healthy_count(), 2);
    p.report_failure(&mut round, 1, "second failed".to_string());
    assert_eq!(p.next_attempt(&mut round), None);
    assert_eq!(round.last_error(), Some("second failed"));
}

#[test]
fn cdp_round_tries_untried_endpoints_after_reset() {
    let mut p = pool(CdpStrategy::Failover);
    p.mark_unhealthy(1);
    let mut round = p.start_round();
    let mut tried = Vec::new();
    while let Some(i) = p.next_attempt(&mut round) {
        tried.push(i);
        p.report_failure(&mut round, i, format!("{i}"));
    }
    assert_eq!(tried, vec![0, 2, 1]);
}

#[test]
fn cdp_round_robin_requests_take_turns() {
    let mut p = pool(CdpStrategy::RoundRobin);
    let mut served = Vec::new();
    for _ in 0..7 {
        let mut round = p.start_round();
        served.push(p.next_attempt(&mut round).unwrap());
    }
    assert_eq!(served, vec![0, 1, 2, 0, 1, 2, 0]);
    assert_eq!(p.healthy_count(), 3);
}

#[test]
fn cdp_round_robin_request_picks_first_endpoint_after_reset() {
    let mut p = pool(CdpStrategy::RoundRobin);
    p.mark_unhealthy(1);
    let mut round = p.start_round();
    assert_eq!(p.next_attempt(&mut round), Some(0));
    p.report_failure(&mut round, 0, "0".to_string());
    assert_eq!(p.next_attempt(&mut round), Some(2));
    p.report_failure(&mut round, 2, "2".to_string());
    assert_eq!(p.healthy_count(), 0);
    assert_eq!(p.next_attempt(&mut round), Some(0));
    assert_eq!(p.healthy_count(), 3);
    assert_eq!(p.next_attempt(&mut round), None);
    assert_eq!(round.tried(), 3);
}

#[test]
fn cdp_random_request_picks_first_endpoint_after_reset() {
    let mut p = pool(CdpStrategy::Random);
    p.mark_unhealthy(0);
    p.mark_unhealthy(1);
    p.mark_unhealthy(2);
    let mut round = p.start_round();
    assert_eq!(p.next_attempt(&mut round), Some(0));
    assert_eq!(p.healthy_count(), 3);
}
