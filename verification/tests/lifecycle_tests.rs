use web_server::lifecycle::{HttpServer, ServerPhase};

#[test]
fn phases_advance_created_running_stopped() {
    let mut s = HttpServer::new();
    assert_eq!(s.phase(), ServerPhase::Created);
    s.mark_started();
    assert_eq!(s.phase(), ServerPhase::Running);
    s.mark_stopped();
    assert_eq!(s.phase(), ServerPhase::Stopped);
}

#[test]
fn background_waits_for_start_or_stop() {
    let mut s = HttpServer::new();
    assert!(!s.background_may_proceed());
    s.mark_started();
    assert!(s.background_may_proceed());

    let mut t = HttpServer::new();
    t.mark_stopped();
    assert!(t.background_may_proceed());
}

#[test]
fn join_waits_for_stop_only() {
    let mut s = HttpServer::new();
    assert!(!s.join_may_proceed());
    s.mark_started();
    assert!(!s.join_may_proceed());
    s.mark_stopped();
    assert!(s.join_may_proceed());
}

#[test]
fn join_before_start_proceeds_once_stopped() {
    // A server that stops without ever starting still releases a waiting
    // join: stopping alone flips the join gate.
    let mut s = HttpServer::new();
    assert!(!s.join_may_proceed());
    s.mark_stopped();
    assert_eq!(s.phase(), ServerPhase::Stopped);
    assert!(s.join_may_proceed());
    assert!(s.take_thread());
}

#[test]
fn accept_loop_stops_on_stop_flag() {
    let mut s = HttpServer::new();
    s.mark_started();
    assert!(s.accept_may_continue());
    s.mark_stopped();
    assert!(!s.accept_may_continue());
}

#[test]
fn thread_handle_is_taken_at_most_once() {
    let mut s = HttpServer::new();
    s.mark_started();
    s.mark_stopped();
    assert!(s.take_thread());
    assert!(!s.take_thread());
    assert!(!s.take_thread());
}
