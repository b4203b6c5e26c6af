use conncore::drain::channel;
use conncore::server::Builder;
use conncore::server::DefaultExecutor;
use conncore::server::HttpConfig;
use conncore::server::IncomingConfig;
use conncore::server::Server;
use conncore::server::DEFAULT_MAX_BUF_SIZE;

#[test]
fn watcher_sees_drain_once() {
    // The on-drain edge fires at most once, however often the
    // watcher is polled after the signal is consumed.
    let (signal, watch, mut ch) = channel();
    let mut watching = watch.watch("task");
    assert!(!watching.observe(&ch));
    assert!(!watching.observe(&ch));
    let draining = signal.drain(&mut ch);
    assert!(watching.observe(&ch));
    assert!(!watching.observe(&ch));
    assert!(!watching.observe(&ch));
    assert!(!draining.poll(&ch));
    let task = watching.release(&mut ch);
    assert_eq!(task, "task");
    assert!(draining.poll(&ch));
}

#[test]
fn draining_waits_for_every_clone() {
    // Two watchers from clones of one watch: draining stays pending
    // until both are released, then resolves.
    let (signal, watch, mut ch) = channel();
    let watch2 = watch.clone_with(&mut ch);
    let mut w1 = watch.watch(1u32);
    let mut w2 = watch2.watch(2u32);
    let draining = signal.drain(&mut ch);
    assert!(!draining.poll(&ch));
    assert!(w1.observe(&ch));
    assert!(w2.observe(&ch));
    let _ = w1.release(&mut ch);
    assert!(!draining.poll(&ch));
    let _ = w2.release(&mut ch);
    assert!(draining.poll(&ch));
    assert!(draining.poll(&ch));
}

#[test]
fn unwatched_clone_releases_its_slot() {
    let (signal, watch, mut ch) = channel();
    let watch2 = watch.clone_with(&mut ch);
    let draining = signal.drain(&mut ch);
    watch2.release(&mut ch);
    assert!(!draining.poll(&ch));
    watch.release(&mut ch);
    assert!(draining.poll(&ch));
}

#[test]
fn watching_before_drain_only_polls_task() {
    let (signal, watch, mut ch) = channel();
    let mut watching = watch.watch(0u8);
    let mut polls = 0;
    while polls < 5 {
        assert!(!watching.observe(&ch));
        polls += 1;
    }
    let draining = signal.drain(&mut ch);
    let _ = watching.release(&mut ch);
    assert!(draining.poll(&ch));
}

#[test]
fn builder_defaults() {
    let b = Server::builder(IncomingConfig::new());
    assert_eq!(b.protocol, HttpConfig::new());
    assert_eq!(b.protocol.keep_alive, true);
    assert_eq!(b.protocol.half_close, true);
    assert_eq!(b.protocol.http1_only, false);
    assert_eq!(b.protocol.pipeline_flush, false);
    assert_eq!(b.protocol.writev, true);
    assert_eq!(b.protocol.http2_only, false);
    assert_eq!(b.protocol.http2_initial_stream_window_size, None);
    assert_eq!(b.protocol.http2_initial_connection_window_size, None);
    assert_eq!(b.protocol.http2_max_concurrent_streams, None);
    assert_eq!(b.protocol.max_buf_size, DEFAULT_MAX_BUF_SIZE);
    assert_eq!(b.incoming.tcp_keepalive_ms, None);
    assert_eq!(b.incoming.tcp_nodelay, false);
    assert_eq!(b.incoming.sleep_on_errors, true);
}

#[test]
fn builder_setters_change_one_option_each() {
    let b = Server::builder(IncomingConfig::new())
        .http1_keepalive(false)
        .http1_half_close(false)
        .http1_only(true)
        .http1_pipeline_flush(true)
        .http1_writev(false)
        .http2_only(true)
        .http2_initial_stream_window_size(Some(1 << 20))
        .http2_initial_connection_window_size(Some(1 << 21))
        .http2_max_concurrent_streams(Some(512))
        .http1_max_buf_size(16384)
        .tcp_keepalive(Some(30000))
        .tcp_nodelay(true)
        .tcp_sleep_on_accept_errors(false);
    assert_eq!(b.protocol.keep_alive, false);
    assert_eq!(b.protocol.half_close, false);
    assert_eq!(b.protocol.http1_only, true);
    assert_eq!(b.protocol.pipeline_flush, true);
    assert_eq!(b.protocol.writev, false);
    assert_eq!(b.protocol.http2_only, true);
    assert_eq!(b.protocol.http2_initial_stream_window_size, Some(1 << 20));
    assert_eq!(b.protocol.http2_initial_connection_window_size, Some(1 << 21));
    assert_eq!(b.protocol.http2_max_concurrent_streams, Some(512));
    assert_eq!(b.protocol.max_buf_size, 16384);
    assert_eq!(b.incoming.tcp_keepalive_ms, Some(30000));
    assert_eq!(b.incoming.tcp_nodelay, true);
    assert_eq!(b.incoming.sleep_on_errors, false);
}

#[test]
fn builder_serves_and_pairs_with_shutdown() {
    let b = Builder::<IncomingConfig, DefaultExecutor>::new(
        IncomingConfig::new(),
        HttpConfig::new(),
    );
    let b = b.executor(9u8);
    assert_eq!(b.executor, 9u8);
    let server = b.serve("make-service");
    assert_eq!(server.make_service, "make-service");
    assert_eq!(server.protocol, HttpConfig::new());
    let graceful = server.with_graceful_shutdown("signal");
    assert_eq!(graceful.signal, "signal");
    assert_eq!(graceful.server.make_service, "make-service");
}
