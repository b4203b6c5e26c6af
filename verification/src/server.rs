//! The server builder: the configuration a listening server is
//! assembled from.
//!
//! The protocol options gathered here are consumed by the connection
//! layer the driver runs; the builder itself only records them. Every
//! setter leaves the rest of the configuration untouched, which is
//! exactly what its contract says.

use vstd::prelude::*;

verus! {

/// Protocol options for served connections.
#[derive(Clone, Copy, PartialEq, Eq, Structural, Debug)]
pub struct HttpConfig {
    /// Keep-alive for HTTP/1 connections.
    pub keep_alive: bool,
    /// Whether HTTP/1 connections support half-closures.
    pub half_close: bool,
    /// Whether HTTP/1 is required.
    pub http1_only: bool,
    /// Bunch up HTTP/1 writes until the read buffer is empty.
    pub pipeline_flush: bool,
    /// Whether HTTP/1 connections try vectored writes.
    pub writev: bool,
    /// Whether HTTP/2 is required.
    pub http2_only: bool,
    /// HTTP/2 stream-level flow control window; `None` keeps the
    /// protocol default (65,535).
    pub http2_initial_stream_window_size: Option<u32>,
    /// HTTP/2 connection-level flow control window; `None` keeps the
    /// protocol default (65,535).
    pub http2_initial_connection_window_size: Option<u32>,
    /// HTTP/2 concurrent stream cap; `None` means no limit.
    pub http2_max_concurrent_streams: Option<u32>,
    /// Maximum read buffer size for HTTP/1 connections.
    pub max_buf_size: usize,
}

/// The smallest read buffer a connection can be limited to.
pub const MIN_BUF_SIZE: usize = 8192;

/// The default maximum read buffer size (about 400 kB).
pub const DEFAULT_MAX_BUF_SIZE: usize = 8192 + 4096 * 100;

impl HttpConfig {
    /// The default configuration, spelled out.
    pub open spec fn spec_default() -> HttpConfig {
        HttpConfig {
            keep_alive: true,
            half_close: true,
            http1_only: false,
            pipeline_flush: false,
            writev: true,
            http2_only: false,
            http2_initial_stream_window_size: None,
            http2_initial_connection_window_size: None,
            http2_max_concurrent_streams: None,
            max_buf_size: DEFAULT_MAX_BUF_SIZE as usize,
        }
    }

    /// The defaults: keep-alive and half-close on, both protocol
    /// versions allowed, plain writes buffered up to about 400 kB.
    pub fn new() -> (r: HttpConfig)
        ensures
            r == Self::spec_default(),
    {
        HttpConfig {
            keep_alive: true,
            half_close: true,
            http1_only: false,
            pipeline_flush: false,
            writev: true,
            http2_only: false,
            http2_initial_stream_window_size: None,
            http2_initial_connection_window_size: None,
            http2_max_concurrent_streams: None,
            max_buf_size: DEFAULT_MAX_BUF_SIZE,
        }
    }
}

/// Options of a listening TCP acceptor.
#[derive(Clone, Copy, PartialEq, Eq, Structural, Debug)]
pub struct IncomingConfig {
    /// TCP keepalive for accepted connections, in milliseconds;
    /// `None` disables it.
    pub tcp_keepalive_ms: Option<u64>,
    /// `TCP_NODELAY` for accepted connections.
    pub tcp_nodelay: bool,
    /// Sleep for a second on accept errors instead of failing.
    pub sleep_on_errors: bool,
}

impl IncomingConfig {
    /// The defaults: no keepalive, no nodelay, sleep on accept errors.
    pub fn new() -> (r: IncomingConfig)
        ensures
            r == (IncomingConfig {
                tcp_keepalive_ms: None,
                tcp_nodelay: false,
                sleep_on_errors: true,
            }),
    {
        IncomingConfig { tcp_keepalive_ms: None, tcp_nodelay: false, sleep_on_errors: true }
    }
}

/// The executor connection tasks are spawned onto when none is
/// configured.
#[derive(Clone, Copy, PartialEq, Eq, Structural, Debug)]
pub struct DefaultExecutor {
}

/// A builder for a [`Server`]: an incoming source paired with
/// protocol options and an executor.
pub struct Builder<I, E> {
    /// The source of incoming connections.
    pub incoming: I,
    /// The protocol options served connections run with.
    pub protocol: HttpConfig,
    /// The executor connection tasks are spawned onto.
    pub executor: E,
}

/// A listening server: everything needed to accept and serve, bound
/// together.
pub struct Server<I, S, E> {
    /// The source of incoming connections.
    pub incoming: I,
    /// Makes one service per accepted connection.
    pub make_service: S,
    /// The protocol options served connections run with.
    pub protocol: HttpConfig,
    /// The executor connection tasks are spawned onto.
    pub executor: E,
}

/// A server paired with a shutdown signal: once the signal completes,
/// the server drains its connections gracefully.
pub struct Graceful<I, S, F, E> {
    /// The server being driven.
    pub server: Server<I, S, E>,
    /// Completion of this future starts the drain.
    pub signal: F,
}

impl<I> Server<I, (), DefaultExecutor> {
    /// Starts a [`Builder`] with the provided incoming source and the
    /// default protocol options.
    pub fn builder(incoming: I) -> (r: Builder<I, DefaultExecutor>)
        ensures
            r.incoming == incoming,
            r.protocol == HttpConfig::spec_default(),
            r.executor == (DefaultExecutor {  }),
    {
        Builder { incoming, protocol: HttpConfig::new(), executor: DefaultExecutor {  } }
    }
}

impl<I, S, E> Server<I, S, E> {
    /// Pair the server with a shutdown signal for graceful drains.
    pub fn with_graceful_shutdown<F>(self, signal: F) -> (r: Graceful<I, S, F, E>)
        ensures
            r.server == self,
            r.signal == signal,
    {
        Graceful { server: self, signal }
    }
}

impl<I, E> Builder<I, E> {
    /// Start a new builder from an incoming source and protocol
    /// options, with the default executor.
    pub fn new(incoming: I, protocol: HttpConfig) -> (r: Builder<I, DefaultExecutor>)
        ensures
            r.incoming == incoming,
            r.protocol == protocol,
            r.executor == (DefaultExecutor {  }),
    {
        Builder { incoming, protocol, executor: DefaultExecutor {  } }
    }

    /// Sets whether to use keep-alive for HTTP/1 connections.
    /// Default is `true`.
    pub fn http1_keepalive(self, val: bool) -> (r: Self)
        ensures
            r == (Builder { protocol: HttpConfig { keep_alive: val, ..self.protocol }, ..self }),
    {
        Builder { protocol: HttpConfig { keep_alive: val, ..self.protocol }, ..self }
    }

    /// Sets whether HTTP/1 connections support half-closures.
    /// Default is `true`.
    pub fn http1_half_close(self, val: bool) -> (r: Self)
        ensures
            r == (Builder { protocol: HttpConfig { half_close: val, ..self.protocol }, ..self }),
    {
        Builder { protocol: HttpConfig { half_close: val, ..self.protocol }, ..self }
    }

    /// Sets whether HTTP/1 is required. Default is `false`.
    pub fn http1_only(self, val: bool) -> (r: Self)
        ensures
            r == (Builder { protocol: HttpConfig { http1_only: val, ..self.protocol }, ..self }),
    {
        Builder { protocol: HttpConfig { http1_only: val, ..self.protocol }, ..self }
    }

    /// Sets whether to bunch up HTTP/1 writes until the read buffer
    /// is empty. Default is `false`.
    pub fn http1_pipeline_flush(self, val: bool) -> (r: Self)
        ensures
            r == (Builder {
                protocol: HttpConfig { pipeline_flush: val, ..self.protocol },
                ..self
            }),
    {
        Builder { protocol: HttpConfig { pipeline_flush: val, ..self.protocol }, ..self }
    }

    /// Sets whether HTTP/1 connections try vectored writes. Default
    /// is `true`.
    pub fn http1_writev(self, val: bool) -> (r: Self)
        ensures
            r == (Builder { protocol: HttpConfig { writev: val, ..self.protocol }, ..self }),
    {
        Builder { protocol: HttpConfig { writev: val, ..self.protocol }, ..self }
    }

    /// Sets whether HTTP/2 is required. Default is `false`.
    pub fn http2_only(self, val: bool) -> (r: Self)
        ensures
            r == (Builder { protocol: HttpConfig { http2_only: val, ..self.protocol }, ..self }),
    {
        Builder { protocol: HttpConfig { http2_only: val, ..self.protocol }, ..self }
    }

    /// Sets the HTTP/2 stream-level flow control window. Default is
    /// the protocol's (65,535).
    pub fn http2_initial_stream_window_size(self, sz: Option<u32>) -> (r: Self)
        ensures
            r == (Builder {
                protocol: HttpConfig { http2_initial_stream_window_size: sz, ..self.protocol },
                ..self
            }),
    {
        Builder {
            protocol: HttpConfig { http2_initial_stream_window_size: sz, ..self.protocol },
            ..self
        }
    }

    /// Sets the HTTP/2 connection-level flow control window. Default
    /// is the protocol's (65,535).
    pub fn http2_initial_connection_window_size(self, sz: Option<u32>) -> (r: Self)
        ensures
            r == (Builder {
                protocol: HttpConfig { http2_initial_connection_window_size: sz, ..self.protocol },
                ..self
            }),
    {
        Builder {
            protocol: HttpConfig { http2_initial_connection_window_size: sz, ..self.protocol },
            ..self
        }
    }

    /// Caps concurrent HTTP/2 streams per connection. Default is no
    /// limit.
    pub fn http2_max_concurrent_streams(self, max: Option<u32>) -> (r: Self)
        ensures
            r == (Builder {
                protocol: HttpConfig { http2_max_concurrent_streams: max, ..self.protocol },
                ..self
            }),
    {
        Builder { protocol: HttpConfig { http2_max_concurrent_streams: max, ..self.protocol }, ..self }
    }

    /// Set the maximum read buffer size; at least [`MIN_BUF_SIZE`].
    /// Default is about 400 kB.
    pub fn http1_max_buf_size(self, val: usize) -> (r: Self)
        requires
            val >= MIN_BUF_SIZE,
        ensures
            r == (Builder { protocol: HttpConfig { max_buf_size: val, ..self.protocol }, ..self }),
    {
        Builder { protocol: HttpConfig { max_buf_size: val, ..self.protocol }, ..self }
    }

    /// Sets the executor connection tasks are spawned onto.
    pub fn executor<E2>(self, executor: E2) -> (r: Builder<I, E2>)
        ensures
            r.incoming == self.incoming,
            r.protocol == self.protocol,
            r.executor == executor,
    {
        Builder { incoming: self.incoming, protocol: self.protocol, executor }
    }

    /// Consume the builder, binding the incoming source to a service
    /// maker: the resulting server carries both with the options as
    /// configured.
    pub fn serve<S>(self, new_service: S) -> (r: Server<I, S, E>)
        ensures
            r.incoming == self.incoming,
            r.make_service == new_service,
            r.protocol == self.protocol,
            r.executor == self.executor,
    {
        Server {
            incoming: self.incoming,
            make_service: new_service,
            protocol: self.protocol,
            executor: self.executor,
        }
    }
}

impl<E> Builder<IncomingConfig, E> {
    /// Set TCP keepalive for accepted connections, in milliseconds;
    /// `None` disables it.
    pub fn tcp_keepalive(self, keepalive_ms: Option<u64>) -> (r: Self)
        ensures
            r == (Builder {
                incoming: IncomingConfig { tcp_keepalive_ms: keepalive_ms, ..self.incoming },
                ..self
            }),
    {
        Builder {
            incoming: IncomingConfig { tcp_keepalive_ms: keepalive_ms, ..self.incoming },
            protocol: self.protocol,
            executor: self.executor,
        }
    }

    /// Set `TCP_NODELAY` for accepted connections.
    pub fn tcp_nodelay(self, enabled: bool) -> (r: Self)
        ensures
            r == (Builder {
                incoming: IncomingConfig { tcp_nodelay: enabled, ..self.incoming },
                ..self
            }),
    {
        Builder {
            incoming: IncomingConfig { tcp_nodelay: enabled, ..self.incoming },
            protocol: self.protocol,
            executor: self.executor,
        }
    }

    /// Set whether to sleep for a second on accept errors (such as
    /// running out of file descriptors) instead of failing.
    pub fn tcp_sleep_on_accept_errors(self, val: bool) -> (r: Self)
        ensures
            r == (Builder {
                incoming: IncomingConfig { sleep_on_errors: val, ..self.incoming },
                ..self
            }),
    {
        Builder {
            incoming: IncomingConfig { sleep_on_errors: val, ..self.incoming },
            protocol: self.protocol,
            executor: self.executor,
        }
    }
}

} // verus!
