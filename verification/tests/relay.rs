use std::future::Future;
use std::io;
use std::pin::Pin;
use std::task::{Context, Poll};

use tokio::io::{
    copy_bidirectional, duplex, AsyncRead, AsyncReadExt, AsyncWrite, AsyncWriteExt, ReadBuf,
};
use tunnel_forward::forward::{
    advance, on_source, ConnAction, ConnEvent, ConnState, SourceEvent, Transition, Turn,
};
use tunnel_forward::relay::{relay_summary, RelayOutcome};

fn block_on<F: Future>(future: F) -> F::Output {
    tokio::runtime::Builder::new_current_thread()
        .build()
        .expect("a runtime on this thread")
        .block_on(future)
}

fn outcome_of(result: io::Result<(u64, u64)>) -> RelayOutcome {
    match result {
        Ok((from_tunnel, from_local)) => RelayOutcome::Closed { from_tunnel, from_local },
        Err(e) => RelayOutcome::Failed { message: e.to_string() },
    }
}

/// A stream that fails whenever it is read or written.
struct Broken;

impl AsyncRead for Broken {
    fn poll_read(
        self: Pin<&mut Self>,
        _cx: &mut Context<'_>,
        _buf: &mut ReadBuf<'_>,
    ) -> Poll<io::Result<()>> {
        Poll::Ready(Err(io::Error::new(io::ErrorKind::ConnectionReset, "connection reset")))
    }
}

impl AsyncWrite for Broken {
    fn poll_write(
        self: Pin<&mut Self>,
        _cx: &mut Context<'_>,
        _buf: &[u8],
    ) -> Poll<io::Result<usize>> {
        Poll::Ready(Err(io::Error::new(io::ErrorKind::ConnectionReset, "connection reset")))
    }

    fn poll_flush(self: Pin<&mut Self>, _cx: &mut Context<'_>) -> Poll<io::Result<()>> {
        Poll::Ready(Ok(()))
    }

    fn poll_shutdown(self: Pin<&mut Self>, _cx: &mut Context<'_>) -> Poll<io::Result<()>> {
        Poll::Ready(Ok(()))
    }
}

#[test]
fn a_relay_of_two_streams_ends_with_the_bytes_it_moved() {
    let (outcome, at_local, at_tunnel) = block_on(async {
        let (mut tunnel_peer, mut tunnel_leg) = duplex(64);
        let (mut local_leg, mut local_peer) = duplex(64);
        tunnel_peer.write_all(b"hello, local").await.unwrap();
        tunnel_peer.shutdown().await.unwrap();
        local_peer.write_all(b"hi").await.unwrap();
        local_peer.shutdown().await.unwrap();
        let result = copy_bidirectional(&mut tunnel_leg, &mut local_leg).await;
        let mut at_local = Vec::new();
        local_peer.read_to_end(&mut at_local).await.unwrap();
        let mut at_tunnel = Vec::new();
        tunnel_peer.read_to_end(&mut at_tunnel).await.unwrap();
        (outcome_of(result), at_local, at_tunnel)
    });
    assert_eq!(at_local, b"hello, local".to_vec());
    assert_eq!(at_tunnel, b"hi".to_vec());
    assert_eq!(outcome, RelayOutcome::Closed { from_tunnel: 12, from_local: 2 });
    assert_eq!(
        relay_summary(&outcome),
        "joined streams closed, bytes from tunnel: 12, bytes from local: 2"
    );
    assert_eq!(
        advance(ConnState::Relaying, "tcp", ConnEvent::RelayEnded(outcome)),
        Some(Transition { state: ConnState::Closed, action: ConnAction::Close })
    );
}

#[test]
fn a_relay_that_fails_ends_its_connection_and_not_the_loop() {
    let outcome = block_on(async {
        let (_local_peer, mut local_leg) = duplex(64);
        let mut tunnel_leg = Broken;
        outcome_of(copy_bidirectional(&mut tunnel_leg, &mut local_leg).await)
    });
    assert_eq!(outcome, RelayOutcome::Failed { message: "connection reset".to_string() });
    assert_eq!(relay_summary(&outcome), "joined streams error: connection reset");
    assert_eq!(
        advance(ConnState::Relaying, "http", ConnEvent::RelayEnded(outcome)),
        Some(Transition { state: ConnState::Closed, action: ConnAction::Close })
    );
    assert_eq!(on_source(SourceEvent::Connection), Turn::Handle);
    assert_eq!(on_source(SourceEvent::Exhausted), Turn::Finish);
}
