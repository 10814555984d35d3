use grid::client::{first_ipv4, Exchange, ExchangeAction, ExchangeEvent, ExchangePhase, PeerAddress};
use grid::definitions::{GridBlock, GridCode, GridRequestCode, GridResponseCode};
use grid::error::GridError;

fn request() -> GridBlock {
    GridBlock::new(GridRequestCode::GET.into(), Some("/x"), &mut vec![7u8]).unwrap()
}

fn response_bytes() -> Vec<u8> {
    let mut body = vec![1u8, 2];
    GridBlock::new(GridResponseCode::ROK.into(), None, &mut body).unwrap().serialize()
}

#[test]
fn first_ipv4_prefers_ipv4() {
    let addrs = vec![
        PeerAddress::V6 { ipv6: 1, port: 80 },
        PeerAddress::V4 { ipv4: 0x7f00_0001, port: 80 },
        PeerAddress::V4 { ipv4: 0x0a00_0001, port: 80 },
    ];
    assert_eq!(first_ipv4(&addrs).unwrap(), PeerAddress::V4 { ipv4: 0x7f00_0001, port: 80 });
}

#[test]
fn first_ipv4_fails_without_ipv4() {
    assert!(matches!(first_ipv4(&vec![]), Err(GridError::LookupFailed)));
    let only_v6 = vec![PeerAddress::V6 { ipv6: 1, port: 7500 }];
    assert!(matches!(first_ipv4(&only_v6), Err(GridError::LookupFailed)));
}

#[test]
fn exchange_start_serializes_request() {
    let mut req = request();
    let (ex, bytes) = Exchange::start(&mut req, 10);
    assert_eq!(ex.current_phase(), ExchangePhase::Sending);
    assert_eq!(bytes.len(), 49 + 3);
    assert_eq!(bytes[0], 0);
    assert!(req.payload().is_empty());
}

#[test]
fn exchange_full_run_delivers_response() {
    let mut req = request();
    let (mut ex, _) = Exchange::start(&mut req, 10);
    let a = ex.on_event(ExchangeEvent::Flags { wants_write: true, wants_read: true });
    assert!(matches!(a, ExchangeAction::WriteTls));
    let a = ex.on_event(ExchangeEvent::WriteWouldBlock);
    assert!(matches!(a, ExchangeAction::WriteTls));
    let a = ex.on_event(ExchangeEvent::Flags { wants_write: false, wants_read: true });
    assert!(matches!(a, ExchangeAction::ReadTls));
    assert_eq!(ex.current_phase(), ExchangePhase::Reading);
    let a = ex.on_event(ExchangeEvent::ReadWouldBlock);
    assert!(matches!(a, ExchangeAction::ReadTls));
    let a = ex.on_event(ExchangeEvent::ReadDone);
    assert!(matches!(a, ExchangeAction::ProcessPackets));
    // the handshake has records of its own to send
    let a = ex.on_event(ExchangeEvent::Processed { peer_closed: false, wants_write: true, wants_read: true });
    assert!(matches!(a, ExchangeAction::WriteTls));
    assert_eq!(ex.current_phase(), ExchangePhase::Receiving);
    let a = ex.on_event(ExchangeEvent::Flags { wants_write: false, wants_read: true });
    assert!(matches!(a, ExchangeAction::ReadTls));
    let a = ex.on_event(ExchangeEvent::ReadDone);
    assert!(matches!(a, ExchangeAction::ProcessPackets));
    let a = ex.on_event(ExchangeEvent::Processed { peer_closed: false, wants_write: false, wants_read: false });
    assert!(matches!(a, ExchangeAction::ReadPlaintext));
    let a = ex.on_event(ExchangeEvent::Plaintext(response_bytes()));
    match a {
        ExchangeAction::Finish(Ok(b)) => {
            assert_eq!(b.opcode(), GridCode::Response(GridResponseCode::ROK));
            assert_eq!(b.metadata_size(), 2);
            assert_eq!(b.payload(), &vec![1u8, 2]);
        }
        other => panic!("expected a response, got {:?}", other),
    }
    assert_eq!(ex.current_phase(), ExchangePhase::Finished);
}

#[test]
fn exchange_without_inbound_data_fails() {
    let mut req = request();
    let (mut ex, _) = Exchange::start(&mut req, 10);
    let a = ex.on_event(ExchangeEvent::Flags { wants_write: false, wants_read: false });
    assert!(matches!(a, ExchangeAction::Finish(Err(GridError::NoData))));
    assert_eq!(ex.current_phase(), ExchangePhase::Finished);
}

#[test]
fn exchange_failures_end_it() {
    let mut req = request();
    let (mut ex, _) = Exchange::start(&mut req, 10);
    let a = ex.on_event(ExchangeEvent::WriteFailed("broken pipe".to_string()));
    assert!(matches!(a, ExchangeAction::Finish(Err(GridError::WriteFailed(ref m))) if m == "broken pipe"));

    let (mut ex, _) = Exchange::start(&mut request(), 10);
    ex.on_event(ExchangeEvent::Flags { wants_write: false, wants_read: true });
    let a = ex.on_event(ExchangeEvent::ReadFailed("reset".to_string()));
    assert!(matches!(a, ExchangeAction::Finish(Err(GridError::ReadFailed(_)))));

    let (mut ex, _) = Exchange::start(&mut request(), 10);
    ex.on_event(ExchangeEvent::Flags { wants_write: false, wants_read: true });
    ex.on_event(ExchangeEvent::ReadDone);
    let a = ex.on_event(ExchangeEvent::Processed { peer_closed: true, wants_write: false, wants_read: false });
    assert!(matches!(a, ExchangeAction::Finish(Err(GridError::RemoteClosed))));

    let (mut ex, _) = Exchange::start(&mut request(), 10);
    ex.on_event(ExchangeEvent::Flags { wants_write: false, wants_read: true });
    ex.on_event(ExchangeEvent::ReadDone);
    let a = ex.on_event(ExchangeEvent::TlsFailed("bad record".to_string()));
    assert!(matches!(a, ExchangeAction::Finish(Err(GridError::Tls(_)))));
}

#[test]
fn exchange_bad_response_is_a_frame_error() {
    let (mut ex, _) = Exchange::start(&mut request(), 10);
    ex.on_event(ExchangeEvent::Flags { wants_write: false, wants_read: true });
    ex.on_event(ExchangeEvent::ReadDone);
    ex.on_event(ExchangeEvent::Processed { peer_closed: false, wants_write: false, wants_read: false });
    let a = ex.on_event(ExchangeEvent::Plaintext(vec![]));
    assert!(matches!(a, ExchangeAction::Finish(Err(GridError::HeaderTooShort { got: 0 }))));
}

#[test]
fn exchange_out_of_order_event_ends_it() {
    let (mut ex, _) = Exchange::start(&mut request(), 10);
    let a = ex.on_event(ExchangeEvent::ReadDone);
    assert!(matches!(a, ExchangeAction::Finish(Err(GridError::UnexpectedEvent))));
    assert_eq!(ex.current_phase(), ExchangePhase::Finished);
    let a = ex.on_event(ExchangeEvent::Flags { wants_write: true, wants_read: true });
    assert!(matches!(a, ExchangeAction::Finish(Err(GridError::UnexpectedEvent))));
}

#[test]
fn exchange_gives_up_after_too_many_blocked_polls() {
    let (mut ex, _) = Exchange::start(&mut request(), 2);
    ex.on_event(ExchangeEvent::Flags { wants_write: false, wants_read: true });
    assert!(matches!(ex.on_event(ExchangeEvent::ReadWouldBlock), ExchangeAction::ReadTls));
    assert!(matches!(ex.on_event(ExchangeEvent::ReadWouldBlock), ExchangeAction::ReadTls));
    let a = ex.on_event(ExchangeEvent::ReadWouldBlock);
    assert!(matches!(a, ExchangeAction::Finish(Err(GridError::TimedOut))));
    assert_eq!(ex.current_phase(), ExchangePhase::Finished);
}

#[test]
fn exchange_progress_resets_blocked_count() {
    let (mut ex, _) = Exchange::start(&mut request(), 1);
    assert!(matches!(ex.on_event(ExchangeEvent::Flags { wants_write: true, wants_read: true }), ExchangeAction::WriteTls));
    assert!(matches!(ex.on_event(ExchangeEvent::WriteWouldBlock), ExchangeAction::WriteTls));
    assert!(matches!(ex.on_event(ExchangeEvent::Flags { wants_write: false, wants_read: true }), ExchangeAction::ReadTls));
    assert!(matches!(ex.on_event(ExchangeEvent::ReadWouldBlock), ExchangeAction::ReadTls));
    assert!(matches!(ex.on_event(ExchangeEvent::ReadWouldBlock), ExchangeAction::Finish(Err(GridError::TimedOut))));

    let (mut none, _) = Exchange::start(&mut request(), 0);
    none.on_event(ExchangeEvent::Flags { wants_write: true, wants_read: false });
    assert!(matches!(none.on_event(ExchangeEvent::WriteWouldBlock), ExchangeAction::Finish(Err(GridError::TimedOut))));
}
