use spinel_frames::{
    decode, decode_tid, encode, outbound_frame, FrameError, FrameHandler, Header, Inbound,
    RequestTracker, SendStep, SpinelFrameRef, Registration, POOL_SIZE,
};

/// A request descriptor as a collaborator would write one: it knows the
/// payload it sends and how to read the response.
#[derive(Debug, Clone, PartialEq, Eq)]
struct EchoRequest {
    id: u32,
}

impl EchoRequest {
    fn payload(&self) -> Vec<u8> {
        vec![self.id as u8]
    }

    fn on_response(self, response: Result<SpinelFrameRef<'_>, FrameError>) -> Result<u32, FrameError> {
        let frame = response?;
        if frame.payload.len() != 1 {
            return Err(FrameError::ResponseInterpretation);
        }
        Ok(self.id * 100 + frame.payload[0] as u32)
    }
}

fn transmit_tid(step: SendStep) -> (u8, Vec<u8>) {
    match step {
        SendStep::Transmit { tid, frame } => (tid, frame),
        SendStep::Queued => panic!("request was queued"),
    }
}

#[test]
fn header_byte_layout() {
    assert_eq!(encode(true, 0, Some(1)), Ok(0x81));
    assert_eq!(encode(true, 3, Some(15)), Ok(0xbf));
    assert_eq!(encode(false, 7, None), Ok(0x70));
    assert_eq!(encode(true, 0, None), Ok(0x80));
    assert_eq!(decode(0x81), (true, 0, Some(1)));
    assert_eq!(decode(0x5a), (false, 5, Some(10)));
    assert_eq!(decode(0x80), (true, 0, None));
    assert_eq!(decode_tid(0x90), None);
    assert_eq!(decode_tid(0x9f), Some(15));
}

#[test]
fn header_encode_rejects_out_of_range_fields() {
    assert_eq!(encode(true, 0, Some(0)), Err(FrameError::InvalidHeaderField));
    for tid in 16..=255u8 {
        assert_eq!(encode(true, 0, Some(tid)), Err(FrameError::InvalidHeaderField));
    }
    assert_eq!(encode(true, 8, Some(1)), Err(FrameError::InvalidHeaderField));
    assert_eq!(encode(false, 255, None), Err(FrameError::InvalidHeaderField));
    assert_eq!(Header::new(0, Some(16)), Err(FrameError::InvalidHeaderField));
}

#[test]
fn header_round_trip_every_valid_field() {
    for flag in [false, true] {
        for nli in 0..=7u8 {
            let mut tids = vec![None];
            tids.extend((1..=15u8).map(Some));
            for tid in tids {
                let byte = encode(flag, nli, tid).unwrap();
                assert_eq!(decode(byte), (flag, nli, tid));
            }
        }
    }
}

#[test]
fn header_accessors() {
    let h = Header::new(2, Some(9)).unwrap();
    assert_eq!(h.to_byte(), 0xa9);
    assert!(h.flag());
    assert_eq!(h.nli(), 2);
    assert_eq!(h.tid(), Some(9));
    let h = Header::from_byte(0x00);
    assert!(!h.flag());
    assert_eq!(h.tid(), None);
}

#[test]
fn frame_parser_splits_header_and_payload() {
    let buffer = [0x81u8, 0x06, 0x02];
    let frame = SpinelFrameRef::try_unpack_from_slice(&buffer).unwrap();
    assert_eq!(frame.header.to_byte(), 0x81);
    assert_eq!(frame.header.tid(), Some(1));
    assert_eq!(frame.payload, &[0x06, 0x02]);
    let only_header = [0x80u8];
    let frame = SpinelFrameRef::try_unpack_from_slice(&only_header).unwrap();
    assert!(frame.payload.is_empty());
    assert_eq!(
        SpinelFrameRef::try_unpack_from_slice(&[]).map(|f| f.header),
        Err(FrameError::MissingHeader)
    );
}

#[test]
fn outbound_frame_prefixes_header() {
    assert_eq!(outbound_frame(1, &[0x00]), Ok(vec![0x81, 0x00]));
    assert_eq!(outbound_frame(12, &[1, 2, 3]), Ok(vec![0x8c, 1, 2, 3]));
    assert_eq!(outbound_frame(0, &[1]), Err(FrameError::InvalidHeaderField));
    assert_eq!(outbound_frame(16, &[]), Err(FrameError::InvalidHeaderField));
}

#[test]
fn one_request_round_trip() {
    let mut handler = FrameHandler::new();
    let request = EchoRequest { id: 0 };
    let payload = request.payload();
    let (tid, frame) = transmit_tid(handler.send_request(request, &payload));
    assert_eq!(tid, 1);
    assert_eq!(frame, vec![0x81, 0x00]);
    assert!(handler.is_pending(1));

    let response = [0x81u8, 0x07];
    let frame = SpinelFrameRef::try_unpack_from_slice(&response).unwrap();
    match handler.handle_inbound_frame(&frame) {
        Ok(Inbound::Response { tid, released }) => {
            assert_eq!(tid, 1);
            assert!(!released.granted);
            assert_eq!(released.handler.on_response(Ok(frame)), Ok(7));
        }
        _ => panic!("response not routed"),
    }
    assert!(!handler.is_pending(1));
}

#[test]
fn concurrent_requests_get_their_own_responses() {
    let mut handler = FrameHandler::new();
    for id in 1..=5u32 {
        let request = EchoRequest { id };
        let payload = request.payload();
        let (tid, frame) = transmit_tid(handler.send_request(request, &payload));
        assert_eq!(tid as u32, id);
        assert_eq!(frame, vec![0x80 | tid, id as u8]);
    }
    for tid in [4u8, 1, 5, 2, 3] {
        let response = [0x80 | tid, 0x09];
        let frame = SpinelFrameRef::try_unpack_from_slice(&response).unwrap();
        match handler.handle_inbound_frame(&frame) {
            Ok(Inbound::Response { tid: got, released }) => {
                assert_eq!(got, tid);
                assert_eq!(released.handler.id, tid as u32);
                assert_eq!(released.handler.on_response(Ok(frame)), Ok(tid as u32 * 100 + 9));
            }
            _ => panic!("response not routed"),
        }
    }
    for tid in 1..=15u8 {
        assert!(!handler.is_pending(tid));
    }
}

#[test]
fn unsolicited_frame_touches_no_handler() {
    let mut handler = FrameHandler::new();
    let _ = handler.send_request(EchoRequest { id: 1 }, &[1]);
    for byte in [0x80u8, 0x00, 0xf0] {
        let buffer = [byte, 0x01];
        let frame = SpinelFrameRef::try_unpack_from_slice(&buffer).unwrap();
        assert!(matches!(handler.handle_inbound_frame(&frame), Ok(Inbound::Unsolicited)));
    }
    assert!(handler.is_pending(1));
    assert_eq!(handler.pending(1), Some(&EchoRequest { id: 1 }));
}

#[test]
fn unmatched_frame_is_reported_and_changes_nothing() {
    let mut handler = FrameHandler::new();
    let _ = handler.send_request(EchoRequest { id: 1 }, &[1]);
    let buffer = [0x85u8, 0x01];
    let frame = SpinelFrameRef::try_unpack_from_slice(&buffer).unwrap();
    assert!(matches!(
        handler.handle_inbound_frame(&frame),
        Err(FrameError::UnmatchedTransaction(5))
    ));
    assert!(handler.is_pending(1));
    for tid in 2..=15u8 {
        assert!(!handler.is_pending(tid));
    }
    assert_eq!(handler.waiting_len(), 0);
    let (tid, _) = transmit_tid(handler.send_request(EchoRequest { id: 2 }, &[2]));
    assert_eq!(tid, 2);
}

#[test]
fn late_duplicate_response_is_unmatched() {
    let mut handler = FrameHandler::new();
    let _ = handler.send_request(EchoRequest { id: 1 }, &[1]);
    let buffer = [0x81u8];
    let frame = SpinelFrameRef::try_unpack_from_slice(&buffer).unwrap();
    assert!(matches!(handler.handle_inbound_frame(&frame), Ok(Inbound::Response { .. })));
    assert!(matches!(
        handler.handle_inbound_frame(&frame),
        Err(FrameError::UnmatchedTransaction(1))
    ));
}

#[test]
fn clear_cancels_everything_and_frees_the_pool() {
    let mut handler = FrameHandler::new();
    for id in 1..=17u32 {
        let _ = handler.send_request(EchoRequest { id }, &[id as u8]);
    }
    assert_eq!(handler.waiting_len(), 2);
    let cancelled = handler.clear();
    let ids: Vec<u32> = cancelled.iter().map(|r| r.id).collect();
    assert_eq!(ids, (1..=17).collect::<Vec<u32>>());
    for request in cancelled {
        assert_eq!(request.on_response(Err(FrameError::Cancelled)), Err(FrameError::Cancelled));
    }
    for tid in 1..=15u8 {
        assert!(!handler.is_pending(tid));
    }
    assert_eq!(handler.waiting_len(), 0);
    let (tid, frame) = transmit_tid(handler.send_request(EchoRequest { id: 3 }, &[3]));
    assert_eq!(tid, 1);
    assert_eq!(frame, vec![0x81, 0x03]);
}

#[test]
fn abandoned_request_is_released_by_clear() {
    let mut handler = FrameHandler::new();
    let (tid, _) = transmit_tid(handler.send_request(EchoRequest { id: 1 }, &[1]));
    assert_eq!(tid, 1);
    // The caller stops waiting; nothing happens until the tracker is cleared.
    let cancelled = handler.clear();
    assert_eq!(cancelled, vec![EchoRequest { id: 1 }]);
    assert!(!handler.is_pending(1));
    let (tid, _) = transmit_tid(handler.send_request(EchoRequest { id: 2 }, &[2]));
    assert_eq!(tid, 1);
}

#[test]
fn one_more_than_the_pool_waits_for_a_release() {
    let mut handler = FrameHandler::new();
    for id in 1..=POOL_SIZE as u32 {
        let (tid, _) = transmit_tid(handler.send_request(EchoRequest { id }, &[id as u8]));
        assert_eq!(tid as u32, id);
    }
    let extra = EchoRequest { id: 99 };
    assert_eq!(handler.send_request(extra.clone(), &[99]), SendStep::Queued);
    assert_eq!(handler.waiting_len(), 1);

    let buffer = [0x87u8, 0x00];
    let frame = SpinelFrameRef::try_unpack_from_slice(&buffer).unwrap();
    match handler.handle_inbound_frame(&frame) {
        Ok(Inbound::Response { tid, released }) => {
            assert_eq!(tid, 7);
            assert!(released.granted);
            assert_eq!(released.handler.id, 7);
        }
        _ => panic!("response not routed"),
    }
    assert_eq!(handler.waiting_len(), 0);
    assert_eq!(handler.pending(7), Some(&extra));
    assert_eq!(outbound_frame(7, &[99]), Ok(vec![0x87, 99]));
}

#[test]
fn waiting_requests_are_granted_in_order() {
    let mut handler = FrameHandler::new();
    for id in 1..=POOL_SIZE as u32 {
        let _ = handler.send_request(EchoRequest { id }, &[]);
    }
    for id in [100u32, 101, 102] {
        assert_eq!(handler.send_request(EchoRequest { id }, &[]), SendStep::Queued);
    }
    for (tid, expected) in [(9u8, 100u32), (2, 101), (15, 102)] {
        let released = handler.cancel_request(tid).unwrap();
        assert_eq!(released.handler.id, tid as u32);
        assert!(released.granted);
        assert_eq!(handler.pending(tid).map(|r| r.id), Some(expected));
    }
    assert_eq!(handler.waiting_len(), 0);
    let released = handler.cancel_request(9).unwrap();
    assert!(!released.granted);
    assert!(!handler.is_pending(9));
}

#[test]
fn cancel_request_of_free_tid_is_unmatched() {
    let mut handler: FrameHandler<EchoRequest> = FrameHandler::new();
    assert!(matches!(handler.cancel_request(3), Err(FrameError::UnmatchedTransaction(3))));
    assert!(matches!(handler.cancel_request(0), Err(FrameError::UnmatchedTransaction(0))));
    assert!(matches!(handler.cancel_request(16), Err(FrameError::UnmatchedTransaction(16))));
}

#[test]
fn tracker_binds_lowest_free_tid() {
    let mut tracker = RequestTracker::new();
    assert_eq!(tracker.register('a'), Registration::Bound(1));
    assert_eq!(tracker.register('b'), Registration::Bound(2));
    assert_eq!(tracker.register('c'), Registration::Bound(3));
    let released = tracker.dispatch(2).unwrap();
    assert_eq!(released.handler, 'b');
    assert_eq!(tracker.register('d'), Registration::Bound(2));
    assert_eq!(tracker.pending(2), Some(&'d'));
    assert_eq!(tracker.waiting_len(), 0);
    assert_eq!(tracker.clear(), vec!['a', 'd', 'c']);
}
