use quic_h3::body::{Body, BodyReader, BodyWriter};
use quic_h3::client::{
    build_response, Close, Connecting, Connection, ConnectionRef, KeyUpdate, Poll, RecvEvent, RecvPhase,
    RecvResponse, RecvStep, Request, RequestFrame, Response, Settings, ALPN,
};
use quic_h3::error::{Error, ErrorCode, HeaderError};
use quic_h3::frame::{reserved_type, DataFrame, HeadersFrame, HttpFrame, DATA, HEADERS};
use quic_h3::headers::{check_field_name, check_fields, Header, HeaderField, Pseudo, StatusCode, Uri, Version};
use quic_h3::shared::{Side, StreamId};
use quic_h3::streams::{Finish, FrameStream, Reset};

fn connection() -> Connection {
    Connection(ConnectionRef { side: Side::Client, settings: Settings::default() })
}

fn field(name: &str, value: &str) -> HeaderField {
    HeaderField { name: name.as_bytes().to_vec(), value: value.as_bytes().to_vec() }
}

fn get(path: &str, headers: Vec<HeaderField>, body: Body) -> Request {
    Request {
        method: b"GET".to_vec(),
        uri: Uri {
            scheme: Some(b"https".to_vec()),
            authority: Some(b"example.com".to_vec()),
            path: path.as_bytes().to_vec(),
        },
        headers,
        body,
    }
}

fn response_header(status: u16, fields: Vec<HeaderField>) -> Header {
    Header::response(StatusCode::from_u16(status).unwrap(), fields)
}

fn receiving(id: u64) -> RecvResponse {
    RecvResponse::new(
        FrameStream::new(StreamId(id)),
        ConnectionRef { side: Side::Client, settings: Settings::default() },
        StreamId(id),
    )
}

fn receiving_with_limit(id: u64, limit: u64) -> RecvResponse {
    let settings = Settings { max_header_list_size: limit, qpack_max_table_capacity: 0, qpack_blocked_streams: 0 };
    RecvResponse::new(FrameStream::new(StreamId(id)), ConnectionRef { side: Side::Client, settings }, StreamId(id))
}

fn peer_error(step: RecvStep) -> (String, Option<Reset>) {
    match step {
        RecvStep::Done { result: Err(Error::Peer(msg)), reset } => (msg, reset),
        other => panic!("not a peer error: {:?}", other),
    }
}

#[test]
fn get_with_empty_body_resolves_to_200() {
    let conn = connection();
    let (frames, mut recv, writer) =
        conn.send_request(get("/", vec![], Body::Empty), Ok(StreamId(0))).unwrap();
    assert_eq!(
        frames,
        vec![RequestFrame::Headers(Header {
            pseudo: Pseudo {
                method: Some(b"GET".to_vec()),
                scheme: Some(b"https".to_vec()),
                authority: Some(b"example.com".to_vec()),
                path: Some(b"/".to_vec()),
                status: None,
            },
            fields: vec![],
        })]
    );
    assert_eq!(writer.bytes_sent(), 0);
    assert_eq!(writer.close(), Finish { stream_id: StreamId(0) });

    assert_eq!(recv.current_phase(), RecvPhase::Receiving);
    let block = HeadersFrame { encoded: vec![0x00, 0x00, 0xd9] };
    let step = recv.poll(RecvEvent::Frame(HttpFrame::Headers(HeadersFrame { encoded: vec![0x00, 0x00, 0xd9] })));
    assert_eq!(step, RecvStep::Decode(block));
    assert_eq!(recv.current_phase(), RecvPhase::Decoding);
    assert_eq!(recv.poll(RecvEvent::Pending), RecvStep::Pending);
    assert_eq!(recv.current_phase(), RecvPhase::Decoding);

    match recv.poll(RecvEvent::Decoded(response_header(200, vec![]))) {
        RecvStep::Done { result: Ok((response, body)), reset: None } => {
            assert_eq!(response, Response { status: StatusCode::from_u16(200).unwrap(), version: Version::Http3, headers: vec![] });
            assert_eq!(body.stream_id(), StreamId(0));
            assert_eq!(body.into_stream(), FrameStream::new(StreamId(0)));
        }
        other => panic!("unexpected {:?}", other),
    }
    assert_eq!(recv.current_phase(), RecvPhase::Finished);
}

#[test]
fn post_with_buffered_body_writes_headers_then_data() {
    let conn = connection();
    let mut request = get("/upload", vec![field("content-type", "text/plain")], Body::Buf(b"hi".to_vec()));
    request.method = b"POST".to_vec();
    let (frames, mut recv, writer) = conn.send_request(request, Ok(StreamId(4))).unwrap();
    assert_eq!(frames.len(), 2);
    match &frames[0] {
        RequestFrame::Headers(h) => {
            assert_eq!(h.pseudo.method, Some(b"POST".to_vec()));
            assert_eq!(h.pseudo.path, Some(b"/upload".to_vec()));
            assert_eq!(h.pseudo.status, None);
            assert_eq!(h.fields, vec![field("content-type", "text/plain")]);
        }
        other => panic!("first frame is {:?}", other),
    }
    assert_eq!(frames[1], RequestFrame::Data(DataFrame { payload: b"hi".to_vec() }));
    assert_eq!(writer.bytes_sent(), 2);
    assert_eq!(writer.stream_id(), StreamId(4));
    assert_eq!(writer.close(), Finish { stream_id: StreamId(4) });

    assert_eq!(
        recv.poll(RecvEvent::Frame(HttpFrame::Headers(HeadersFrame { encoded: vec![1, 2, 3] }))),
        RecvStep::Decode(HeadersFrame { encoded: vec![1, 2, 3] })
    );
    match recv.poll(RecvEvent::Decoded(response_header(204, vec![field("server", "h3")]))) {
        RecvStep::Done { result: Ok((response, body)), reset: None } => {
            assert_eq!(response.status.as_u16(), 204);
            assert_eq!(response.version, Version::Http3);
            assert_eq!(response.headers, vec![field("server", "h3")]);
            assert_eq!(body.stream_id(), StreamId(4));
        }
        other => panic!("unexpected {:?}", other),
    }
}

#[test]
fn first_frame_data_resets_the_stream() {
    let mut recv = receiving(8);
    let step = recv.poll(RecvEvent::Frame(HttpFrame::Data(DataFrame { payload: b"oops".to_vec() })));
    let (msg, reset) = peer_error(step);
    assert_eq!(msg, "first frame is not headers");
    assert_eq!(reset, Some(Reset { stream_id: StreamId(8), code: ErrorCode::FrameUnexpected }));
    assert_eq!(recv.current_phase(), RecvPhase::Finished);
}

#[test]
fn every_other_first_frame_resets_the_stream() {
    let frames = vec![
        HttpFrame::CancelPush(1),
        HttpFrame::Settings,
        HttpFrame::PushPromise(2),
        HttpFrame::Goaway(3),
        HttpFrame::MaxPushId(4),
    ];
    for frame in frames {
        let mut recv = receiving(12);
        let (msg, reset) = peer_error(recv.poll(RecvEvent::Frame(frame)));
        assert_eq!(msg, "first frame is not headers");
        assert_eq!(reset, Some(Reset { stream_id: StreamId(12), code: ErrorCode::FrameUnexpected }));
        assert_eq!(recv.current_phase(), RecvPhase::Finished);
    }
}

#[test]
fn empty_response_stream_is_a_peer_error() {
    let mut recv = receiving(0);
    let (msg, reset) = peer_error(recv.poll(RecvEvent::End));
    assert_eq!(msg, "received an empty response");
    assert_eq!(reset, None);
    assert_eq!(recv.current_phase(), RecvPhase::Finished);
}

#[test]
fn cancel_while_receiving_resets_with_request_cancelled() {
    let recv = receiving(16);
    assert_eq!(recv.cancel(), Some(Reset { stream_id: StreamId(16), code: ErrorCode::RequestCancelled }));
}

#[test]
fn cancel_while_decoding_or_finished_does_nothing() {
    let mut recv = receiving(16);
    recv.poll(RecvEvent::Frame(HttpFrame::Headers(HeadersFrame { encoded: vec![] })));
    assert_eq!(recv.current_phase(), RecvPhase::Decoding);
    assert_eq!(recv.cancel(), None);

    let mut recv = receiving(16);
    recv.poll(RecvEvent::End);
    assert_eq!(recv.current_phase(), RecvPhase::Finished);
    assert_eq!(recv.cancel(), None);
}

#[test]
fn poll_after_finish_fails_with_internal_error() {
    let polls: Vec<Box<dyn Fn() -> RecvEvent>> = vec![
        Box::new(|| RecvEvent::Pending),
        Box::new(|| RecvEvent::End),
        Box::new(|| RecvEvent::Frame(HttpFrame::Reserved)),
        Box::new(|| RecvEvent::Frame(HttpFrame::Headers(HeadersFrame { encoded: vec![] }))),
        Box::new(|| RecvEvent::Failed(Error::Quic("reset".to_string()))),
        Box::new(|| RecvEvent::Decoded(response_header(200, vec![]))),
    ];
    // after success
    let mut recv = receiving(0);
    recv.poll(RecvEvent::Frame(HttpFrame::Headers(HeadersFrame { encoded: vec![] })));
    assert!(matches!(
        recv.poll(RecvEvent::Decoded(response_header(200, vec![]))),
        RecvStep::Done { result: Ok(_), reset: None }
    ));
    for event in &polls {
        assert_eq!(
            recv.poll(event()),
            RecvStep::Done {
                result: Err(Error::Internal("recv response polled after finish".to_string())),
                reset: None
            }
        );
        assert_eq!(recv.current_phase(), RecvPhase::Finished);
    }
    // after failure
    let mut recv = receiving(0);
    recv.poll(RecvEvent::End);
    for event in &polls {
        assert_eq!(
            recv.poll(event()),
            RecvStep::Done {
                result: Err(Error::Internal("recv response polled after finish".to_string())),
                reset: None
            }
        );
    }
}

#[test]
fn reserved_frames_are_skipped_before_headers() {
    let mut recv = receiving(20);
    assert_eq!(recv.poll(RecvEvent::Frame(HttpFrame::Reserved)), RecvStep::Skipped);
    assert_eq!(recv.current_phase(), RecvPhase::Receiving);
    assert_eq!(recv.poll(RecvEvent::Pending), RecvStep::Pending);
    assert_eq!(recv.poll(RecvEvent::Frame(HttpFrame::Reserved)), RecvStep::Skipped);
    assert_eq!(recv.current_phase(), RecvPhase::Receiving);
    assert_eq!(
        recv.poll(RecvEvent::Frame(HttpFrame::Headers(HeadersFrame { encoded: vec![9] }))),
        RecvStep::Decode(HeadersFrame { encoded: vec![9] })
    );
    assert_eq!(recv.stream_id(), StreamId(20));
}

#[test]
fn stream_failure_is_handed_on_and_ends_the_wait() {
    let mut recv = receiving(0);
    assert_eq!(
        recv.poll(RecvEvent::Failed(Error::Quic("connection lost".to_string()))),
        RecvStep::Done { result: Err(Error::Quic("connection lost".to_string())), reset: None }
    );
    assert_eq!(recv.current_phase(), RecvPhase::Finished);
}

#[test]
fn decoder_failure_is_handed_on_and_ends_the_wait() {
    let mut recv = receiving(0);
    recv.poll(RecvEvent::Frame(HttpFrame::Headers(HeadersFrame { encoded: vec![] })));
    assert_eq!(
        recv.poll(RecvEvent::Failed(Error::HeaderDecoding(HeaderError::InvalidFieldName))),
        RecvStep::Done { result: Err(Error::HeaderDecoding(HeaderError::InvalidFieldName)), reset: None }
    );
    assert_eq!(recv.current_phase(), RecvPhase::Finished);
}

#[test]
fn response_without_status_is_refused() {
    let mut recv = receiving(0);
    recv.poll(RecvEvent::Frame(HttpFrame::Headers(HeadersFrame { encoded: vec![] })));
    let header = Header::request(b"GET".to_vec(), Uri { scheme: None, authority: None, path: b"/".to_vec() }, vec![]);
    assert_eq!(
        recv.poll(RecvEvent::Decoded(header)),
        RecvStep::Done { result: Err(Error::HeaderDecoding(HeaderError::MissingStatus)), reset: None }
    );
    assert_eq!(recv.current_phase(), RecvPhase::Finished);
}

#[test]
fn field_section_size_counts_name_value_and_32_per_field() {
    assert_eq!(response_header(200, vec![]).size(), 7 + 3 + 32);
    assert_eq!(response_header(200, vec![field("a", "b")]).size(), 42 + 34);
    assert_eq!(response_header(200, vec![field("a", "b"), field("content-type", "text/plain")]).size(), 42 + 34 + 54);
    let request = Header::request(
        b"GET".to_vec(),
        Uri { scheme: Some(b"https".to_vec()), authority: Some(b"example.com".to_vec()), path: b"/".to_vec() },
        vec![],
    );
    assert_eq!(request.size(), 42 + 44 + 53 + 38);
    let bare = Header::request(b"".to_vec(), Uri { scheme: None, authority: None, path: vec![] }, vec![field("", "")]);
    assert_eq!(bare.size(), 39 + 37 + 32);
    let none = Header {
        pseudo: Pseudo { method: None, scheme: None, authority: None, path: None, status: None },
        fields: vec![],
    };
    assert_eq!(none.size(), 0);
}

#[test]
fn field_section_beyond_the_limit_resets_with_excessive_load() {
    let mut recv = receiving_with_limit(24, 75);
    recv.poll(RecvEvent::Frame(HttpFrame::Headers(HeadersFrame { encoded: vec![] })));
    assert_eq!(
        recv.poll(RecvEvent::Decoded(response_header(200, vec![field("a", "b")]))),
        RecvStep::Done {
            result: Err(Error::HeaderDecoding(HeaderError::TooLarge)),
            reset: Some(Reset { stream_id: StreamId(24), code: ErrorCode::ExcessiveLoad }),
        }
    );
    assert_eq!(recv.current_phase(), RecvPhase::Finished);
    assert_eq!(Error::HeaderDecoding(HeaderError::TooLarge).message(), "field section too large");

    let mut recv = receiving_with_limit(24, 76);
    recv.poll(RecvEvent::Frame(HttpFrame::Headers(HeadersFrame { encoded: vec![] })));
    assert!(matches!(
        recv.poll(RecvEvent::Decoded(response_header(200, vec![field("a", "b")]))),
        RecvStep::Done { result: Ok(_), reset: None }
    ));

    // the limit comes before the look for the status
    let mut recv = receiving_with_limit(24, 0);
    recv.poll(RecvEvent::Frame(HttpFrame::Headers(HeadersFrame { encoded: vec![] })));
    let no_status = Header {
        pseudo: Pseudo { method: None, scheme: None, authority: None, path: None, status: None },
        fields: vec![field("a", "b")],
    };
    assert!(matches!(
        recv.poll(RecvEvent::Decoded(no_status)),
        RecvStep::Done { result: Err(Error::HeaderDecoding(HeaderError::TooLarge)), reset: Some(_) }
    ));
}

#[test]
fn send_request_hands_the_connection_settings_to_the_response() {
    let settings = Settings { max_header_list_size: 10, qpack_max_table_capacity: 0, qpack_blocked_streams: 0 };
    let conn = Connection(ConnectionRef { side: Side::Client, settings });
    let (_, mut recv, _) = conn.send_request(get("/", vec![], Body::Empty), Ok(StreamId(0))).unwrap();
    recv.poll(RecvEvent::Frame(HttpFrame::Headers(HeadersFrame { encoded: vec![] })));
    assert!(matches!(
        recv.poll(RecvEvent::Decoded(response_header(200, vec![]))),
        RecvStep::Done { result: Err(Error::HeaderDecoding(HeaderError::TooLarge)), reset: Some(_) }
    ));
}

#[test]
fn build_response_copies_status_and_moves_fields() {
    let fields = vec![field("content-length", "12"), field("x-a", "b")];
    let response = build_response(response_header(404, vec![field("content-length", "12"), field("x-a", "b")])).unwrap();
    assert_eq!(response, Response { status: StatusCode::from_u16(404).unwrap(), version: Version::Http3, headers: fields });
    let no_status = Header {
        pseudo: Pseudo { method: None, scheme: None, authority: None, path: None, status: None },
        fields: vec![],
    };
    assert_eq!(build_response(no_status), Err(Error::HeaderDecoding(HeaderError::MissingStatus)));
}

#[test]
fn refused_stream_is_a_quic_error() {
    let conn = connection();
    let r = conn.send_request(get("/", vec![], Body::Empty), Err("stream limit reached".to_string()));
    match r {
        Err(e) => {
            assert_eq!(e, Error::Quic("stream limit reached".to_string()));
            assert_eq!(e.message(), "stream limit reached");
        }
        Ok(_) => panic!("sent on a stream that was not opened"),
    }
}

#[test]
fn refused_stream_comes_before_bad_headers() {
    let conn = connection();
    let r = conn.send_request(get("/", vec![field("Bad", "x")], Body::Empty), Err("closed".to_string()));
    assert!(matches!(r, Err(Error::Quic(_))));
}

#[test]
fn uppercase_field_name_is_a_header_encoding_error() {
    let conn = connection();
    let r = conn.send_request(get("/", vec![field("accept", "*/*"), field("Content-Type", "x")], Body::Empty), Ok(StreamId(0)));
    match r {
        Err(e) => {
            assert_eq!(e, Error::HeaderEncoding(HeaderError::InvalidFieldName));
            assert_eq!(e.message(), "invalid field name");
        }
        Ok(_) => panic!("sent an upper-case field name"),
    }
}

#[test]
fn pseudo_header_among_fields_is_a_header_encoding_error() {
    let conn = connection();
    let r = conn.send_request(get("/", vec![field(":status", "200")], Body::Empty), Ok(StreamId(0)));
    match r {
        Err(e) => {
            assert_eq!(e, Error::HeaderEncoding(HeaderError::ForbiddenPseudoHeader));
            assert_eq!(e.message(), "pseudo-header among the fields");
        }
        Ok(_) => panic!("sent a pseudo-header as a field"),
    }
}

#[test]
fn first_bad_field_decides_the_error() {
    assert_eq!(check_fields(&vec![field("a", "1"), field(":path", "/"), field("B", "2")]), Err(HeaderError::ForbiddenPseudoHeader));
    assert_eq!(check_fields(&vec![field("a", "1"), field("B", "2"), field(":path", "/")]), Err(HeaderError::InvalidFieldName));
    assert_eq!(check_fields(&vec![field("a", "1"), field("b-c_d9", "2")]), Ok(()));
    assert_eq!(check_fields(&vec![]), Ok(()));
}

#[test]
fn field_name_rules() {
    assert_eq!(check_field_name(&b"".to_vec()), Err(HeaderError::InvalidFieldName));
    assert_eq!(check_field_name(&b":method".to_vec()), Err(HeaderError::ForbiddenPseudoHeader));
    assert_eq!(check_field_name(&b":".to_vec()), Err(HeaderError::ForbiddenPseudoHeader));
    assert_eq!(check_field_name(&b"accept".to_vec()), Ok(()));
    assert_eq!(check_field_name(&b"accepT".to_vec()), Err(HeaderError::InvalidFieldName));
    assert_eq!(check_field_name(&b"Z".to_vec()), Err(HeaderError::InvalidFieldName));
    assert_eq!(check_field_name(&b"A".to_vec()), Err(HeaderError::InvalidFieldName));
    assert_eq!(check_field_name(&b"@[`{".to_vec()), Ok(()));
    assert_eq!(check_field_name(&b"x:y".to_vec()), Ok(()));
}

#[test]
fn request_stream_begins_with_exactly_one_headers_frame() {
    let conn = connection();
    for body in vec![Body::Empty, Body::Buf(vec![]), Body::Buf(vec![7; 1000])] {
        let (frames, _, _) = conn.send_request(get("/", vec![field("a", "b")], body), Ok(StreamId(0))).unwrap();
        assert!(matches!(frames[0], RequestFrame::Headers(_)));
        assert!(frames[1..].iter().all(|f| matches!(f, RequestFrame::Data(_))));
    }
}

#[test]
fn empty_buffer_still_sends_a_data_frame() {
    let conn = connection();
    let (frames, _, writer) = conn.send_request(get("/", vec![], Body::Buf(vec![])), Ok(StreamId(0))).unwrap();
    assert_eq!(frames.len(), 2);
    assert_eq!(frames[1], RequestFrame::Data(DataFrame { payload: vec![] }));
    assert_eq!(writer.bytes_sent(), 0);
}

#[test]
fn close_orders_no_error_and_reason() {
    let close = connection().close();
    assert_eq!(close, Close { code: ErrorCode::NoError, reason: b"Connection closed".to_vec() });
    assert_eq!(close.code.value(), 0x100);
}

#[test]
fn force_key_update_orders_a_key_update() {
    assert_eq!(connection().force_key_update(), KeyUpdate);
}

#[test]
fn body_writer_cancel_resets_with_request_cancelled() {
    let writer = BodyWriter::new(StreamId(4), 10, false);
    assert_eq!(writer.bytes_sent(), 10);
    assert_eq!(writer.cancel(), Reset { stream_id: StreamId(4), code: ErrorCode::RequestCancelled });
}

#[test]
fn body_reader_keeps_the_stream() {
    let reader = BodyReader::new(FrameStream::new(StreamId(8)), StreamId(8), true);
    assert_eq!(reader.stream_id(), StreamId(8));
    assert_eq!(reader.into_stream().id(), StreamId(8));
}

#[test]
fn frame_stream_reset_names_its_stream() {
    assert_eq!(
        FrameStream::new(StreamId(40)).reset(ErrorCode::ExcessiveLoad),
        Reset { stream_id: StreamId(40), code: ErrorCode::ExcessiveLoad }
    );
}

#[test]
fn connecting_follows_the_dial() {
    let settings = Settings { max_header_list_size: 4096, qpack_max_table_capacity: 256, qpack_blocked_streams: 8 };
    let connecting = Connecting::new(settings);
    assert_eq!(connecting.poll(Poll::Pending), Poll::Pending);
    assert_eq!(
        connecting.poll(Poll::Ready(Err("timed out".to_string()))),
        Poll::Ready(Err(Error::Quic("timed out".to_string())))
    );
    match connecting.poll(Poll::Ready(Ok(()))) {
        Poll::Ready(Ok((driver, conn))) => {
            assert_eq!(driver.0, ConnectionRef { side: Side::Client, settings });
            assert_eq!(conn.0, ConnectionRef { side: Side::Client, settings });
        }
        other => panic!("unexpected {:?}", other),
    }
}

#[test]
fn default_settings() {
    assert_eq!(
        Settings::default(),
        Settings { max_header_list_size: u64::MAX, qpack_max_table_capacity: 0, qpack_blocked_streams: 0 }
    );
}

#[test]
fn alpn_is_h3() {
    assert_eq!(&ALPN[..], b"h3");
}

#[test]
fn error_code_values() {
    assert_eq!(ErrorCode::NoError.value(), 0x100);
    assert_eq!(ErrorCode::FrameUnexpected.value(), 0x105);
    assert_eq!(ErrorCode::ExcessiveLoad.value(), 0x107);
    assert_eq!(ErrorCode::RequestCancelled.value(), 0x10c);
    assert_eq!(ErrorCode::VersionFallback.value(), 0x110);
    for v in 0x0f0u64..0x120 {
        match ErrorCode::from_value(v) {
            Some(code) => {
                assert!((0x100..=0x110).contains(&v));
                assert_eq!(code.value(), v);
            }
            None => assert!(!(0x100..=0x110).contains(&v)),
        }
    }
}

#[test]
fn error_constructors_and_messages() {
    assert_eq!(Error::peer("a"), Error::Peer("a".to_string()));
    assert_eq!(Error::internal("b"), Error::Internal("b".to_string()));
    assert_eq!(Error::quic("c"), Error::Quic("c".to_string()));
    assert_eq!(Error::peer("a").message(), "a");
    assert_eq!(Error::internal("b").message(), "b");
    assert_eq!(Error::HeaderDecoding(HeaderError::MissingStatus).message(), "missing status");
    assert_eq!(HeaderError::InvalidFieldName.describe(), "invalid field name");
}

#[test]
fn frame_types() {
    assert_eq!(DATA, 0x0);
    assert_eq!(HEADERS, 0x1);
    assert_eq!(HttpFrame::Data(DataFrame { payload: vec![] }).ty(), Some(0x0));
    assert_eq!(HttpFrame::Headers(HeadersFrame { encoded: vec![] }).ty(), Some(0x1));
    assert_eq!(HttpFrame::CancelPush(0).ty(), Some(0x3));
    assert_eq!(HttpFrame::Settings.ty(), Some(0x4));
    assert_eq!(HttpFrame::PushPromise(0).ty(), Some(0x5));
    assert_eq!(HttpFrame::Goaway(0).ty(), Some(0x7));
    assert_eq!(HttpFrame::MaxPushId(0).ty(), Some(0xd));
    assert_eq!(HttpFrame::Reserved.ty(), None);
    assert!(reserved_type(0x21));
    assert!(reserved_type(0x40));
    assert!(reserved_type(0x21 + 0x1f * 1000));
    assert!(!reserved_type(0x20));
    assert!(!reserved_type(0x22));
    assert!(!reserved_type(0x0));
    assert!(!reserved_type(0x1));
}

#[test]
fn status_code_has_three_digits() {
    assert_eq!(StatusCode::from_u16(100).map(|s| s.as_u16()), Some(100));
    assert_eq!(StatusCode::from_u16(999).map(|s| s.as_u16()), Some(999));
    assert_eq!(StatusCode::from_u16(99), None);
    assert_eq!(StatusCode::from_u16(1000), None);
    assert_eq!(StatusCode::from_u16(0), None);
    assert_eq!(StatusCode::from_u16(u16::MAX), None);
}

#[test]
fn side_knows_its_peer() {
    assert!(Side::Client.is_client());
    assert!(!Side::Client.is_server());
    assert!(Side::Server.is_server());
    assert_eq!(Side::Client.peer(), Side::Server);
    assert_eq!(Side::Server.peer(), Side::Client);
}
