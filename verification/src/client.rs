//! The client's view of an HTTP/3 connection: sending a request, waiting for
//! the response headers, closing.
//!
//! The types here decide; they do not act. What arrived on the transport is
//! handed in as a value, and what has to go out comes back as one.

use vstd::prelude::*;
use crate::body::{Body, BodyReader, BodyWriter};
use crate::error::{Error, ErrorCode, HeaderError};
use crate::frame::{DataFrame, HeadersFrame, HttpFrame};
use crate::headers::{capped, check_fields, first_field_error, Header, HeaderField, StatusCode, Uri, Version};
use crate::shared::{ConfigError, ConnectError, Side, StreamId};
use crate::streams::{FrameStream, Reset};

verus! {

/// The protocol name that an HTTP/3 endpoint offers in the TLS handshake.
pub const ALPN: [u8; 2] = [0x68, 0x33];

/// What an endpoint tells its peer about the limits it works under.
#[derive(Clone, Copy, Debug, PartialEq, Eq, Structural)]
pub struct Settings {
    /// The largest decoded field section that is accepted.
    pub max_header_list_size: u64,
    /// The most that the peer's encoder may use of the dynamic table.
    pub qpack_max_table_capacity: u64,
    /// How many streams may wait for dynamic table updates at once.
    pub qpack_blocked_streams: u64,
}

impl Settings {
    /// The limits that hold before anything was agreed: field sections of any
    /// size, no dynamic table, no blocked streams.
    pub open spec fn spec_default() -> Settings {
        Settings { max_header_list_size: u64::MAX, qpack_max_table_capacity: 0, qpack_blocked_streams: 0 }
    }
}

impl Default for Settings {
    fn default() -> (s: Settings)
        ensures
            s == Settings::spec_default(),
    {
        Settings { max_header_list_size: u64::MAX, qpack_max_table_capacity: 0, qpack_blocked_streams: 0 }
    }
}

/// What webpki says against taking the certificate `der` as a trust anchor,
/// in the name that the error has, or nothing where it takes it.
pub uninterp spec fn trust_anchor_error(der: Seq<u8>) -> Option<Seq<char>>;

/// `webpki::trust_anchor_util::cert_der_as_trust_anchor`: whether the bytes
/// are a certificate that can serve as a trust anchor. The error comes back
/// as its name.
#[verifier::external_body]
fn cert_der_as_trust_anchor(der: &[u8]) -> (r: Result<(), String>)
    ensures
        match r {
            Ok(()) => trust_anchor_error(der@) is None,
            Err(name) => trust_anchor_error(der@) == Some(name@),
        },
{
    match webpki::trust_anchor_util::cert_der_as_trust_anchor(der) {
        Ok(_) => Ok(()),
        Err(e) => Err(format!("{:?}", e)),
    }
}

/// What a client endpoint is set up with: the settings of its HTTP/3
/// connections, the protocols that it offers by ALPN, and the certificate
/// authorities that it trusts beside those of the platform.
pub struct Builder {
    settings: Settings,
    protocols: Vec<Vec<u8>>,
    certificate_authorities: Vec<Vec<u8>>,
}

impl Builder {
    pub closed spec fn spec_settings(&self) -> Settings {
        self.settings
    }

    /// The protocols offered by ALPN, each as its bytes.
    pub closed spec fn spec_protocols(&self) -> Seq<Seq<u8>> {
        Seq::new(self.protocols@.len(), |i: int| self.protocols@[i]@)
    }

    /// The certificate authorities that were added, each as its DER.
    pub closed spec fn spec_certificate_authorities(&self) -> Seq<Seq<u8>> {
        Seq::new(self.certificate_authorities@.len(), |i: int| self.certificate_authorities@[i]@)
    }

    /// Replaces the settings of the connections to come.
    pub fn settings(&mut self, settings: Settings) -> (b: &mut Builder)
        ensures
            b.spec_settings() == settings,
            b.spec_protocols() == old(self).spec_protocols(),
            b.spec_certificate_authorities() == old(self).spec_certificate_authorities(),
            *final(self) == *final(b),
    {
        self.settings = settings;
        self
    }

    /// Adds a certificate authority, given as a certificate in DER. A
    /// certificate that webpki cannot read as a trust anchor is refused
    /// with webpki's name for what is wrong, and nothing changes.
    pub fn add_certificate_authority(&mut self, cert: Vec<u8>) -> (r: Result<&mut Builder, ConfigError>)
        ensures
            match trust_anchor_error(cert@) {
                None => {
                    &&& r matches Ok(b)
                    &&& b.spec_settings() == old(self).spec_settings()
                    &&& b.spec_protocols() == old(self).spec_protocols()
                    &&& b.spec_certificate_authorities() == old(
                        self,
                    ).spec_certificate_authorities().push(cert@)
                    &&& *final(self) == *final(b)
                },
                Some(name) => {
                    &&& r matches Err(ConfigError::InvalidCertificate(words))
                    &&& words@ == name
                    &&& *final(self) == *old(self)
                },
            },
    {
        match cert_der_as_trust_anchor(cert.as_slice()) {
            Err(name) => Err(ConfigError::InvalidCertificate(name)),
            Ok(()) => {
                let ghost before = self.spec_certificate_authorities();
                self.certificate_authorities.push(cert);
                assert(self.spec_certificate_authorities() =~= before.push(cert@));
                Ok(self)
            },
        }
    }

    /// The settings of the connections to come.
    pub fn client_settings(&self) -> (s: Settings)
        ensures
            s == self.spec_settings(),
    {
        self.settings
    }

    /// The protocols to offer by ALPN.
    pub fn protocols(&self) -> (p: &Vec<Vec<u8>>)
        ensures
            Seq::new(p@.len(), |i: int| p@[i]@) == self.spec_protocols(),
    {
        &self.protocols
    }

    /// The certificate authorities that were added, each in DER.
    pub fn certificate_authorities(&self) -> (c: &Vec<Vec<u8>>)
        ensures
            Seq::new(c@.len(), |i: int| c@[i]@) == self.spec_certificate_authorities(),
    {
        &self.certificate_authorities
    }

    /// Makes a client of the endpoint that was set up: it dials with the
    /// settings of this builder.
    pub fn endpoint(self) -> (c: Client)
        ensures
            c.spec_settings() == self.spec_settings(),
    {
        Client { settings: self.settings }
    }
}

/// A client endpoint. It can dial many servers.
pub struct Client {
    settings: Settings,
}

impl Client {
    pub closed spec fn spec_settings(&self) -> Settings {
        self.settings
    }

    /// Takes the endpoint's answer to a dial. Where the endpoint refused
    /// to dial, the refusal comes back; where it dials, the connection that
    /// is being dialed does, with the settings of this client.
    pub fn connect(&self, dialing: Result<(), ConnectError>) -> (r: Result<Connecting, ConnectError>)
        ensures
            match dialing {
                Ok(()) => r matches Ok(connecting) && connecting.spec_settings()
                    == self.spec_settings(),
                Err(e) => r == Err::<Connecting, ConnectError>(e),
            },
    {
        match dialing {
            Ok(()) => Ok(Connecting::new(self.settings)),
            Err(e) => Err(e),
        }
    }
}

impl Default for Builder {
    /// The set-up to start from: default settings, HTTP/3 as the one
    /// protocol on offer, no certificate authority added.
    fn default() -> (b: Builder)
        ensures
            b.spec_settings() == Settings::spec_default(),
            b.spec_protocols() == seq![ALPN@],
            b.spec_certificate_authorities() == Seq::<Seq<u8>>::empty(),
    {
        let mut alpn: Vec<u8> = Vec::new();
        alpn.push(ALPN[0]);
        alpn.push(ALPN[1]);
        assert(alpn@ =~= ALPN@);
        let mut protocols: Vec<Vec<u8>> = Vec::new();
        protocols.push(alpn);
        let b = Builder {
            settings: Settings { max_header_list_size: u64::MAX, qpack_max_table_capacity: 0, qpack_blocked_streams: 0 },
            protocols,
            certificate_authorities: Vec::new(),
        };
        assert(b.spec_protocols() =~= seq![ALPN@]);
        assert(b.spec_certificate_authorities() =~= Seq::<Seq<u8>>::empty());
        b
    }
}

/// Whether a result is there yet.
#[derive(Debug, PartialEq, Eq)]
pub enum Poll<T> {
    Ready(T),
    Pending,
}

/// A request: method, target, fields, and the body to send with them.
#[derive(Debug, PartialEq, Eq)]
pub struct Request {
    pub method: Vec<u8>,
    pub uri: Uri,
    pub headers: Vec<HeaderField>,
    pub body: Body,
}

/// A response without its body, which is read apart.
#[derive(Debug, PartialEq, Eq)]
pub struct Response {
    pub status: StatusCode,
    pub version: Version,
    pub headers: Vec<HeaderField>,
}

/// A frame to write on a request stream.
#[derive(Debug, PartialEq, Eq)]
pub enum RequestFrame {
    /// A `HEADERS` frame. The field section is still to be encoded, against
    /// the connection's dynamic table.
    Headers(Header),
    /// A `DATA` frame.
    Data(DataFrame),
}

/// The frames that open the stream of `request`, in the order in which they
/// are written: its headers, then its body if it has one in a buffer.
pub open spec fn request_frames(request: Request) -> Seq<RequestFrame> {
    let head = seq![
        RequestFrame::Headers(Header::spec_request(request.method, request.uri, request.headers)),
    ];
    match request.body {
        Body::Buf(payload) => head.push(RequestFrame::Data(DataFrame { payload })),
        Body::Empty => head,
    }
}

/// The first frame is a `HEADERS` frame and no other frame is.
pub open spec fn begins_with_one_headers(frames: Seq<RequestFrame>) -> bool {
    &&& frames.len() >= 1
    &&& frames[0] is Headers
    &&& forall|i: int| 1 <= i < frames.len() ==> !(#[trigger] frames[i] is Headers)
}

/// Whatever the request, what is written to its fresh stream begins with
/// exactly one `HEADERS` frame.
pub proof fn lemma_request_begins_with_headers(request: Request)
    ensures
        begins_with_one_headers(request_frames(request)),
{
}

/// The state that the handles of one connection share.
#[derive(Clone, Copy, Debug, PartialEq, Eq, Structural)]
pub struct ConnectionRef {
    pub side: Side,
    pub settings: Settings,
}

/// An order to close the connection.
#[derive(Debug, PartialEq, Eq)]
pub struct Close {
    pub code: ErrorCode,
    pub reason: Vec<u8>,
}

/// An order to the transport to move to the next 1-RTT keys.
#[derive(Clone, Copy, Debug, PartialEq, Eq, Structural)]
pub struct KeyUpdate;

/// The field section is within the limit of the connection's settings. The
/// largest limit that can be set is no limit.
pub open spec fn within_limit(conn: ConnectionRef, header: Header) -> bool {
    capped(header.spec_size() as int) <= conn.settings.max_header_list_size
}

/// The reason that goes with a close by the user, as bytes of ASCII.
pub open spec fn close_reason() -> Seq<u8> {
    seq![
        0x43u8, 0x6f, 0x6e, 0x6e, 0x65, 0x63, 0x74, 0x69, 0x6f, 0x6e, 0x20, 0x63, 0x6c, 0x6f, 0x73,
        0x65, 0x64,
    ]
}

/// The handle through which the application uses a connection.
#[derive(Debug, PartialEq, Eq)]
pub struct Connection(pub ConnectionRef);

/// The handle of the task that keeps the HTTP/3 side of a connection going.
#[derive(Debug, PartialEq, Eq)]
pub struct ConnectionDriver(pub ConnectionRef);

impl Connection {
    /// Sends `request` on the stream that the transport opened for it, or
    /// fails because it opened none.
    ///
    /// `opened` is the transport's answer to the demand for a fresh
    /// bidirectional stream: its number, or why it was refused. A refusal
    /// comes back as `Error::Quic`. Fields that may not be sent come back as
    /// `Error::HeaderEncoding`, with the refusal of the first such field.
    /// Otherwise the result holds the frames to write, in order; the future of
    /// the response, which owns the receive half; and the writer, which owns
    /// the send half and has counted the body that went out with the headers.
    pub fn send_request(&self, request: Request, opened: Result<StreamId, String>) -> (r: Result<
        (Vec<RequestFrame>, RecvResponse, BodyWriter),
        Error,
    >)
        requires
            request.body.spec_len() <= u64::MAX,
        ensures
            match opened {
                Err(reason) => r == Err::<(Vec<RequestFrame>, RecvResponse, BodyWriter), Error>(
                    Error::Quic(reason),
                ),
                Ok(id) => match first_field_error(request.headers@) {
                    Some(e) => r == Err::<(Vec<RequestFrame>, RecvResponse, BodyWriter), Error>(
                        Error::HeaderEncoding(e),
                    ),
                    None => {
                        &&& r matches Ok((frames, recv, writer))
                        &&& frames@ == request_frames(request)
                        &&& begins_with_one_headers(frames@)
                        &&& recv.phase() is Receiving
                        &&& recv.receiving() == Some(id)
                        &&& recv.spec_stream_id() == id
                        &&& recv.spec_conn() == self.0
                        &&& writer.spec_stream_id() == id
                        &&& writer.spec_bytes_sent() == request.body.spec_len()
                        &&& !writer.spec_finish_request()
                    },
                },
            },
    {
        let stream_id = match opened {
            Err(reason) => {
                return Err(Error::Quic(reason));
            },
            Ok(id) => id,
        };
        match check_fields(&request.headers) {
            Err(e) => {
                return Err(Error::HeaderEncoding(e));
            },
            Ok(()) => {},
        }
        let ghost wanted = request_frames(request);
        let Request { method, uri, headers, body } = request;
        let mut frames: Vec<RequestFrame> = Vec::new();
        frames.push(RequestFrame::Headers(Header::request(method, uri, headers)));
        let recv = RecvResponse::new(FrameStream::new(stream_id), self.0, stream_id);
        let sent: u64 = match body {
            Body::Buf(payload) => {
                let n: u64 = payload.len() as u64;
                frames.push(RequestFrame::Data(DataFrame { payload }));
                n
            },
            Body::Empty => 0,
        };
        assert(frames@ =~= wanted);
        Ok((frames, recv, BodyWriter::new(stream_id, sent, false)))
    }

    /// Closes the connection: the transport is to close it with `NO_ERROR`
    /// and the reason "Connection closed". The handle is used up.
    pub fn close(self) -> (c: Close)
        ensures
            c.code == ErrorCode::NoError,
            c.reason@ == close_reason(),
    {
        let reason: Vec<u8> = vec![
            0x43u8, 0x6f, 0x6e, 0x6e, 0x65, 0x63, 0x74, 0x69, 0x6f, 0x6e, 0x20, 0x63, 0x6c, 0x6f, 0x73,
            0x65, 0x64,
        ];
        assert(reason@ =~= close_reason());
        Close { code: ErrorCode::NoError, reason }
    }

    /// Asks the transport for a key update out of turn. For tests.
    pub fn force_key_update(&self) -> (k: KeyUpdate)
        ensures
            k == KeyUpdate,
    {
        KeyUpdate
    }
}

/// A connection that is being dialed.
#[derive(Debug, PartialEq, Eq)]
pub struct Connecting {
    settings: Settings,
}

impl Connecting {
    pub closed spec fn spec_settings(&self) -> Settings {
        self.settings
    }

    /// A dial that will bring up a connection with `settings`.
    pub fn new(settings: Settings) -> (c: Connecting)
        ensures
            c.spec_settings() == settings,
    {
        Connecting { settings }
    }

    /// Takes the state of the transport's dial and says what the dial of the
    /// HTTP/3 connection has come to.
    ///
    /// While the transport is pending, so is this. A failed dial fails with
    /// `Error::Quic`. Once the transport is connected, the two handles of the
    /// new connection come back: that of its driver and that of the user, on
    /// one shared state, made for the client side with this dial's settings.
    pub fn poll(&self, dialed: Poll<Result<(), String>>) -> (p: Poll<
        Result<(ConnectionDriver, Connection), Error>,
    >)
        ensures
            p == match dialed {
                Poll::Pending => Poll::<Result<(ConnectionDriver, Connection), Error>>::Pending,
                Poll::Ready(Err(reason)) => Poll::Ready(Err(Error::Quic(reason))),
                Poll::Ready(Ok(())) => Poll::Ready(
                    Ok(
                        (
                            ConnectionDriver(
                                ConnectionRef { side: Side::Client, settings: self.spec_settings() },
                            ),
                            Connection(
                                ConnectionRef { side: Side::Client, settings: self.spec_settings() },
                            ),
                        ),
                    ),
                ),
            },
    {
        match dialed {
            Poll::Pending => Poll::Pending,
            Poll::Ready(Err(reason)) => Poll::Ready(Err(Error::Quic(reason))),
            Poll::Ready(Ok(())) => {
                let conn_ref = ConnectionRef { side: Side::Client, settings: self.settings };
                Poll::Ready(Ok((ConnectionDriver(conn_ref), Connection(conn_ref))))
            },
        }
    }
}

/// Where the wait for a response stands.
#[derive(Clone, Copy, Debug, PartialEq, Eq, Structural)]
pub enum RecvPhase {
    /// Frames are pulled from the stream until the headers come.
    Receiving,
    /// The headers came and their field section is being decoded.
    Decoding,
    /// Over. Nothing more will come of polling.
    Finished,
}

/// What the source that a `RecvResponse` waits on has brought.
#[derive(Debug, PartialEq, Eq)]
pub enum RecvEvent {
    /// Nothing yet.
    Pending,
    /// The stream gave a frame.
    Frame(HttpFrame),
    /// The stream ended.
    End,
    /// The stream, or the decoder, failed.
    Failed(Error),
    /// The decoder is done with the field section.
    Decoded(Header),
}

/// What a poll of a `RecvResponse` has come to.
#[derive(Debug, PartialEq, Eq)]
pub enum RecvStep {
    /// Nothing to do until the source wakes the task.
    Pending,
    /// A frame without meaning was passed over: poll the stream again.
    Skipped,
    /// The headers are here: decode this frame's field section, and poll
    /// again with what the decoder brings.
    Decode(HeadersFrame),
    /// The wait is over, with a response or a failure. Where `reset` is
    /// there, the transport is to carry it out.
    Done { result: Result<(Response, BodyReader), Error>, reset: Option<Reset> },
}

enum RecvResponseState {
    Receiving(FrameStream),
    Decoding(FrameStream),
    Finished,
}

/// The future of a response: it resolves to the response's head and the
/// reader of its body.
pub struct RecvResponse {
    state: RecvResponseState,
    conn: ConnectionRef,
    stream_id: StreamId,
}

/// The text of the failure of a poll after the end.
pub open spec fn polled_after_finish() -> Seq<char> {
    "recv response polled after finish"@
}

/// The text of the failure on a stream that ends before any frame.
pub open spec fn empty_response() -> Seq<char> {
    "received an empty response"@
}

/// The text of the failure on a first frame that is not `HEADERS`.
pub open spec fn first_frame_not_headers() -> Seq<char> {
    "first frame is not headers"@
}

/// The response that a decoded field section stands for: its status, the
/// version HTTP/3, its ordinary fields. Without a status there is none.
pub open spec fn spec_build_response(header: Header) -> Result<Response, Error> {
    match header.pseudo.status {
        Some(status) => Ok(Response { status, version: Version::Http3, headers: header.fields }),
        None => Err(Error::HeaderDecoding(HeaderError::MissingStatus)),
    }
}

/// Builds the response that a decoded field section stands for.
pub fn build_response(header: Header) -> (r: Result<Response, Error>)
    ensures
        r == spec_build_response(header),
{
    match header.into_response_parts() {
        Err(e) => Err(e),
        Ok((status, headers)) => Ok(Response { status, version: Version::Http3, headers }),
    }
}

impl RecvResponse {
    /// Where the wait stands.
    pub closed spec fn phase(&self) -> RecvPhase {
        match self.state {
            RecvResponseState::Receiving(_) => RecvPhase::Receiving,
            RecvResponseState::Decoding(_) => RecvPhase::Decoding,
            RecvResponseState::Finished => RecvPhase::Finished,
        }
    }

    /// The receive half that this future holds, by the number of its stream:
    /// while it receives and while it decodes it holds one, afterwards none.
    pub closed spec fn held(&self) -> Option<FrameStream> {
        match self.state {
            RecvResponseState::Receiving(recv) => Some(recv),
            RecvResponseState::Decoding(recv) => Some(recv),
            RecvResponseState::Finished => None,
        }
    }

    /// The stream that is still being read for the headers, if the wait is at
    /// that point.
    pub open spec fn receiving(&self) -> Option<StreamId> {
        if self.phase() is Receiving && self.held() is Some {
            Some(self.held()->0.spec_id())
        } else {
            None
        }
    }

    pub closed spec fn spec_stream_id(&self) -> StreamId {
        self.stream_id
    }

    /// The connection that the response comes on.
    pub closed spec fn spec_conn(&self) -> ConnectionRef {
        self.conn
    }

    /// The events that the source polled in this phase can bring.
    pub open spec fn accepts(&self, event: RecvEvent) -> bool {
        match self.phase() {
            RecvPhase::Receiving => !(event is Decoded),
            RecvPhase::Decoding => event is Pending || event is Failed || event is Decoded,
            RecvPhase::Finished => true,
        }
    }

    /// The future of the response on the receive half `recv` of the stream
    /// `stream_id` of the connection `conn`.
    pub fn new(recv: FrameStream, conn: ConnectionRef, stream_id: StreamId) -> (r: RecvResponse)
        ensures
            r.phase() is Receiving,
            r.held() == Some(recv),
            r.spec_conn() == conn,
            r.spec_stream_id() == stream_id,
    {
        RecvResponse { conn, stream_id, state: RecvResponseState::Receiving(recv) }
    }

    /// The stream that the response comes on.
    #[verifier::when_used_as_spec(spec_stream_id)]
    pub fn stream_id(&self) -> (id: StreamId)
        ensures
            id == self.spec_stream_id(),
    {
        self.stream_id
    }

    /// Where the wait stands: which source to poll next, if any.
    pub fn current_phase(&self) -> (p: RecvPhase)
        ensures
            p == self.phase(),
    {
        match &self.state {
            RecvResponseState::Receiving(_) => RecvPhase::Receiving,
            RecvResponseState::Decoding(_) => RecvPhase::Decoding,
            RecvResponseState::Finished => RecvPhase::Finished,
        }
    }

    /// Gives the wait up. If the headers are still awaited, the transport is
    /// to reset the receive half with `REQUEST_CANCELLED`; later there is
    /// nothing left to reset.
    pub fn cancel(self) -> (r: Option<Reset>)
        ensures
            r == match self.phase() {
                RecvPhase::Receiving => Some(
                    Reset { stream_id: self.held()->0.spec_id(), code: ErrorCode::RequestCancelled },
                ),
                _ => None::<Reset>,
            },
    {
        match self.state {
            RecvResponseState::Receiving(recv) => Some(recv.reset(ErrorCode::RequestCancelled)),
            _ => None,
        }
    }

    /// What one poll makes of `event`, from `pre` to `post` with the answer `step`.
    pub open spec fn poll_spec(pre: RecvResponse, event: RecvEvent, post: RecvResponse, step: RecvStep) -> bool {
        &&& post.spec_stream_id() == pre.spec_stream_id()
        &&& post.spec_conn() == pre.spec_conn()
        &&& match pre.phase() {
            RecvPhase::Finished => {
                &&& post.phase() is Finished
                &&& step matches RecvStep::Done { result: Err(e), reset: None }
                &&& e.is_internal(polled_after_finish())
            },
            RecvPhase::Receiving => match event {
                RecvEvent::Pending => post.phase() is Receiving && post.held() == pre.held()
                    && step is Pending,
                RecvEvent::Frame(HttpFrame::Reserved) => post.phase() is Receiving && post.held()
                    == pre.held() && step is Skipped,
                RecvEvent::Frame(HttpFrame::Headers(h)) => post.phase() is Decoding && post.held()
                    == pre.held() && step == RecvStep::Decode(h),
                RecvEvent::Frame(_) => {
                    &&& post.phase() is Finished
                    &&& step matches RecvStep::Done { result: Err(e), reset: Some(reset) }
                    &&& e.is_peer(first_frame_not_headers())
                    &&& reset == (Reset {
                        stream_id: pre.held()->0.spec_id(),
                        code: ErrorCode::FrameUnexpected,
                    })
                },
                RecvEvent::End => {
                    &&& post.phase() is Finished
                    &&& step matches RecvStep::Done { result: Err(e), reset: None }
                    &&& e.is_peer(empty_response())
                },
                RecvEvent::Failed(e) => post.phase() is Finished && step == (RecvStep::Done {
                    result: Err(e),
                    reset: None,
                }),
                RecvEvent::Decoded(_) => true,
            },
            RecvPhase::Decoding => match event {
                RecvEvent::Pending => post.phase() is Decoding && post.held() == pre.held()
                    && step is Pending,
                RecvEvent::Failed(e) => post.phase() is Finished && step == (RecvStep::Done {
                    result: Err(e),
                    reset: None,
                }),
                RecvEvent::Decoded(header) => if !within_limit(pre.spec_conn(), header) {
                    &&& post.phase() is Finished
                    &&& step == (RecvStep::Done {
                        result: Err(Error::HeaderDecoding(HeaderError::TooLarge)),
                        reset: Some(
                            Reset {
                                stream_id: pre.held()->0.spec_id(),
                                code: ErrorCode::ExcessiveLoad,
                            },
                        ),
                    })
                } else {
                    &&& post.phase() is Finished
                    &&& match spec_build_response(header) {
                        Err(e) => step == (RecvStep::Done { result: Err(e), reset: None }),
                        Ok(response) => {
                            &&& step matches RecvStep::Done { result: Ok((r, body)), reset: None }
                            &&& r == response
                            &&& Some(body.spec_recv()) == pre.held()
                            &&& body.spec_stream_id() == pre.spec_stream_id()
                            &&& body.spec_finish_request()
                        },
                    }
                },
                _ => true,
            },
        }
    }

    /// Takes what the polled source brought and moves the wait on.
    ///
    /// While receiving, the source is the stream: a reserved frame is passed
    /// over, a `HEADERS` frame starts the decoding and sets the stream aside,
    /// any other frame ends the wait with a reset of the stream, and so does
    /// the end of the stream, without a reset. While decoding, the source is
    /// the decoder: its field section becomes the response, and the stream
    /// goes to the reader of the body; a field section beyond the limit of
    /// the connection's settings ends the wait with a reset of the stream.
    /// A failure of either source ends the wait with that failure. After
    /// the end every poll fails.
    pub fn poll(&mut self, event: RecvEvent) -> (step: RecvStep)
        requires
            old(self).accepts(event),
        ensures
            RecvResponse::poll_spec(*old(self), event, *final(self), step),
            step is Done ==> final(self).phase() is Finished,
            final(self).phase() is Finished ==> final(self).held() is None,
    {
        let mut state = RecvResponseState::Finished;
        core::mem::swap(&mut self.state, &mut state);
        match state {
            RecvResponseState::Finished => RecvStep::Done {
                result: Err(Error::internal("recv response polled after finish")),
                reset: None,
            },
            RecvResponseState::Receiving(recv) => match event {
                RecvEvent::Pending => {
                    self.state = RecvResponseState::Receiving(recv);
                    RecvStep::Pending
                },
                RecvEvent::Frame(frame) => match frame {
                    HttpFrame::Reserved => {
                        self.state = RecvResponseState::Receiving(recv);
                        RecvStep::Skipped
                    },
                    HttpFrame::Headers(h) => {
                        self.state = RecvResponseState::Decoding(recv);
                        RecvStep::Decode(h)
                    },
                    _ => {
                        let reset = recv.reset(ErrorCode::FrameUnexpected);
                        RecvStep::Done {
                            result: Err(Error::peer("first frame is not headers")),
                            reset: Some(reset),
                        }
                    },
                },
                RecvEvent::End => RecvStep::Done {
                    result: Err(Error::peer("received an empty response")),
                    reset: None,
                },
                RecvEvent::Failed(e) => RecvStep::Done { result: Err(e), reset: None },
                RecvEvent::Decoded(_) => {
                    proof {
                        assert(false);
                    }
                    RecvStep::Pending
                },
            },
            RecvResponseState::Decoding(recv) => match event {
                RecvEvent::Pending => {
                    self.state = RecvResponseState::Decoding(recv);
                    RecvStep::Pending
                },
                RecvEvent::Failed(e) => RecvStep::Done { result: Err(e), reset: None },
                RecvEvent::Decoded(header) => if header.size() > self.conn.settings.max_header_list_size {
                    RecvStep::Done {
                        result: Err(Error::HeaderDecoding(HeaderError::TooLarge)),
                        reset: Some(recv.reset(ErrorCode::ExcessiveLoad)),
                    }
                } else {
                    match build_response(header) {
                        Err(e) => RecvStep::Done { result: Err(e), reset: None },
                        Ok(response) => RecvStep::Done {
                            result: Ok((response, BodyReader::new(recv, self.stream_id, true))),
                            reset: None,
                        },
                    }
                },
                _ => {
                    proof {
                        assert(false);
                    }
                    RecvStep::Pending
                },
            },
        }
    }

    /// Once a poll has ended the wait, with a response or with a failure,
    /// every later poll fails with the internal error "recv response polled
    /// after finish", whatever it is polled with, and the wait stays ended.
    pub proof fn lemma_poll_after_finish(
        r0: RecvResponse,
        first: RecvEvent,
        r1: RecvResponse,
        ended: RecvStep,
        later: RecvEvent,
        r2: RecvResponse,
        step: RecvStep,
    )
        requires
            r0.accepts(first),
            RecvResponse::poll_spec(r0, first, r1, ended),
            ended is Done,
            RecvResponse::poll_spec(r1, later, r2, step),
        ensures
            r1.phase() is Finished,
            r2.phase() is Finished,
            step matches RecvStep::Done { result: Err(e), reset: None } && e.is_internal(
                polled_after_finish(),
            ),
    {
    }
}

} // verus!
