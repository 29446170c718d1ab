//! Message types and the incremental frame decoder.
//!
//! A frame is one header byte, followed by a six-byte triplet payload for
//! telemetry and set-attitude messages:
//!
//! ```text
//!  0x00  reserved             no payload
//!  0x01  telemetry            triplet payload
//!  0x02  set attitude         triplet payload
//!  0x03  attitude achieved    no payload
//! ```
use crate::data_format::{PAYLOAD_LEN, Triplet, triplet_of, decode_triplet, be_value, i16_from_be};
use vstd::prelude::*;

verus! {

pub const HEADER_RESERVED: u8 = 0x00;

pub const HEADER_TELEMETRY: u8 = 0x01;

pub const HEADER_SET_ATTITUDE: u8 = 0x02;

pub const HEADER_ATTITUDE_ACHIEVED: u8 = 0x03;

/// The kind of a message, named by its header byte.
#[derive(Clone, Copy, Debug, PartialEq, Eq, Structural)]
pub enum MessageType {
    Reserved,
    Telemetry,
    SetAttitude,
    AttitudeAchieved,
}

/// The message type that a header byte names; `None` for an invalid header.
pub open spec fn header_type(byte: u8) -> Option<MessageType> {
    if byte == HEADER_RESERVED {
        Some(MessageType::Reserved)
    } else if byte == HEADER_TELEMETRY {
        Some(MessageType::Telemetry)
    } else if byte == HEADER_SET_ATTITUDE {
        Some(MessageType::SetAttitude)
    } else if byte == HEADER_ATTITUDE_ACHIEVED {
        Some(MessageType::AttitudeAchieved)
    } else {
        None
    }
}

impl MessageType {
    /// Whether frames of this type carry a triplet payload.
    pub open spec fn has_payload(self) -> bool {
        self is Telemetry || self is SetAttitude
    }

    /// Reads a header byte.
    pub fn from_header(byte: u8) -> (r: Option<MessageType>)
        ensures
            r == header_type(byte),
    {
        match byte {
            HEADER_RESERVED => Some(MessageType::Reserved),
            HEADER_TELEMETRY => Some(MessageType::Telemetry),
            HEADER_SET_ATTITUDE => Some(MessageType::SetAttitude),
            HEADER_ATTITUDE_ACHIEVED => Some(MessageType::AttitudeAchieved),
            _ => None,
        }
    }
}

/// One decoded message: its type, and its triplet when the type carries one.
#[derive(Clone, Copy, Debug, PartialEq, Eq, Structural)]
pub struct Frame {
    pub kind: MessageType,
    pub triplet: Option<Triplet>,
}

/// What can go wrong while decoding.
#[derive(Clone, Copy, Debug, PartialEq, Eq, Structural)]
pub enum DecodeError {
    /// A byte read in header position names no message type.
    InvalidHeader,
}

/// The result of handing the decoder one byte.
#[derive(Clone, Copy, Debug, PartialEq, Eq, Structural)]
pub enum Outcome {
    /// The byte was taken; the frame is not finished yet.
    Continue,
    /// The byte finished a frame; the decoder awaits a header again.
    Complete(Frame),
    /// The byte was an invalid header and was dropped; the decoder awaits a header again.
    Error(DecodeError),
}

/// One decoding step. The decoder state is the latched message type
/// (`None` while awaiting a header) and the payload bytes collected so far;
/// the result is the next state and the outcome reported for `byte`.
pub open spec fn step(pending: Option<MessageType>, collected: Seq<u8>, byte: u8) -> (
    Option<MessageType>,
    Seq<u8>,
    Outcome,
) {
    match pending {
        None => match header_type(byte) {
            None => (None, seq![], Outcome::Error(DecodeError::InvalidHeader)),
            Some(kind) => if kind.has_payload() {
                (Some(kind), seq![], Outcome::Continue)
            } else {
                (None, seq![], Outcome::Complete(Frame { kind, triplet: None }))
            },
        },
        Some(kind) => {
            let c = collected.push(byte);
            if c.len() < PAYLOAD_LEN {
                (Some(kind), c, Outcome::Continue)
            } else {
                (None, seq![], Outcome::Complete(Frame { kind, triplet: Some(triplet_of(c)) }))
            }
        },
    }
}

/// A telemetry payload, kept as its six wire bytes.
pub struct TEL {
    pub x_h: u8,
    pub x_l: u8,
    pub y_h: u8,
    pub y_l: u8,
    pub z_h: u8,
    pub z_l: u8,
}

impl View for TEL {
    type V = Seq<u8>;

    open spec fn view(&self) -> Seq<u8> {
        seq![self.x_h, self.x_l, self.y_h, self.y_l, self.z_h, self.z_l]
    }
}

impl TEL {
    /// The payload whose wire bytes are `buf`.
    pub fn from_fixed(buf: &[u8; PAYLOAD_LEN]) -> (r: Self)
        ensures
            r@ == buf@,
    {
        let r = Self { x_h: buf[0], x_l: buf[1], y_h: buf[2], y_l: buf[3], z_h: buf[4], z_l: buf[5] };
        assert(r@ =~= buf@);
        r
    }

    pub fn get_x(&self) -> (r: i16)
        ensures
            r as int == be_value(self.x_h, self.x_l),
    {
        i16_from_be(self.x_h, self.x_l)
    }

    pub fn get_y(&self) -> (r: i16)
        ensures
            r as int == be_value(self.y_h, self.y_l),
    {
        i16_from_be(self.y_h, self.y_l)
    }

    pub fn get_z(&self) -> (r: i16)
        ensures
            r as int == be_value(self.z_h, self.z_l),
    {
        i16_from_be(self.z_h, self.z_l)
    }
}

/// A set-attitude payload, kept as its six wire bytes.
pub struct SAT {
    pub x_h: u8,
    pub x_l: u8,
    pub y_h: u8,
    pub y_l: u8,
    pub z_h: u8,
    pub z_l: u8,
}

impl View for SAT {
    type V = Seq<u8>;

    open spec fn view(&self) -> Seq<u8> {
        seq![self.x_h, self.x_l, self.y_h, self.y_l, self.z_h, self.z_l]
    }
}

impl SAT {
    /// The payload whose wire bytes are `buf`.
    pub fn from_fixed(buf: &[u8; PAYLOAD_LEN]) -> (r: Self)
        ensures
            r@ == buf@,
    {
        let r = Self { x_h: buf[0], x_l: buf[1], y_h: buf[2], y_l: buf[3], z_h: buf[4], z_l: buf[5] };
        assert(r@ =~= buf@);
        r
    }

    pub fn get_x(&self) -> (r: i16)
        ensures
            r as int == be_value(self.x_h, self.x_l),
    {
        i16_from_be(self.x_h, self.x_l)
    }

    pub fn get_y(&self) -> (r: i16)
        ensures
            r as int == be_value(self.y_h, self.y_l),
    {
        i16_from_be(self.y_h, self.y_l)
    }

    pub fn get_z(&self) -> (r: i16)
        ensures
            r as int == be_value(self.z_h, self.z_l),
    {
        i16_from_be(self.z_h, self.z_l)
    }
}

/// A message with its payload in wire form.
pub enum MessagePayload {
    RES,
    TEL(TEL),
    SAT(SAT),
    NAS,
}

/// The payload slot's value after a frame of type `kind` with payload bytes `b`
/// completes: the payload for types that carry one, `None` otherwise.
pub open spec fn payload_of(kind: MessageType, b: Seq<u8>) -> Option<MessagePayload> {
    match kind {
        MessageType::Telemetry => Some(
            MessagePayload::TEL(TEL { x_h: b[0], x_l: b[1], y_h: b[2], y_l: b[3], z_h: b[4], z_l: b[5] }),
        ),
        MessageType::SetAttitude => Some(
            MessagePayload::SAT(SAT { x_h: b[0], x_l: b[1], y_h: b[2], y_l: b[3], z_h: b[4], z_l: b[5] }),
        ),
        _ => None,
    }
}

/// The outcome of one byte, without the decoded frame.
#[derive(Clone, Copy, Debug, PartialEq, Eq, Structural)]
pub enum PushState {
    Continue,
    Done,
    Error,
}

pub open spec fn push_state_of(o: Outcome) -> PushState {
    match o {
        Outcome::Continue => PushState::Continue,
        Outcome::Complete(_) => PushState::Done,
        Outcome::Error(_) => PushState::Error,
    }
}

/// The decoder of one byte stream. A fresh decoder awaits a header byte; it
/// returns to that state after every completed frame and every invalid header.
pub struct Message {
    /// The header byte read last; while a payload is collected, its type.
    pub header_buffer: [u8; 1],
    /// 1 while a header is latched, 0 while awaiting one.
    pub header_tail: usize,
    /// Whether a payload is being collected.
    pub payload_started: bool,
    pub tel_payload_buffer: [u8; PAYLOAD_LEN],
    pub sat_payload_buffer: [u8; PAYLOAD_LEN],
    /// Number of payload bytes collected so far.
    pub payload_tail: usize,
    /// The payload of the frame completed last, where it carries one.
    pub payload: Option<MessagePayload>,
}

impl Message {
    pub open spec fn wf(&self) -> bool {
        &&& self.header_tail <= 1
        &&& self.payload_started <==> self.header_tail == 1
        &&& self.payload_tail < PAYLOAD_LEN
        &&& !self.payload_started ==> self.payload_tail == 0
        &&& self.payload_started ==> (self.header_buffer@[0] == HEADER_TELEMETRY
            || self.header_buffer@[0] == HEADER_SET_ATTITUDE)
    }

    /// The latched message type; `None` while awaiting a header.
    pub open spec fn pending(&self) -> Option<MessageType> {
        if self.payload_started {
            header_type(self.header_buffer@[0])
        } else {
            None
        }
    }

    /// The payload bytes collected for the latched message.
    pub open spec fn collected(&self) -> Seq<u8> {
        if !self.payload_started {
            seq![]
        } else if self.header_buffer@[0] == HEADER_TELEMETRY {
            self.tel_payload_buffer@.take(self.payload_tail as int)
        } else {
            self.sat_payload_buffer@.take(self.payload_tail as int)
        }
    }

    /// A decoder awaiting its first header byte.
    pub fn new() -> (r: Self)
        ensures
            r.wf(),
            r.pending() is None,
            r.collected() == Seq::<u8>::empty(),
            r.payload is None,
            r.header_buffer@ == seq![0u8],
            r.header_tail == 0,
            !r.payload_started,
            r.tel_payload_buffer@ == Seq::new(6, |i: int| 0u8),
            r.sat_payload_buffer@ == Seq::new(6, |i: int| 0u8),
            r.payload_tail == 0,
    {
        let r = Message {
            header_buffer: [0x00],
            header_tail: 0,
            payload_started: false,
            tel_payload_buffer: [0x00; PAYLOAD_LEN],
            sat_payload_buffer: [0x00; PAYLOAD_LEN],
            payload_tail: 0,
            payload: None,
        };
        assert(r.header_buffer@ =~= seq![0u8]);
        assert(r.tel_payload_buffer@ =~= Seq::new(6, |i: int| 0u8));
        assert(r.sat_payload_buffer@ =~= Seq::new(6, |i: int| 0u8));
        assert(r.collected() =~= Seq::<u8>::empty());
        r
    }

    /// Hands the decoder the next byte of the stream.
    pub fn push(&mut self, byte: u8) -> (r: Outcome)
        requires
            old(self).wf(),
        ensures
            final(self).wf(),
            (final(self).pending(), final(self).collected(), r) == step(
                old(self).pending(),
                old(self).collected(),
                byte,
            ),
            final(self).payload == old(self).payload,
            r matches Outcome::Complete(f) && f.kind == MessageType::Telemetry
                ==> final(self).tel_payload_buffer@ == old(self).collected().push(byte),
            r matches Outcome::Complete(f) && f.kind == MessageType::SetAttitude
                ==> final(self).sat_payload_buffer@ == old(self).collected().push(byte),
    {
        if !self.payload_started {
            self.header_buffer[0] = byte;
            match MessageType::from_header(byte) {
                None => Outcome::Error(DecodeError::InvalidHeader),
                Some(kind) => match kind {
                    MessageType::Telemetry | MessageType::SetAttitude => {
                        self.header_tail = 1;
                        self.payload_started = true;
                        self.payload_tail = 0;
                        assert(self.collected() =~= Seq::<u8>::empty());
                        Outcome::Continue
                    },
                    _ => Outcome::Complete(Frame { kind, triplet: None }),
                },
            }
        } else {
            let ghost before = self.collected();
            let tail = self.payload_tail;
            let telemetry = self.header_buffer[0] == HEADER_TELEMETRY;
            if telemetry {
                self.tel_payload_buffer[tail] = byte;
            } else {
                self.sat_payload_buffer[tail] = byte;
            }
            self.payload_tail = tail + 1;
            if telemetry {
                assert(self.tel_payload_buffer@.take(self.payload_tail as int) =~= before.push(byte));
            } else {
                assert(self.sat_payload_buffer@.take(self.payload_tail as int) =~= before.push(byte));
            }
            if self.payload_tail < PAYLOAD_LEN {
                Outcome::Continue
            } else {
                let (kind, triplet) = if telemetry {
                    assert(self.tel_payload_buffer@ =~= before.push(byte));
                    (MessageType::Telemetry, decode_triplet(&self.tel_payload_buffer))
                } else {
                    assert(self.sat_payload_buffer@ =~= before.push(byte));
                    (MessageType::SetAttitude, decode_triplet(&self.sat_payload_buffer))
                };
                self.header_tail = 0;
                self.payload_started = false;
                self.payload_tail = 0;
                Outcome::Complete(Frame { kind, triplet: Some(triplet) })
            }
        }
    }

    /// Hands the decoder the next byte of the stream, and on a completed frame
    /// keeps its payload in `payload`.
    pub fn push_byte(&mut self, byte: u8) -> (r: PushState)
        requires
            old(self).wf(),
        ensures
            final(self).wf(),
            ({
                let (p, c, o) = step(old(self).pending(), old(self).collected(), byte);
                &&& final(self).pending() == p
                &&& final(self).collected() == c
                &&& r == push_state_of(o)
                &&& final(self).payload == match o {
                    Outcome::Continue => old(self).payload,
                    Outcome::Complete(f) => payload_of(f.kind, old(self).collected().push(byte)),
                    Outcome::Error(_) => None,
                }
            }),
    {
        match self.push(byte) {
            Outcome::Continue => PushState::Continue,
            Outcome::Complete(frame) => {
                self.payload = match frame.kind {
                    MessageType::Telemetry => Some(
                        MessagePayload::TEL(TEL::from_fixed(&self.tel_payload_buffer)),
                    ),
                    MessageType::SetAttitude => Some(
                        MessagePayload::SAT(SAT::from_fixed(&self.sat_payload_buffer)),
                    ),
                    _ => None,
                };
                PushState::Done
            },
            Outcome::Error(_) => {
                self.payload = None;
                PushState::Error
            },
        }
    }
}

} // verus!
