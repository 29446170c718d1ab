//! Decoding of whole byte sequences, and the laws that hold of it.
//!
//! `run` folds the decoder's step over a sequence of bytes. Because
//! `Message::push` is specified by that same step, each law below is a fact
//! about feeding those bytes, one `push` at a time, to a decoder.
use crate::data_format::{PAYLOAD_LEN, triplet_of, be_value};
use crate::message::{MessageType, Frame, Outcome, DecodeError, step, header_type};
use vstd::prelude::*;

verus! {

/// Feeds `bytes` to a decoder in the state (`pending`, `collected`): the
/// state reached, and the outcome of each byte in order.
pub open spec fn run(pending: Option<MessageType>, collected: Seq<u8>, bytes: Seq<u8>) -> (
    Option<MessageType>,
    Seq<u8>,
    Seq<Outcome>,
)
    decreases bytes.len(),
{
    if bytes.len() == 0 {
        (pending, collected, seq![])
    } else {
        let (p, c, o) = step(pending, collected, bytes[0]);
        let (p2, c2, outs) = run(p, c, bytes.drop_first());
        (p2, c2, seq![o] + outs)
    }
}

/// The outcomes of feeding `bytes` to a fresh decoder.
pub open spec fn decode(bytes: Seq<u8>) -> Seq<Outcome> {
    run(None, seq![], bytes).2
}

/// `n` outcomes that all say `Continue`.
pub open spec fn continues(n: nat) -> Seq<Outcome> {
    Seq::new(n, |i: int| Outcome::Continue)
}

/// The number of payload bytes that follow a header of type `kind`.
pub open spec fn payload_len(kind: MessageType) -> nat {
    if kind.has_payload() {
        PAYLOAD_LEN as nat
    } else {
        0
    }
}

/// The frame that a header of type `kind` followed by `payload` encodes.
pub open spec fn frame_of(kind: MessageType, payload: Seq<u8>) -> Frame {
    Frame { kind, triplet: if kind.has_payload() { Some(triplet_of(payload)) } else { None } }
}

/// Whether `bytes` is one well-formed frame: a valid header and exactly the
/// payload bytes that its type calls for.
pub open spec fn is_frame(bytes: Seq<u8>) -> bool {
    &&& bytes.len() > 0
    &&& header_type(bytes[0]) is Some
    &&& bytes.len() == 1 + payload_len(header_type(bytes[0])->Some_0)
}

proof fn lemma_run_len(pending: Option<MessageType>, collected: Seq<u8>, bytes: Seq<u8>)
    ensures
        run(pending, collected, bytes).2.len() == bytes.len(),
    decreases bytes.len(),
{
    if bytes.len() > 0 {
        let (p, c, o) = step(pending, collected, bytes[0]);
        lemma_run_len(p, c, bytes.drop_first());
    }
}

/// Feeding `a` and then `b` is feeding `a + b`.
pub proof fn lemma_run_concat(
    pending: Option<MessageType>,
    collected: Seq<u8>,
    a: Seq<u8>,
    b: Seq<u8>,
)
    ensures
        ({
            let (pa, ca, outs_a) = run(pending, collected, a);
            let (pb, cb, outs_b) = run(pa, ca, b);
            run(pending, collected, a + b) == (pb, cb, outs_a + outs_b)
        }),
    decreases a.len(),
{
    if a.len() == 0 {
        assert(a + b =~= b);
        assert(seq![] + run(pending, collected, b).2 =~= run(pending, collected, b).2);
    } else {
        let (p, c, o) = step(pending, collected, a[0]);
        lemma_run_concat(p, c, a.drop_first(), b);
        assert((a + b).drop_first() =~= a.drop_first() + b);
        let outs_rest = run(p, c, a.drop_first()).2;
        let (pa, ca, outs_a) = run(pending, collected, a);
        let outs_b = run(pa, ca, b).2;
        assert(seq![o] + (outs_rest + outs_b) =~= (seq![o] + outs_rest) + outs_b);
    }
}

/// A step that ends in `Complete` or `Error` leaves the decoder awaiting a header.
proof fn lemma_step_terminal_resets(pending: Option<MessageType>, collected: Seq<u8>, byte: u8)
    ensures
        step(pending, collected, byte).2 !is Continue ==> step(pending, collected, byte).0 is None
            && step(pending, collected, byte).1 == Seq::<u8>::empty(),
{
}

/// While a payload is collected and stays short of full, every byte gives
/// `Continue` and is appended.
proof fn lemma_collect_partial(kind: MessageType, collected: Seq<u8>, bytes: Seq<u8>)
    requires
        collected.len() + bytes.len() < PAYLOAD_LEN,
    ensures
        run(Some(kind), collected, bytes) == (Some(kind), collected + bytes, continues(bytes.len())),
    decreases bytes.len(),
{
    if bytes.len() == 0 {
        assert(collected + bytes =~= collected);
        assert(continues(0) =~= seq![]);
    } else {
        let c = collected.push(bytes[0]);
        lemma_collect_partial(kind, c, bytes.drop_first());
        assert(c + bytes.drop_first() =~= collected + bytes);
        assert(seq![Outcome::Continue] + continues(bytes.drop_first().len()) =~= continues(bytes.len()));
    }
}

/// The byte that fills the payload completes the frame and resets the decoder.
proof fn lemma_collect_full(kind: MessageType, collected: Seq<u8>, bytes: Seq<u8>)
    requires
        bytes.len() > 0,
        collected.len() + bytes.len() == PAYLOAD_LEN,
    ensures
        run(Some(kind), collected, bytes) == (
            None::<MessageType>,
            Seq::<u8>::empty(),
            continues((bytes.len() - 1) as nat) + seq![
                Outcome::Complete(Frame { kind, triplet: Some(triplet_of(collected + bytes)) }),
            ],
        ),
    decreases bytes.len(),
{
    let c = collected.push(bytes[0]);
    if bytes.len() == 1 {
        assert(c =~= collected + bytes);
        assert(run(None, seq![], bytes.drop_first()) == (
            None::<MessageType>,
            Seq::<u8>::empty(),
            Seq::<Outcome>::empty(),
        ));
        let fin = Outcome::Complete(Frame { kind, triplet: Some(triplet_of(collected + bytes)) });
        assert(seq![fin] + seq![] =~= continues(0) + seq![fin]);
    } else {
        lemma_collect_full(kind, c, bytes.drop_first());
        assert(c + bytes.drop_first() =~= collected + bytes);
        let fin = Outcome::Complete(Frame { kind, triplet: Some(triplet_of(collected + bytes)) });
        assert(seq![Outcome::Continue] + (continues((bytes.len() - 2) as nat) + seq![fin])
            =~= continues((bytes.len() - 1) as nat) + seq![fin]);
    }
}

/// The axis values of a decoded triplet are the big-endian byte pairs.
pub proof fn lemma_triplet_values(b: Seq<u8>)
    requires
        b.len() == PAYLOAD_LEN,
    ensures
        triplet_of(b).x as int == be_value(b[0], b[1]),
        triplet_of(b).y as int == be_value(b[2], b[3]),
        triplet_of(b).z as int == be_value(b[4], b[5]),
{
}

/// Every valid header, followed by the payload its type calls for, decodes
/// on a fresh decoder to `Continue` for each byte but the last and one
/// `Complete` for the last, whose frame holds the header's type and the
/// payload's big-endian axis values; the decoder then awaits a header again.
pub proof fn lemma_frame_decodes(header: u8, payload: Seq<u8>)
    requires
        header_type(header) is Some,
        payload.len() == payload_len(header_type(header)->Some_0),
    ensures
        ({
            let kind = header_type(header)->Some_0;
            run(None, seq![], seq![header] + payload) == (
                None::<MessageType>,
                Seq::<u8>::empty(),
                continues(payload.len()) + seq![Outcome::Complete(frame_of(kind, payload))],
            )
        }),
        header_type(header)->Some_0.has_payload() ==> {
            &&& triplet_of(payload).x as int == be_value(payload[0], payload[1])
            &&& triplet_of(payload).y as int == be_value(payload[2], payload[3])
            &&& triplet_of(payload).z as int == be_value(payload[4], payload[5])
        },
{
    let kind = header_type(header)->Some_0;
    let bytes = seq![header] + payload;
    assert(bytes[0] == header);
    assert(bytes.drop_first() =~= payload);
    if kind.has_payload() {
        lemma_collect_full(kind, seq![], payload);
        assert(seq![] + payload =~= payload);
        let fin = Outcome::Complete(frame_of(kind, payload));
        assert(seq![Outcome::Continue] + (continues(5) + seq![fin]) =~= continues(6) + seq![fin]);
        lemma_triplet_values(payload);
    } else {
        assert(payload.len() == 0);
        assert(run(None, seq![], payload) == (
            None::<MessageType>,
            Seq::<u8>::empty(),
            Seq::<Outcome>::empty(),
        ));
        let fin = Outcome::Complete(frame_of(kind, payload));
        assert(seq![fin] + seq![] =~= continues(0) + seq![fin]);
    }
}

/// A byte that names no message type, read where a header is awaited, gives
/// `Error(InvalidHeader)`, and the bytes after it decode exactly as they
/// would on a fresh decoder.
pub proof fn lemma_invalid_header_resets(byte: u8, rest: Seq<u8>)
    requires
        header_type(byte) is None,
    ensures
        ({
            let (p, c, outs) = run(None, seq![], rest);
            run(None, seq![], seq![byte] + rest) == (
                p,
                c,
                seq![Outcome::Error(DecodeError::InvalidHeader)] + outs,
            )
        }),
{
    assert((seq![byte] + rest)[0] == byte);
    assert((seq![byte] + rest).drop_first() =~= rest);
}

/// After a payload-carrying header and fewer payload bytes than its type
/// calls for, every byte has given `Continue`: no frame is reported yet, and
/// the decoder holds the type and the bytes so far.
pub proof fn lemma_partial_payload_continues(header: u8, payload: Seq<u8>)
    requires
        header_type(header) is Some,
        header_type(header)->Some_0.has_payload(),
        payload.len() < PAYLOAD_LEN,
    ensures
        run(None, seq![], seq![header] + payload) == (
            header_type(header),
            payload,
            continues(payload.len() + 1),
        ),
{
    let kind = header_type(header)->Some_0;
    let bytes = seq![header] + payload;
    assert(bytes[0] == header);
    assert(bytes.drop_first() =~= payload);
    lemma_collect_partial(kind, seq![], payload);
    assert(seq![] + payload =~= payload);
    assert(seq![Outcome::Continue] + continues(payload.len()) =~= continues(payload.len() + 1));
}

/// Once a byte sequence has ended in `Complete` or `Error`, what follows
/// decodes exactly as it would on a fresh decoder: no state carries over.
pub proof fn lemma_no_state_across_frames(a: Seq<u8>, b: Seq<u8>)
    requires
        a.len() > 0,
        decode(a).last() !is Continue,
    ensures
        run(None, seq![], a + b) == (
            run(None, seq![], b).0,
            run(None, seq![], b).1,
            decode(a) + decode(b),
        ),
{
    let front = a.drop_last();
    let x = a.last();
    assert(a =~= front + seq![x]);
    lemma_run_concat(None, seq![], front, seq![x]);
    let (pf, cf, outs_f) = run(None, seq![], front);
    let (p1, c1, o) = step(pf, cf, x);
    assert(seq![x].drop_first() =~= Seq::<u8>::empty());
    assert(run(p1, c1, seq![x].drop_first()) == (p1, c1, Seq::<Outcome>::empty()));
    assert(run(pf, cf, seq![x]) == (p1, c1, seq![o] + Seq::<Outcome>::empty()));
    assert(seq![o] + Seq::<Outcome>::empty() =~= seq![o]);
    assert(decode(a) == outs_f + seq![o]);
    lemma_run_len(None, seq![], front);
    assert(decode(a).last() == o);
    lemma_step_terminal_resets(pf, cf, x);
    lemma_run_concat(None, seq![], a, b);
}

/// Decoding the same frame twice in a row from a fresh decoder gives the
/// same outcomes twice, and so two equal `Complete` frames.
pub proof fn lemma_frame_repeats(f: Seq<u8>)
    requires
        is_frame(f),
    ensures
        decode(f + f) == decode(f) + decode(f),
        decode(f + f).len() == 2 * f.len(),
        decode(f + f)[f.len() - 1] is Complete,
        decode(f + f)[f.len() - 1] == decode(f + f)[2 * f.len() - 1],
{
    let header = f[0];
    let payload = f.drop_first();
    assert(f =~= seq![header] + payload);
    lemma_frame_decodes(header, payload);
    lemma_run_len(None, seq![], f);
    lemma_no_state_across_frames(f, f);
}

} // verus!
