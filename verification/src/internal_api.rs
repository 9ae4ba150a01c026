//! The framing of the messages exchanged with the object-storage gateway: a
//! flag byte, the length of the message in four bytes, most significant
//! first, and the message.

use vstd::prelude::*;
use crate::errors::{AppError, Kind};

verus! {

/// The size of the header of a frame.
pub const GRPC_HEADER_SIZE: usize = 5;

/// The four bytes that stand for a length, most significant first.
pub open spec fn length_bytes(n: nat) -> Seq<u8> {
    seq![
        (n / 0x1000000 % 0x100) as u8,
        (n / 0x10000 % 0x100) as u8,
        (n / 0x100 % 0x100) as u8,
        (n % 0x100) as u8,
    ]
}

/// The frame of a message: a zero flag, the length, the message.
pub open spec fn frame(message: Seq<u8>) -> Seq<u8> {
    seq![0u8] + length_bytes(message.len()) + message
}

/// The length that the header of `body` declares.
pub open spec fn declared_length(body: Seq<u8>) -> nat
    recommends
        body.len() >= 5,
{
    (body[1] as nat) * 0x1000000 + (body[2] as nat) * 0x10000 + (body[3] as nat) * 0x100
        + body[4] as nat
}

/// The message that `body` frames: `body` must hold a whole header and as many
/// bytes behind it as the header declares. What follows the message is not
/// part of it.
pub open spec fn framed(body: Seq<u8>) -> Option<Seq<u8>> {
    if body.len() >= 5 && declared_length(body) <= body.len() - 5 {
        Some(body.subrange(5, 5 + declared_length(body) as int))
    } else {
        None
    }
}

/// The frame of a message frames that message, whatever follows the frame.
pub proof fn lemma_frame_round_trip(message: Seq<u8>, trailer: Seq<u8>)
    requires
        message.len() <= u32::MAX,
    ensures
        framed(frame(message) + trailer) == Some(message),
{
    let n = message.len();
    let body = frame(message) + trailer;
    assert(body.len() == 5 + n + trailer.len());
    assert(body[1] == (n / 0x1000000 % 0x100) as u8);
    assert(body[2] == (n / 0x10000 % 0x100) as u8);
    assert(body[3] == (n / 0x100 % 0x100) as u8);
    assert(body[4] == (n % 0x100) as u8);
    assert(declared_length(body) == n);
    assert(body.subrange(5, 5 + n as int) =~= message);
}

/// Frames a message. A message whose length does not fit in the header is
/// refused as an `Internal` failure.
pub fn encode_body(message: &Vec<u8>) -> (res: Result<Vec<u8>, AppError>)
    ensures
        message@.len() <= u32::MAX ==> res.is_ok() && res.unwrap()@ == frame(message@),
        message@.len() > u32::MAX ==> (res matches Err(e) && e.kind == Kind::Internal),
{
    let n = message.len();
    if n > 0xFFFF_FFFF {
        return Err(AppError::new(Kind::Internal, "the message is too long"));
    }
    let mut body: Vec<u8> = Vec::new();
    body.push(0u8);
    body.push((n / 0x1000000 % 0x100) as u8);
    body.push((n / 0x10000 % 0x100) as u8);
    body.push((n / 0x100 % 0x100) as u8);
    body.push((n % 0x100) as u8);
    let mut i: usize = 0;
    while i < n
        invariant
            0 <= i <= n,
            n == message@.len(),
            body@ == seq![0u8] + length_bytes(n as nat) + message@.take(i as int),
        decreases n - i,
    {
        body.push(message[i]);
        assert(message@.take(i + 1) =~= message@.take(i as int).push(message@[i as int]));
        assert(body@ =~= seq![0u8] + length_bytes(n as nat) + message@.take(i + 1));
        i += 1;
    }
    assert(message@.take(n as int) =~= message@);
    Ok(body)
}

/// Takes the message out of a framed body. An empty body is `NotFound`; a
/// body that is shorter than its header, or than the length that its header
/// declares, is an `Internal` failure.
pub fn decode_body(body: &Vec<u8>) -> (res: Result<Vec<u8>, AppError>)
    ensures
        body@.len() == 0 ==> (res matches Err(e) && e.kind == Kind::NotFound),
        body@.len() > 0 ==> match framed(body@) {
            Some(message) => res.is_ok() && res.unwrap()@ == message,
            None => (res matches Err(e) && e.kind == Kind::Internal),
        },
{
    if body.len() == 0 {
        return Err(AppError::new(Kind::NotFound, "the gateway answered nothing"));
    }
    if body.len() < GRPC_HEADER_SIZE {
        return Err(AppError::new(Kind::Internal, "the answer of the gateway is cut short"));
    }
    let declared: u64 = (body[1] as u64) * 0x1000000 + (body[2] as u64) * 0x10000 + (body[3] as u64)
        * 0x100 + (body[4] as u64);
    if declared > (body.len() - GRPC_HEADER_SIZE) as u64 {
        return Err(AppError::new(Kind::Internal, "the answer of the gateway is cut short"));
    }
    let end: usize = GRPC_HEADER_SIZE + declared as usize;
    let mut message: Vec<u8> = Vec::new();
    let mut i: usize = GRPC_HEADER_SIZE;
    while i < end
        invariant
            5 <= i <= end <= body@.len(),
            message@ == body@.subrange(5, i as int),
        decreases end - i,
    {
        message.push(body[i]);
        assert(body@.subrange(5, i + 1) =~= body@.subrange(5, i as int).push(body@[i as int]));
        i += 1;
    }
    Ok(message)
}

} // verus!
