//! Message framing: every message travels as a four-byte big-endian total
//! length (counting those four bytes) followed by the payload.
use vstd::prelude::*;
use crate::error::TraciError;
use crate::storage::{u32_be, u32_of, Storage};

verus! {

/// Size of the length header.
pub const LENGTH_LEN: usize = 4;

/// The frame that carries `payload`.
pub open spec fn frame_bytes(payload: Seq<u8>) -> Seq<u8> {
    u32_be((payload.len() + 4) as u32) + payload
}

/// The total length that a frame header announces.
pub open spec fn announced_len(h: Seq<u8>) -> int {
    u32_of(h[0], h[1], h[2], h[3]) as int
}

/// The payload of the frame at the start of `data`: `None` when `data` ends
/// before the frame does, or when the announced length is below the header size.
pub open spec fn unframe_bytes(data: Seq<u8>) -> Option<Seq<u8>> {
    if data.len() < 4 {
        None
    } else {
        let total = announced_len(data);
        if total < 4 || data.len() < total {
            None
        } else {
            Some(data.subrange(4, total))
        }
    }
}

/// The frame that carries the bytes of `payload`.
pub fn frame(payload: &Storage) -> (r: Vec<u8>)
    requires
        payload@.len() + 4 <= u32::MAX,
    ensures
        r@ == frame_bytes(payload@),
{
    let total = (LENGTH_LEN + payload.len()) as u32;
    let mut out: Vec<u8> = Vec::new();
    out.push((total >> 24u32) as u8);
    out.push((total >> 16u32) as u8);
    out.push((total >> 8u32) as u8);
    out.push(total as u8);
    let bytes = payload.as_bytes();
    let mut i: usize = 0;
    while i < bytes.len()
        invariant
            i <= bytes@.len(),
            bytes@ == payload@,
            out@ == u32_be(total) + bytes@.subrange(0, i as int),
            total == (payload@.len() + 4) as u32,
        decreases bytes@.len() - i,
    {
        out.push(bytes[i]);
        i = i + 1;
        assert(out@ =~= u32_be(total) + bytes@.subrange(0, i as int));
    }
    assert(bytes@.subrange(0, i as int) =~= bytes@);
    out
}

/// The payload length announced by a four-byte frame header; a total below
/// the header size is a `Protocol` error.
pub fn payload_len(header: &[u8]) -> (r: Result<usize, TraciError>)
    requires
        header@.len() == LENGTH_LEN,
    ensures
        announced_len(header@) >= 4 ==> r == Ok::<usize, TraciError>(
            (announced_len(header@) - 4) as usize,
        ),
        announced_len(header@) < 4 ==> (r matches Err(e) && e.is_protocol()),
{
    let total = ((header[0] as u32) << 24u32) | ((header[1] as u32) << 16u32) | ((
    header[2] as u32) << 8u32) | (header[3] as u32);
    if total < 4 {
        Err(TraciError::protocol("Received message length is smaller than the header size"))
    } else {
        Ok((total - 4) as usize)
    }
}

/// The payload of the frame at the start of `data`, as a buffer with its
/// cursor at the start. Data that ends before the header or the payload does
/// is a `Connection` error (the stream ended mid-frame); an announced length
/// below the header size is a `Protocol` error.
pub fn unframe(data: &[u8]) -> (r: Result<Storage, TraciError>)
    ensures
        match unframe_bytes(data@) {
            Some(p) => r matches Ok(s) && s@ == p && s.cursor() == 0,
            None => r is Err,
        },
        data@.len() < 4 ==> (r matches Err(e) && e.is_connection()),
        data@.len() >= 4 && announced_len(data@) < 4 ==> (r matches Err(e) && e.is_protocol()),
        data@.len() >= 4 && announced_len(data@) >= 4 && data@.len() < announced_len(data@)
            ==> (r matches Err(e) && e.is_connection()),
{
    if data.len() < LENGTH_LEN {
        return Err(TraciError::connection("The stream ended inside a frame header"));
    }
    let total = ((data[0] as u32) << 24u32) | ((data[1] as u32) << 16u32) | ((data[2] as u32)
        << 8u32) | (data[3] as u32);
    if total < 4 {
        return Err(
            TraciError::protocol("Received message length is smaller than the header size"),
        );
    }
    let total = total as usize;
    if data.len() < total {
        return Err(TraciError::connection("The stream ended inside a frame"));
    }
    let mut payload: Vec<u8> = Vec::new();
    let mut i: usize = LENGTH_LEN;
    while i < total
        invariant
            LENGTH_LEN <= i <= total,
            total <= data@.len(),
            payload@ == data@.subrange(4, i as int),
        decreases total - i,
    {
        payload.push(data[i]);
        i = i + 1;
        assert(payload@ =~= data@.subrange(4, i as int));
    }
    Ok(Storage::from_bytes(payload))
}

/// Frame integrity: unframing the frame built around a payload gives the
/// payload back, whatever follows the frame.
pub proof fn lemma_frame_round_trip(payload: Seq<u8>, rest: Seq<u8>)
    requires
        payload.len() + 4 <= u32::MAX,
    ensures
        unframe_bytes(frame_bytes(payload) + rest) == Some(payload),
{
    let total = (payload.len() + 4) as u32;
    let d = frame_bytes(payload) + rest;
    assert(d[0] == (total >> 24u32) as u8 && d[1] == (total >> 16u32) as u8 && d[2] == (total
        >> 8u32) as u8 && d[3] == total as u8);
    assert(u32_of((total >> 24u32) as u8, (total >> 16u32) as u8, (total >> 8u32) as u8, total as u8) == total) by (bit_vector);
    assert(d.subrange(4, total as int) =~= payload);
}

} // verus!
