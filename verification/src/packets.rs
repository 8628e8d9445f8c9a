//! RPC envelopes as RakNet frames them: an optional timestamp header, the RPC
//! marker, the RPC id, the payload length in bits (compressed) and the payload.

use vstd::prelude::*;
use vstd::arithmetic::power2::lemma2_to64;
use crate::bits::{bits_value, lemma_bits_value_bound, byte_bits, bytes_bits, lemma_byte_bits_value, lemma_bytes_bits_len,
    lemma_nat_bits_len};
use crate::bitstream::{
    BitStream, BitStreamError, bits_bytes, byte_len, padded, compressed_bits, compressed_decode,
    lemma_compressed_bits_len, lemma_bits_bytes_bytes_bits, lemma_bytes_bits_bits_bytes,
    lemma_compressed_round_trip,
};
use crate::error::SendError;

verus! {

/// The packet id that marks an RPC envelope.
pub const ID_RPC: u8 = 20;

/// The packet id of the optional timestamp header (four bytes follow it).
pub const ID_TIMESTAMP: u8 = 40;

/// The bits of an envelope for RPC `id` with `payload`, before byte padding.
pub open spec fn envelope_bits(id: u8, payload: Seq<bool>, timestamp: Option<Seq<u8>>) -> Seq<bool> {
    (match timestamp {
        Some(t) => byte_bits(ID_TIMESTAMP) + bytes_bits(t),
        None => Seq::empty(),
    }) + byte_bits(ID_RPC) + byte_bits(id) + compressed_bits(payload.len() as u32) + payload
}

/// Where the RPC id starts in `s` and the timestamp bytes that precede it,
/// or `None` when the header is malformed or truncated.
pub open spec fn envelope_header(s: Seq<bool>) -> Option<(int, Option<Seq<u8>>)> {
    if s.len() < 8 {
        None
    } else if bits_value(s.subrange(0, 8)) == ID_TIMESTAMP as nat {
        if s.len() < 48 {
            None
        } else if bits_value(s.subrange(40, 48)) != ID_RPC as nat {
            None
        } else {
            Some((48int, Some(bits_bytes(s.subrange(8, 40)))))
        }
    } else if bits_value(s.subrange(0, 8)) == ID_RPC as nat {
        Some((8int, None))
    } else {
        None
    }
}

/// The RPC id, payload bits and timestamp of an envelope, or `None` when the
/// bits are not a well-formed envelope.
pub open spec fn parse_envelope_bits(s: Seq<bool>) -> Option<(u8, Seq<bool>, Option<Seq<u8>>)> {
    match envelope_header(s) {
        None => None,
        Some((at, timestamp)) => if s.len() < at + 8 {
            None
        } else {
            match compressed_decode(s.subrange(at + 8, s.len() as int)) {
                None => None,
                Some((n, used)) => {
                    let start = at + 8 + used;
                    if start + n > s.len() {
                        None
                    } else {
                        Some(
                            (
                                bits_value(s.subrange(at, at + 8)) as u8,
                                s.subrange(start, start + n),
                                timestamp,
                            ),
                        )
                    }
                },
            }
        },
    }
}

/// Converts a bit count to the native signed 32-bit field.
pub fn native_bit_length(bits: usize) -> (r: Result<i32, SendError>)
    ensures
        bits <= i32::MAX ==> r == Ok::<i32, SendError>(bits as i32),
        bits > i32::MAX ==> r == Err::<i32, SendError>(SendError::PayloadTooLarge),
{
    if bits > i32::MAX as usize {
        Err(SendError::PayloadTooLarge)
    } else {
        Ok(bits as i32)
    }
}

/// Frames an RPC payload as an envelope, with the timestamp header when one is given.
pub fn build_rpc_envelope(id: u8, payload: &BitStream, timestamp: Option<[u8; 4]>) -> (r: Result<
    Vec<u8>,
    SendError,
>)
    ensures
        payload.bits().len() > u32::MAX ==> r == Err::<Vec<u8>, SendError>(SendError::PayloadTooLarge),
        payload.bits().len() <= u32::MAX ==> match r {
            Ok(bytes) => bytes@ == bits_bytes(
                padded(envelope_bits(id, payload.bits(), opt_seq(timestamp))),
            ) && bytes_bits(bytes@) == padded(envelope_bits(id, payload.bits(), opt_seq(timestamp)))
                && bytes@.len() == byte_len(envelope_bits(id, payload.bits(), opt_seq(timestamp)).len())
                && parse_envelope_bits(bytes_bits(bytes@)) == Some(
                (id, payload.bits(), opt_seq(timestamp)),
            ) && bytes@.len() <= 536_870_923 && (usize::MAX > u32::MAX ==> bytes@.len()
                <= usize::MAX / 8),
            Err(e) => e == SendError::PayloadTooLarge && envelope_bits(
                id,
                payload.bits(),
                opt_seq(timestamp),
            ).len() > usize::MAX,
        },
{
    let payload_len = payload.len_bits();
    if payload_len > u32::MAX as usize {
        return Err(SendError::PayloadTooLarge);
    }
    let payload_bits = payload_len as u32;
    let mut stream = BitStream::new();
    let ghost header: Seq<bool> = match timestamp {
        Some(t) => byte_bits(ID_TIMESTAMP) + bytes_bits(t@),
        None => Seq::empty(),
    };
    proof {
        lemma_nat_bits_len(ID_TIMESTAMP as nat, 8);
        lemma_nat_bits_len(ID_RPC as nat, 8);
        lemma_nat_bits_len(id as nat, 8);
        lemma_compressed_bits_len(payload_bits);
        if let Some(t) = timestamp {
            lemma_bytes_bits_len(t@);
        }
    }
    if let Some(t) = timestamp {
        if stream.write_u8(ID_TIMESTAMP).is_err() {
            return Err(SendError::PayloadTooLarge);
        }
        if stream.write_bytes(&t).is_err() {
            return Err(SendError::PayloadTooLarge);
        }
    }
    assert(stream.bits() =~= header);
    if stream.write_u8(ID_RPC).is_err() {
        return Err(SendError::PayloadTooLarge);
    }
    if stream.write_u8(id).is_err() {
        return Err(SendError::PayloadTooLarge);
    }
    if stream.write_compressed_u32(payload_bits).is_err() {
        return Err(SendError::PayloadTooLarge);
    }
    match stream.write_stream(payload) {
        Ok(()) => {},
        Err(_) => {
            proof {
                assert(envelope_bits(id, payload.bits(), opt_seq(timestamp)).len() > usize::MAX);
            }
            return Err(SendError::PayloadTooLarge);
        },
    }
    assert(stream.bits() =~= envelope_bits(id, payload.bits(), opt_seq(timestamp)));
    proof {
        envelope_round_trip(id, payload.bits(), opt_seq(timestamp));
    }
    Ok(stream.as_bytes())
}

/// The four timestamp bytes as a sequence.
pub open spec fn opt_seq(t: Option<[u8; 4]>) -> Option<Seq<u8>> {
    match t {
        Some(a) => Some(a@),
        None => None,
    }
}

/// Splits an envelope into its RPC id, payload and optional timestamp.
pub fn parse_rpc_envelope(input: &[u8]) -> (r: Result<(u8, BitStream, Option<[u8; 4]>), SendError>)
    requires
        input@.len() <= usize::MAX / 8,
    ensures
        match parse_envelope_bits(bytes_bits(input@)) {
            Some((id, payload, timestamp)) => r matches Ok((rid, rpayload, rtimestamp)) && rid == id
                && rpayload.bits() == payload && rpayload.pos() == 0 && opt_seq(rtimestamp)
                == timestamp,
            None => r == Err::<(u8, BitStream, Option<[u8; 4]>), SendError>(
                SendError::NativeCallFailed,
            ),
        },
{
    let mut bytes: Vec<u8> = Vec::new();
    let mut i: usize = 0;
    while i < input.len()
        invariant
            i <= input@.len(),
            bytes@ == input@.take(i as int),
        decreases input@.len() - i,
    {
        bytes.push(input[i]);
        i = i + 1;
        assert(bytes@ =~= input@.take(i as int));
    }
    assert(input@.take(i as int) =~= input@);
    let mut stream = BitStream::from_bytes(bytes);
    let ghost s = stream.bits();
    proof {
        lemma_bytes_bits_len(input@);
        if s.len() >= 8 {
            lemma_bits_value_bound(s.subrange(0, 8));
        }
        if s.len() >= 48 {
            lemma_bits_value_bound(s.subrange(40, 48));
        }
        lemma2_to64();
    }
    let first = match stream.read_u8() {
        Ok(v) => v,
        Err(_) => return Err(SendError::NativeCallFailed),
    };
    let mut timestamp: Option<[u8; 4]> = None;
    if first == ID_TIMESTAMP {
        let t = match stream.read_bytes(4) {
            Ok(t) => t,
            Err(_) => return Err(SendError::NativeCallFailed),
        };
        let marker = match stream.read_u8() {
            Ok(v) => v,
            Err(_) => return Err(SendError::NativeCallFailed),
        };
        if marker != ID_RPC {
            return Err(SendError::NativeCallFailed);
        }
        let arr: [u8; 4] = [t[0], t[1], t[2], t[3]];
        assert(arr@ =~= t@);
        timestamp = Some(arr);
    } else if first != ID_RPC {
        return Err(SendError::NativeCallFailed);
    }
    let ghost at = stream.pos();
    assert(envelope_header(s) == Some((at, opt_seq(timestamp))));
    let id = match stream.read_u8() {
        Ok(v) => v,
        Err(_) => return Err(SendError::NativeCallFailed),
    };
    assert(s.subrange(at + 8, s.len() as int) =~= stream.unread());
    let payload_bits = match stream.read_compressed_u32() {
        Ok(v) => v,
        Err(_) => return Err(SendError::NativeCallFailed),
    };
    if payload_bits as usize > stream.remaining_bits() {
        return Err(SendError::NativeCallFailed);
    }
    let payload = match stream.take_stream(payload_bits as usize) {
        Ok(p) => p,
        Err(_) => return Err(SendError::NativeCallFailed),
    };
    Ok((id, payload, timestamp))
}

} // verus!

verus! {

/// Every frame that `build_rpc_envelope` returns is split by
/// `parse_rpc_envelope` into the same RPC id, exactly the same payload bits
/// (a partial last byte of the payload included) and the same timestamp:
/// read back as bits, the frame's bytes are the envelope followed by padding,
/// and the parser stops at the payload's end. The frame never holds more
/// than 536_870_923 bytes, so it is within the parser's limit on bytes on
/// every target whose `usize` is wider than 32 bits, and on any target
/// whenever the envelope's bits stop short of the last whole byte that a
/// `usize` count of bits can hold.
pub proof fn envelope_round_trip(id: u8, payload: Seq<bool>, timestamp: Option<Seq<u8>>)
    requires
        payload.len() <= u32::MAX,
        timestamp matches Some(t) ==> t.len() == 4,
    ensures
        bytes_bits(bits_bytes(padded(envelope_bits(id, payload, timestamp)))) == padded(
            envelope_bits(id, payload, timestamp),
        ),
        parse_envelope_bits(bytes_bits(bits_bytes(padded(envelope_bits(id, payload, timestamp)))))
            == Some((id, payload, timestamp)),
        parse_envelope_bits(padded(envelope_bits(id, payload, timestamp))) == Some(
            (id, payload, timestamp),
        ),
        bits_bytes(padded(envelope_bits(id, payload, timestamp))).len() == byte_len(
            envelope_bits(id, payload, timestamp).len(),
        ),
        byte_len(envelope_bits(id, payload, timestamp).len()) <= 536_870_923,
        usize::MAX > u32::MAX ==> byte_len(envelope_bits(id, payload, timestamp).len())
            <= usize::MAX / 8,
        envelope_bits(id, payload, timestamp).len() <= 8 * (usize::MAX / 8) ==> byte_len(
            envelope_bits(id, payload, timestamp).len(),
        ) <= usize::MAX / 8,
{
    let e = envelope_bits(id, payload, timestamp);
    let s = padded(e);
    let n = payload.len() as u32;
    let c = compressed_bits(n);
    let pad = Seq::new(((8 - e.len() % 8) % 8) as nat, |i: int| false);
    lemma_nat_bits_len(ID_TIMESTAMP as nat, 8);
    lemma_nat_bits_len(ID_RPC as nat, 8);
    lemma_nat_bits_len(id as nat, 8);
    lemma_byte_bits_value(ID_TIMESTAMP);
    lemma_byte_bits_value(ID_RPC);
    lemma_byte_bits_value(id);
    lemma_compressed_bits_len(n);
    let header: Seq<bool> = match timestamp {
        Some(t) => byte_bits(ID_TIMESTAMP) + bytes_bits(t),
        None => Seq::empty(),
    };
    let at: int = match timestamp {
        Some(t) => 48,
        None => 8,
    };
    if let Some(t) = timestamp {
        lemma_bytes_bits_len(t);
        assert(s.subrange(0, 8) =~= byte_bits(ID_TIMESTAMP));
        assert(s.subrange(8, 40) =~= bytes_bits(t));
        lemma_bits_bytes_bytes_bits(t);
        assert(s.subrange(40, 48) =~= byte_bits(ID_RPC));
    } else {
        assert(s.subrange(0, 8) =~= byte_bits(ID_RPC));
    }
    assert(header.len() == at - 8);
    assert(envelope_header(s) == Some((at, timestamp)));
    assert(s.subrange(at, at + 8) =~= byte_bits(id));
    let rest = payload + pad;
    assert(s.subrange(at + 8, s.len() as int) =~= c + rest);
    lemma_compressed_round_trip(n, rest);
    let start = at + 8 + c.len();
    assert(s.subrange(start, start + n) =~= payload);
    assert(s.len() % 8 == 0);
    lemma_bytes_bits_bits_bytes(s);
    assert(e.len() <= 40 + 8 + 8 + 33 + u32::MAX);
    assert(s.len() == 8 * byte_len(e.len()));
}

} // verus!
