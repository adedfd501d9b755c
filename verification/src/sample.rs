//! The sample-frame codec: bit-exact decoding of one acquisition tick from
//! its fixed-layout binary frame, and the two wire encodings (base64-in-JSON
//! and binary MessagePack framing) that carry it.
//!
//! Raw layout: timestamp (4 bytes little-endian), sample number (4 bytes
//! little-endian), status word (read big-endian over bytes 8..12 and shifted
//! right one bit), then 8 channel readings of 3 big-endian bytes each
//! starting at byte 11.  Decoding therefore needs the first 35 bytes.

use vstd::prelude::*;

use crate::ads1299::NUM_CHANNELS;
use crate::b64::{base64_decode, base64_decode_of, base64_encode, base64_encode_of};
use crate::responses::ClientError;
use crate::wire::{
    lemma_parse_of_print, payload_mid, payload_mid_vec, payload_pre, payload_pre_vec,
    spec_parse_payload, spec_reply_line, text_has_no_quote,
};

verus! {

/// Bytes of one framed MessagePack wire message.
pub const MP_MESSAGE_SIZE: usize = 44;

/// Offset of the raw sample payload inside a MessagePack wire message.
pub const MP_BINARY_OFFSET: usize = 9;

/// Bytes of the raw frame that decoding reads.
pub const RAW_FRAME_LEN: usize = 35;

/// One signed 24-bit channel reading widened to `i32`.
#[derive(Clone, Copy, Debug, PartialEq, Eq, Structural)]
pub struct Channel {
    pub sample: i32,
}

/// One decoded acquisition tick.
#[derive(Clone, Copy, Debug, PartialEq)]
pub struct Sample {
    pub timestamp: u32,
    pub sample_number: u32,
    pub ads_status: u32,
    pub ads_gpio: u8,
    pub loff_statn: u8,
    pub loff_statp: u8,
    pub extra: u8,
    pub channels: [Channel; NUM_CHANNELS],
}

// ---------------------------------------------------------------------------
// Field-level decoding specs
// ---------------------------------------------------------------------------

/// Little-endian 32-bit value of four bytes.
pub open spec fn spec_u32_le(b0: u8, b1: u8, b2: u8, b3: u8) -> int {
    b0 + 256 * b1 + 65536 * b2 + 16777216 * b3
}

/// Big-endian 32-bit value of four bytes.
pub open spec fn spec_u32_be(b0: u8, b1: u8, b2: u8, b3: u8) -> int {
    b3 + 256 * b2 + 65536 * b1 + 16777216 * b0
}

/// Sign-extended value of three big-endian bytes.
pub open spec fn spec_i24_be(b0: u8, b1: u8, b2: u8) -> int {
    if b0 >= 128 {
        65536 * b0 + 256 * b1 + b2 - 16777216
    } else {
        65536 * b0 + 256 * b1 + b2
    }
}

/// The status word: bytes 8..12 read big-endian, shifted right one bit.
///
/// On the wire the status occupies three bytes (8..11), but the read spans
/// four, so the first channel byte overlaps the read and its high bits fold
/// into the low bits of the word.  This quirk is the device protocol's
/// observed framing, kept bit-for-bit — the field widths of the
/// decomposition (4 + 8 + 8 + 8 bits) only fill with the four-byte read.
pub open spec fn spec_status_word(b: Seq<u8>) -> int {
    spec_u32_be(b[8], b[9], b[10], b[11]) / 2
}

/// `s` is the decoding of the raw frame bytes `b`.
pub open spec fn decodes_to(b: Seq<u8>, s: Sample) -> bool {
    &&& b.len() >= 35
    &&& s.timestamp == spec_u32_le(b[0], b[1], b[2], b[3])
    &&& s.sample_number == spec_u32_le(b[4], b[5], b[6], b[7])
    &&& s.ads_status == spec_status_word(b)
    &&& s.ads_gpio == spec_status_word(b) % 16
    &&& s.loff_statn == (spec_status_word(b) / 16) % 256
    &&& s.loff_statp == (spec_status_word(b) / 4096) % 256
    &&& s.extra == (spec_status_word(b) / 1048576) % 256
    &&& s.channels@[0].sample == spec_i24_be(b[11], b[12], b[13])
    &&& s.channels@[1].sample == spec_i24_be(b[14], b[15], b[16])
    &&& s.channels@[2].sample == spec_i24_be(b[17], b[18], b[19])
    &&& s.channels@[3].sample == spec_i24_be(b[20], b[21], b[22])
    &&& s.channels@[4].sample == spec_i24_be(b[23], b[24], b[25])
    &&& s.channels@[5].sample == spec_i24_be(b[26], b[27], b[28])
    &&& s.channels@[6].sample == spec_i24_be(b[29], b[30], b[31])
    &&& s.channels@[7].sample == spec_i24_be(b[32], b[33], b[34])
}

// ---------------------------------------------------------------------------
// Field-level executable decoding
// ---------------------------------------------------------------------------

fn u32_from_le(b0: u8, b1: u8, b2: u8, b3: u8) -> (r: u32)
    ensures
        r == spec_u32_le(b0, b1, b2, b3),
{
    (b0 as u32) + 256 * (b1 as u32) + 65536 * (b2 as u32) + 16777216 * (b3 as u32)
}

fn u32_from_be(b0: u8, b1: u8, b2: u8, b3: u8) -> (r: u32)
    ensures
        r == spec_u32_be(b0, b1, b2, b3),
{
    (b3 as u32) + 256 * (b2 as u32) + 65536 * (b1 as u32) + 16777216 * (b0 as u32)
}

impl Channel {
    /// Decodes one channel reading from its three big-endian bytes with sign
    /// extension.
    pub fn from_be_bytes(b0: u8, b1: u8, b2: u8) -> (r: Channel)
        ensures
            r.sample == spec_i24_be(b0, b1, b2),
    {
        let m: u32 = 65536 * (b0 as u32) + 256 * (b1 as u32) + (b2 as u32);
        if b0 >= 128 {
            Channel { sample: (m as i32) - 16777216 }
        } else {
            Channel { sample: m as i32 }
        }
    }
}

/// Sign extension keeps every reading inside the signed 24-bit range and
/// reaches the extremes exactly at the documented byte patterns: `7F FF FF`
/// is the greatest positive value and `80 00 00` the least negative one.
pub proof fn lemma_i24_extremes(b0: u8, b1: u8, b2: u8)
    ensures
        -8388608 <= spec_i24_be(b0, b1, b2) <= 8388607,
        spec_i24_be(b0, b1, b2) == 8388607 <==> (b0 == 0x7f && b1 == 0xff && b2 == 0xff),
        spec_i24_be(b0, b1, b2) == -8388608 <==> (b0 == 0x80 && b1 == 0 && b2 == 0),
{
}

/// Sign extension is order-preserving: two readings compare exactly as
/// their byte triples do with the sign bit flipped, i.e. in offset-binary
/// order.  In particular no byte pattern decodes above `7F FF FF` or below
/// `80 00 00`.
pub proof fn lemma_i24_order(a0: u8, a1: u8, a2: u8, b0: u8, b1: u8, b2: u8)
    ensures
        (spec_i24_be(a0, a1, a2) <= spec_i24_be(b0, b1, b2)) <==> (65536 * ((a0 + 128) % 256) + 256
            * a1 + a2 <= 65536 * ((b0 + 128) % 256) + 256 * b1 + b2),
{
    assert((a0 + 128) % 256 == if a0 >= 128 {
        a0 - 128
    } else {
        a0 + 128
    });
    assert((b0 + 128) % 256 == if b0 >= 128 {
        b0 - 128
    } else {
        b0 + 128
    });
}

impl Sample {
    /// Decodes a raw frame.  Frames shorter than the 35 bytes the layout
    /// needs are a decode error, never a panic.
    pub fn from_bytes(data: &[u8]) -> (r: Result<Sample, ClientError>)
        ensures
            data@.len() >= 35 ==> (r matches Ok(s) && decodes_to(data@, s)),
            data@.len() < 35 ==> r == Err::<Sample, ClientError>(ClientError::DeserializeError),
    {
        if data.len() < 35 {
            return Err(ClientError::DeserializeError);
        }
        let timestamp = u32_from_le(data[0], data[1], data[2], data[3]);
        let sample_number = u32_from_le(data[4], data[5], data[6], data[7]);
        let raw_status = u32_from_be(data[8], data[9], data[10], data[11]);
        let st: u32 = raw_status / 2;
        let ads_gpio: u8 = (st % 16) as u8;
        let loff_statn: u8 = ((st / 16) % 256) as u8;
        let loff_statp: u8 = ((st / 4096) % 256) as u8;
        let extra: u8 = ((st / 1048576) % 256) as u8;
        let channels: [Channel; NUM_CHANNELS] = [
            Channel::from_be_bytes(data[11], data[12], data[13]),
            Channel::from_be_bytes(data[14], data[15], data[16]),
            Channel::from_be_bytes(data[17], data[18], data[19]),
            Channel::from_be_bytes(data[20], data[21], data[22]),
            Channel::from_be_bytes(data[23], data[24], data[25]),
            Channel::from_be_bytes(data[26], data[27], data[28]),
            Channel::from_be_bytes(data[29], data[30], data[31]),
            Channel::from_be_bytes(data[32], data[33], data[34]),
        ];
        Ok(
            Sample {
                timestamp,
                sample_number,
                ads_status: st,
                ads_gpio,
                loff_statn,
                loff_statp,
                extra,
                channels,
            },
        )
    }

    /// Decodes a frame handed over as base64 bytes, as carried by the `"D"`
    /// field of a streamed-sample reply.
    pub fn from_base64(data: &Vec<u8>) -> (r: Result<Sample, ClientError>)
        ensures
            base64_decode_of(data@) is None ==> r == Err::<Sample, ClientError>(
                ClientError::InvalidBase64,
            ),
            base64_decode_of(data@) matches Some(raw) ==> (raw.len() >= 35 ==> (r matches Ok(s)
                && decodes_to(raw, s))) && (raw.len() < 35 ==> r == Err::<Sample, ClientError>(
                ClientError::DeserializeError,
            )),
    {
        match base64_decode(data) {
            None => Err(ClientError::InvalidBase64),
            Some(raw) => Sample::from_bytes(raw.as_slice()),
        }
    }

    /// The eight channel readings in order, as handed to the downstream
    /// data sink.
    pub fn as_lsl_data(&self) -> (r: Vec<i32>)
        ensures
            r@.len() == 8,
            r@[0] == self.channels@[0].sample,
            r@[1] == self.channels@[1].sample,
            r@[2] == self.channels@[2].sample,
            r@[3] == self.channels@[3].sample,
            r@[4] == self.channels@[4].sample,
            r@[5] == self.channels@[5].sample,
            r@[6] == self.channels@[6].sample,
            r@[7] == self.channels@[7].sample,
    {
        let mut v: Vec<i32> = Vec::new();
        v.push(self.channels[0].sample);
        v.push(self.channels[1].sample);
        v.push(self.channels[2].sample);
        v.push(self.channels[3].sample);
        v.push(self.channels[4].sample);
        v.push(self.channels[5].sample);
        v.push(self.channels[6].sample);
        v.push(self.channels[7].sample);
        v
    }
}

// ---------------------------------------------------------------------------
// The two wire encodings of a frame
// ---------------------------------------------------------------------------

/// `s` is the decoding of a streamed-sample JSON line: the line parses, its
/// data field is valid base64, and the decoded bytes decode to `s`.
pub open spec fn payload_line_decodes_to(line: Seq<u8>, s: Sample) -> bool {
    match spec_parse_payload(line) {
        Some(cd) => match base64_decode_of(cd.1) {
            Some(raw) => decodes_to(raw, s),
            None => false,
        },
        None => false,
    }
}

/// `s` is the decoding of a binary MessagePack wire message: long enough,
/// and the bytes after the fixed header decode to `s`.
pub open spec fn binary_frame_decodes_to(buf: Seq<u8>, s: Sample) -> bool {
    buf.len() >= 44 && decodes_to(buf.skip(9), s)
}

/// The streamed-sample JSON line carrying `raw` base64-encoded.
pub open spec fn spec_encode_base64_json(raw: Seq<u8>) -> Seq<u8> {
    spec_reply_line(payload_pre(), 200, payload_mid(), base64_encode_of(raw))
}

/// The binary wire message carrying `raw` after a zeroed fixed-size header.
pub open spec fn spec_encode_binary(raw: Seq<u8>) -> Seq<u8> {
    Seq::new(9, |i: int| 0u8) + raw
}

/// Encodes a raw frame as the streamed-sample JSON line
/// `{"C":200,"D":"<base64>"}`.  The second postcondition is the cross-
/// encoding equivalence: this line decodes to exactly the samples the raw
/// frame decodes to.
pub fn encode_as_base64_json(raw: &Vec<u8>) -> (r: Vec<u8>)
    requires
        raw@.len() >= 35,
    ensures
        r@ == spec_encode_base64_json(raw@),
        forall|s: Sample| payload_line_decodes_to(r@, s) <==> decodes_to(raw@, s),
{
    let b64 = base64_encode(raw);
    let mut out = payload_pre_vec();
    crate::commands::push_decimal(&mut out, 200);
    let mut mid = payload_mid_vec();
    out.append(&mut mid);
    let mut b64_copy = b64;
    out.append(&mut b64_copy);
    out.push(34);
    out.push(125);
    proof {
        assert(text_has_no_quote(base64_encode_of(raw@)));
        lemma_parse_of_print(payload_pre(), 200, payload_mid(), base64_encode_of(raw@));
        assert(out@ =~= spec_encode_base64_json(raw@));
    }
    out
}

/// Encodes a raw frame as a binary wire message: a zeroed fixed-size header
/// followed by the raw bytes.  The second postcondition is the cross-
/// encoding equivalence: this message decodes to exactly the samples the raw
/// frame decodes to.
pub fn encode_as_binary(raw: &Vec<u8>) -> (r: Vec<u8>)
    requires
        raw@.len() >= 35,
    ensures
        r@ == spec_encode_binary(raw@),
        forall|s: Sample| binary_frame_decodes_to(r@, s) <==> decodes_to(raw@, s),
{
    let mut out: Vec<u8> = Vec::new();
    let mut i: usize = 0;
    while i < 9
        invariant
            0 <= i <= 9,
            out@ =~= Seq::new(i as nat, |k: int| 0u8),
        decreases 9 - i,
    {
        out.push(0);
        proof {
            assert(out@ =~= Seq::new(i as nat + 1, |k: int| 0u8));
        }
        i += 1;
    }
    let mut raw_copy: Vec<u8> = Vec::new();
    let mut j: usize = 0;
    while j < raw.len()
        invariant
            0 <= j <= raw@.len(),
            raw_copy@ == raw@.subrange(0, j as int),
        decreases raw@.len() - j,
    {
        raw_copy.push(raw[j]);
        proof {
            assert(raw_copy@ =~= raw@.subrange(0, j as int + 1));
        }
        j += 1;
    }
    assert(raw_copy@ =~= raw@);
    out.append(&mut raw_copy);
    proof {
        assert(out@ =~= spec_encode_binary(raw@));
        assert(out@.skip(9) =~= raw@);
    }
    out
}

/// Decodes one binary MessagePack wire message: skips the fixed-size header
/// and decodes the raw frame behind it.  Messages shorter than the wire size
/// are a decode error, never a panic.
pub fn decode_binary_frame(buf: &Vec<u8>) -> (r: Result<Sample, ClientError>)
    ensures
        buf@.len() >= 44 ==> (r matches Ok(s) && binary_frame_decodes_to(buf@, s)),
        buf@.len() < 44 ==> r == Err::<Sample, ClientError>(ClientError::DeserializeError),
{
    if buf.len() < MP_MESSAGE_SIZE {
        return Err(ClientError::DeserializeError);
    }
    let tail = vstd::slice::slice_subrange(buf.as_slice(), MP_BINARY_OFFSET, buf.len());
    proof {
        assert(tail@ =~= buf@.skip(9));
    }
    Sample::from_bytes(tail)
}

/// Decodes one streamed-sample JSON line: parses the reply, decodes the
/// base64 data field, then decodes the raw frame.
pub fn decode_json_payload(line: &Vec<u8>) -> (r: Result<Sample, ClientError>)
    ensures
        r matches Ok(s) ==> payload_line_decodes_to(line@, s),
        spec_parse_payload(line@) is None ==> r == Err::<Sample, ClientError>(
            ClientError::DeserializeError,
        ),
        spec_parse_payload(line@) matches Some(cd) ==> (r is Ok <==> (
        base64_decode_of(cd.1) matches Some(raw) && raw.len() >= 35)),
        r matches Err(e) ==> (e == ClientError::DeserializeError || e
            == ClientError::InvalidBase64),
{
    match crate::wire::parse_payload_line(line) {
        None => Err(ClientError::DeserializeError),
        Some(pl) => Sample::from_base64(&pl.data),
    }
}

} // verus!
