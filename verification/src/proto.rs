//! Byte-level wire codec for delivered envelopes.
//!
//! A request frame's body carries an encrypted envelope as a binary message:
//! a run of fields, each introduced by a base-128 varint tag holding a field
//! number and a wire type.  Wire type 0 is a varint scalar, wire type 2 a
//! length-delimited byte string; wire types 1 and 5 (fixed-width scalars) are
//! skipped; anything else is malformed.  Unknown field numbers are skipped;
//! a repeated scalar keeps its last occurrence.
//!
//! Legacy senders ship the top-level buffer without its length prefix, so a
//! parser expecting a length-delimited message rejects it.  The documented
//! correction (`fix_protobuf_buf`) prepends the varint length of the buffer;
//! the decoder then reads the corrected buffer as one length-delimited
//! message.

use vstd::prelude::*;

verus! {

/// Decodes a base-128 varint at the front of `s`: the value and how many
/// bytes were consumed.  Every byte but the last has its high bit set; the
/// groups of seven bits are combined little-endian first.  A value that does
/// not fit in 64 bits is malformed.
pub open spec fn varint_decode(s: Seq<u8>) -> Option<(u64, int)>
    decreases s.len(),
{
    if s.len() == 0 {
        None
    } else {
        let b = s[0];
        if b < 128 {
            Some((b as u64, 1))
        } else {
            match varint_decode(s.drop_first()) {
                None => None,
                Some((v, n)) => {
                    if v as int * 128 + (b - 128) > u64::MAX as int {
                        None
                    } else {
                        Some((((v as int * 128 + (b - 128)) as u64, n + 1)))
                    }
                },
            }
        }
    }
}

/// Encodes `v` as a base-128 varint.
pub open spec fn varint_encode(v: u64) -> Seq<u8>
    decreases v,
{
    if v < 128 {
        seq![v as u8]
    } else {
        seq![((v as int % 128 + 128) as u8)] + varint_encode(v / 128)
    }
}

/// A decoded varint consumed between one byte and the whole buffer.
pub proof fn lemma_varint_decode_len(s: Seq<u8>)
    ensures
        varint_decode(s) matches Some(r) ==> 1 <= r.1 <= s.len(),
    decreases s.len(),
{
    if s.len() > 0 && s[0] >= 128 {
        lemma_varint_decode_len(s.drop_first());
    }
}

/// Law: decoding an encoded value, with anything after it, gives the value
/// back and consumes exactly the encoding.
pub proof fn lemma_varint_round_trip(v: u64, rest: Seq<u8>)
    ensures
        varint_decode(varint_encode(v) + rest) == Some((v, varint_encode(v).len() as int)),
    decreases v,
{
    let s = varint_encode(v) + rest;
    if v < 128 {
        assert(s[0] == v as u8);
    } else {
        let b: u8 = (v as int % 128 + 128) as u8;
        assert(s[0] == b);
        lemma_varint_round_trip(v / 128, rest);
        assert(s.drop_first() =~= varint_encode(v / 128) + rest);
        vstd::arithmetic::div_mod::lemma_fundamental_div_mod(v as int, 128);
        assert((v / 128) as int * 128 + (b - 128) == v as int);
    }
}

/// Reads a base-128 varint from `buf` starting at `pos`.
pub fn varint_read(buf: &[u8], pos: usize) -> (r: Option<(u64, usize)>)
    requires
        pos <= buf@.len(),
    ensures
        match r {
            Some((v, n)) => varint_decode(buf@.skip(pos as int)) == Some((v, n as int))
                && 1 <= n <= buf@.len() - pos,
            None => varint_decode(buf@.skip(pos as int)) is None,
        },
    decreases buf@.len() - pos,
{
    if pos == buf.len() {
        return None;
    }
    let b = buf[pos];
    if b < 128 {
        assert(buf@.skip(pos as int)[0] == b);
        return Some((b as u64, 1));
    }
    proof {
        assert(buf@.skip(pos as int).drop_first() =~= buf@.skip(pos as int + 1));
    }
    match varint_read(buf, pos + 1) {
        None => None,
        Some((v, n)) => {
            if v > (u64::MAX - ((b - 128) as u64)) / 128 {
                proof {
                    let low = (b - 128) as int;
                    assert(v as int * 128 + low > u64::MAX as int) by (nonlinear_arith)
                        requires
                            v as int > (u64::MAX as int - low) / 128,
                            0 <= low < 128,
                            v >= 0,
                    ;
                }
                None
            } else {
                proof {
                    let low = (b - 128) as int;
                    assert(v as int * 128 + low <= u64::MAX as int) by (nonlinear_arith)
                        requires
                            v as int <= (u64::MAX as int - low) / 128,
                            0 <= low < 128,
                            v >= 0,
                    ;
                }
                Some((v * 128 + ((b - 128) as u64), n + 1))
            }
        },
    }
}

/// Writes `v` as a base-128 varint.
pub fn varint_write(v: u64) -> (r: Vec<u8>)
    ensures
        r@ == varint_encode(v),
{
    let mut out: Vec<u8> = Vec::new();
    let mut x: u64 = v;
    proof {
        assert(out@ + varint_encode(x) =~= varint_encode(v));
    }
    while x >= 128
        invariant
            out@ + varint_encode(x) == varint_encode(v),
        decreases x,
    {
        let ghost pre = out@;
        let ghost xpre = x;
        out.push((x % 128 + 128) as u8);
        x = x / 128;
        proof {
            assert(varint_encode(xpre) == seq![((xpre as int % 128 + 128) as u8)] + varint_encode(x));
            assert(out@ + varint_encode(x) =~= pre + varint_encode(xpre));
        }
    }
    out.push(x as u8);
    proof {
        assert(varint_encode(x) == seq![x as u8]);
        assert(out@ =~= varint_encode(v));
    }
    out
}

/// Corrects the known legacy malformation of envelope buffers: the top-level
/// message arrives without its length prefix.  The corrected buffer is the
/// varint length of the original followed by the original, bit for bit.
pub fn fix_protobuf_buf(buf: &[u8]) -> (r: Vec<u8>)
    ensures
        r@ == varint_encode(buf@.len() as u64) + buf@,
{
    let mut out = varint_write(buf.len() as u64);
    let ghost prefix = out@;
    let mut i: usize = 0;
    while i < buf.len()
        invariant
            i <= buf@.len(),
            out@ == prefix + buf@.take(i as int),
            prefix == varint_encode(buf@.len() as u64),
        decreases buf@.len() - i,
    {
        let ghost pre = out@;
        out.push(buf[i]);
        i = i + 1;
        proof {
            assert(out@ =~= prefix + buf@.take(i as int));
        }
    }
    proof {
        assert(buf@.take(buf@.len() as int) =~= buf@);
    }
    out
}

/// The parsed form of a delivered envelope: the routing metadata that the
/// engine reads, plus the still-encrypted payload.  Never mutated after
/// parsing; consumed exactly once by the decrypt collaborator.
#[derive(Debug)]
pub struct Envelope {
    /// Scalar field 1: the envelope's type tag.
    pub envelope_type: u64,
    /// Length-delimited field 11: the sender's identifier.
    pub source_uuid: Vec<u8>,
    /// Scalar field 7: the sender's device id.
    pub source_device: u64,
    /// Scalar field 5: the sender's timestamp.
    pub timestamp: u64,
    /// Length-delimited field 8: the opaque encrypted payload.
    pub content: Vec<u8>,
}

/// Mathematical model of an envelope.
pub ghost struct EnvelopeView {
    pub envelope_type: u64,
    pub source_uuid: Seq<u8>,
    pub source_device: u64,
    pub timestamp: u64,
    pub content: Seq<u8>,
}

impl View for Envelope {
    type V = EnvelopeView;

    open spec fn view(&self) -> EnvelopeView {
        EnvelopeView {
            envelope_type: self.envelope_type,
            source_uuid: self.source_uuid@,
            source_device: self.source_device,
            timestamp: self.timestamp,
            content: self.content@,
        }
    }
}

/// The envelope whose fields were all absent: every scalar zero, every byte
/// string empty.
pub open spec fn empty_envelope() -> EnvelopeView {
    EnvelopeView {
        envelope_type: 0,
        source_uuid: Seq::empty(),
        source_device: 0,
        timestamp: 0,
        content: Seq::empty(),
    }
}

/// Applies a varint scalar field to the envelope under construction.
pub open spec fn apply_varint_field(e: EnvelopeView, field: u64, v: u64) -> EnvelopeView {
    if field == 1 {
        EnvelopeView { envelope_type: v, ..e }
    } else if field == 5 {
        EnvelopeView { timestamp: v, ..e }
    } else if field == 7 {
        EnvelopeView { source_device: v, ..e }
    } else {
        e
    }
}

/// Applies a length-delimited field to the envelope under construction.
pub open spec fn apply_bytes_field(e: EnvelopeView, field: u64, data: Seq<u8>) -> EnvelopeView {
    if field == 8 {
        EnvelopeView { content: data, ..e }
    } else if field == 11 {
        EnvelopeView { source_uuid: data, ..e }
    } else {
        e
    }
}

/// Parses a run of fields, folding them over `acc`.  `None` is a structural
/// decode failure: a truncated varint or byte string, a zero field number,
/// or an unsupported wire type.
pub open spec fn parse_fields(s: Seq<u8>, acc: EnvelopeView) -> Option<EnvelopeView>
    decreases s.len(),
    when s.len() >= 0
    via parse_fields_decreases
{
    if s.len() == 0 {
        Some(acc)
    } else {
        match varint_decode(s) {
            None => None,
            Some((tag, n)) => {
                let field = tag / 8;
                let wire = tag % 8;
                let rest = s.skip(n);
                if field == 0 {
                    None
                } else if wire == 0 {
                    match varint_decode(rest) {
                        None => None,
                        Some((v, m)) => parse_fields(
                            rest.skip(m),
                            apply_varint_field(acc, field, v),
                        ),
                    }
                } else if wire == 1 {
                    if rest.len() < 8 {
                        None
                    } else {
                        parse_fields(rest.skip(8), acc)
                    }
                } else if wire == 5 {
                    if rest.len() < 4 {
                        None
                    } else {
                        parse_fields(rest.skip(4), acc)
                    }
                } else if wire == 2 {
                    match varint_decode(rest) {
                        None => None,
                        Some((len, m)) => {
                            if len > rest.len() - m {
                                None
                            } else {
                                parse_fields(
                                    rest.skip(m + len),
                                    apply_bytes_field(acc, field, rest.subrange(m, m + len)),
                                )
                            }
                        },
                    }
                } else {
                    None
                }
            },
        }
    }
}

#[via_fn]
proof fn parse_fields_decreases(s: Seq<u8>, acc: EnvelopeView) {
    lemma_varint_decode_len(s);
    if s.len() > 0 && varint_decode(s) is Some {
        let n = varint_decode(s)->Some_0.1;
        lemma_varint_decode_len(s.skip(n));
    }
}

/// Decodes a raw (uncorrected) envelope buffer: the whole buffer is one run
/// of fields.
pub open spec fn decode_envelope(s: Seq<u8>) -> Option<EnvelopeView> {
    parse_fields(s, empty_envelope())
}

/// Decodes a length-delimited message: a varint length, then exactly that
/// many bytes of fields.
pub open spec fn decode_delimited(s: Seq<u8>) -> Option<EnvelopeView> {
    match varint_decode(s) {
        None => None,
        Some((len, n)) => {
            if s.len() - n != len {
                None
            } else {
                parse_fields(s.skip(n), empty_envelope())
            }
        },
    }
}

impl Envelope {
    /// The envelope with every field absent.
    pub fn empty() -> (r: Envelope)
        ensures
            r@ == empty_envelope(),
    {
        Envelope {
            envelope_type: 0,
            source_uuid: Vec::new(),
            source_device: 0,
            timestamp: 0,
            content: Vec::new(),
        }
    }
}

/// Copies `buf[from..to]` out into an owned byte vector.
fn copy_range(buf: &[u8], from: usize, to: usize) -> (r: Vec<u8>)
    requires
        from <= to <= buf@.len(),
    ensures
        r@ == buf@.subrange(from as int, to as int),
{
    let mut out: Vec<u8> = Vec::new();
    let mut i: usize = from;
    while i < to
        invariant
            from <= i <= to <= buf@.len(),
            out@ == buf@.subrange(from as int, i as int),
        decreases to - i,
    {
        out.push(buf[i]);
        i = i + 1;
        proof {
            assert(out@ =~= buf@.subrange(from as int, i as int));
        }
    }
    out
}

/// Folds a varint scalar field into the envelope under construction.
fn fold_varint_field(e: Envelope, field: u64, v: u64) -> (r: Envelope)
    ensures
        r@ == apply_varint_field(e@, field, v),
{
    if field == 1 {
        Envelope { envelope_type: v, ..e }
    } else if field == 5 {
        Envelope { timestamp: v, ..e }
    } else if field == 7 {
        Envelope { source_device: v, ..e }
    } else {
        e
    }
}

/// Folds a length-delimited field into the envelope under construction.
fn fold_bytes_field(e: Envelope, field: u64, data: Vec<u8>) -> (r: Envelope)
    ensures
        r@ == apply_bytes_field(e@, field, data@),
{
    if field == 8 {
        Envelope { content: data, ..e }
    } else if field == 11 {
        Envelope { source_uuid: data, ..e }
    } else {
        e
    }
}

/// Parses the run of fields in `buf[pos..]`, folding them over `acc`.
fn parse_fields_from(buf: &[u8], pos: usize, acc: Envelope) -> (r: Option<Envelope>)
    requires
        pos <= buf@.len(),
    ensures
        match r {
            Some(env) => parse_fields(buf@.skip(pos as int), acc@) == Some(env@),
            None => parse_fields(buf@.skip(pos as int), acc@) is None,
        },
    decreases buf@.len() - pos,
{
    let ghost s = buf@.skip(pos as int);
    if pos == buf.len() {
        return Some(acc);
    }
    match varint_read(buf, pos) {
        None => None,
        Some((tag, n)) => {
            let field = tag / 8;
            let wire = tag % 8;
            let rest_pos = pos + n;
            proof {
                assert(s.skip(n as int) =~= buf@.skip(rest_pos as int));
            }
            if field == 0 {
                None
            } else if wire == 0 {
                match varint_read(buf, rest_pos) {
                    None => None,
                    Some((v, m)) => {
                        proof {
                            assert(buf@.skip(rest_pos as int).skip(m as int)
                                =~= buf@.skip((rest_pos + m) as int));
                        }
                        parse_fields_from(buf, rest_pos + m, fold_varint_field(acc, field, v))
                    },
                }
            } else if wire == 1 {
                if buf.len() - rest_pos < 8 {
                    None
                } else {
                    proof {
                        assert(buf@.skip(rest_pos as int).skip(8)
                            =~= buf@.skip((rest_pos + 8) as int));
                    }
                    parse_fields_from(buf, rest_pos + 8, acc)
                }
            } else if wire == 5 {
                if buf.len() - rest_pos < 4 {
                    None
                } else {
                    proof {
                        assert(buf@.skip(rest_pos as int).skip(4)
                            =~= buf@.skip((rest_pos + 4) as int));
                    }
                    parse_fields_from(buf, rest_pos + 4, acc)
                }
            } else if wire == 2 {
                match varint_read(buf, rest_pos) {
                    None => None,
                    Some((len, m)) => {
                        let data_start = rest_pos + m;
                        let remaining = buf.len() - data_start;
                        if len > remaining as u64 {
                            None
                        } else {
                            let data_end = data_start + (len as usize);
                            let data = copy_range(buf, data_start, data_end);
                            proof {
                                let rest = buf@.skip(rest_pos as int);
                                assert(rest.subrange(m as int, m + len)
                                    =~= buf@.subrange(data_start as int, data_end as int));
                                assert(rest.skip(m + len) =~= buf@.skip(data_end as int));
                            }
                            parse_fields_from(buf, data_end, fold_bytes_field(acc, field, data))
                        }
                    },
                }
            } else {
                None
            }
        },
    }
}

/// Parses one length-delimited message: a varint length, then exactly that
/// many bytes of fields.
pub fn parse_delimited(buf: &[u8]) -> (r: Option<Envelope>)
    ensures
        match r {
            Some(env) => decode_delimited(buf@) == Some(env@),
            None => decode_delimited(buf@) is None,
        },
{
    proof {
        assert(buf@.skip(0) =~= buf@);
    }
    match varint_read(buf, 0) {
        None => None,
        Some((len, n)) => {
            let remaining = buf.len() - n;
            if remaining as u64 != len {
                None
            } else {
                parse_fields_from(buf, n, Envelope::empty())
            }
        },
    }
}

/// Law: the legacy correction round-trips; a corrected buffer decodes as a
/// length-delimited message to exactly what the raw buffer decodes to as a
/// run of fields.
pub proof fn lemma_fix_round_trip(buf: Seq<u8>)
    requires
        buf.len() <= u64::MAX,
    ensures
        decode_delimited(varint_encode(buf.len() as u64) + buf) == decode_envelope(buf),
{
    let len = buf.len() as u64;
    lemma_varint_round_trip(len, buf);
    let s = varint_encode(len) + buf;
    assert(s.skip(varint_encode(len).len() as int) =~= buf);
}

} // verus!
