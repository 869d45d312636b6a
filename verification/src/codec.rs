//! The cell codec: serialize one cell to bytes and deserialize bytes to
//! one cell, given an active link protocol version.
//!
//! Decoding never consumes a partial cell: if the buffer holds fewer
//! bytes than the minimal header, or fewer than the header plus the
//! declared payload length, it reports "no cell yet" — not an error —
//! and leaves the buffer untouched.  The whole stream framing depends on
//! this invariant.
//!
//! The circuit-identifier width is two bytes for legacy link versions
//! below 4 and four bytes from version 4 on, and is threaded through
//! every call.

use vstd::prelude::*;

use crate::buf::{buf_advance, buf_len, buf_peek_all, buf_put, buffer_bytes};
use crate::cell::{
    lemma_u16_be_roundtrip, lemma_u32_be_roundtrip, spec_be16, spec_be32, spec_u16_be,
    spec_u32_be, spec_versions_body, spec_zeros, AnyChanCell, AnyChanMsg, CellView,
};
use crate::chancmd;
use crate::err::{EncodeProblem, ProtoProblem};
use crate::msg::spec_link_version_known;

verus! {

/// Width in bytes of the circuit-identifier field under link protocol
/// version `v`.
pub open spec fn spec_cid_width(v: u16) -> int {
    if v < 4 {
        2
    } else {
        4
    }
}

/// The bytes of the circuit-identifier field.
pub open spec fn spec_cid_bytes(v: u16, circid: u32) -> Seq<u8> {
    if v < 4 {
        spec_u16_be(circid as u16)
    } else {
        spec_u32_be(circid)
    }
}

/// The exact bytes that encode a cell under link protocol version `v`.
/// Fixed-length cells are zero-padded to the constant payload size;
/// variable-length cells carry a two-byte big-endian payload length.
pub open spec fn spec_enc_cell(c: CellView, v: u16) -> Seq<u8> {
    let header = spec_cid_bytes(v, c.circid) + seq![c.cmd];
    if chancmd::spec_is_var_cmd(c.cmd) {
        header + spec_u16_be(c.body.len() as u16) + c.body
    } else {
        header + c.body + spec_zeros(chancmd::FIXED_BODY_LEN - c.body.len())
    }
}

/// How many bytes the next frame in `b` occupies, or `None` when `b`
/// does not yet hold a complete frame (so nothing may be consumed).
pub open spec fn spec_frame_total(b: Seq<u8>, v: u16) -> Option<int> {
    let w = spec_cid_width(v);
    if b.len() < w + 1 {
        None
    } else {
        let cmd = b[w];
        if chancmd::spec_is_var_cmd(cmd) {
            if b.len() < w + 3 {
                None
            } else {
                let l = b[w + 1] * 256 + b[w + 2];
                if b.len() < w + 3 + l {
                    None
                } else {
                    Some(w + 3 + l)
                }
            }
        } else {
            if b.len() < w + 1 + chancmd::FIXED_BODY_LEN {
                None
            } else {
                Some(w + 1 + chancmd::FIXED_BODY_LEN)
            }
        }
    }
}

/// The structural reading of one complete frame `f` (exactly the bytes
/// [`spec_frame_total`] counted): the circuit identifier must suit the
/// command, and a VERSIONS payload must split into two-byte values.
pub open spec fn spec_parse_frame(f: Seq<u8>, v: u16) -> Result<CellView, ProtoProblem> {
    let w = spec_cid_width(v);
    let circid: u32 = if w == 2 {
        spec_be16(f[0], f[1]) as u32
    } else {
        spec_be32(f[0], f[1], f[2], f[3])
    };
    let cmd = f[w];
    let body = if chancmd::spec_is_var_cmd(cmd) {
        f.skip(w + 3)
    } else {
        f.skip(w + 1)
    };
    if !chancmd::spec_accepts_circid(cmd, circid) {
        Err(ProtoProblem::BadCircId { cmd, circid })
    } else if cmd == chancmd::VERSIONS && body.len() % 2 != 0 {
        Err(ProtoProblem::MalformedVersions)
    } else {
        Ok(CellView { circid, cmd, body })
    }
}

/// What encoding a cell yields under version `v`: the error for a cell
/// that cannot be framed (payload too long for its framing class, or a
/// circuit identifier too wide for a legacy two-byte field), or the
/// exact bytes.
pub open spec fn spec_encode_result(c: AnyChanCell, v: u16) -> Result<Seq<u8>, EncodeProblem> {
    if !c.msg.encodable() {
        Err(
            EncodeProblem::OversizedBody {
                cmd: c.msg.spec_cmd(),
                len: spec_oversize_len(c.msg) as usize,
            },
        )
    } else if spec_cid_width(v) == 2 && c.circid > 0xffff {
        Err(EncodeProblem::CircIdTooWide { circid: c.circid })
    } else {
        Ok(spec_enc_cell(c@, v))
    }
}

/// The length reported for an oversized payload: the payload byte count,
/// or for a VERSIONS message the number of versions.
pub open spec fn spec_oversize_len(m: AnyChanMsg) -> nat {
    match m {
        AnyChanMsg::Versions { versions } => versions@.len(),
        AnyChanMsg::Recognized { body, .. } => body@.len(),
        AnyChanMsg::Unrecognized { body, .. } => body@.len(),
    }
}

/// Write the payload of a VERSIONS message: each version as two
/// big-endian bytes, in order.
pub(crate) fn versions_body_bytes(versions: &Vec<u16>) -> (r: Vec<u8>)
    requires
        versions@.len() <= 0x7fff,
    ensures
        r@ == spec_versions_body(versions@),
{
    let n = versions.len();
    let mut out: Vec<u8> = Vec::new();
    let mut i: usize = 0;
    while i < n
        invariant
            i <= n,
            n == versions@.len() <= 0x7fff,
            out@.len() == 2 * i,
            forall|j: int|
                0 <= j < 2 * i ==> out@[j] == #[trigger] spec_versions_body(versions@)[j],
        decreases n - i,
    {
        let x = versions[i];
        out.push((x / 256) as u8);
        out.push((x % 256) as u8);
        i = i + 1;
    }
    assert(out@ =~= spec_versions_body(versions@));
    out
}

/// Read a VERSIONS payload of even length back into its version list.
pub(crate) fn parse_versions_body(body: &Vec<u8>) -> (r: Vec<u16>)
    requires
        body@.len() % 2 == 0,
        body@.len() <= 0xffff,
    ensures
        r@ == crate::cell::spec_parse_versions(body@),
{
    let n = body.len() / 2;
    let mut out: Vec<u16> = Vec::new();
    let mut i: usize = 0;
    while i < n
        invariant
            i <= n,
            n == body@.len() / 2,
            body@.len() <= 0xffff,
            out@.len() == i,
            forall|j: int|
                0 <= j < i ==> out@[j] == #[trigger] crate::cell::spec_parse_versions(body@)[j],
        decreases n - i,
    {
        let hi = body[2 * i];
        let lo = body[2 * i + 1];
        out.push((hi as u16) * 256 + (lo as u16));
        i = i + 1;
    }
    assert(out@ =~= crate::cell::spec_parse_versions(body@));
    out
}

/// Encode one cell to its exact wire bytes under link protocol version
/// `link_version`, or report why it cannot be framed.
pub fn encode_cell_bytes(item: &AnyChanCell, link_version: u16) -> (r: Result<
    Vec<u8>,
    EncodeProblem,
>)
    ensures
        match spec_encode_result(*item, link_version) {
            Ok(s) => r matches Ok(v) && v@ == s,
            Err(p) => r == Err::<Vec<u8>, EncodeProblem>(p),
        },
{
    let cmd = item.msg.cmd();
    // Reject what cannot be framed, before writing anything.
    match &item.msg {
        AnyChanMsg::Versions { versions } => {
            if versions.len() > 0x7fff {
                return Err(EncodeProblem::OversizedBody { cmd, len: versions.len() });
            }
        },
        AnyChanMsg::Recognized { body, .. } => {
            if is_body_oversized(cmd, body.len()) {
                return Err(EncodeProblem::OversizedBody { cmd, len: body.len() });
            }
        },
        AnyChanMsg::Unrecognized { body, .. } => {
            if is_body_oversized(cmd, body.len()) {
                return Err(EncodeProblem::OversizedBody { cmd, len: body.len() });
            }
        },
    }
    let mut out: Vec<u8> = Vec::new();
    if link_version < 4 {
        if item.circid > 0xffff {
            return Err(EncodeProblem::CircIdTooWide { circid: item.circid });
        }
        let cid = item.circid as u16;
        out.push((cid / 256) as u8);
        out.push((cid % 256) as u8);
    } else {
        out.push((item.circid / 0x1000000) as u8);
        out.push(((item.circid / 0x10000) % 256) as u8);
        out.push(((item.circid / 256) % 256) as u8);
        out.push((item.circid % 256) as u8);
    }
    out.push(cmd);
    let ghost header = spec_cid_bytes(link_version, item.circid) + seq![item.msg.spec_cmd()];
    assert(out@ =~= header);
    match &item.msg {
        AnyChanMsg::Versions { versions } => {
            let body = versions_body_bytes(versions);
            let blen = body.len() as u16;
            out.push((blen / 256) as u8);
            out.push((blen % 256) as u8);
            let mut body = body;
            out.append(&mut body);
        },
        AnyChanMsg::Recognized { body, .. } => {
            append_framed_body(&mut out, cmd, body);
        },
        AnyChanMsg::Unrecognized { body, .. } => {
            append_framed_body(&mut out, cmd, body);
        },
    }
    assert(out@ =~= spec_enc_cell(item@, link_version));
    Ok(out)
}

/// Whether a payload of `len` bytes does not fit a cell of command
/// `cmd`.
fn is_body_oversized(cmd: u8, len: usize) -> (r: bool)
    ensures
        r == if chancmd::spec_is_var_cmd(cmd) {
            len > 0xffff
        } else {
            len > chancmd::FIXED_BODY_LEN
        },
{
    if chancmd::is_var_cmd(cmd) {
        len > 0xffff
    } else {
        len > chancmd::FIXED_BODY_LEN
    }
}

/// Append a non-VERSIONS payload with its framing: a two-byte length
/// then the bytes for a variable-length command, the bytes zero-padded
/// to the constant size for a fixed-length one.
fn append_framed_body(out: &mut Vec<u8>, cmd: u8, body: &Vec<u8>)
    requires
        if chancmd::spec_is_var_cmd(cmd) {
            body@.len() <= 0xffff
        } else {
            body@.len() <= chancmd::FIXED_BODY_LEN
        },
    ensures
        chancmd::spec_is_var_cmd(cmd) ==> final(out)@ == old(out)@ + spec_u16_be(
            body@.len() as u16,
        ) + body@,
        !chancmd::spec_is_var_cmd(cmd) ==> final(out)@ == old(out)@ + body@ + spec_zeros(
            chancmd::FIXED_BODY_LEN - body@.len(),
        ),
{
    if chancmd::is_var_cmd(cmd) {
        let blen = body.len() as u16;
        out.push((blen / 256) as u8);
        out.push((blen % 256) as u8);
        out.extend_from_slice(body.as_slice());
        assert(out@ =~= old(out)@ + spec_u16_be(body@.len() as u16) + body@);
    } else {
        out.extend_from_slice(body.as_slice());
        let pad = chancmd::FIXED_BODY_LEN - body.len();
        let mut i: usize = 0;
        while i < pad
            invariant
                i <= pad,
                pad == chancmd::FIXED_BODY_LEN - body@.len(),
                out@ == old(out)@ + body@ + spec_zeros(i as int),
            decreases pad - i,
        {
            out.push(0u8);
            assert(out@ =~= old(out)@ + body@ + spec_zeros(i + 1));
            i = i + 1;
        }
        assert(out@ =~= old(out)@ + body@ + spec_zeros(chancmd::FIXED_BODY_LEN - body@.len()));
    }
}

/// The codec for one channel, bound to its link protocol version.
#[derive(Debug, Clone, Copy, PartialEq, Eq, Structural)]
pub struct ChannelCodec {
    /// The link protocol version framing is done under.
    pub link_version: u16,
}

impl ChannelCodec {
    /// Constructor.
    pub fn new(link_version: u16) -> (r: Self)
        ensures
            r == (ChannelCodec { link_version }),
    {
        ChannelCodec { link_version }
    }

    /// The link protocol version this codec was bound to.
    pub fn link_version(&self) -> (r: u16)
        ensures
            r == self.link_version,
    {
        self.link_version
    }

    /// Encode `item` and append its wire bytes to `dst`.  On failure
    /// `dst` is untouched: a cell that cannot be framed writes nothing.
    pub fn write_cell(&self, item: AnyChanCell, dst: &mut bytes::BytesMut) -> (r: Result<
        (),
        EncodeProblem,
    >)
        ensures
            match spec_encode_result(item, self.link_version) {
                Ok(s) => r == Ok::<(), EncodeProblem>(()) && buffer_bytes(*final(dst))
                    == buffer_bytes(*old(dst)) + s,
                Err(p) => r == Err::<(), EncodeProblem>(p) && buffer_bytes(*final(dst))
                    == buffer_bytes(*old(dst)),
            },
    {
        match encode_cell_bytes(&item, self.link_version) {
            Ok(bytes) => {
                buf_put(dst, bytes.as_slice());
                Ok(())
            },
            Err(p) => Err(p),
        }
    }

    /// Decode at most one cell from the front of `src`.
    ///
    /// With no complete frame buffered the result is `Ok(None)` and
    /// `src` is untouched — not a single byte of a partial cell is
    /// consumed, and the caller retries after more input arrives.  Once
    /// a complete frame is present it is consumed whole, and either
    /// parses into a cell of the canonical variant for its command, or
    /// is a protocol violation.
    pub fn decode_cell(&self, src: &mut bytes::BytesMut) -> (r: Result<
        Option<AnyChanCell>,
        ProtoProblem,
    >)
        ensures
            spec_frame_total(buffer_bytes(*old(src)), self.link_version) matches None ==> r
                == Ok::<Option<AnyChanCell>, ProtoProblem>(None) && buffer_bytes(*final(src))
                == buffer_bytes(*old(src)),
            spec_frame_total(buffer_bytes(*old(src)), self.link_version) matches Some(t) ==> {
                &&& buffer_bytes(*final(src)) == buffer_bytes(*old(src)).skip(t)
                &&& match spec_parse_frame(
                    buffer_bytes(*old(src)).take(t),
                    self.link_version,
                ) {
                    Ok(cv) => r matches Ok(Some(c)) && c@ == cv && c.msg.canonical(),
                    Err(p) => r == Err::<Option<AnyChanCell>, ProtoProblem>(p),
                }
            },
    {
        let ghost b = buffer_bytes(*old(src));
        let n = buf_len(src);
        let w: usize = if self.link_version < 4 {
            2
        } else {
            4
        };
        if n < w + 1 {
            return Ok(None);
        }
        let data = buf_peek_all(src);
        let cmd = data[w];
        let total: usize;
        if chancmd::is_var_cmd(cmd) {
            if n < w + 3 {
                return Ok(None);
            }
            let l: usize = (data[w + 1] as usize) * 256 + (data[w + 2] as usize);
            if n < w + 3 + l {
                return Ok(None);
            }
            total = w + 3 + l;
        } else {
            if n < w + 1 + chancmd::FIXED_BODY_LEN {
                return Ok(None);
            }
            total = w + 1 + chancmd::FIXED_BODY_LEN;
        }
        assert(spec_frame_total(b, self.link_version) == Some(total as int));
        let ghost frame = b.take(total as int);
        buf_advance(src, total);
        let circid: u32 = if w == 2 {
            (data[0] as u32) * 256 + (data[1] as u32)
        } else {
            (data[0] as u32) * 0x1000000 + (data[1] as u32) * 0x10000 + (data[2] as u32) * 256
                + (data[3] as u32)
        };
        assert(circid == if spec_cid_width(self.link_version) == 2 {
            spec_be16(frame[0], frame[1]) as u32
        } else {
            spec_be32(frame[0], frame[1], frame[2], frame[3])
        });
        let body_off: usize = if chancmd::is_var_cmd(cmd) {
            w + 3
        } else {
            w + 1
        };
        let mut body: Vec<u8> = Vec::new();
        body.extend_from_slice(&data[body_off..total]);
        assert(body@ =~= frame.skip(body_off as int));
        if !chancmd::accepts_circid(cmd, circid) {
            return Err(ProtoProblem::BadCircId { cmd, circid });
        }
        if cmd == chancmd::VERSIONS {
            if body.len() % 2 != 0 {
                return Err(ProtoProblem::MalformedVersions);
            }
            let versions = parse_versions_body(&body);
            let cell = AnyChanCell {
                circid,
                msg: AnyChanMsg::Versions { versions },
            };
            proof {
                crate::cell::lemma_versions_roundtrip(cell.msg->Versions_versions@);
                assert(spec_versions_body(crate::cell::spec_parse_versions(body@)) =~= body@)
                    by {
                    lemma_versions_body_of_parse(body@);
                };
            }
            return Ok(Some(cell));
        }
        if chancmd::is_recognized(cmd) {
            Ok(Some(AnyChanCell { circid, msg: AnyChanMsg::Recognized { cmd, body } }))
        } else {
            Ok(Some(AnyChanCell { circid, msg: AnyChanMsg::Unrecognized { cmd, body } }))
        }
    }
}

/// Printing the list parsed from an even-length payload gives the
/// payload back.
pub proof fn lemma_versions_body_of_parse(b: Seq<u8>)
    requires
        b.len() % 2 == 0,
    ensures
        spec_versions_body(crate::cell::spec_parse_versions(b)) == b,
{
    let vs = crate::cell::spec_parse_versions(b);
    let body = spec_versions_body(vs);
    assert forall|i: int| 0 <= i < b.len() implies body[i] == b[i] by {
        let j = i / 2;
        let hi = b[2 * j];
        let lo = b[2 * j + 1];
        assert(vs[j] == spec_be16(hi, lo));
        assert((((hi * 256 + lo) as u16) / 256) as u8 == hi) by (bit_vector);
        assert((((hi * 256 + lo) as u16) % 256) as u8 == lo) by (bit_vector);
        if i % 2 == 0 {
            assert(i == 2 * j);
        } else {
            assert(i == 2 * j + 1);
        }
    }
    assert(body =~= b);
}

/// The no-partial-consumption law: a buffer holding less than a
/// complete frame counts as no frame at all (and decoding then returns
/// no cell and leaves the buffer untouched), and a counted frame never
/// reaches past the buffered bytes.
pub proof fn lemma_frame_total_within(b: Seq<u8>, v: u16)
    ensures
        match spec_frame_total(b, v) {
            None => true,
            Some(t) => 0 < t <= b.len(),
        },
{
}

/// The round-trip law: under any recognized link protocol version, the
/// encoding of a well-formed cell is one complete frame, and parsing
/// that frame yields exactly the cell again.
#[verifier::rlimit(50)]
pub proof fn lemma_decode_encode_roundtrip(c: AnyChanCell, v: u16)
    requires
        c.wf(),
        spec_link_version_known(v),
    ensures
        spec_encode_result(c, v) == Ok::<Seq<u8>, EncodeProblem>(spec_enc_cell(c@, v)),
        spec_frame_total(spec_enc_cell(c@, v), v) == Some(spec_enc_cell(c@, v).len() as int),
        spec_parse_frame(spec_enc_cell(c@, v), v) == Ok::<CellView, ProtoProblem>(c@),
{
    let e = spec_enc_cell(c@, v);
    let cmd = c.msg.spec_cmd();
    let body = c.msg.spec_body();
    let cid = spec_cid_bytes(v, c.circid);
    let header = cid + seq![cmd];
    assert(cid.len() == 4);
    assert(header.len() == 5);
    assert(header[0] == cid[0] && header[1] == cid[1] && header[2] == cid[2] && header[3]
        == cid[3] && header[4] == cmd);
    lemma_u32_be_roundtrip(c.circid);
    if chancmd::spec_is_var_cmd(cmd) {
        let lenb = spec_u16_be(body.len() as u16);
        assert(e == header + lenb + body);
        assert(e.len() == 7 + body.len());
        assert(e[0] == cid[0] && e[1] == cid[1] && e[2] == cid[2] && e[3] == cid[3]);
        assert(e[4] == cmd);
        assert(e[5] == lenb[0] && e[6] == lenb[1]);
        assert(spec_be32(e[0], e[1], e[2], e[3]) == c.circid);
        assert(body.len() <= 0xffff);
        lemma_u16_be_roundtrip(body.len() as u16);
        assert(lenb[0] * 256 + lenb[1] == body.len());
        assert(spec_frame_total(e, v) == Some(e.len() as int));
        assert(e.skip(7) =~= body);
        if cmd == chancmd::VERSIONS {
            assert(body.len() % 2 == 0);
        }
        assert(spec_parse_frame(e, v) == Ok::<CellView, ProtoProblem>(c@));
    } else {
        assert(body.len() == chancmd::FIXED_BODY_LEN);
        assert(spec_zeros(0) =~= Seq::<u8>::empty());
        assert(e =~= header + body);
        assert(e.len() == 5 + chancmd::FIXED_BODY_LEN);
        assert(e[0] == cid[0] && e[1] == cid[1] && e[2] == cid[2] && e[3] == cid[3]);
        assert(e[4] == cmd);
        assert(spec_be32(e[0], e[1], e[2], e[3]) == c.circid);
        assert(spec_frame_total(e, v) == Some(e.len() as int));
        assert(e.skip(5) =~= body);
        assert(spec_parse_frame(e, v) == Ok::<CellView, ProtoProblem>(c@));
    }
}

} // verus!
