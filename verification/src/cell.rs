//! The structural cell model: one cell is a circuit identifier and a
//! typed message payload.
//!
//! The command byte determines everything structural about a cell: its
//! framing class (fixed or variable length), whether it must carry a
//! circuit identifier, and — for VERSIONS — the shape of its payload.
//! Messages whose command is recognized but whose payload this layer
//! does not interpret carry their payload bytes; unknown commands decode
//! into an "unrecognized but structurally valid" variant rather than
//! failing.

use vstd::prelude::*;

use crate::chancmd;

verus! {

/// Big-endian bytes of a 16-bit value.
pub open spec fn spec_u16_be(x: u16) -> Seq<u8> {
    seq![(x / 256) as u8, (x % 256) as u8]
}

/// The 16-bit value read big-endian from two bytes.
pub open spec fn spec_be16(b0: u8, b1: u8) -> u16 {
    (b0 * 256 + b1) as u16
}

/// Big-endian bytes of a 32-bit value.
pub open spec fn spec_u32_be(x: u32) -> Seq<u8> {
    seq![
        (x / 0x1000000) as u8,
        ((x / 0x10000) % 256) as u8,
        ((x / 256) % 256) as u8,
        (x % 256) as u8,
    ]
}

/// The 32-bit value read big-endian from four bytes.
pub open spec fn spec_be32(b0: u8, b1: u8, b2: u8, b3: u8) -> u32 {
    (b0 * 0x1000000 + b1 * 0x10000 + b2 * 256 + b3) as u32
}

/// `n` zero bytes, the padding of fixed-length cells.
pub open spec fn spec_zeros(n: int) -> Seq<u8> {
    Seq::new(n as nat, |i: int| 0u8)
}

/// The payload bytes of a VERSIONS cell: each version as two big-endian
/// bytes, in order.
pub open spec fn spec_versions_body(vs: Seq<u16>) -> Seq<u8> {
    Seq::new(
        (2 * vs.len()) as nat,
        |i: int| if i % 2 == 0 { (vs[i / 2] / 256) as u8 } else { (vs[i / 2] % 256) as u8 },
    )
}

/// The version list read from a VERSIONS payload of even length.
pub open spec fn spec_parse_versions(b: Seq<u8>) -> Seq<u16> {
    Seq::new((b.len() / 2) as nat, |i: int| spec_be16(b[2 * i], b[2 * i + 1]))
}

/// Reading back the two big-endian bytes of a 16-bit value gives the
/// value.
pub proof fn lemma_u16_be_roundtrip(x: u16)
    ensures
        spec_be16(spec_u16_be(x)[0], spec_u16_be(x)[1]) == x,
{
    assert((((x / 256) as u8) * 256 + ((x % 256) as u8)) as u16 == x) by (bit_vector);
}

/// Reading back the four big-endian bytes of a 32-bit value gives the
/// value.
pub proof fn lemma_u32_be_roundtrip(x: u32)
    ensures
        spec_be32(
            spec_u32_be(x)[0],
            spec_u32_be(x)[1],
            spec_u32_be(x)[2],
            spec_u32_be(x)[3],
        ) == x,
{
    assert((((x / 0x1000000) as u8) * 0x1000000 + (((x / 0x10000) % 256) as u8) * 0x10000 + (((x
        / 256) % 256) as u8) * 256 + ((x % 256) as u8)) as u32 == x) by (bit_vector);
}

/// Parsing the payload bytes written for a version list gives the list
/// back.
pub proof fn lemma_versions_roundtrip(vs: Seq<u16>)
    ensures
        spec_parse_versions(spec_versions_body(vs)) == vs,
{
    let body = spec_versions_body(vs);
    let parsed = spec_parse_versions(body);
    assert forall|i: int| 0 <= i < vs.len() implies parsed[i] == vs[i] by {
        assert(body[2 * i] == (vs[i] / 256) as u8);
        assert(body[2 * i + 1] == (vs[i] % 256) as u8);
        let x = vs[i];
        assert((((x / 256) as u8) * 256 + ((x % 256) as u8)) as u16 == x) by (bit_vector);
    }
    assert(parsed =~= vs);
}

/// The ghost shape of a cell: its circuit identifier, command byte and
/// raw payload bytes (for VERSIONS, the payload the version list prints
/// to).
pub ghost struct CellView {
    /// Circuit identifier; zero means "no circuit".
    pub circid: u32,
    /// Command byte.
    pub cmd: u8,
    /// Raw payload bytes.
    pub body: Seq<u8>,
}

/// A typed channel message payload.
#[derive(Debug, Clone, PartialEq, Eq)]
pub enum AnyChanMsg {
    /// A VERSIONS message: the list of link protocol versions the
    /// sender supports.
    Versions {
        /// The version numbers, in wire order.
        versions: Vec<u16>,
    },
    /// A message with a recognized, non-VERSIONS command; its payload
    /// is carried structurally but not interpreted at this layer.
    Recognized {
        /// Command byte, in the wire command table and not VERSIONS.
        cmd: u8,
        /// Payload bytes.
        body: Vec<u8>,
    },
    /// A message with a command outside the wire command table;
    /// structurally valid, delivered rather than rejected.
    Unrecognized {
        /// Command byte, outside the wire command table.
        cmd: u8,
        /// Payload bytes.
        body: Vec<u8>,
    },
}

impl AnyChanMsg {
    /// The command byte of this message.
    pub open spec fn spec_cmd(self) -> u8 {
        match self {
            AnyChanMsg::Versions { .. } => chancmd::VERSIONS,
            AnyChanMsg::Recognized { cmd, .. } => cmd,
            AnyChanMsg::Unrecognized { cmd, .. } => cmd,
        }
    }

    /// The raw payload bytes of this message.
    pub open spec fn spec_body(self) -> Seq<u8> {
        match self {
            AnyChanMsg::Versions { versions } => spec_versions_body(versions@),
            AnyChanMsg::Recognized { body, .. } => body@,
            AnyChanMsg::Unrecognized { body, .. } => body@,
        }
    }

    /// The variant matches what the command byte says it must be: the
    /// form every decoded message has.
    pub open spec fn canonical(self) -> bool {
        match self {
            AnyChanMsg::Versions { .. } => true,
            AnyChanMsg::Recognized { cmd, .. } => chancmd::spec_is_recognized(cmd) && cmd
                != chancmd::VERSIONS,
            AnyChanMsg::Unrecognized { cmd, .. } => !chancmd::spec_is_recognized(cmd),
        }
    }

    /// The payload fits its cell's framing: within the two-byte length
    /// field for variable-length cells, within the constant payload
    /// size for fixed-length ones.
    pub open spec fn encodable(self) -> bool {
        match self {
            AnyChanMsg::Versions { versions } => versions@.len() <= 0x7fff,
            AnyChanMsg::Recognized { cmd, body } => if chancmd::spec_is_var_cmd(cmd) {
                body@.len() <= 0xffff
            } else {
                body@.len() <= chancmd::FIXED_BODY_LEN
            },
            AnyChanMsg::Unrecognized { cmd, body } => if chancmd::spec_is_var_cmd(cmd) {
                body@.len() <= 0xffff
            } else {
                body@.len() <= chancmd::FIXED_BODY_LEN
            },
        }
    }

    /// Well-formed: canonical, encodable, and — for fixed-length cells —
    /// carrying the full constant-size payload, so that the message is
    /// exactly what decoding its own encoding yields.
    pub open spec fn wf(self) -> bool {
        &&& self.canonical()
        &&& self.encodable()
        &&& !chancmd::spec_is_var_cmd(self.spec_cmd()) ==> self.spec_body().len()
            == chancmd::FIXED_BODY_LEN
    }

    /// The command byte of this message.
    pub fn cmd(&self) -> (r: u8)
        ensures
            r == self.spec_cmd(),
    {
        match self {
            AnyChanMsg::Versions { .. } => chancmd::VERSIONS,
            AnyChanMsg::Recognized { cmd, .. } => *cmd,
            AnyChanMsg::Unrecognized { cmd, .. } => *cmd,
        }
    }
}

/// One cell of the wire protocol: a circuit identifier (zero standing
/// for "no circuit") and a message.
#[derive(Debug, Clone, PartialEq, Eq)]
pub struct AnyChanCell {
    /// Circuit identifier; zero means "no circuit".
    pub circid: u32,
    /// The message this cell carries.
    pub msg: AnyChanMsg,
}

impl View for AnyChanCell {
    type V = CellView;

    open spec fn view(&self) -> CellView {
        CellView { circid: self.circid, cmd: self.msg.spec_cmd(), body: self.msg.spec_body() }
    }
}

impl AnyChanCell {
    /// Make a cell from a circuit identifier (zero for none) and a
    /// message.
    pub fn new(circid: u32, msg: AnyChanMsg) -> (r: Self)
        ensures
            r == (AnyChanCell { circid, msg }),
    {
        AnyChanCell { circid, msg }
    }

    /// The circuit identifier.
    pub fn circid(&self) -> (r: u32)
        ensures
            r == self.circid,
    {
        self.circid
    }

    /// Borrow the message.
    pub fn msg(&self) -> (r: &AnyChanMsg)
        ensures
            r == self.msg,
    {
        &self.msg
    }

    /// Take the cell apart.
    pub fn into_circid_and_msg(self) -> (r: (u32, AnyChanMsg))
        ensures
            r.0 == self.circid,
            r.1 == self.msg,
    {
        (self.circid, self.msg)
    }

    /// Well-formed: the message is well-formed and the circuit
    /// identifier is acceptable for the command (zero exactly for
    /// channel-level commands).
    pub open spec fn wf(self) -> bool {
        self.msg.wf() && chancmd::spec_accepts_circid(self.msg.spec_cmd(), self.circid)
    }
}

} // verus!
