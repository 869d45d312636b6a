//! The wire command table of the channel cell protocol.
//!
//! Each cell carries a one-byte command that selects both the payload type
//! and the physical framing: variable-length cells carry an explicit
//! two-byte length, fixed-length cells are padded to a constant payload
//! size.  The command also determines whether the cell must carry a
//! circuit identifier (circuit-level commands) or must not (channel-level
//! commands).

use vstd::prelude::*;

verus! {

/// Wire command for a PADDING cell.
pub const PADDING: u8 = 0;
/// Wire command for a RELAY cell.
pub const RELAY: u8 = 3;
/// Wire command for a DESTROY cell.
pub const DESTROY: u8 = 4;
/// Wire command for a CREATED_FAST cell.
pub const CREATED_FAST: u8 = 6;
/// Wire command for a VERSIONS cell.
pub const VERSIONS: u8 = 7;
/// Wire command for a NETINFO cell.
pub const NETINFO: u8 = 8;
/// Wire command for a RELAY_EARLY cell.
pub const RELAY_EARLY: u8 = 9;
/// Wire command for a CREATED2 cell.
pub const CREATED2: u8 = 11;
/// Wire command for a PADDING_NEGOTIATE cell.
pub const PADDING_NEGOTIATE: u8 = 12;
/// Wire command for a VPADDING cell.
pub const VPADDING: u8 = 128;
/// Wire command for a CERTS cell.
pub const CERTS: u8 = 129;
/// Wire command for an AUTH_CHALLENGE cell.
pub const AUTH_CHALLENGE: u8 = 130;
/// Wire command for an AUTHENTICATE cell.
pub const AUTHENTICATE: u8 = 131;
/// Wire command for an AUTHORIZE cell (reserved, unused).
pub const AUTHORIZE: u8 = 132;

/// Payload size of every fixed-length cell, in bytes.
pub const FIXED_BODY_LEN: usize = 509;

/// True iff `cmd` is a command of the wire command table.
pub open spec fn spec_is_recognized(cmd: u8) -> bool {
    ||| cmd == PADDING
    ||| cmd == RELAY
    ||| cmd == DESTROY
    ||| cmd == CREATED_FAST
    ||| cmd == VERSIONS
    ||| cmd == NETINFO
    ||| cmd == RELAY_EARLY
    ||| cmd == CREATED2
    ||| cmd == PADDING_NEGOTIATE
    ||| cmd == VPADDING
    ||| cmd == CERTS
    ||| cmd == AUTH_CHALLENGE
    ||| cmd == AUTHENTICATE
    ||| cmd == AUTHORIZE
}

/// True iff cells with command `cmd` use the variable-length framing
/// (a two-byte big-endian length follows the command byte).
///
/// VERSIONS and every command of the extended range use it; all other
/// commands, recognized or not, use the fixed framing.
pub open spec fn spec_is_var_cmd(cmd: u8) -> bool {
    cmd == VERSIONS || cmd >= 128
}

/// True iff `cmd` is a channel-level command, which must travel with
/// circuit identifier zero.
pub open spec fn spec_is_channel_level(cmd: u8) -> bool {
    ||| cmd == PADDING
    ||| cmd == VERSIONS
    ||| cmd == NETINFO
    ||| cmd == PADDING_NEGOTIATE
    ||| cmd == VPADDING
    ||| cmd == CERTS
    ||| cmd == AUTH_CHALLENGE
    ||| cmd == AUTHENTICATE
}

/// True iff `cmd` is a circuit-level command, which must travel with a
/// nonzero circuit identifier.
pub open spec fn spec_is_circuit_level(cmd: u8) -> bool {
    ||| cmd == RELAY
    ||| cmd == DESTROY
    ||| cmd == CREATED_FAST
    ||| cmd == RELAY_EARLY
    ||| cmd == CREATED2
}

/// True iff a cell with command `cmd` may carry circuit identifier
/// `circid` (zero standing for "no circuit").
///
/// AUTHORIZE is reserved and unclassified; it and every unrecognized
/// command accept any circuit identifier.
pub open spec fn spec_accepts_circid(cmd: u8, circid: u32) -> bool {
    &&& spec_is_channel_level(cmd) ==> circid == 0
    &&& spec_is_circuit_level(cmd) ==> circid != 0
}

/// Executable membership test for the wire command table.
pub fn is_recognized(cmd: u8) -> (r: bool)
    ensures
        r == spec_is_recognized(cmd),
{
    cmd == PADDING || cmd == RELAY || cmd == DESTROY || cmd == CREATED_FAST || cmd == VERSIONS
        || cmd == NETINFO || cmd == RELAY_EARLY || cmd == CREATED2 || cmd == PADDING_NEGOTIATE
        || cmd == VPADDING || cmd == CERTS || cmd == AUTH_CHALLENGE || cmd == AUTHENTICATE
        || cmd == AUTHORIZE
}

/// Executable test for the variable-length framing class.
pub fn is_var_cmd(cmd: u8) -> (r: bool)
    ensures
        r == spec_is_var_cmd(cmd),
{
    cmd == VERSIONS || cmd >= 128
}

/// Executable test of the circuit-identifier rule.
pub fn accepts_circid(cmd: u8, circid: u32) -> (r: bool)
    ensures
        r == spec_accepts_circid(cmd, circid),
{
    if cmd == PADDING || cmd == VERSIONS || cmd == NETINFO || cmd == PADDING_NEGOTIATE
        || cmd == VPADDING || cmd == CERTS || cmd == AUTH_CHALLENGE || cmd == AUTHENTICATE {
        circid == 0
    } else if cmd == RELAY || cmd == DESTROY || cmd == CREATED_FAST || cmd == RELAY_EARLY
        || cmd == CREATED2 {
        circid != 0
    } else {
        true
    }
}

} // verus!
