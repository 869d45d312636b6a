//! The channel cell handler: a three-stage state machine over one
//! connection's byte stream.
//!
//! A handler always starts in the New stage, where only VERSIONS cells
//! (in their legacy two-byte circuit-identifier framing) exist.  Setting
//! a recognized link protocol version moves it, once, to Handshake,
//! where full cells flow through the [`crate::codec`] and the
//! [`crate::msg::MessageFilter`], and where the transcript digests
//! (CLOG over bytes sent, SLOG over bytes received) accumulate.
//! `set_open` then moves it, once, to Open: the same codec, the Open
//! filter, and no more digesting.  Stages only ever move forward.
//!
//! Digest discipline: on decode, SLOG absorbs exactly the consumed byte
//! range of a structurally valid cell before the filter judges it; on
//! encode, CLOG absorbs exactly the emitted bytes only after the filter
//! accepted the message, so a rejected outbound message never corrupts
//! the digest.  In the New stage, SLOG absorbs every byte inspected —
//! even bytes after the frame, and even when the frame then fails to
//! parse — because a peer's garbage after a valid-looking prefix is
//! still part of the transcript that authentication must bind.
//!
//! Each stage's decode and encode behaviour is written down once, as a
//! relation between the handler before and after the call, the buffer
//! before and after, and the result; the stage handler's method and the
//! corresponding arm of [`ChannelCellHandler`] both promise exactly that
//! relation.

use vstd::prelude::*;

use crate::buf::{buf_len, buf_peek_all, buf_put, buffer_bytes};
use crate::cell::{spec_parse_versions, spec_u16_be, spec_versions_body, AnyChanCell, AnyChanMsg};
use crate::chancmd;
use crate::codec::{
    encode_cell_bytes, spec_encode_result, spec_frame_total, spec_parse_frame, ChannelCodec,
};
use crate::err::{EncodeProblem, Error, InternalProblem, ProtoProblem};
use crate::msg::{
    is_link_version_known, spec_allowed, spec_link_version_known, ChannelType, MessageDetails,
    MessageDirection, MessageFilter, MessageStage,
};
use crate::sha256::{absorbed, sha256_of, Sha256State};

verus! {

/// The bytes a transcript digest has absorbed, or `None` where the role
/// keeps no digest.
pub open spec fn spec_log_bytes(log: Option<Sha256State>) -> Option<Seq<u8>> {
    match log {
        Some(s) => Some(absorbed(s)),
        None => None,
    }
}

/// A digest after absorbing `data`: untouched where absent.
pub open spec fn spec_log_after(log: Option<Seq<u8>>, data: Seq<u8>) -> Option<Seq<u8>> {
    match log {
        Some(s) => Some(s + data),
        None => None,
    }
}

/// What decoding a buffer in the New stage comes to.
pub ghost enum NewDecodeOutcome {
    /// Not yet a complete frame: nothing is consumed, nothing changes.
    Incomplete,
    /// The buffer does not begin with the header of a VERSIONS cell.
    BadPrefix,
    /// A complete frame was consumed (and absorbed into SLOG), but its
    /// payload length is odd.
    Malformed { total: int },
    /// A complete frame was consumed (and absorbed into SLOG) and its
    /// version list parsed.
    Parsed { total: int, versions: Seq<u16> },
}

/// The New-stage decode function, as a value: VERSIONS cells use the
/// legacy framing of two zero circuit-identifier bytes, the command,
/// a two-byte big-endian payload length, and the payload.
pub open spec fn spec_new_decode(b: Seq<u8>) -> NewDecodeOutcome {
    if b.len() < 6 {
        NewDecodeOutcome::Incomplete
    } else if !(b[0] == 0 && b[1] == 0 && b[2] == chancmd::VERSIONS) {
        NewDecodeOutcome::BadPrefix
    } else {
        let total = 5 + b[3] * 256 + b[4];
        if b.len() < total {
            NewDecodeOutcome::Incomplete
        } else if (b[3] * 256 + b[4]) % 2 != 0 {
            NewDecodeOutcome::Malformed { total }
        } else {
            NewDecodeOutcome::Parsed {
                total,
                versions: spec_parse_versions(b.subrange(5, total)),
            }
        }
    }
}

/// The bytes that encode a version list in the New stage's legacy
/// framing.
pub open spec fn spec_versions_handshake_bytes(vs: Seq<u16>) -> Seq<u8> {
    seq![0u8, 0u8, chancmd::VERSIONS] + spec_u16_be((2 * vs.len()) as u16) + spec_versions_body(
        vs,
    )
}

/// The handler of a newly created channel, before any link protocol
/// version is known.  It handles nothing but VERSIONS cells.
pub struct NewChannelHandler {
    /// The channel role.
    pub channel_type: ChannelType,
    /// The CLOG digest, absent for clients, which need no transcript.
    pub clog: Option<Sha256State>,
    /// The SLOG digest, absent for clients.
    pub slog: Option<Sha256State>,
}

impl NewChannelHandler {
    /// The decode relation of the New stage, with the result already in
    /// cell form (a VERSIONS cell has no circuit, so the identifier is
    /// zero).  `pre`/`post` are the handler before and after the call,
    /// `pre_buf`/`post_buf` the buffer's bytes before and after.
    pub open spec fn decode_cell_rel(
        pre: Self,
        post: Self,
        pre_buf: Seq<u8>,
        post_buf: Seq<u8>,
        r: Result<Option<AnyChanCell>, Error>,
    ) -> bool {
        &&& post.channel_type == pre.channel_type
        &&& spec_log_bytes(post.clog) == spec_log_bytes(pre.clog)
        &&& match spec_new_decode(pre_buf) {
            NewDecodeOutcome::Incomplete => {
                &&& r == Ok::<Option<AnyChanCell>, Error>(None)
                &&& post_buf == pre_buf
                &&& spec_log_bytes(post.slog) == spec_log_bytes(pre.slog)
            },
            NewDecodeOutcome::BadPrefix => {
                &&& r == Err::<Option<AnyChanCell>, Error>(
                    Error::HandshakeProto(ProtoProblem::InvalidVersionsCell),
                )
                &&& post_buf == pre_buf
                &&& spec_log_bytes(post.slog) == spec_log_bytes(pre.slog)
            },
            NewDecodeOutcome::Malformed { total } => {
                &&& r == Err::<Option<AnyChanCell>, Error>(
                    Error::HandshakeProto(ProtoProblem::MalformedVersions),
                )
                &&& post_buf == pre_buf.skip(total)
                &&& spec_log_bytes(post.slog) == spec_log_after(
                    spec_log_bytes(pre.slog),
                    pre_buf,
                )
            },
            NewDecodeOutcome::Parsed { total, versions } => {
                &&& r matches Ok(Some(c)) && c.circid == 0 && (c.msg
                    matches AnyChanMsg::Versions { versions: vs } && vs@ == versions)
                &&& post_buf == pre_buf.skip(total)
                &&& spec_log_bytes(post.slog) == spec_log_after(
                    spec_log_bytes(pre.slog),
                    pre_buf,
                )
            },
        }
    }

    /// The encode relation of the New stage: `versions` is the list to
    /// send, `pre_dst`/`post_dst` the output buffer's bytes before and
    /// after.
    pub open spec fn encode_rel(
        pre: Self,
        post: Self,
        pre_dst: Seq<u8>,
        post_dst: Seq<u8>,
        versions: Seq<u16>,
        r: Result<(), Error>,
    ) -> bool {
        &&& post.channel_type == pre.channel_type
        &&& spec_log_bytes(post.slog) == spec_log_bytes(pre.slog)
        &&& if versions.len() > 0x7fff {
            &&& r == Err::<(), Error>(
                Error::Encode(
                    EncodeProblem::OversizedBody {
                        cmd: chancmd::VERSIONS,
                        len: versions.len() as usize,
                    },
                ),
            )
            &&& post_dst == pre_dst
            &&& spec_log_bytes(post.clog) == spec_log_bytes(pre.clog)
        } else {
            &&& r == Ok::<(), Error>(())
            &&& post_dst == pre_dst + spec_versions_handshake_bytes(versions)
            &&& spec_log_bytes(post.clog) == spec_log_after(
                spec_log_bytes(pre.clog),
                spec_versions_handshake_bytes(versions),
            )
        }
    }

    /// A fresh handler for the given role.  Relay roles get empty
    /// transcript digests; a responding relay might not need them, but
    /// that is only known once the handshake ends, so it keeps them too.
    pub fn new(channel_type: ChannelType) -> (r: Self)
        ensures
            r.channel_type == channel_type,
            channel_type == ChannelType::ClientInitiator ==> r.clog is None && r.slog is None,
            channel_type != ChannelType::ClientInitiator ==> spec_log_bytes(r.clog) == Some(
                Seq::<u8>::empty(),
            ) && spec_log_bytes(r.slog) == Some(Seq::<u8>::empty()),
    {
        match channel_type {
            ChannelType::ClientInitiator => NewChannelHandler {
                channel_type,
                clog: None,
                slog: None,
            },
            _ => NewChannelHandler {
                channel_type,
                clog: Some(Sha256State::new()),
                slog: Some(Sha256State::new()),
            },
        }
    }

    /// Return a handshake handler ready for the given link protocol
    /// version, taking this handler's transcript digests with it.
    pub fn next_handler(&mut self, link_version: u16) -> (r: HandshakeChannelHandler)
        requires
            spec_link_version_known(link_version),
        ensures
            r.wf(),
            r.channel_type == old(self).channel_type,
            r.filter == (MessageFilter {
                link_version,
                channel_type: old(self).channel_type,
                stage: MessageStage::Handshake,
            }),
            r.inner == (ChannelCodec { link_version }),
            spec_log_bytes(r.clog) == spec_log_bytes(old(self).clog),
            spec_log_bytes(r.slog) == spec_log_bytes(old(self).slog),
            final(self).channel_type == old(self).channel_type,
            final(self).clog is None,
            final(self).slog is None,
    {
        HandshakeChannelHandler::new(self, link_version)
    }

    /// Decode at most one VERSIONS cell from the front of `src`,
    /// returning its version list.
    ///
    /// Nothing is consumed until a complete frame is buffered.  Once it
    /// is, SLOG (if present) absorbs the whole buffer as inspected —
    /// deliberately including bytes past the frame and frames that then
    /// fail to parse; see the module documentation.
    pub fn decode(&mut self, src: &mut bytes::BytesMut) -> (r: Result<Option<Vec<u16>>, Error>)
        ensures
            final(self).channel_type == old(self).channel_type,
            spec_log_bytes(final(self).clog) == spec_log_bytes(old(self).clog),
            match spec_new_decode(buffer_bytes(*old(src))) {
                NewDecodeOutcome::Incomplete => {
                    &&& r == Ok::<Option<Vec<u16>>, Error>(None)
                    &&& buffer_bytes(*final(src)) == buffer_bytes(*old(src))
                    &&& spec_log_bytes(final(self).slog) == spec_log_bytes(old(self).slog)
                },
                NewDecodeOutcome::BadPrefix => {
                    &&& r == Err::<Option<Vec<u16>>, Error>(
                        Error::HandshakeProto(ProtoProblem::InvalidVersionsCell),
                    )
                    &&& buffer_bytes(*final(src)) == buffer_bytes(*old(src))
                    &&& spec_log_bytes(final(self).slog) == spec_log_bytes(old(self).slog)
                },
                NewDecodeOutcome::Malformed { total } => {
                    &&& r == Err::<Option<Vec<u16>>, Error>(
                        Error::HandshakeProto(ProtoProblem::MalformedVersions),
                    )
                    &&& buffer_bytes(*final(src)) == buffer_bytes(*old(src)).skip(total)
                    &&& spec_log_bytes(final(self).slog) == spec_log_after(
                        spec_log_bytes(old(self).slog),
                        buffer_bytes(*old(src)),
                    )
                },
                NewDecodeOutcome::Parsed { total, versions } => {
                    &&& r matches Ok(Some(vs)) && vs@ == versions
                    &&& buffer_bytes(*final(src)) == buffer_bytes(*old(src)).skip(total)
                    &&& spec_log_bytes(final(self).slog) == spec_log_after(
                        spec_log_bytes(old(self).slog),
                        buffer_bytes(*old(src)),
                    )
                },
            },
    {
        let n = buf_len(src);
        // Below six bytes there cannot be a complete VERSIONS cell; an
        // empty or short buffer is normal and simply not a cell yet.
        if n < 6 {
            return Ok(None);
        }
        let data = buf_peek_all(src);
        if !(data[0] == 0 && data[1] == 0 && data[2] == chancmd::VERSIONS) {
            return Err(Error::HandshakeProto(ProtoProblem::InvalidVersionsCell));
        }
        let l: usize = (data[3] as usize) * 256 + (data[4] as usize);
        let total: usize = 5 + l;
        if n < total {
            return Ok(None);
        }
        // Absorb every byte inspected into SLOG before consuming; if
        // parsing fails after this, the channel is doomed anyway and the
        // transcript stays honest.
        match &mut self.slog {
            Some(s) => s.update(data.as_slice()),
            None => {},
        }
        crate::buf::buf_advance(src, total);
        let mut body: Vec<u8> = Vec::new();
        body.extend_from_slice(&data[5..total]);
        assert(body@ =~= buffer_bytes(*old(src)).subrange(5, total as int));
        if body.len() % 2 != 0 {
            return Err(Error::HandshakeProto(ProtoProblem::MalformedVersions));
        }
        let versions = crate::codec::parse_versions_body(&body);
        Ok(Some(versions))
    }

    /// Encode a VERSIONS cell in the legacy framing, appending its bytes
    /// to `dst` and absorbing them into CLOG (if present); per
    /// [`NewChannelHandler::encode_rel`].
    pub fn encode(&mut self, versions: &Vec<u16>, dst: &mut bytes::BytesMut) -> (r: Result<
        (),
        Error,
    >)
        ensures
            Self::encode_rel(
                *old(self),
                *final(self),
                buffer_bytes(*old(dst)),
                buffer_bytes(*final(dst)),
                versions@,
                r,
            ),
    {
        if versions.len() > 0x7fff {
            return Err(Error::Encode(EncodeProblem::OversizedBody {
                cmd: chancmd::VERSIONS,
                len: versions.len(),
            }));
        }
        let mut bytes: Vec<u8> = Vec::new();
        bytes.push(0u8);
        bytes.push(0u8);
        bytes.push(chancmd::VERSIONS);
        let blen = (versions.len() * 2) as u16;
        bytes.push((blen / 256) as u8);
        bytes.push((blen % 256) as u8);
        let mut body = crate::codec::versions_body_bytes(versions);
        bytes.append(&mut body);
        assert(bytes@ =~= spec_versions_handshake_bytes(versions@));
        buf_put(dst, bytes.as_slice());
        match &mut self.clog {
            Some(s) => s.update(bytes.as_slice()),
            None => {},
        }
        Ok(())
    }
}

/// The handler of a channel that is handshaking: full cells, the
/// Handshake-stage filter, and transcript digesting.
pub struct HandshakeChannelHandler {
    /// The channel role.
    pub channel_type: ChannelType,
    /// The filter judging which messages may pass.
    pub filter: MessageFilter,
    /// The cell codec, bound to the negotiated link protocol version.
    pub inner: ChannelCodec,
    /// The CLOG digest, absent for clients.
    pub clog: Option<Sha256State>,
    /// The SLOG digest, absent for clients.
    pub slog: Option<Sha256State>,
}

impl HandshakeChannelHandler {
    /// Well-formed: filter and codec agree on a recognized link protocol
    /// version, and the filter is bound to this role and the Handshake
    /// stage.  Constructors establish this and every method keeps it.
    pub open spec fn wf(self) -> bool {
        &&& spec_link_version_known(self.inner.link_version)
        &&& self.filter == (MessageFilter {
            link_version: self.inner.link_version,
            channel_type: self.channel_type,
            stage: MessageStage::Handshake,
        })
    }

    /// The decode relation of the Handshake stage.  A complete frame is
    /// consumed whole; a structurally valid cell's consumed bytes go
    /// into SLOG before the filter judges its command; an illegal
    /// message is a handshake protocol error.
    pub open spec fn decode_rel(
        pre: Self,
        post: Self,
        pre_buf: Seq<u8>,
        post_buf: Seq<u8>,
        r: Result<Option<AnyChanCell>, Error>,
    ) -> bool {
        &&& post.channel_type == pre.channel_type
        &&& post.filter == pre.filter
        &&& post.inner == pre.inner
        &&& spec_log_bytes(post.clog) == spec_log_bytes(pre.clog)
        &&& match spec_frame_total(pre_buf, pre.inner.link_version) {
            None => {
                &&& r == Ok::<Option<AnyChanCell>, Error>(None)
                &&& post_buf == pre_buf
                &&& spec_log_bytes(post.slog) == spec_log_bytes(pre.slog)
            },
            Some(t) => {
                &&& post_buf == pre_buf.skip(t)
                &&& match spec_parse_frame(pre_buf.take(t), pre.inner.link_version) {
                    Err(p) => {
                        &&& r == Err::<Option<AnyChanCell>, Error>(Error::HandshakeProto(p))
                        &&& spec_log_bytes(post.slog) == spec_log_bytes(pre.slog)
                    },
                    Ok(cv) => {
                        &&& spec_log_bytes(post.slog) == spec_log_after(
                            spec_log_bytes(pre.slog),
                            pre_buf.take(t),
                        )
                        &&& if spec_allowed(
                            pre.inner.link_version,
                            pre.channel_type,
                            MessageStage::Handshake,
                            MessageDirection::Inbound,
                            cv.cmd,
                        ) {
                            r matches Ok(Some(c)) && c@ == cv && c.msg.canonical()
                        } else {
                            r == Err::<Option<AnyChanCell>, Error>(
                                Error::HandshakeProto(
                                    ProtoProblem::NotAllowed {
                                        link_version: pre.inner.link_version,
                                        channel_type: pre.channel_type,
                                        direction: MessageDirection::Inbound,
                                        cmd: cv.cmd,
                                    },
                                ),
                            )
                        }
                    },
                }
            },
        }
    }

    /// The encode relation of the Handshake stage: the filter judges the
    /// message first (a rejected message writes nothing and never
    /// corrupts the digest), then the codec frames it, and CLOG absorbs
    /// exactly the emitted bytes.
    pub open spec fn encode_rel(
        pre: Self,
        post: Self,
        pre_dst: Seq<u8>,
        post_dst: Seq<u8>,
        item: AnyChanCell,
        r: Result<(), Error>,
    ) -> bool {
        &&& post.channel_type == pre.channel_type
        &&& post.filter == pre.filter
        &&& post.inner == pre.inner
        &&& spec_log_bytes(post.slog) == spec_log_bytes(pre.slog)
        &&& if !spec_allowed(
            pre.inner.link_version,
            pre.channel_type,
            MessageStage::Handshake,
            MessageDirection::Outbound,
            item.msg.spec_cmd(),
        ) {
            &&& r == Err::<(), Error>(
                Error::HandshakeProto(
                    ProtoProblem::NotAllowed {
                        link_version: pre.inner.link_version,
                        channel_type: pre.channel_type,
                        direction: MessageDirection::Outbound,
                        cmd: item.msg.spec_cmd(),
                    },
                ),
            )
            &&& post_dst == pre_dst
            &&& spec_log_bytes(post.clog) == spec_log_bytes(pre.clog)
        } else {
            match spec_encode_result(item, pre.inner.link_version) {
                Ok(s) => {
                    &&& r == Ok::<(), Error>(())
                    &&& post_dst == pre_dst + s
                    &&& spec_log_bytes(post.clog) == spec_log_after(spec_log_bytes(pre.clog), s)
                },
                Err(p) => {
                    &&& r == Err::<(), Error>(Error::Encode(p))
                    &&& post_dst == pre_dst
                    &&& spec_log_bytes(post.clog) == spec_log_bytes(pre.clog)
                },
            }
        }
    }

    /// Constructor: binds the filter and codec to the negotiated version
    /// and takes the transcript digests out of the New-stage handler.
    pub fn new(new_handler: &mut NewChannelHandler, link_version: u16) -> (r: Self)
        requires
            spec_link_version_known(link_version),
        ensures
            r.wf(),
            r.channel_type == old(new_handler).channel_type,
            r.filter == (MessageFilter {
                link_version,
                channel_type: old(new_handler).channel_type,
                stage: MessageStage::Handshake,
            }),
            r.inner == (ChannelCodec { link_version }),
            spec_log_bytes(r.clog) == spec_log_bytes(old(new_handler).clog),
            spec_log_bytes(r.slog) == spec_log_bytes(old(new_handler).slog),
            final(new_handler).channel_type == old(new_handler).channel_type,
            final(new_handler).clog is None,
            final(new_handler).slog is None,
    {
        HandshakeChannelHandler {
            channel_type: new_handler.channel_type,
            filter: MessageFilter::new(
                link_version,
                new_handler.channel_type,
                MessageStage::Handshake,
            ),
            clog: new_handler.clog.take(),
            slog: new_handler.slog.take(),
            inner: ChannelCodec::new(link_version),
        }
    }

    /// Take a digest and finalize it if there is one.  Where there is
    /// none — a role that keeps no transcript, or a digest already
    /// taken — the caller violated the digest contract: each digest
    /// exists at most once and is consumed exactly once.
    pub fn finalize_log(log: Option<Sha256State>) -> (r: Result<[u8; 32], Error>)
        ensures
            match spec_log_bytes(log) {
                Some(bytes) => r matches Ok(d) && d@ == sha256_of(bytes),
                None => r == Err::<[u8; 32], Error>(
                    Error::Bug(InternalProblem::DigestAbsent),
                ),
            },
    {
        if let Some(sha256) = log {
            Ok(sha256.finalize())
        } else {
            Err(Error::Bug(InternalProblem::DigestAbsent))
        }
    }

    /// Return an Open-stage handler for the same connection: same link
    /// protocol version, same role, the filter rebound to Open.
    pub fn next_handler(&mut self) -> (r: OpenChannelHandler)
        requires
            old(self).wf(),
        ensures
            r.wf(),
            r.filter == (MessageFilter {
                link_version: old(self).inner.link_version,
                channel_type: old(self).channel_type,
                stage: MessageStage::Open,
            }),
            r.inner == old(self).inner,
            *final(self) == *old(self),
    {
        OpenChannelHandler::new(self.inner.link_version(), self.channel_type)
    }

    /// Finalize and take the CLOG digest, consuming it.  Taking a
    /// digest the role never kept, or taking it a second time, is the
    /// caller's bug.
    pub fn take_clog(&mut self) -> (r: Result<[u8; 32], Error>)
        ensures
            match spec_log_bytes(old(self).clog) {
                Some(bytes) => r matches Ok(d) && d@ == sha256_of(bytes),
                None => r == Err::<[u8; 32], Error>(
                    Error::Bug(InternalProblem::DigestAbsent),
                ),
            },
            final(self).clog is None,
            final(self).slog == old(self).slog,
            final(self).channel_type == old(self).channel_type,
            final(self).filter == old(self).filter,
            final(self).inner == old(self).inner,
    {
        let log = self.clog.take();
        Self::finalize_log(log)
    }

    /// Finalize and take the SLOG digest, consuming it.  Taking a
    /// digest the role never kept, or taking it a second time, is the
    /// caller's bug.
    pub fn take_slog(&mut self) -> (r: Result<[u8; 32], Error>)
        ensures
            match spec_log_bytes(old(self).slog) {
                Some(bytes) => r matches Ok(d) && d@ == sha256_of(bytes),
                None => r == Err::<[u8; 32], Error>(
                    Error::Bug(InternalProblem::DigestAbsent),
                ),
            },
            final(self).slog is None,
            final(self).clog == old(self).clog,
            final(self).channel_type == old(self).channel_type,
            final(self).filter == old(self).filter,
            final(self).inner == old(self).inner,
    {
        let log = self.slog.take();
        Self::finalize_log(log)
    }

    /// Encode one cell, per [`HandshakeChannelHandler::encode_rel`].
    pub fn encode(&mut self, item: AnyChanCell, dst: &mut bytes::BytesMut) -> (r: Result<
        (),
        Error,
    >)
        requires
            old(self).wf(),
        ensures
            final(self).wf(),
            Self::encode_rel(
                *old(self),
                *final(self),
                buffer_bytes(*old(dst)),
                buffer_bytes(*final(dst)),
                item,
                r,
            ),
    {
        let cmd = item.msg.cmd();
        // Make sure this message may be sent at all before anything is
        // written or digested.
        match self.filter.is_allowed(&MessageDetails::new_outbound(cmd)) {
            Ok(()) => {},
            Err(e) => {
                return Err(e);
            },
        }
        match encode_cell_bytes(&item, self.inner.link_version()) {
            Ok(bytes) => {
                buf_put(dst, bytes.as_slice());
                match &mut self.clog {
                    Some(s) => s.update(bytes.as_slice()),
                    None => {},
                }
                Ok(())
            },
            Err(p) => Err(Error::Encode(p)),
        }
    }

    /// Decode at most one cell, per
    /// [`HandshakeChannelHandler::decode_rel`].
    pub fn decode(&mut self, src: &mut bytes::BytesMut) -> (r: Result<Option<AnyChanCell>, Error>)
        requires
            old(self).wf(),
        ensures
            final(self).wf(),
            Self::decode_rel(
                *old(self),
                *final(self),
                buffer_bytes(*old(src)),
                buffer_bytes(*final(src)),
                r,
            ),
    {
        let orig = buf_peek_all(src);
        let cell = match self.inner.decode_cell(src) {
            Ok(c) => c,
            Err(p) => {
                return Err(Error::HandshakeProto(p));
            },
        };
        match cell {
            None => Ok(None),
            Some(c) => {
                // SLOG takes the consumed byte range first, then the
                // filter judges the message: even a cell the filter
                // rejects was read from the wire and belongs to the
                // transcript.
                let n_after = buf_len(src);
                let n_used = orig.len() - n_after;
                match &mut self.slog {
                    Some(s) => s.update(&orig[0..n_used]),
                    None => {},
                }
                let cmd = c.msg.cmd();
                match self.filter.is_allowed(&MessageDetails::new_inbound(cmd)) {
                    Ok(()) => Ok(Some(c)),
                    Err(e) => Err(e),
                }
            },
        }
    }
}

/// The handler of an open channel: full cells, the Open-stage filter,
/// no digesting.
pub struct OpenChannelHandler {
    /// The filter judging which messages may pass.
    pub filter: MessageFilter,
    /// The cell codec, bound to the negotiated link protocol version.
    pub inner: ChannelCodec,
}

impl OpenChannelHandler {
    /// Well-formed: filter and codec agree on a recognized link protocol
    /// version and the filter is bound to the Open stage.
    pub open spec fn wf(self) -> bool {
        &&& spec_link_version_known(self.inner.link_version)
        &&& self.filter.link_version == self.inner.link_version
        &&& self.filter.stage == MessageStage::Open
    }

    /// The decode relation of the Open stage: as in Handshake, but with
    /// no digesting, and violations are channel protocol errors.
    pub open spec fn decode_rel(
        pre: Self,
        post: Self,
        pre_buf: Seq<u8>,
        post_buf: Seq<u8>,
        r: Result<Option<AnyChanCell>, Error>,
    ) -> bool {
        &&& post == pre
        &&& match spec_frame_total(pre_buf, pre.inner.link_version) {
            None => {
                &&& r == Ok::<Option<AnyChanCell>, Error>(None)
                &&& post_buf == pre_buf
            },
            Some(t) => {
                &&& post_buf == pre_buf.skip(t)
                &&& match spec_parse_frame(pre_buf.take(t), pre.inner.link_version) {
                    Err(p) => r == Err::<Option<AnyChanCell>, Error>(Error::ChanProto(p)),
                    Ok(cv) => {
                        if spec_allowed(
                            pre.inner.link_version,
                            pre.filter.channel_type,
                            MessageStage::Open,
                            MessageDirection::Inbound,
                            cv.cmd,
                        ) {
                            r matches Ok(Some(c)) && c@ == cv && c.msg.canonical()
                        } else {
                            r == Err::<Option<AnyChanCell>, Error>(
                                Error::ChanProto(
                                    ProtoProblem::NotAllowed {
                                        link_version: pre.inner.link_version,
                                        channel_type: pre.filter.channel_type,
                                        direction: MessageDirection::Inbound,
                                        cmd: cv.cmd,
                                    },
                                ),
                            )
                        }
                    },
                }
            },
        }
    }

    /// The encode relation of the Open stage.
    pub open spec fn encode_rel(
        pre: Self,
        post: Self,
        pre_dst: Seq<u8>,
        post_dst: Seq<u8>,
        item: AnyChanCell,
        r: Result<(), Error>,
    ) -> bool {
        &&& post == pre
        &&& if !spec_allowed(
            pre.inner.link_version,
            pre.filter.channel_type,
            MessageStage::Open,
            MessageDirection::Outbound,
            item.msg.spec_cmd(),
        ) {
            &&& r == Err::<(), Error>(
                Error::ChanProto(
                    ProtoProblem::NotAllowed {
                        link_version: pre.inner.link_version,
                        channel_type: pre.filter.channel_type,
                        direction: MessageDirection::Outbound,
                        cmd: item.msg.spec_cmd(),
                    },
                ),
            )
            &&& post_dst == pre_dst
        } else {
            match spec_encode_result(item, pre.inner.link_version) {
                Ok(s) => r == Ok::<(), Error>(()) && post_dst == pre_dst + s,
                Err(p) => r == Err::<(), Error>(Error::Encode(p)) && post_dst == pre_dst,
            }
        }
    }

    /// Constructor.
    pub fn new(link_version: u16, channel_type: ChannelType) -> (r: Self)
        requires
            spec_link_version_known(link_version),
        ensures
            r.wf(),
            r.filter == (MessageFilter {
                link_version,
                channel_type,
                stage: MessageStage::Open,
            }),
            r.inner == (ChannelCodec { link_version }),
    {
        OpenChannelHandler {
            inner: ChannelCodec::new(link_version),
            filter: MessageFilter::new(link_version, channel_type, MessageStage::Open),
        }
    }

    /// Encode one cell, per [`OpenChannelHandler::encode_rel`].
    pub fn encode(&mut self, item: AnyChanCell, dst: &mut bytes::BytesMut) -> (r: Result<
        (),
        Error,
    >)
        requires
            old(self).wf(),
        ensures
            final(self).wf(),
            Self::encode_rel(
                *old(self),
                *final(self),
                buffer_bytes(*old(dst)),
                buffer_bytes(*final(dst)),
                item,
                r,
            ),
    {
        match self.filter.is_allowed(&MessageDetails::new_outbound(item.msg.cmd())) {
            Ok(()) => {},
            Err(e) => {
                return Err(e);
            },
        }
        match self.inner.write_cell(item, dst) {
            Ok(()) => Ok(()),
            Err(p) => Err(Error::Encode(p)),
        }
    }

    /// Decode at most one cell, per [`OpenChannelHandler::decode_rel`].
    pub fn decode(&mut self, src: &mut bytes::BytesMut) -> (r: Result<Option<AnyChanCell>, Error>)
        requires
            old(self).wf(),
        ensures
            final(self).wf(),
            Self::decode_rel(
                *old(self),
                *final(self),
                buffer_bytes(*old(src)),
                buffer_bytes(*final(src)),
                r,
            ),
    {
        let cell = match self.inner.decode_cell(src) {
            Ok(c) => c,
            Err(p) => {
                return Err(Error::ChanProto(p));
            },
        };
        match cell {
            None => Ok(None),
            Some(c) => {
                match self.filter.is_allowed(&MessageDetails::new_inbound(c.msg.cmd())) {
                    Ok(()) => Ok(Some(c)),
                    Err(e) => Err(e),
                }
            },
        }
    }
}

/// The digest-determinism law: starting from an empty transcript,
/// encoding a sequence of cells leaves CLOG holding exactly the
/// concatenation of the bytes that went to the wire — so finalizing it
/// (see [`HandshakeChannelHandler::take_clog`]) yields the SHA-256
/// digest of precisely the emitted byte stream, the same value as
/// hashing the concatenation all at once.  Stated here for two encodes;
/// each further encode extends the transcript the same way.
pub proof fn lemma_clog_matches_transcript(
    h0: HandshakeChannelHandler,
    h1: HandshakeChannelHandler,
    h2: HandshakeChannelHandler,
    d1: Seq<u8>,
    d2: Seq<u8>,
    c1: AnyChanCell,
    c2: AnyChanCell,
)
    requires
        spec_log_bytes(h0.clog) == Some(Seq::<u8>::empty()),
        HandshakeChannelHandler::encode_rel(h0, h1, Seq::<u8>::empty(), d1, c1, Ok(())),
        HandshakeChannelHandler::encode_rel(h1, h2, d1, d2, c2, Ok(())),
    ensures
        spec_log_bytes(h2.clog) == Some(d2),
{
    let s1 = spec_encode_result(c1, h0.inner.link_version)->Ok_0;
    let s2 = spec_encode_result(c2, h1.inner.link_version)->Ok_0;
    assert(d1 == Seq::<u8>::empty() + s1);
    assert(d2 == d1 + s2);
    assert(spec_log_bytes(h1.clog) == Some(Seq::<u8>::empty() + s1));
    assert(spec_log_bytes(h2.clog) == Some((Seq::<u8>::empty() + s1) + s2));
    assert(Seq::<u8>::empty() + s1 =~= s1);
    assert((Seq::<u8>::empty() + s1) + s2 =~= d2);
}

/// The New-stage round-trip law: the legacy framing of a nonempty
/// version list decodes back to exactly that list, consuming the whole
/// frame.  (An empty list's five-byte frame sits below the six bytes
/// the decoder demands before it will read a buffer at all, so it is
/// answered with "no cell yet" rather than parsed.)
pub proof fn lemma_versions_handshake_roundtrip(vs: Seq<u16>)
    requires
        1 <= vs.len() <= 0x7fff,
    ensures
        spec_new_decode(spec_versions_handshake_bytes(vs)) == (NewDecodeOutcome::Parsed {
            total: spec_versions_handshake_bytes(vs).len() as int,
            versions: vs,
        }),
{
    let b = spec_versions_handshake_bytes(vs);
    let n = vs.len();
    let lenb = spec_u16_be((2 * n) as u16);
    let body = spec_versions_body(vs);
    assert(b == seq![0u8, 0u8, chancmd::VERSIONS] + lenb + body);
    assert(b.len() == 5 + 2 * n);
    assert(b[0] == 0 && b[1] == 0 && b[2] == chancmd::VERSIONS);
    assert(b[3] == lenb[0] && b[4] == lenb[1]);
    crate::cell::lemma_u16_be_roundtrip((2 * n) as u16);
    assert(b[3] * 256 + b[4] == 2 * n);
    assert(b.subrange(5, b.len() as int) =~= body);
    crate::cell::lemma_versions_roundtrip(vs);
}

/// The channel cell handler, always in exactly one of its three stages.
///
/// It can only be built in the New stage, from a role: there is no way
/// to skip negotiation.  Stages move strictly forward, driven by
/// [`ChannelCellHandler::set_link_version`] and
/// [`ChannelCellHandler::set_open`]; Open is terminal.
pub enum ChannelCellHandler {
    /// A network connection just opened; the handshake starts here.
    New(NewChannelHandler),
    /// A VERSIONS cell was negotiated; this handles the handshake phase.
    Handshake(HandshakeChannelHandler),
    /// The handshake succeeded and the channel is open.
    Open(OpenChannelHandler),
}

impl ChannelCellHandler {
    /// Well-formed: whichever sub-handler is current is well-formed.
    pub open spec fn wf(self) -> bool {
        match self {
            ChannelCellHandler::New(_) => true,
            ChannelCellHandler::Handshake(h) => h.wf(),
            ChannelCellHandler::Open(o) => o.wf(),
        }
    }

    /// The only way to construct a handler: in the New stage, from the
    /// channel's role.
    pub fn new(channel_type: ChannelType) -> (r: Self)
        ensures
            r.wf(),
            r matches ChannelCellHandler::New(n) && n.channel_type == channel_type,
            r matches ChannelCellHandler::New(n) && (channel_type
                == ChannelType::ClientInitiator ==> n.clog is None && n.slog is None),
            r matches ChannelCellHandler::New(n) && (channel_type
                != ChannelType::ClientInitiator ==> spec_log_bytes(n.clog) == Some(
                Seq::<u8>::empty(),
            ) && spec_log_bytes(n.slog) == Some(Seq::<u8>::empty())),
    {
        ChannelCellHandler::New(NewChannelHandler::new(channel_type))
    }

    /// Set the link protocol for this handler, moving it from New to
    /// Handshake.
    ///
    /// Called in any other stage this is the caller's bug; an
    /// unrecognized version is the peer's protocol violation, after
    /// which the handler stays in New and the caller must drop the
    /// connection.
    pub fn set_link_version(&mut self, link_version: u16) -> (r: Result<(), Error>)
        requires
            old(self).wf(),
        ensures
            final(self).wf(),
            match *old(self) {
                ChannelCellHandler::New(n) => {
                    if spec_link_version_known(link_version) {
                        &&& r == Ok::<(), Error>(())
                        &&& *final(self) matches ChannelCellHandler::Handshake(h) && {
                            &&& h.channel_type == n.channel_type
                            &&& h.filter == (MessageFilter {
                                link_version,
                                channel_type: n.channel_type,
                                stage: MessageStage::Handshake,
                            })
                            &&& h.inner == (ChannelCodec { link_version })
                            &&& spec_log_bytes(h.clog) == spec_log_bytes(n.clog)
                            &&& spec_log_bytes(h.slog) == spec_log_bytes(n.slog)
                        }
                    } else {
                        &&& r == Err::<(), Error>(
                            Error::ChanProto(ProtoProblem::UnknownLinkVersion { link_version }),
                        )
                        &&& *final(self) == *old(self)
                    }
                },
                _ => r == Err::<(), Error>(Error::Bug(InternalProblem::NotInNewState))
                    && *final(self) == *old(self),
            },
    {
        match self {
            ChannelCellHandler::New(new_handler) => {
                // Make sure no unknown protocol value gets through.
                if !is_link_version_known(link_version) {
                    return Err(Error::ChanProto(ProtoProblem::UnknownLinkVersion {
                        link_version,
                    }));
                }
                let h = new_handler.next_handler(link_version);
                *self = ChannelCellHandler::Handshake(h);
                Ok(())
            },
            _ => Err(Error::Bug(InternalProblem::NotInNewState)),
        }
    }

    /// Move this handler from Handshake to Open.  Called in any other
    /// stage this is the caller's bug.
    pub fn set_open(&mut self) -> (r: Result<(), Error>)
        requires
            old(self).wf(),
        ensures
            final(self).wf(),
            match *old(self) {
                ChannelCellHandler::Handshake(h) => {
                    &&& r == Ok::<(), Error>(())
                    &&& *final(self) matches ChannelCellHandler::Open(o) && {
                        &&& o.filter == (MessageFilter {
                            link_version: h.inner.link_version,
                            channel_type: h.channel_type,
                            stage: MessageStage::Open,
                        })
                        &&& o.inner == h.inner
                    }
                },
                _ => r == Err::<(), Error>(Error::Bug(InternalProblem::NotInHandshakeState))
                    && *final(self) == *old(self),
            },
    {
        match self {
            ChannelCellHandler::Handshake(handler) => {
                let o = handler.next_handler();
                *self = ChannelCellHandler::Open(o);
                Ok(())
            },
            _ => Err(Error::Bug(InternalProblem::NotInHandshakeState)),
        }
    }

    /// Finalize and return the CLOG digest, consuming it.  Valid only in
    /// the Handshake stage, and only for a role that keeps the digest
    /// and has not taken it yet; anything else is the caller's bug.
    pub fn get_clog_digest(&mut self) -> (r: Result<[u8; 32], Error>)
        requires
            old(self).wf(),
        ensures
            final(self).wf(),
            match *old(self) {
                ChannelCellHandler::Handshake(h) => {
                    &&& match spec_log_bytes(h.clog) {
                        Some(bytes) => r matches Ok(d) && d@ == sha256_of(bytes),
                        None => r == Err::<[u8; 32], Error>(
                            Error::Bug(InternalProblem::DigestAbsent),
                        ),
                    }
                    &&& *final(self) matches ChannelCellHandler::Handshake(h2) && {
                        &&& h2.clog is None
                        &&& h2.slog == h.slog
                        &&& h2.channel_type == h.channel_type
                        &&& h2.filter == h.filter
                        &&& h2.inner == h.inner
                    }
                },
                _ => r == Err::<[u8; 32], Error>(Error::Bug(InternalProblem::NotInHandshakeState))
                    && *final(self) == *old(self),
            },
    {
        match self {
            ChannelCellHandler::Handshake(handler) => handler.take_clog(),
            _ => Err(Error::Bug(InternalProblem::NotInHandshakeState)),
        }
    }

    /// Finalize and return the SLOG digest, consuming it.  Valid only in
    /// the Handshake stage, and only for a role that keeps the digest
    /// and has not taken it yet; anything else is the caller's bug.
    pub fn get_slog_digest(&mut self) -> (r: Result<[u8; 32], Error>)
        requires
            old(self).wf(),
        ensures
            final(self).wf(),
            match *old(self) {
                ChannelCellHandler::Handshake(h) => {
                    &&& match spec_log_bytes(h.slog) {
                        Some(bytes) => r matches Ok(d) && d@ == sha256_of(bytes),
                        None => r == Err::<[u8; 32], Error>(
                            Error::Bug(InternalProblem::DigestAbsent),
                        ),
                    }
                    &&& *final(self) matches ChannelCellHandler::Handshake(h2) && {
                        &&& h2.slog is None
                        &&& h2.clog == h.clog
                        &&& h2.channel_type == h.channel_type
                        &&& h2.filter == h.filter
                        &&& h2.inner == h.inner
                    }
                },
                _ => r == Err::<[u8; 32], Error>(Error::Bug(InternalProblem::NotInHandshakeState))
                    && *final(self) == *old(self),
            },
    {
        match self {
            ChannelCellHandler::Handshake(handler) => handler.take_slog(),
            _ => Err(Error::Bug(InternalProblem::NotInHandshakeState)),
        }
    }

    /// Decode at most one cell from `src`, delegating raw framing to
    /// whichever sub-handler matches the current stage.  In the New
    /// stage only a VERSIONS cell can come out, carried with circuit
    /// identifier zero.
    pub fn decode(&mut self, src: &mut bytes::BytesMut) -> (r: Result<Option<AnyChanCell>, Error>)
        requires
            old(self).wf(),
        ensures
            final(self).wf(),
            match *old(self) {
                ChannelCellHandler::New(n) => *final(self) matches ChannelCellHandler::New(n2)
                    && NewChannelHandler::decode_cell_rel(
                    n,
                    n2,
                    buffer_bytes(*old(src)),
                    buffer_bytes(*final(src)),
                    r,
                ),
                ChannelCellHandler::Handshake(h) => *final(self)
                    matches ChannelCellHandler::Handshake(h2)
                    && HandshakeChannelHandler::decode_rel(
                    h,
                    h2,
                    buffer_bytes(*old(src)),
                    buffer_bytes(*final(src)),
                    r,
                ),
                ChannelCellHandler::Open(o) => *final(self) matches ChannelCellHandler::Open(o2)
                    && OpenChannelHandler::decode_rel(
                    o,
                    o2,
                    buffer_bytes(*old(src)),
                    buffer_bytes(*final(src)),
                    r,
                ),
            },
    {
        match self {
            ChannelCellHandler::New(c) => match c.decode(src) {
                Ok(Some(versions)) => Ok(
                    Some(AnyChanCell::new(0, AnyChanMsg::Versions { versions })),
                ),
                Ok(None) => Ok(None),
                Err(e) => Err(e),
            },
            ChannelCellHandler::Handshake(c) => c.decode(src),
            ChannelCellHandler::Open(c) => c.decode(src),
        }
    }

    /// Encode one cell into `dst`, delegating to whichever sub-handler
    /// matches the current stage.  The New stage frames nothing but
    /// VERSIONS messages: anything else is refused as unencodable there.
    pub fn encode(&mut self, item: AnyChanCell, dst: &mut bytes::BytesMut) -> (r: Result<
        (),
        Error,
    >)
        requires
            old(self).wf(),
        ensures
            final(self).wf(),
            match *old(self) {
                ChannelCellHandler::New(n) => match item.msg {
                    AnyChanMsg::Versions { versions } => *final(self)
                        matches ChannelCellHandler::New(n2) && NewChannelHandler::encode_rel(
                        n,
                        n2,
                        buffer_bytes(*old(dst)),
                        buffer_bytes(*final(dst)),
                        versions@,
                        r,
                    ),
                    _ => {
                        &&& r == Err::<(), Error>(
                            Error::Encode(
                                EncodeProblem::NotVersions { cmd: item.msg.spec_cmd() },
                            ),
                        )
                        &&& *final(self) matches ChannelCellHandler::New(n2)
                            && n2.channel_type == n.channel_type && spec_log_bytes(n2.clog)
                            == spec_log_bytes(n.clog) && spec_log_bytes(n2.slog)
                            == spec_log_bytes(n.slog)
                        &&& buffer_bytes(*final(dst)) == buffer_bytes(*old(dst))
                    },
                },
                ChannelCellHandler::Handshake(h) => *final(self)
                    matches ChannelCellHandler::Handshake(h2)
                    && HandshakeChannelHandler::encode_rel(
                    h,
                    h2,
                    buffer_bytes(*old(dst)),
                    buffer_bytes(*final(dst)),
                    item,
                    r,
                ),
                ChannelCellHandler::Open(o) => *final(self) matches ChannelCellHandler::Open(o2)
                    && OpenChannelHandler::encode_rel(
                    o,
                    o2,
                    buffer_bytes(*old(dst)),
                    buffer_bytes(*final(dst)),
                    item,
                    r,
                ),
            },
    {
        match self {
            ChannelCellHandler::New(c) => {
                // The New stage pins the only possible message to
                // VERSIONS; anything else cannot be framed here.
                let (_, msg) = item.into_circid_and_msg();
                match msg {
                    AnyChanMsg::Versions { versions } => c.encode(&versions, dst),
                    other => Err(Error::Encode(EncodeProblem::NotVersions {
                        cmd: other.cmd(),
                    })),
                }
            },
            ChannelCellHandler::Handshake(c) => c.encode(item, dst),
            ChannelCellHandler::Open(c) => c.encode(item, dst),
        }
    }
}

} // verus!
