//! The parser as a mathematical object: what a pull does to the remaining
//! input, the parser state and the previous TIP.

use crate::codec::{
    lemma_ip_packet, FUP_OPCODE, TIP_OPCODE, TIP_PGD_OPCODE, TIP_PGE_OPCODE,
};
use crate::dump::spec_byte_stream_str;
use crate::packets::{
    CBRPacket, CYCPacket, FUPPacket, LongTNTPacket, MODEPacket, PADPacket, PSBENDPacket, PSBPacket,
    Packet, PacketKind, ShortTNTPacket, TIPPGDPacket, TIPPGEPacket, TIPPacket,
};
use crate::state::PacketParserState;
use vstd::prelude::*;

verus! {

/// The previous TIP that an IP packet takes along when it is parsed: the
/// parser's, where the packet's compression mode draws on it, and none otherwise.
pub open spec fn snapshot(needs_prev_tip: bool, prev_tip: u64) -> Option<u64> {
    if needs_prev_tip {
        Some(prev_tip)
    } else {
        None
    }
}

/// The packet of kind `kind` at the start of `bytes` and its length in bytes,
/// if there is one.
pub open spec fn spec_parse_kind(kind: PacketKind, bytes: Seq<u8>, prev_tip: u64) -> Option<
    (Packet, nat),
> {
    match kind {
        PacketKind::PSB => match PSBPacket::spec_read(bytes) {
            Some((p, n)) => Some((Packet::PSB(p), n)),
            None => None,
        },
        PacketKind::CBR => match CBRPacket::spec_read(bytes) {
            Some((p, n)) => Some((Packet::CBR(p), n)),
            None => None,
        },
        PacketKind::PSBEND => match PSBENDPacket::spec_read(bytes) {
            Some((p, n)) => Some((Packet::PSBEND(p), n)),
            None => None,
        },
        PacketKind::PAD => match PADPacket::spec_read(bytes) {
            Some((p, n)) => Some((Packet::PAD(p), n)),
            None => None,
        },
        PacketKind::MODE => match MODEPacket::spec_read(bytes) {
            Some((p, n)) => Some((Packet::MODE(p), n)),
            None => None,
        },
        PacketKind::TIPPGE => match TIPPGEPacket::spec_read(bytes) {
            Some((p, n)) => Some(
                (Packet::TIPPGE(p, snapshot(p.spec_needs_prev_tip(), prev_tip)), n),
            ),
            None => None,
        },
        PacketKind::TIPPGD => match TIPPGDPacket::spec_read(bytes) {
            Some((p, n)) => Some(
                (Packet::TIPPGD(p, snapshot(p.spec_needs_prev_tip(), prev_tip)), n),
            ),
            None => None,
        },
        PacketKind::ShortTNT => match ShortTNTPacket::spec_read(bytes) {
            Some((p, n)) => Some((Packet::ShortTNT(p), n)),
            None => None,
        },
        PacketKind::LongTNT => match LongTNTPacket::spec_read(bytes) {
            Some((p, n)) => Some((Packet::LongTNT(p), n)),
            None => None,
        },
        PacketKind::TIP => match TIPPacket::spec_read(bytes) {
            Some((p, n)) => Some((Packet::TIP(p, snapshot(p.spec_needs_prev_tip(), prev_tip)), n)),
            None => None,
        },
        PacketKind::FUP => match FUPPacket::spec_read(bytes) {
            Some((p, n)) => Some((Packet::FUP(p, snapshot(p.spec_needs_prev_tip(), prev_tip)), n)),
            None => None,
        },
        PacketKind::CYC => match CYCPacket::spec_read(bytes) {
            Some((p, n)) => Some((Packet::CYC(p), n)),
            None => None,
        },
    }
}

/// The packet that the first of `kinds` to match finds at the start of `bytes`.
pub open spec fn first_match(kinds: Seq<PacketKind>, bytes: Seq<u8>, prev_tip: u64) -> Option<
    (Packet, nat),
>
    decreases kinds.len(),
{
    if kinds.len() == 0 {
        None
    } else {
        match spec_parse_kind(kinds[0], bytes, prev_tip) {
            Some(found) => Some(found),
            None => first_match(kinds.drop_first(), bytes, prev_tip),
        }
    }
}

/// A packet that was framed lies within the input, is at least one byte long,
/// is of the kind that was asked for, and is well formed.
pub proof fn lemma_parse_kind(kind: PacketKind, bytes: Seq<u8>, prev_tip: u64)
    ensures
        spec_parse_kind(kind, bytes, prev_tip) matches Some((pkt, n)) ==> {
            &&& 1 <= n <= bytes.len()
            &&& pkt.spec_kind() == kind
            &&& pkt.wf()
        },
{
    match kind {
        PacketKind::CYC => {
            CYCPacket::lemma_extension_len(bytes.skip(1));
        },
        PacketKind::TIPPGE | PacketKind::TIPPGD | PacketKind::TIP | PacketKind::FUP => {
            lemma_ip_packet(bytes, TIP_PGE_OPCODE);
            lemma_ip_packet(bytes, TIP_PGD_OPCODE);
            lemma_ip_packet(bytes, TIP_OPCODE);
            lemma_ip_packet(bytes, FUP_OPCODE);
        },
        _ => {},
    }
}

/// What `first_match` finds was found by one of `kinds`.
pub proof fn lemma_first_match(kinds: Seq<PacketKind>, bytes: Seq<u8>, prev_tip: u64)
    ensures
        first_match(kinds, bytes, prev_tip) matches Some((pkt, n)) ==> {
            &&& 1 <= n <= bytes.len()
            &&& kinds.contains(pkt.spec_kind())
            &&& spec_parse_kind(pkt.spec_kind(), bytes, prev_tip) == Some((pkt, n))
            &&& pkt.wf()
        },
    decreases kinds.len(),
{
    if kinds.len() > 0 {
        lemma_parse_kind(kinds[0], bytes, prev_tip);
        lemma_first_match(kinds.drop_first(), bytes, prev_tip);
        if spec_parse_kind(kinds[0], bytes, prev_tip) is None {
            let rest = kinds.drop_first();
            if let Some((pkt, _)) = first_match(rest, bytes, prev_tip) {
                let i = choose|i: int| 0 <= i < rest.len() && rest[i] == pkt.spec_kind();
                assert(kinds[i + 1] == pkt.spec_kind());
            }
        }
    }
}

/// The three things that a parser holds between two pulls.
pub struct ParserModel {
    /// The input that is still to be parsed.
    pub bytes: Seq<u8>,
    pub state: PacketParserState,
    /// The most recent target IP that a packet announced; zero before the first.
    pub prev_tip: u64,
}

/// What one pull gives.
pub enum Pull {
    /// The input is used up.
    End,
    /// A packet, and the number of bytes that it occupies.
    Yield(Packet, nat),
    /// No packet that the state admits is at the cursor. The error tells the
    /// state and shows the bytes that lie ahead.
    Fail(PacketParserState, Seq<char>),
}

impl ParserModel {
    /// A parser that has the whole of `bytes` ahead of it.
    pub open spec fn initial(bytes: Seq<u8>) -> Self {
        ParserModel { bytes, state: PacketParserState::Init, prev_tip: 0 }
    }

    /// The packet at the cursor: the one found by the first kind to match among
    /// those that the state admits.
    pub open spec fn spec_parse_state(self) -> Option<(Packet, nat)> {
        first_match(self.state.spec_valid_packets(), self.bytes, self.prev_tip)
    }

    /// The parser with its cursor moved `n` bytes ahead.
    pub open spec fn advanced(self, n: nat) -> Self {
        ParserModel { bytes: self.bytes.skip(n as int), ..self }
    }

    /// The parser once it has yielded `pkt`, which was `n` bytes long: the
    /// cursor is past the packet, the previous TIP is the one that the packet
    /// announced if it announced any, and the state is the one that the
    /// packet's kind leads to.
    pub open spec fn after(self, pkt: Packet, n: nat) -> Self {
        ParserModel {
            bytes: self.bytes.skip(n as int),
            state: self.state.spec_transition(pkt.spec_kind()),
            prev_tip: match pkt.spec_target_ip() {
                Some(tip) => tip,
                None => self.prev_tip,
            },
        }
    }

    /// What the next pull gives.
    pub open spec fn pull(self) -> Pull {
        if self.bytes.len() == 0 {
            Pull::End
        } else {
            match self.spec_parse_state() {
                Some((pkt, n)) => Pull::Yield(pkt, n),
                None => Pull::Fail(self.state, spec_byte_stream_str(self.bytes, 8, ", "@)),
            }
        }
    }

    /// The parser after the next pull. Only a pull that yields a packet changes it.
    pub open spec fn after_pull(self) -> Self {
        match self.pull() {
            Pull::Yield(pkt, n) => self.after(pkt, n),
            _ => self,
        }
    }
}

} // verus!
