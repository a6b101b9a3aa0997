//! A packet parser for Intel PT traces.

use crate::dump::{binary_digits, peek_items, push_binary, spec_byte_stream_str, spec_join};
use crate::model::{first_match, lemma_parse_kind, spec_parse_kind, ParserModel, Pull};
use crate::packets::{
    CBRPacket, CYCPacket, FUPPacket, LongTNTPacket, MODEPacket, PADPacket, PSBENDPacket, PSBPacket,
    Packet, PacketKind, ShortTNTPacket, TIPPGDPacket, TIPPGEPacket, TIPPacket,
};
use crate::state::PacketParserState;
use vstd::prelude::*;
use vstd::slice::slice_subrange;

verus! {

/// No packet that the parser's state admits was found at the cursor.
#[derive(Clone, Debug, PartialEq, Eq)]
pub struct TraceParseError {
    /// The state that the parser was in.
    pub state: PacketParserState,
    /// A peek at the next bytes of the trace, in binary.
    pub peek: String,
}

impl TraceParseError {
    /// The error in words: the state, then the peek.
    pub open spec fn spec_message(&self) -> Seq<char> {
        "In state "@ + self.state.spec_name() + ", failed to parse packet: "@ + self.peek@
    }

    /// The error in words.
    pub fn message(&self) -> (r: String)
        ensures
            r@ == self.spec_message(),
    {
        let mut out = String::from_str("In state ");
        out.append(self.state.name());
        out.append(", failed to parse packet: ");
        out.append(self.peek.as_str());
        out
    }
}

/// A pull-based parser over the bytes of a trace.
pub struct PacketParser<'t> {
    /// The raw bytes of the PT trace that are still to be parsed.
    bytes: &'t [u8],
    /// The parser operates as a state machine. This field keeps track of which state we are in.
    state: PacketParserState,
    /// The most recent Target IP (TIP) value that we've seen. This is needed because updated TIP
    /// values are sometimes compressed using bits from the previous TIP value.
    prev_tip: u64,
}

impl<'t> View for PacketParser<'t> {
    type V = ParserModel;

    closed spec fn view(&self) -> ParserModel {
        ParserModel { bytes: self.bytes@, state: self.state, prev_tip: self.prev_tip }
    }
}

impl<'t> PacketParser<'t> {
    /// A parser in the initial state, with the whole of `bytes` ahead of it and
    /// a previous TIP of zero.
    pub fn new(bytes: &'t [u8]) -> (r: Self)
        ensures
            r@ == ParserModel::initial(bytes@),
    {
        Self { bytes, state: PacketParserState::Init, prev_tip: 0 }
    }

    /// The bytes that are still to be parsed.
    pub fn remaining(&self) -> (r: &'t [u8])
        ensures
            r@ == self@.bytes,
    {
        self.bytes
    }

    /// The state that the parser is in.
    pub fn state(&self) -> (r: PacketParserState)
        ensures
            r == self@.state,
    {
        self.state
    }

    /// The most recent target IP that a packet announced.
    pub fn prev_tip(&self) -> (r: u64)
        ensures
            r == self@.prev_tip,
    {
        self.prev_tip
    }

    /// Attempt to parse a packet of the specified `PacketKind`.
    ///
    /// On a match the cursor moves past the packet; on a mismatch nothing changes.
    pub fn parse_kind(&mut self, kind: PacketKind) -> (r: Option<Packet>)
        ensures
            match spec_parse_kind(kind, old(self)@.bytes, old(self)@.prev_tip) {
                Some((pkt, n)) => {
                    &&& r == Some(pkt)
                    &&& pkt.wf()
                    &&& final(self)@ == old(self)@.advanced(n)
                },
                None => r is None && final(self)@ == old(self)@,
            },
    {
        proof {
            lemma_parse_kind(kind, self.bytes@, self.prev_tip);
        }
        let parse_res: Option<(Packet, usize)> = match kind {
            PacketKind::PSB => match PSBPacket::read(self.bytes) {
                Some((p, n)) => Some((Packet::PSB(p), n)),
                None => None,
            },
            PacketKind::CBR => match CBRPacket::read(self.bytes) {
                Some((p, n)) => Some((Packet::CBR(p), n)),
                None => None,
            },
            PacketKind::PSBEND => match PSBENDPacket::read(self.bytes) {
                Some((p, n)) => Some((Packet::PSBEND(p), n)),
                None => None,
            },
            PacketKind::PAD => match PADPacket::read(self.bytes) {
                Some((p, n)) => Some((Packet::PAD(p), n)),
                None => None,
            },
            PacketKind::MODE => match MODEPacket::read(self.bytes) {
                Some((p, n)) => Some((Packet::MODE(p), n)),
                None => None,
            },
            PacketKind::TIPPGE => match TIPPGEPacket::read(self.bytes) {
                Some((p, n)) => if p.needs_prev_tip() {
                    Some((Packet::TIPPGE(p, Some(self.prev_tip)), n))
                } else {
                    Some((Packet::TIPPGE(p, None), n))
                },
                None => None,
            },
            PacketKind::TIPPGD => match TIPPGDPacket::read(self.bytes) {
                Some((p, n)) => if p.needs_prev_tip() {
                    Some((Packet::TIPPGD(p, Some(self.prev_tip)), n))
                } else {
                    Some((Packet::TIPPGD(p, None), n))
                },
                None => None,
            },
            PacketKind::ShortTNT => match ShortTNTPacket::read(self.bytes) {
                Some((p, n)) => Some((Packet::ShortTNT(p), n)),
                None => None,
            },
            PacketKind::LongTNT => match LongTNTPacket::read(self.bytes) {
                Some((p, n)) => Some((Packet::LongTNT(p), n)),
                None => None,
            },
            PacketKind::TIP => match TIPPacket::read(self.bytes) {
                Some((p, n)) => if p.needs_prev_tip() {
                    Some((Packet::TIP(p, Some(self.prev_tip)), n))
                } else {
                    Some((Packet::TIP(p, None), n))
                },
                None => None,
            },
            PacketKind::FUP => match FUPPacket::read(self.bytes) {
                Some((p, n)) => if p.needs_prev_tip() {
                    Some((Packet::FUP(p, Some(self.prev_tip)), n))
                } else {
                    Some((Packet::FUP(p, None), n))
                },
                None => None,
            },
            PacketKind::CYC => match CYCPacket::read(self.bytes) {
                Some((p, n)) => Some((Packet::CYC(p), n)),
                None => None,
            },
        };
        match parse_res {
            Some((pkt, n)) => {
                let remain = slice_subrange(self.bytes, n, self.bytes.len());
                assert(remain@ =~= self.bytes@.skip(n as int));
                self.bytes = remain;
                Some(pkt)
            },
            None => None,
        }
    }

    /// Attempt to parse a packet for the current parser state.
    ///
    /// The kinds that the state admits are tried in order and the first to
    /// match wins. If none matches, the error shows the next eight bytes and
    /// the parser is left as it was.
    pub fn parse_state(&mut self) -> (r: Result<Packet, TraceParseError>)
        ensures
            match old(self)@.spec_parse_state() {
                Some((pkt, n)) => {
                    &&& r == Ok::<Packet, TraceParseError>(pkt)
                    &&& pkt.wf()
                    &&& final(self)@ == old(self)@.advanced(n)
                },
                None => {
                    &&& r matches Err(e)
                    &&& e.state == old(self)@.state
                    &&& e.peek@ == spec_byte_stream_str(old(self)@.bytes, 8, ", "@)
                    &&& final(self)@ == old(self)@
                },
            },
    {
        let kinds = self.state.valid_packets();
        let ghost start = self@;
        let mut i: usize = 0;
        assert(kinds@.skip(0) =~= kinds@);
        while i < kinds.len()
            invariant
                i <= kinds@.len(),
                self@ == start,
                start == old(self)@,
                kinds@ == start.state.spec_valid_packets(),
                start.spec_parse_state() == first_match(
                    kinds@.skip(i as int),
                    start.bytes,
                    start.prev_tip,
                ),
            decreases kinds@.len() - i,
        {
            proof {
                assert(kinds@.skip(i as int).drop_first() =~= kinds@.skip(i + 1));
                assert(kinds@.skip(i as int)[0] == kinds@[i as int]);
            }
            if let Some(pkt) = self.parse_kind(kinds[i]) {
                return Ok(pkt);
            }
            i = i + 1;
        }
        Err(TraceParseError { state: self.state, peek: self.byte_stream_str(8, ", ") })
    }

    /// Returns a string showing a binary formatted peek at the next `nbytes` bytes of
    /// the trace. Bytes in the output are separated by `sep`, and `...` marks that more
    /// bytes follow those that are shown.
    ///
    /// This is used to format error messages, but is also useful when debugging.
    pub fn byte_stream_str(&self, nbytes: usize, sep: &str) -> (r: String)
        ensures
            r@ == spec_byte_stream_str(self@.bytes, nbytes as nat, sep@),
    {
        let shown: usize = if nbytes < self.bytes.len() {
            nbytes
        } else {
            self.bytes.len()
        };
        let ghost items = peek_items(self.bytes@, nbytes as nat);
        let mut out = String::new();
        let mut i: usize = 0;
        while i < shown
            invariant
                i <= shown <= self.bytes@.len(),
                shown <= items.len(),
                forall|j: int| 0 <= j < shown ==> items[j] == binary_digits(self.bytes@[j]),
                out@ == spec_join(items.take(i as int), sep@),
            decreases shown - i,
        {
            if i > 0 {
                out.append(sep);
            }
            push_binary(&mut out, self.bytes[i]);
            proof {
                let now = items.take(i + 1);
                assert(now.drop_last() =~= items.take(i as int));
                assert(now.last() == items[i as int]);
                if i == 0 {
                    assert(out@ =~= now[0]);
                }
            }
            i = i + 1;
        }
        if self.bytes.len() > nbytes {
            if shown > 0 {
                out.append(sep);
            }
            out.append("...");
            proof {
                assert(items.drop_last() =~= items.take(shown as int));
                assert(items.last() == "..."@);
                if shown == 0 {
                    assert(out@ =~= items[0]);
                }
            }
        } else {
            assert(items.take(shown as int) =~= items);
        }
        out
    }

    /// Attempt to parse a packet.
    ///
    /// A packet that announces a target IP becomes the parser's previous TIP,
    /// and a packet that opens or closes a PSB+ sequence changes the state,
    /// both only once the packet has been built.
    pub fn parse_packet(&mut self) -> (r: Result<Packet, TraceParseError>)
        ensures
            match old(self)@.spec_parse_state() {
                Some((pkt, n)) => {
                    &&& r == Ok::<Packet, TraceParseError>(pkt)
                    &&& pkt.wf()
                    &&& final(self)@ == old(self)@.after(pkt, n)
                },
                None => {
                    &&& r matches Err(e)
                    &&& e.state == old(self)@.state
                    &&& e.peek@ == spec_byte_stream_str(old(self)@.bytes, 8, ", "@)
                    &&& final(self)@ == old(self)@
                },
            },
    {
        // Attempt to parse a packet.
        let pkt = match self.parse_state() {
            Ok(pkt) => pkt,
            Err(e) => {
                return Err(e);
            },
        };

        // If the packet contains an updated TIP, then cache it.
        if let Some(tip) = pkt.target_ip() {
            self.prev_tip = tip;
        }

        // See if the packet we just parsed triggers a state transition.
        self.state.transition(pkt.kind());

        Ok(pkt)
    }

    /// Pulls the next packet out of the trace: nothing once the input is used
    /// up, else the packet at the cursor or the error that none is there.
    pub fn next(&mut self) -> (r: Option<Result<Packet, TraceParseError>>)
        ensures
            final(self)@ == old(self)@.after_pull(),
            match old(self)@.pull() {
                Pull::End => r is None,
                Pull::Yield(pkt, _) => r == Some(Ok::<Packet, TraceParseError>(pkt)) && pkt.wf(),
                Pull::Fail(state, peek) => {
                    &&& r matches Some(Err(e))
                    &&& e.state == state
                    &&& e.peek@ == peek
                },
            },
    {
        if !self.bytes.is_empty() {
            Some(self.parse_packet())
        } else {
            None
        }
    }
}

} // verus!
