//! The states of the parser and the packets that each of them admits.

use crate::packets::PacketKind;
use vstd::prelude::*;

verus! {

/// The states of the packet parser.
#[derive(Clone, Copy, Debug, PartialEq, Eq, Structural)]
pub enum PacketParserState {
    /// Initial state, waiting for a PSB packet.
    Init,
    /// The "normal" decoding state.
    Normal,
    /// We are decoding a PSB+ sequence.
    PSBPlus,
}

impl PacketParserState {
    /// The kinds of packet that may come next in each state, in the order in
    /// which the parser tries them.
    pub open spec fn spec_valid_packets(&self) -> Seq<PacketKind> {
        match self {
            Self::Init => seq![PacketKind::PSB],
            Self::Normal => seq![
                PacketKind::ShortTNT,
                PacketKind::PAD,
                PacketKind::FUP,
                PacketKind::TIP,
                PacketKind::CYC,
                PacketKind::LongTNT,
                PacketKind::PSB,
                PacketKind::MODE,
                PacketKind::TIPPGE,
                PacketKind::TIPPGD,
            ],
            Self::PSBPlus => seq![PacketKind::CBR, PacketKind::PSBEND],
        }
    }

    /// Returns the kinds of packet that are valid for the state.
    ///
    /// The parser attempts to match packet kinds in the order in which they
    /// appear in the returned slice, most frequently expected kinds first.
    pub fn valid_packets(&self) -> (r: &'static [PacketKind])
        ensures
            r@ == self.spec_valid_packets(),
    {
        match self {
            Self::Init => {
                let kinds: &'static [PacketKind] = &[PacketKind::PSB];
                assert(kinds@ =~= self.spec_valid_packets());
                kinds
            },
            Self::Normal => {
                let kinds: &'static [PacketKind] = &[
                    PacketKind::ShortTNT,
                    PacketKind::PAD,
                    PacketKind::FUP,
                    PacketKind::TIP,
                    PacketKind::CYC,
                    PacketKind::LongTNT,
                    PacketKind::PSB,
                    PacketKind::MODE,
                    PacketKind::TIPPGE,
                    PacketKind::TIPPGD,
                ];
                assert(kinds@ =~= self.spec_valid_packets());
                kinds
            },
            Self::PSBPlus => {
                let kinds: &'static [PacketKind] = &[PacketKind::CBR, PacketKind::PSBEND];
                assert(kinds@ =~= self.spec_valid_packets());
                kinds
            },
        }
    }

    /// The name of the state, as error messages show it.
    pub open spec fn spec_name(&self) -> Seq<char> {
        match self {
            Self::Init => "Init"@,
            Self::Normal => "Normal"@,
            Self::PSBPlus => "PSBPlus"@,
        }
    }

    /// Returns the name of the state.
    pub fn name(&self) -> (r: &'static str)
        ensures
            r@ == self.spec_name(),
    {
        match self {
            Self::Init => "Init",
            Self::Normal => "Normal",
            Self::PSBPlus => "PSBPlus",
        }
    }

    /// The state that follows `self` once a packet of kind `pkt_kind` has been parsed.
    pub open spec fn spec_transition(self, pkt_kind: PacketKind) -> Self {
        match (self, pkt_kind) {
            (Self::Init, PacketKind::PSB) => Self::PSBPlus,
            (Self::Normal, PacketKind::PSB) => Self::PSBPlus,
            (Self::PSBPlus, PacketKind::PSBEND) => Self::Normal,
            _ => self,
        }
    }

    /// Check if the parser needs to transition to a new state as a result of parsing a certain
    /// kind of packet.
    pub fn transition(&mut self, pkt_kind: PacketKind)
        ensures
            *final(self) == old(self).spec_transition(pkt_kind),
    {
        let new = match (*self, pkt_kind) {
            (Self::Init, PacketKind::PSB) => Self::PSBPlus,
            (Self::Normal, PacketKind::PSB) => Self::PSBPlus,
            (Self::PSBPlus, PacketKind::PSBEND) => Self::Normal,
            _ => return ,  // No state transition.
        };
        *self = new;
    }
}

} // verus!
