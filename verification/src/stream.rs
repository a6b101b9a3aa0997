//! What holds of a whole run of pulls, proved of the parser's model.

use crate::codec::{pad_magic, psb_magic};
use crate::model::{first_match, lemma_first_match, spec_parse_kind, ParserModel, Pull};
use crate::packets::{PADPacket, PSBPacket, Packet, PacketKind, ShortTNTPacket};
use crate::state::PacketParserState;
use vstd::prelude::*;

verus! {

impl Pull {
    /// The number of bits that the pull consumed: those of the packet that it
    /// yielded, and none if it yielded no packet.
    pub open spec fn bits(self) -> nat {
        match self {
            Pull::Yield(_, n) => 8 * n,
            _ => 0,
        }
    }

    /// Whether the pull yielded a packet of kind `kind`.
    pub open spec fn yields_kind(self, kind: PacketKind) -> bool {
        self matches Pull::Yield(pkt, _) && pkt.spec_kind() == kind
    }

    /// Whether the pull yielded a packet that announces a target IP.
    pub open spec fn yields_target_ip(self) -> bool {
        self matches Pull::Yield(pkt, _) && pkt.spec_target_ip() is Some
    }
}

impl ParserModel {
    /// The parser after `k` pulls.
    pub open spec fn after_pulls(self, k: nat) -> Self
        decreases k,
    {
        if k == 0 {
            self
        } else {
            self.after_pulls((k - 1) as nat).after_pull()
        }
    }

    /// What the pull with the number `k` gives, the first pull being number 0.
    pub open spec fn nth_pull(self, k: nat) -> Pull {
        self.after_pulls(k).pull()
    }

    /// The number of bits that the first `k` pulls consumed together.
    pub open spec fn bits_consumed(self, k: nat) -> nat
        decreases k,
    {
        if k == 0 {
            0
        } else {
            self.bits_consumed((k - 1) as nat) + self.nth_pull((k - 1) as nat).bits()
        }
    }
}

/// A pull that yields a packet yields one of a kind that the state admits,
/// which lies wholly within the remaining input; the cursor moves past it and
/// never back. A pull that yields no packet leaves the parser as it was.
pub proof fn lemma_pull(m: ParserModel)
    ensures
        match m.pull() {
            Pull::Yield(pkt, n) => {
                &&& 1 <= n <= m.bytes.len()
                &&& m.state.spec_valid_packets().contains(pkt.spec_kind())
                &&& spec_parse_kind(pkt.spec_kind(), m.bytes, m.prev_tip) == Some((pkt, n))
                &&& pkt.wf()
                &&& m.after_pull().bytes == m.bytes.skip(n as int)
                &&& m.after_pull().bytes.len() == m.bytes.len() - n
            },
            _ => m.after_pull() == m,
        },
{
    lemma_first_match(m.state.spec_valid_packets(), m.bytes, m.prev_tip);
}

/// Which packets each state yields: only PSB in `Init`, only CBR and PSBEND in
/// `PSBPlus`, and neither of those two in `Normal`.
pub proof fn lemma_admitted_kinds(m: ParserModel)
    ensures
        m.pull() matches Pull::Yield(pkt, _) ==> match m.state {
            PacketParserState::Init => pkt.spec_kind() == PacketKind::PSB,
            PacketParserState::PSBPlus => pkt.spec_kind() == PacketKind::CBR || pkt.spec_kind()
                == PacketKind::PSBEND,
            PacketParserState::Normal => pkt.spec_kind() != PacketKind::CBR && pkt.spec_kind()
                != PacketKind::PSBEND,
        },
{
    lemma_pull(m);
    let kinds = m.state.spec_valid_packets();
    assert(forall|i: int|
        0 <= i < kinds.len() && m.state == PacketParserState::Normal ==> kinds[i]
            != PacketKind::CBR && kinds[i] != PacketKind::PSBEND);
}

/// The bits consumed by the packets that were yielded are exactly the bits by
/// which the remaining input has become shorter, after any number of pulls on
/// any input.
pub proof fn lemma_bits_consumed(m: ParserModel, k: nat)
    ensures
        m.bits_consumed(k) == 8 * m.bytes.len() - 8 * m.after_pulls(k).bytes.len(),
        m.after_pulls(k).bytes.len() <= m.bytes.len(),
        m.after_pulls(k).bytes == m.bytes.skip(m.bytes.len() - m.after_pulls(k).bytes.len()),
    decreases k,
{
    if k == 0 {
        assert(m.bytes.skip(0) =~= m.bytes);
    } else {
        let before = m.after_pulls((k - 1) as nat);
        lemma_bits_consumed(m, (k - 1) as nat);
        lemma_pull(before);
        let gone = m.bytes.len() - before.bytes.len();
        match before.pull() {
            Pull::Yield(_, n) => {
                assert(m.bytes.skip(gone).skip(n as int) =~= m.bytes.skip(gone + n));
            },
            _ => {},
        }
    }
}

/// Once a pull has yielded no packet, every later pull gives the same: the end
/// of the stream stays the end, and an error comes again with the same state
/// and the same peek.
pub proof fn lemma_no_packet_repeats(m: ParserModel, k: nat)
    requires
        !(m.pull() is Yield),
    ensures
        m.after_pulls(k) == m,
        m.nth_pull(k) == m.pull(),
    decreases k,
{
    if k > 0 {
        lemma_no_packet_repeats(m, (k - 1) as nat);
    }
}

/// On an input that begins with the PSB magic, the first pull yields a PSB
/// packet of sixteen bytes and leaves the parser in the state `PSBPlus`.
pub proof fn lemma_psb_first(bytes: Seq<u8>)
    requires
        psb_magic().is_prefix_of(bytes),
    ensures
        ParserModel::initial(bytes).pull() == Pull::Yield(Packet::PSB(PSBPacket {  }), 16),
        ParserModel::initial(bytes).after_pull().state == PacketParserState::PSBPlus,
{
    let m = ParserModel::initial(bytes);
    assert(m.state.spec_valid_packets()[0] == PacketKind::PSB);
}

/// A PSB packet opens a PSB+ sequence in whichever state it is yielded.
pub proof fn lemma_psb_opens_sequence(m: ParserModel)
    requires
        m.pull().yields_kind(PacketKind::PSB),
    ensures
        m.after_pull().state == PacketParserState::PSBPlus,
{
    lemma_pull(m);
    let kinds = m.state.spec_valid_packets();
    assert(forall|i: int| 0 <= i < kinds.len() && kinds[i] == PacketKind::PSB ==> m.state
        != PacketParserState::PSBPlus);
}

/// Inside a PSB+ sequence, up to the PSBEND packet that closes it, every
/// packet that is yielded is a CBR packet and the state stays `PSBPlus`; the
/// pull after those yields a CBR or a PSBEND packet if it yields any, and a
/// PSBEND packet puts the parser in the state `Normal`.
pub proof fn lemma_psb_plus_sequence(m: ParserModel, k: nat)
    requires
        m.state == PacketParserState::PSBPlus,
        forall|i: nat| i < k ==> !(#[trigger] m.nth_pull(i)).yields_kind(PacketKind::PSBEND),
    ensures
        forall|i: nat|
            i < k && (#[trigger] m.nth_pull(i)) is Yield ==> m.nth_pull(i).yields_kind(
                PacketKind::CBR,
            ),
        m.after_pulls(k).state == PacketParserState::PSBPlus,
        m.nth_pull(k) is Yield ==> m.nth_pull(k).yields_kind(PacketKind::CBR) || m.nth_pull(
            k,
        ).yields_kind(PacketKind::PSBEND),
        m.nth_pull(k).yields_kind(PacketKind::PSBEND) ==> m.after_pulls(k + 1).state
            == PacketParserState::Normal,
    decreases k,
{
    if k > 0 {
        lemma_psb_plus_sequence(m, (k - 1) as nat);
        assert(!m.nth_pull((k - 1) as nat).yields_kind(PacketKind::PSBEND));
    }
    let now = m.after_pulls(k);
    lemma_pull(now);
    let kinds = now.state.spec_valid_packets();
    assert(kinds.len() == 2 && kinds[0] == PacketKind::CBR && kinds[1] == PacketKind::PSBEND);
    assert(m.after_pulls(k + 1) == now.after_pull());
}

/// Once a packet has announced a target IP, that address is the previous TIP
/// for every later pull, until a packet that announces another one is yielded.
pub proof fn lemma_prev_tip_persists(m: ParserModel, i: nat, j: nat, tip: u64)
    requires
        i < j,
        m.nth_pull(i) matches Pull::Yield(pkt, _) && pkt.spec_target_ip() == Some(tip),
        forall|k: nat| i < k < j ==> !(#[trigger] m.nth_pull(k)).yields_target_ip(),
    ensures
        m.after_pulls(j).prev_tip == tip,
    decreases j,
{
    if j > i + 1 {
        lemma_prev_tip_persists(m, i, (j - 1) as nat, tip);
        assert(!m.nth_pull((j - 1) as nat).yields_target_ip());
    }
}

/// A packet that announces no target IP, and a pull that yields no packet,
/// leave the previous TIP as it was.
pub proof fn lemma_prev_tip_kept(m: ParserModel)
    requires
        !m.pull().yields_target_ip(),
    ensures
        m.after_pull().prev_tip == m.prev_tip,
{
}

/// Two parsers made over equal buffers give the same result at every pull.
pub proof fn lemma_same_buffer_same_pulls(a: Seq<u8>, b: Seq<u8>, k: nat)
    requires
        a =~= b,
    ensures
        ParserModel::initial(a).nth_pull(k) == ParserModel::initial(b).nth_pull(k),
        ParserModel::initial(a).after_pulls(k) == ParserModel::initial(b).after_pulls(k),
{
}

/// In the state `Normal`, an input of zero bytes alone is a run of PAD
/// packets, one for each byte, and then the end of the stream.
pub proof fn lemma_zeros_are_pads(m: ParserModel, k: nat)
    requires
        m.state == PacketParserState::Normal,
        forall|i: int| 0 <= i < m.bytes.len() ==> m.bytes[i] == 0,
        k <= m.bytes.len(),
    ensures
        k < m.bytes.len() ==> m.nth_pull(k) == Pull::Yield(Packet::PAD(PADPacket {  }), 1),
        k == m.bytes.len() ==> m.nth_pull(k) == Pull::End,
        m.after_pulls(k) == m.advanced(k),
    decreases k,
{
    if k > 0 {
        lemma_zeros_are_pads(m, (k - 1) as nat);
        assert(m.bytes.skip(k - 1).skip(1) =~= m.bytes.skip(k as int));
    } else {
        assert(m.bytes.skip(0) =~= m.bytes);
    }
    let now = m.after_pulls(k);
    if k < m.bytes.len() {
        let kinds = now.state.spec_valid_packets();
        assert(now.bytes[0] == 0);
        assert(!ShortTNTPacket::is_header(0u8)) by (bit_vector);
        assert(kinds[0] == PacketKind::ShortTNT);
        assert(kinds.drop_first()[0] == PacketKind::PAD);
        assert(pad_magic() =~= now.bytes.subrange(0, 1));
        assert(spec_parse_kind(PacketKind::ShortTNT, now.bytes, now.prev_tip) is None);
        assert(spec_parse_kind(PacketKind::PAD, now.bytes, now.prev_tip) == Some(
            (Packet::PAD(PADPacket {  }), 1nat),
        ));
        reveal_with_fuel(first_match, 3);
    }
}

/// A short TNT byte is an even byte from 4 up: its lowest bit is clear and
/// there is a stop bit above the lowest of the seven bits over it.
pub proof fn lemma_short_tnt_header(b: u8)
    ensures
        ShortTNTPacket::is_header(b) <==> b % 2 == 0 && b >= 4,
{
    assert(ShortTNTPacket::is_header(b) <==> b % 2 == 0 && b >= 4) by (bit_vector);
}

/// In no state is a byte below 4 taken for a short TNT packet: neither `0x02`,
/// which has the stop bit where the first branch would be and opens the longer
/// packets, nor `0x01`, nor the PAD byte.
pub proof fn lemma_no_short_tnt_without_branch(m: ParserModel)
    requires
        m.bytes.len() > 0,
        m.bytes[0] < 4,
    ensures
        !m.pull().yields_kind(PacketKind::ShortTNT),
        spec_parse_kind(PacketKind::ShortTNT, m.bytes, m.prev_tip) is None,
{
    lemma_short_tnt_header(m.bytes[0]);
    lemma_pull(m);
}

} // verus!
