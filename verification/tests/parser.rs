use packet_parser::packets::{
    CBRPacket, CYCPacket, FUPPacket, IPBytes, LongTNTPacket, MODEPacket, PADPacket, PSBENDPacket,
    PSBPacket, Packet, PacketKind, ShortTNTPacket, TIPPGDPacket, TIPPGEPacket, TIPPacket,
    TargetIP,
};
use packet_parser::parser::{PacketParser, TraceParseError};
use packet_parser::state::PacketParserState;

const PSB: [u8; 16] = [
    0x02, 0x82, 0x02, 0x82, 0x02, 0x82, 0x02, 0x82, 0x02, 0x82, 0x02, 0x82, 0x02, 0x82, 0x02, 0x82,
];

/// A PSB+ sequence with one CBR packet in it.
fn psb_plus() -> Vec<u8> {
    let mut bytes = PSB.to_vec();
    bytes.extend_from_slice(&[0x02, 0x03, 0x2a, 0x00]);
    bytes.extend_from_slice(&[0x02, 0x23]);
    bytes
}

/// A trace of the shape that a short bounded loop leaves behind.
fn small_trace() -> Vec<u8> {
    let mut bytes = psb_plus();
    // TIP.PGE, uncompressed.
    bytes.extend_from_slice(&[0xd1, 0xf0, 0xde, 0xbc, 0x9a, 0x78, 0x56, 0x34, 0x12]);
    // MODE.
    bytes.extend_from_slice(&[0x99, 0x01]);
    // Short TNT with two branches.
    bytes.push(0b0000_1010);
    // TIP, low 16 bits.
    bytes.extend_from_slice(&[0x2d, 0xcd, 0xab]);
    // CYC with two extension bytes.
    bytes.extend_from_slice(&[0x07, 0x03, 0x02]);
    // FUP, low 32 bits.
    bytes.extend_from_slice(&[0x5d, 0x44, 0x33, 0x22, 0x11]);
    // PAD.
    bytes.push(0x00);
    // Long TNT.
    bytes.extend_from_slice(&[0x02, 0xa3, 0xff, 0xff, 0xff, 0xff, 0xff, 0x01]);
    // TIP.PGD, out of context.
    bytes.push(0x01);
    bytes
}

/// All packets of `bytes`, as far as they parse.
fn collect(bytes: &[u8]) -> Vec<Result<Packet, TraceParseError>> {
    let mut parser = PacketParser::new(bytes);
    let mut out = Vec::new();
    while let Some(item) = parser.next() {
        let failed = item.is_err();
        out.push(item);
        if failed {
            break;
        }
    }
    out
}

fn kinds(bytes: &[u8]) -> Vec<PacketKind> {
    collect(bytes).into_iter().map(|item| item.unwrap().kind()).collect()
}

/// Parse the packets of a small trace, checking the basic structure of the decoded trace.
#[test]
fn parse_small_trace() {
    let trace = small_trace();

    #[derive(Clone, Copy, Debug)]
    enum TestState {
        /// Start here.
        Init,
        /// Saw the start of the PSB+ sequence.
        SawPSBPlusStart,
        /// Saw the end of the PSB+ sequence.
        SawPSBPlusEnd,
        /// Saw the packet generation enable packet.
        SawPacketGenEnable,
        /// Saw a TNT packet.
        SawTNT,
        /// Saw the packet generation disable packet.
        SawPacketGenDisable,
    }

    let mut ts = TestState::Init;
    let mut parser = PacketParser::new(&trace);
    while let Some(pkt) = parser.next() {
        ts = match (ts, pkt.unwrap().kind()) {
            (TestState::Init, PacketKind::PSB) => TestState::SawPSBPlusStart,
            (TestState::SawPSBPlusStart, PacketKind::PSBEND) => TestState::SawPSBPlusEnd,
            (TestState::SawPSBPlusEnd, PacketKind::TIPPGE) => TestState::SawPacketGenEnable,
            (TestState::SawPacketGenEnable, PacketKind::ShortTNT)
            | (TestState::SawPacketGenEnable, PacketKind::LongTNT) => TestState::SawTNT,
            (TestState::SawTNT, PacketKind::TIPPGD) => TestState::SawPacketGenDisable,
            (ts, _) => ts,
        };
    }
    assert!(matches!(ts, TestState::SawPacketGenDisable));
}

#[test]
fn small_trace_packet_by_packet() {
    let trace = small_trace();
    let got: Vec<Packet> = collect(&trace).into_iter().map(|item| item.unwrap()).collect();
    let want = vec![
        Packet::PSB(PSBPacket {}),
        Packet::CBR(CBRPacket {}),
        Packet::PSBEND(PSBENDPacket {}),
        Packet::TIPPGE(
            TIPPGEPacket {
                ip_bytes: IPBytes { val: 0b110 },
                target_ip: TargetIP::Ip64(0x123456789abcdef0),
            },
            None,
        ),
        Packet::MODE(MODEPacket {}),
        Packet::ShortTNT(ShortTNTPacket {}),
        Packet::TIP(
            TIPPacket { ip_bytes: IPBytes { val: 0b001 }, target_ip: TargetIP::Ip16(0xabcd) },
            Some(0x123456789abcdef0),
        ),
        Packet::CYC(CYCPacket {}),
        Packet::FUP(
            FUPPacket { ip_bytes: IPBytes { val: 0b010 }, target_ip: TargetIP::Ip32(0x11223344) },
            Some(0x123456789abcabcd),
        ),
        Packet::PAD(PADPacket {}),
        Packet::LongTNT(LongTNTPacket {}),
        Packet::TIPPGD(
            TIPPGDPacket { ip_bytes: IPBytes { val: 0b000 }, target_ip: TargetIP::OutOfContext },
            None,
        ),
    ];
    assert_eq!(got, want);
}

#[test]
fn small_trace_target_ips() {
    let trace = small_trace();
    let got: Vec<Option<u64>> =
        collect(&trace).into_iter().map(|item| item.unwrap().target_ip()).collect();
    let want = vec![
        None,
        None,
        None,
        Some(0x123456789abcdef0),
        None,
        None,
        Some(0x123456789abcabcd),
        None,
        Some(0x1234567811223344),
        None,
        None,
        None,
    ];
    assert_eq!(got, want);
}

#[test]
fn empty_input_ends_at_once() {
    let mut parser = PacketParser::new(&[]);
    assert_eq!(parser.next(), None);
    assert_eq!(parser.next(), None);
    assert_eq!(parser.state(), PacketParserState::Init);
    assert_eq!(parser.prev_tip(), 0);
    assert_eq!(parser.remaining(), &[] as &[u8]);
}

#[test]
fn new_parser_has_everything_ahead() {
    let bytes = [0x02u8, 0x82, 0x07];
    let parser = PacketParser::new(&bytes);
    assert_eq!(parser.remaining(), &bytes);
    assert_eq!(parser.state(), PacketParserState::Init);
    assert_eq!(parser.prev_tip(), 0);
}

#[test]
fn psb_comes_first_and_opens_psb_plus() {
    let mut bytes = PSB.to_vec();
    bytes.extend_from_slice(&[0xde, 0xad]);
    let mut parser = PacketParser::new(&bytes);
    assert_eq!(parser.next(), Some(Ok(Packet::PSB(PSBPacket {}))));
    assert_eq!(parser.state(), PacketParserState::PSBPlus);
    assert_eq!(parser.remaining(), &[0xde, 0xad]);
}

#[test]
fn init_admits_only_psb() {
    for first in [vec![0x00u8], vec![0x06], vec![0x02, 0x23], vec![0x02, 0x03, 0, 0], vec![0x01]] {
        let mut parser = PacketParser::new(&first);
        let item = parser.next().unwrap();
        assert_eq!(item.unwrap_err().state, PacketParserState::Init);
        assert_eq!(parser.remaining(), &first[..]);
        assert_eq!(parser.state(), PacketParserState::Init);
    }
}

#[test]
fn psb_plus_admits_only_cbr_and_psbend() {
    let mut bytes = PSB.to_vec();
    bytes.extend_from_slice(&[0x02, 0x03, 0x01, 0x00]);
    bytes.extend_from_slice(&[0x02, 0x03, 0x02, 0x00]);
    bytes.extend_from_slice(&[0x02, 0x23]);
    bytes.push(0x00);
    assert_eq!(
        kinds(&bytes),
        vec![
            PacketKind::PSB,
            PacketKind::CBR,
            PacketKind::CBR,
            PacketKind::PSBEND,
            PacketKind::PAD
        ]
    );

    // A packet of the normal state is an error inside the sequence.
    let mut bytes = PSB.to_vec();
    bytes.push(0x00);
    let mut parser = PacketParser::new(&bytes);
    assert_eq!(parser.next(), Some(Ok(Packet::PSB(PSBPacket {}))));
    let err = parser.next().unwrap().unwrap_err();
    assert_eq!(err.state, PacketParserState::PSBPlus);
    assert_eq!(err.peek, "00000000");
    assert_eq!(parser.state(), PacketParserState::PSBPlus);
}

#[test]
fn normal_does_not_admit_cbr_or_psbend() {
    let mut bytes = psb_plus();
    bytes.extend_from_slice(&[0x02, 0x23]);
    let found = collect(&bytes);
    assert_eq!(found.len(), 4);
    let err = found[3].clone().unwrap_err();
    assert_eq!(err.state, PacketParserState::Normal);
    assert_eq!(err.peek, "00000010, 00100011");

    let mut bytes = psb_plus();
    bytes.extend_from_slice(&[0x02, 0x03, 0x00, 0x00]);
    let found = collect(&bytes);
    assert_eq!(found.len(), 4);
    assert_eq!(found[3].clone().unwrap_err().state, PacketParserState::Normal);
}

#[test]
fn psb_in_normal_state_opens_a_new_sequence() {
    let mut bytes = psb_plus();
    bytes.extend_from_slice(&psb_plus());
    bytes.push(0x06);
    assert_eq!(
        kinds(&bytes),
        vec![
            PacketKind::PSB,
            PacketKind::CBR,
            PacketKind::PSBEND,
            PacketKind::PSB,
            PacketKind::CBR,
            PacketKind::PSBEND,
            PacketKind::ShortTNT
        ]
    );
}

#[test]
fn zero_bytes_in_normal_state_are_pads() {
    let mut bytes = psb_plus();
    bytes.extend_from_slice(&[0x00; 5]);
    let mut parser = PacketParser::new(&bytes);
    for _ in 0..3 {
        parser.next().unwrap().unwrap();
    }
    assert_eq!(parser.state(), PacketParserState::Normal);
    for left in (0..5).rev() {
        assert_eq!(parser.next(), Some(Ok(Packet::PAD(PADPacket {}))));
        assert_eq!(parser.remaining().len(), left);
        assert_eq!(parser.state(), PacketParserState::Normal);
    }
    assert_eq!(parser.next(), None);
}

#[test]
fn a_lone_stop_bit_is_no_short_tnt() {
    // In the normal state the byte 0x01 is a TIP.PGD packet without an IP.
    let mut bytes = psb_plus();
    bytes.push(0x01);
    let found = collect(&bytes);
    assert_eq!(
        found[3],
        Ok(Packet::TIPPGD(
            TIPPGDPacket { ip_bytes: IPBytes { val: 0 }, target_ip: TargetIP::OutOfContext },
            None
        ))
    );

    // The byte 0x02 alone opens nothing.
    let mut bytes = psb_plus();
    bytes.push(0x02);
    let found = collect(&bytes);
    assert_eq!(found[3].clone().unwrap_err().peek, "00000010");

    // In no state does `parse_kind` take either for a short TNT.
    for byte in [0x00u8, 0x01, 0x02, 0x03] {
        let bytes = [byte];
        let mut parser = PacketParser::new(&bytes);
        assert_eq!(parser.parse_kind(PacketKind::ShortTNT), None);
        assert_eq!(parser.remaining(), &bytes);
    }
}

#[test]
fn cyc_lengths() {
    // exp = 0: one byte.
    let mut bytes = psb_plus();
    bytes.extend_from_slice(&[0x03, 0x03, 0x02]);
    let mut parser = PacketParser::new(&bytes);
    for _ in 0..3 {
        parser.next().unwrap().unwrap();
    }
    assert_eq!(parser.next(), Some(Ok(Packet::CYC(CYCPacket {}))));
    assert_eq!(parser.remaining(), &[0x03, 0x02]);

    // exp = 1: the header and the extension, up to the byte with a clear low bit.
    let mut bytes = psb_plus();
    bytes.extend_from_slice(&[0x07, 0x03, 0x02, 0x00]);
    let mut parser = PacketParser::new(&bytes);
    for _ in 0..3 {
        parser.next().unwrap().unwrap();
    }
    assert_eq!(parser.next(), Some(Ok(Packet::CYC(CYCPacket {}))));
    assert_eq!(parser.remaining(), &[0x00]);
}

#[test]
fn error_shows_state_and_next_eight_bytes() {
    let bytes = [0x02u8, 0x82, 0x02, 0x82, 0x00, 0xff, 0x10, 0x01, 0x99, 0x98];
    let mut parser = PacketParser::new(&bytes);
    let err = parser.next().unwrap().unwrap_err();
    assert_eq!(err.state, PacketParserState::Init);
    assert_eq!(
        err.peek,
        "00000010, 10000010, 00000010, 10000010, 00000000, 11111111, 00010000, 00000001, ..."
    );
    assert_eq!(
        err.message(),
        "In state Init, failed to parse packet: 00000010, 10000010, 00000010, 10000010, \
         00000000, 11111111, 00010000, 00000001, ..."
    );
}

#[test]
fn error_messages_name_each_state() {
    let err = |state| TraceParseError { state, peek: String::from("00000001") };
    assert_eq!(
        err(PacketParserState::Init).message(),
        "In state Init, failed to parse packet: 00000001"
    );
    assert_eq!(
        err(PacketParserState::Normal).message(),
        "In state Normal, failed to parse packet: 00000001"
    );
    assert_eq!(
        err(PacketParserState::PSBPlus).message(),
        "In state PSBPlus, failed to parse packet: 00000001"
    );
    assert_eq!(PacketParserState::Init.name(), "Init");
    assert_eq!(PacketParserState::Normal.name(), "Normal");
    assert_eq!(PacketParserState::PSBPlus.name(), "PSBPlus");
}

#[test]
fn error_repeats_and_moves_nothing() {
    let mut bytes = psb_plus();
    bytes.extend_from_slice(&[0x2d, 0x34, 0x12]);
    // A TIP packet cut short.
    bytes.extend_from_slice(&[0x2d, 0x34]);
    let mut parser = PacketParser::new(&bytes);
    for _ in 0..4 {
        parser.next().unwrap().unwrap();
    }
    assert_eq!(parser.prev_tip(), 0x1234);
    let first = parser.next().unwrap().unwrap_err();
    assert_eq!(first.state, PacketParserState::Normal);
    assert_eq!(first.peek, "00101101, 00110100");
    assert_eq!(parser.remaining(), &[0x2d, 0x34]);
    assert_eq!(parser.state(), PacketParserState::Normal);
    assert_eq!(parser.prev_tip(), 0x1234);
    let second = parser.next().unwrap().unwrap_err();
    assert_eq!(first, second);
}

#[test]
fn reserved_ip_bytes_do_not_parse() {
    for val in [0b101u8, 0b111] {
        let mut bytes = psb_plus();
        bytes.push((val << 5) | 0x0d);
        bytes.extend_from_slice(&[0; 8]);
        let found = collect(&bytes);
        assert_eq!(found.len(), 4);
        assert_eq!(found[3].clone().unwrap_err().state, PacketParserState::Normal);
    }
}

#[test]
fn prev_tip_follows_the_packets_that_announce_an_ip() {
    let mut bytes = psb_plus();
    bytes.extend_from_slice(&[0xd1, 0x00, 0x00, 0x00, 0x00, 0xdd, 0xcc, 0xbb, 0xaa]);
    bytes.push(0x06);
    bytes.push(0x00);
    bytes.push(0x01);
    bytes.extend_from_slice(&[0x99, 0x00]);
    bytes.extend_from_slice(&[0x2d, 0x22, 0x11]);
    bytes.push(0x06);
    let mut parser = PacketParser::new(&bytes);
    let mut seen = Vec::new();
    while let Some(item) = parser.next() {
        item.unwrap();
        seen.push(parser.prev_tip());
    }
    assert_eq!(
        seen,
        vec![
            0,
            0,
            0,
            0xaabbccdd00000000,
            0xaabbccdd00000000,
            0xaabbccdd00000000,
            0xaabbccdd00000000,
            0xaabbccdd00000000,
            0xaabbccdd00001122,
            0xaabbccdd00001122
        ]
    );
}

#[test]
fn packet_snapshots_prev_tip_before_the_update() {
    let mut bytes = psb_plus();
    bytes.extend_from_slice(&[0x2d, 0x11, 0x11]);
    bytes.extend_from_slice(&[0x2d, 0x22, 0x22]);
    let found = collect(&bytes);
    assert_eq!(
        found[3],
        Ok(Packet::TIP(
            TIPPacket { ip_bytes: IPBytes { val: 1 }, target_ip: TargetIP::Ip16(0x1111) },
            Some(0)
        ))
    );
    assert_eq!(
        found[4],
        Ok(Packet::TIP(
            TIPPacket { ip_bytes: IPBytes { val: 1 }, target_ip: TargetIP::Ip16(0x2222) },
            Some(0x1111)
        ))
    );
}

#[test]
fn high_bits_from_prev_tip_with_48_bit_payload() {
    let mut bytes = psb_plus();
    bytes.extend_from_slice(&[0xcd, 0, 0, 0, 0, 0, 0, 0xad, 0xde]);
    bytes.extend_from_slice(&[0x8d, 0x66, 0x55, 0x44, 0x33, 0x22, 0x11]);
    let found = collect(&bytes);
    assert_eq!(found.len(), 5);
    let last = found[4].clone().unwrap();
    assert_eq!(
        last,
        Packet::TIP(
            TIPPacket { ip_bytes: IPBytes { val: 0b100 }, target_ip: TargetIP::Ip48(0x112233445566) },
            Some(0xdead000000000000)
        )
    );
    assert_eq!(last.target_ip(), Some(0xdead112233445566));
}

#[test]
fn sign_extended_ip_from_the_wire() {
    let mut bytes = psb_plus();
    bytes.extend_from_slice(&[0x7d, 0x33, 0x44, 0x55, 0x66, 0x77, 0x88]);
    let found = collect(&bytes);
    let last = found[3].clone().unwrap();
    assert_eq!(last.kind(), PacketKind::FUP);
    assert_eq!(last.target_ip(), Some(0xffff887766554433));
}

#[test]
fn consumed_bits_are_the_bits_that_went() {
    let trace = small_trace();
    let lens = [16usize, 4, 2, 9, 2, 1, 3, 3, 5, 1, 8, 1];
    let mut parser = PacketParser::new(&trace);
    let mut consumed_bits = 0;
    for len in lens.iter() {
        parser.next().unwrap().unwrap();
        consumed_bits += 8 * len;
        assert_eq!(consumed_bits, 8 * trace.len() - 8 * parser.remaining().len());
        assert_eq!(parser.remaining(), &trace[consumed_bits / 8..]);
    }
    assert_eq!(parser.remaining().len(), 0);
    assert_eq!(parser.next(), None);
}

#[test]
fn two_parsers_over_one_buffer_agree() {
    let mut trace = small_trace();
    // End on bytes that do not parse.
    trace.extend_from_slice(&[0x02, 0x23]);
    let copy = trace.clone();
    assert_eq!(collect(&trace), collect(&copy));
    assert_eq!(collect(&trace), collect(&trace));
    assert_eq!(collect(&trace).len(), 13);
}

#[test]
fn parse_kind_moves_only_on_a_match() {
    let bytes = [0x99u8, 0x00, 0x06];
    let mut parser = PacketParser::new(&bytes);
    assert_eq!(parser.parse_kind(PacketKind::PAD), None);
    assert_eq!(parser.parse_kind(PacketKind::TIP), None);
    assert_eq!(parser.parse_kind(PacketKind::PSB), None);
    assert_eq!(parser.remaining(), &bytes);
    assert_eq!(parser.parse_kind(PacketKind::MODE), Some(Packet::MODE(MODEPacket {})));
    assert_eq!(parser.remaining(), &[0x06]);
    // Neither the state nor the previous TIP is touched.
    assert_eq!(parser.state(), PacketParserState::Init);
    assert_eq!(parser.prev_tip(), 0);
}

#[test]
fn parse_kind_of_each_kind() {
    let cases: Vec<(PacketKind, Vec<u8>)> = vec![
        (PacketKind::PSB, PSB.to_vec()),
        (PacketKind::CBR, vec![0x02, 0x03, 0x00, 0x00]),
        (PacketKind::PSBEND, vec![0x02, 0x23]),
        (PacketKind::PAD, vec![0x00]),
        (PacketKind::MODE, vec![0x99, 0x00]),
        (PacketKind::TIPPGE, vec![0x11]),
        (PacketKind::TIPPGD, vec![0x01]),
        (PacketKind::ShortTNT, vec![0x04]),
        (PacketKind::LongTNT, vec![0x02, 0xa3, 0, 0, 0, 0, 0, 0]),
        (PacketKind::TIP, vec![0x0d]),
        (PacketKind::FUP, vec![0x1d]),
        (PacketKind::CYC, vec![0x03]),
    ];
    for (kind, bytes) in cases.iter() {
        let mut parser = PacketParser::new(bytes);
        let pkt = parser.parse_kind(*kind).unwrap();
        assert_eq!(pkt.kind(), *kind);
        assert_eq!(parser.remaining().len(), 0);
    }
}

#[test]
fn parse_state_leaves_the_state_alone() {
    let bytes = psb_plus();
    let mut parser = PacketParser::new(&bytes);
    assert_eq!(parser.parse_state(), Ok(Packet::PSB(PSBPacket {})));
    assert_eq!(parser.state(), PacketParserState::Init);
    assert_eq!(parser.remaining().len(), 6);
    // Still in the initial state, where a CBR packet is not admitted.
    assert_eq!(parser.parse_state().unwrap_err().state, PacketParserState::Init);
}

#[test]
fn parse_packet_updates_tip_and_state() {
    let mut bytes = psb_plus();
    bytes.extend_from_slice(&[0xd1, 1, 0, 0, 0, 0, 0, 0, 0]);
    let mut parser = PacketParser::new(&bytes);
    assert_eq!(parser.parse_packet(), Ok(Packet::PSB(PSBPacket {})));
    assert_eq!(parser.state(), PacketParserState::PSBPlus);
    assert_eq!(parser.parse_packet(), Ok(Packet::CBR(CBRPacket {})));
    assert_eq!(parser.state(), PacketParserState::PSBPlus);
    assert_eq!(parser.parse_packet(), Ok(Packet::PSBEND(PSBENDPacket {})));
    assert_eq!(parser.state(), PacketParserState::Normal);
    assert_eq!(parser.parse_packet().unwrap().kind(), PacketKind::TIPPGE);
    assert_eq!(parser.prev_tip(), 1);
    // Nothing is left, and nothing parses from nothing.
    assert_eq!(parser.parse_packet().unwrap_err().peek, "");
}

#[test]
fn states_and_their_packets() {
    assert_eq!(PacketParserState::Init.valid_packets(), &[PacketKind::PSB]);
    assert_eq!(
        PacketParserState::Normal.valid_packets(),
        &[
            PacketKind::ShortTNT,
            PacketKind::PAD,
            PacketKind::FUP,
            PacketKind::TIP,
            PacketKind::CYC,
            PacketKind::LongTNT,
            PacketKind::PSB,
            PacketKind::MODE,
            PacketKind::TIPPGE,
            PacketKind::TIPPGD,
        ]
    );
    assert_eq!(
        PacketParserState::PSBPlus.valid_packets(),
        &[PacketKind::CBR, PacketKind::PSBEND]
    );
}

#[test]
fn transitions() {
    let all_kinds = [
        PacketKind::PSB,
        PacketKind::CBR,
        PacketKind::PSBEND,
        PacketKind::PAD,
        PacketKind::MODE,
        PacketKind::TIPPGE,
        PacketKind::TIPPGD,
        PacketKind::ShortTNT,
        PacketKind::LongTNT,
        PacketKind::TIP,
        PacketKind::FUP,
        PacketKind::CYC,
    ];
    let all_states =
        [PacketParserState::Init, PacketParserState::Normal, PacketParserState::PSBPlus];
    for from in all_states.iter() {
        for kind in all_kinds.iter() {
            let want = match (from, kind) {
                (PacketParserState::Init, PacketKind::PSB) => PacketParserState::PSBPlus,
                (PacketParserState::Normal, PacketKind::PSB) => PacketParserState::PSBPlus,
                (PacketParserState::PSBPlus, PacketKind::PSBEND) => PacketParserState::Normal,
                _ => *from,
            };
            let mut state = *from;
            state.transition(*kind);
            assert_eq!(state, want);
        }
    }
}
