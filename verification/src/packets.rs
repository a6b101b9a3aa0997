//! Intel PT packets and their constituents.

use vstd::prelude::*;

verus! {

/// The `IPBytes` field common to all IP packets.
///
/// This tells us what kind of compression was used for a `TargetIP`.
#[derive(Clone, Copy, Debug, PartialEq, Eq, Structural)]
pub struct IPBytes {
    pub val: u8,
}

impl IPBytes {
    /// An `IPBytes` is a three-bit field.
    pub open spec fn wf(self) -> bool {
        self.val < 8
    }

    /// Wraps the value of a three-bit `IPBytes` field.
    pub fn new(val: u8) -> (r: Self)
        requires
            val < 8,
        ensures
            r.val == val,
            r.wf(),
    {
        Self { val }
    }

    /// The compression modes that fill in high-order bits from the previous TIP.
    pub open spec fn spec_needs_prev_tip(&self) -> bool {
        self.val == 0b001 || self.val == 0b010 || self.val == 0b100
    }

    /// Returns `true` if we need the previous TIP value to make sense of the new one.
    #[verifier::when_used_as_spec(spec_needs_prev_tip)]
    pub fn needs_prev_tip(&self) -> (r: bool)
        ensures
            r == self.spec_needs_prev_tip(),
    {
        match self.val {
            0b001 | 0b010 | 0b100 => true,
            _ => false,
        }
    }
}

/// The `TargetIP` fields in packets which update the TIP.
///
/// This is a variable-width field depending upon the value of `IPBytes` in the containing packet.
#[derive(Clone, Copy, Debug, PartialEq, Eq, Structural)]
pub enum TargetIP {
    OutOfContext,
    Ip16(u16),
    Ip32(u32),
    Ip48(u64),
    Ip64(u64),
}

/// Bits 63..=16 of an address.
pub const HIGH_48: u64 = 0xffff_ffff_ffff_0000;

/// Bits 63..=32 of an address.
pub const HIGH_32: u64 = 0xffff_ffff_0000_0000;

/// Bits 63..=48 of an address.
pub const HIGH_16: u64 = 0xffff_0000_0000_0000;

/// Bits 47..=0 of an address.
pub const LOW_48: u64 = 0x0000_ffff_ffff_ffff;

/// Bit 47 of an address, the sign of a 48-bit value.
pub const BIT_47: u64 = 0x0000_8000_0000_0000;

/// The low 48 bits of `v`, with bit 47 copied into bits 63..=48.
pub open spec fn sign_extend_48(v: u64) -> u64 {
    if v & BIT_47 != 0 {
        v | HIGH_16
    } else {
        v & LOW_48
    }
}

impl TargetIP {
    /// The variant whose payload is `bits` wide and holds `val`.
    pub open spec fn spec_from_bits(bits: u8, val: u64) -> Self {
        if bits == 0 {
            Self::OutOfContext
        } else if bits == 16 {
            Self::Ip16(val as u16)
        } else if bits == 32 {
            Self::Ip32(val as u32)
        } else if bits == 48 {
            Self::Ip48(val)
        } else {
            Self::Ip64(val)
        }
    }

    /// Builds the variant that carries `bits` bits of payload.
    pub fn from_bits(bits: u8, val: u64) -> (r: Self)
        requires
            bits == 0 || bits == 16 || bits == 32 || bits == 48 || bits == 64,
            bits == 16 ==> val <= u16::MAX,
            bits == 32 ==> val <= u32::MAX,
        ensures
            r == Self::spec_from_bits(bits, val),
    {
        if bits == 0 {
            Self::OutOfContext
        } else if bits == 16 {
            Self::Ip16(val as u16)
        } else if bits == 32 {
            Self::Ip32(val as u32)
        } else if bits == 48 {
            Self::Ip48(val)
        } else {
            Self::Ip64(val)
        }
    }

    /// Whether this is the payload variant that the compression mode `ip_bytes`
    /// puts on the wire. The modes `0b101` and `0b111` are reserved and carry no
    /// variant at all.
    pub open spec fn fits(self, ip_bytes: IPBytes) -> bool {
        match self {
            Self::OutOfContext => ip_bytes.val == 0b000,
            Self::Ip16(_) => ip_bytes.val == 0b001,
            Self::Ip32(_) => ip_bytes.val == 0b010,
            Self::Ip48(_) => ip_bytes.val == 0b011 || ip_bytes.val == 0b100,
            Self::Ip64(_) => ip_bytes.val == 0b110,
        }
    }

    /// The address that a payload stands for under the compression mode
    /// `ip_bytes`, given the previously seen address `prev_tip`.
    pub open spec fn spec_decompress(self, ip_bytes: IPBytes, prev_tip: Option<u64>) -> Option<u64> {
        match self {
            Self::OutOfContext => None,
            Self::Ip16(v) => Some(prev_tip.unwrap() & HIGH_48 | v as u64),
            Self::Ip32(v) => Some(prev_tip.unwrap() & HIGH_32 | v as u64),
            Self::Ip48(v) => if ip_bytes.val == 0b011 {
                Some(sign_extend_48(v))
            } else {
                Some(prev_tip.unwrap() & HIGH_16 | v & LOW_48)
            },
            Self::Ip64(v) => Some(v),
        }
    }

    /// Decompress a `TargetIP` and `IPBytes` pair into an instruction pointer address.
    ///
    /// Returns `None` if the target IP was "out of context".
    pub fn decompress(&self, ip_bytes: IPBytes, prev_tip: Option<u64>) -> (r: Option<u64>)
        requires
            self.fits(ip_bytes),
            ip_bytes.spec_needs_prev_tip() ==> prev_tip is Some,
        ensures
            r == self.spec_decompress(ip_bytes, prev_tip),
    {
        let res: u64 = match ip_bytes.val {
            0b000 => {
                return None;
            },
            0b001 => {
                // The result is bits 63..=16 from `prev_tip` and bits 15..=0 from the payload.
                match self {
                    Self::Ip16(v) => prev_tip.unwrap() & HIGH_48 | *v as u64,
                    _ => unreached(),
                }
            },
            0b010 => {
                // The result is bits 63..=32 from `prev_tip` and bits 31..=0 from the payload.
                match self {
                    Self::Ip32(v) => prev_tip.unwrap() & HIGH_32 | *v as u64,
                    _ => unreached(),
                }
            },
            0b011 => {
                // The result is bits 0..=47 from the payload, with the remaining high-order
                // bits extended with the value of bit 47.
                match self {
                    Self::Ip48(v) => {
                        let v: u64 = *v;
                        // Extract the value of bit 47.
                        let b47: u64 = (v & BIT_47) >> 47;
                        // Copy the value of bit 47 across all 64 bits.
                        let flipped: u64 = !b47 & 0x1;
                        assert(flipped == (if v & BIT_47 != 0 { 0u64 } else { 1u64 })) by (bit_vector)
                            requires
                                b47 == (v & BIT_47) >> 47,
                                flipped == !b47 & 0x1,
                        ;
                        let all: u64 = flipped.wrapping_sub(1);
                        // Restore bits 47..=0 to arrive at the result.
                        let ext: u64 = all & HIGH_16 | v & LOW_48;
                        assert(ext == sign_extend_48(v)) by (bit_vector)
                            requires
                                all == (if v & BIT_47 != 0 { 0xffff_ffff_ffff_ffffu64 } else { 0u64 }),
                                ext == all & HIGH_16 | v & LOW_48,
                        ;
                        ext
                    },
                    _ => unreached(),
                }
            },
            0b100 => {
                // The result is bits 63..=48 from `prev_tip` and bits 47..=0 from the payload.
                match self {
                    Self::Ip48(v) => prev_tip.unwrap() & HIGH_16 | *v & LOW_48,
                    _ => unreached(),
                }
            },
            _ => {
                // Uncompressed IP.
                match self {
                    Self::Ip64(v) => *v,
                    _ => unreached(),
                }
            },
        };
        Some(res)
    }
}

/// Packet Stream Boundary (PSB) packet.
#[derive(Clone, Copy, Debug, PartialEq, Eq, Structural)]
pub struct PSBPacket {}

/// Core Bus Ratio (CBR) packet.
#[derive(Clone, Copy, Debug, PartialEq, Eq, Structural)]
pub struct CBRPacket {}

/// End of PSB+ sequence (PSBEND) packet.
#[derive(Clone, Copy, Debug, PartialEq, Eq, Structural)]
pub struct PSBENDPacket {}

/// Padding (PAD) packet.
#[derive(Clone, Copy, Debug, PartialEq, Eq, Structural)]
pub struct PADPacket {}

/// Mode (MODE.*) packet.
#[derive(Clone, Copy, Debug, PartialEq, Eq, Structural)]
pub struct MODEPacket {}

/// Packet Generation Enable (TIP.PGE) packet.
#[derive(Clone, Copy, Debug, PartialEq, Eq, Structural)]
pub struct TIPPGEPacket {
    pub ip_bytes: IPBytes,
    pub target_ip: TargetIP,
}

impl TIPPGEPacket {
    /// The payload is the one that the packet's compression mode calls for.
    pub open spec fn wf(self) -> bool {
        self.target_ip.fits(self.ip_bytes)
    }

    /// The address that the packet announces, given the previously seen one.
    pub open spec fn spec_target_ip(&self, prev_tip: Option<u64>) -> Option<u64> {
        self.target_ip.spec_decompress(self.ip_bytes, prev_tip)
    }

    /// Decompresses the packet's target IP against `prev_tip`.
    #[verifier::when_used_as_spec(spec_target_ip)]
    pub fn target_ip(&self, prev_tip: Option<u64>) -> (r: Option<u64>)
        requires
            self.wf(),
            self.ip_bytes.spec_needs_prev_tip() ==> prev_tip is Some,
        ensures
            r == self.spec_target_ip(prev_tip),
    {
        self.target_ip.decompress(self.ip_bytes, prev_tip)
    }

    /// Whether the packet's compression mode draws on the previous TIP.
    pub open spec fn spec_needs_prev_tip(&self) -> bool {
        self.ip_bytes.spec_needs_prev_tip()
    }

    /// Returns `true` if we need the previous TIP value to make sense of the new one.
    #[verifier::when_used_as_spec(spec_needs_prev_tip)]
    pub fn needs_prev_tip(&self) -> (r: bool)
        ensures
            r == self.spec_needs_prev_tip(),
    {
        self.ip_bytes.needs_prev_tip()
    }
}

/// Short Taken/Not-Taken (TNT) packet.
#[derive(Clone, Copy, Debug, PartialEq, Eq, Structural)]
pub struct ShortTNTPacket {}

/// Long Taken/Not-Taken (TNT) packet.
#[derive(Clone, Copy, Debug, PartialEq, Eq, Structural)]
pub struct LongTNTPacket {}

/// Target IP (TIP) packet.
#[derive(Clone, Copy, Debug, PartialEq, Eq, Structural)]
pub struct TIPPacket {
    pub ip_bytes: IPBytes,
    pub target_ip: TargetIP,
}

impl TIPPacket {
    /// The payload is the one that the packet's compression mode calls for.
    pub open spec fn wf(self) -> bool {
        self.target_ip.fits(self.ip_bytes)
    }

    /// The address that the packet announces, given the previously seen one.
    pub open spec fn spec_target_ip(&self, prev_tip: Option<u64>) -> Option<u64> {
        self.target_ip.spec_decompress(self.ip_bytes, prev_tip)
    }

    /// Decompresses the packet's target IP against `prev_tip`.
    #[verifier::when_used_as_spec(spec_target_ip)]
    pub fn target_ip(&self, prev_tip: Option<u64>) -> (r: Option<u64>)
        requires
            self.wf(),
            self.ip_bytes.spec_needs_prev_tip() ==> prev_tip is Some,
        ensures
            r == self.spec_target_ip(prev_tip),
    {
        self.target_ip.decompress(self.ip_bytes, prev_tip)
    }

    /// Whether the packet's compression mode draws on the previous TIP.
    pub open spec fn spec_needs_prev_tip(&self) -> bool {
        self.ip_bytes.spec_needs_prev_tip()
    }

    /// Returns `true` if we need the previous TIP value to make sense of the new one.
    #[verifier::when_used_as_spec(spec_needs_prev_tip)]
    pub fn needs_prev_tip(&self) -> (r: bool)
        ensures
            r == self.spec_needs_prev_tip(),
    {
        self.ip_bytes.needs_prev_tip()
    }
}

/// Packet Generation Disable (TIP.PGD) packet.
#[derive(Clone, Copy, Debug, PartialEq, Eq, Structural)]
pub struct TIPPGDPacket {
    pub ip_bytes: IPBytes,
    pub target_ip: TargetIP,
}

impl TIPPGDPacket {
    /// The payload is the one that the packet's compression mode calls for.
    pub open spec fn wf(self) -> bool {
        self.target_ip.fits(self.ip_bytes)
    }

    /// The address that the packet announces, given the previously seen one.
    pub open spec fn spec_target_ip(&self, prev_tip: Option<u64>) -> Option<u64> {
        self.target_ip.spec_decompress(self.ip_bytes, prev_tip)
    }

    /// Decompresses the packet's target IP against `prev_tip`.
    #[verifier::when_used_as_spec(spec_target_ip)]
    pub fn target_ip(&self, prev_tip: Option<u64>) -> (r: Option<u64>)
        requires
            self.wf(),
            self.ip_bytes.spec_needs_prev_tip() ==> prev_tip is Some,
        ensures
            r == self.spec_target_ip(prev_tip),
    {
        self.target_ip.decompress(self.ip_bytes, prev_tip)
    }

    /// Whether the packet's compression mode draws on the previous TIP.
    pub open spec fn spec_needs_prev_tip(&self) -> bool {
        self.ip_bytes.spec_needs_prev_tip()
    }

    /// Returns `true` if we need the previous TIP value to make sense of the new one.
    #[verifier::when_used_as_spec(spec_needs_prev_tip)]
    pub fn needs_prev_tip(&self) -> (r: bool)
        ensures
            r == self.spec_needs_prev_tip(),
    {
        self.ip_bytes.needs_prev_tip()
    }
}

/// Flow Update (FUP) packet.
#[derive(Clone, Copy, Debug, PartialEq, Eq, Structural)]
pub struct FUPPacket {
    pub ip_bytes: IPBytes,
    pub target_ip: TargetIP,
}

impl FUPPacket {
    /// The payload is the one that the packet's compression mode calls for.
    pub open spec fn wf(self) -> bool {
        self.target_ip.fits(self.ip_bytes)
    }

    /// The address that the packet announces, given the previously seen one.
    pub open spec fn spec_target_ip(&self, prev_tip: Option<u64>) -> Option<u64> {
        self.target_ip.spec_decompress(self.ip_bytes, prev_tip)
    }

    /// Decompresses the packet's target IP against `prev_tip`.
    #[verifier::when_used_as_spec(spec_target_ip)]
    pub fn target_ip(&self, prev_tip: Option<u64>) -> (r: Option<u64>)
        requires
            self.wf(),
            self.ip_bytes.spec_needs_prev_tip() ==> prev_tip is Some,
        ensures
            r == self.spec_target_ip(prev_tip),
    {
        self.target_ip.decompress(self.ip_bytes, prev_tip)
    }

    /// Whether the packet's compression mode draws on the previous TIP.
    pub open spec fn spec_needs_prev_tip(&self) -> bool {
        self.ip_bytes.spec_needs_prev_tip()
    }

    /// Returns `true` if we need the previous TIP value to make sense of the new one.
    #[verifier::when_used_as_spec(spec_needs_prev_tip)]
    pub fn needs_prev_tip(&self) -> (r: bool)
        ensures
            r == self.spec_needs_prev_tip(),
    {
        self.ip_bytes.needs_prev_tip()
    }
}

/// Cycle count (CYC) packet.
#[derive(Clone, Copy, Debug, PartialEq, Eq, Structural)]
pub struct CYCPacket {}

/// The kinds of packet that the parser knows.
#[derive(Clone, Copy, Debug, PartialEq, Eq, Structural)]
pub enum PacketKind {
    PSB,
    CBR,
    PSBEND,
    PAD,
    MODE,
    TIPPGE,
    TIPPGD,
    ShortTNT,
    LongTNT,
    TIP,
    FUP,
    CYC,
}

/// The top-level representation of an Intel Processor Trace packet.
///
/// Variants with an `Option<u64>` may cache the previous TIP value (at the time the packet was
/// created). This may be needed to get the updated TIP value from the packet.
#[derive(Clone, Copy, Debug, PartialEq, Eq)]
pub enum Packet {
    PSB(PSBPacket),
    CBR(CBRPacket),
    PSBEND(PSBENDPacket),
    PAD(PADPacket),
    MODE(MODEPacket),
    TIPPGE(TIPPGEPacket, Option<u64>),
    TIPPGD(TIPPGDPacket, Option<u64>),
    ShortTNT(ShortTNTPacket),
    LongTNT(LongTNTPacket),
    TIP(TIPPacket, Option<u64>),
    FUP(FUPPacket, Option<u64>),
    CYC(CYCPacket),
}

impl Packet {
    /// An IP packet is well formed when its payload agrees with its compression
    /// mode and it holds the previous TIP wherever that mode draws on it.
    pub open spec fn wf(self) -> bool {
        match self {
            Self::TIPPGE(p, prev_tip) => p.wf() && (p.spec_needs_prev_tip() ==> prev_tip is Some),
            Self::TIPPGD(p, prev_tip) => p.wf() && (p.spec_needs_prev_tip() ==> prev_tip is Some),
            Self::TIP(p, prev_tip) => p.wf() && (p.spec_needs_prev_tip() ==> prev_tip is Some),
            Self::FUP(p, prev_tip) => p.wf() && (p.spec_needs_prev_tip() ==> prev_tip is Some),
            _ => true,
        }
    }

    /// The address that the packet announces, if it announces one.
    pub open spec fn spec_target_ip(&self) -> Option<u64> {
        match self {
            Self::TIPPGE(p, prev_tip) => p.spec_target_ip(*prev_tip),
            Self::TIPPGD(p, prev_tip) => p.spec_target_ip(*prev_tip),
            Self::TIP(p, prev_tip) => p.spec_target_ip(*prev_tip),
            Self::FUP(p, prev_tip) => p.spec_target_ip(*prev_tip),
            _ => None,
        }
    }

    /// If the packet contains a TIP update, return the IP value.
    #[verifier::when_used_as_spec(spec_target_ip)]
    pub fn target_ip(&self) -> (r: Option<u64>)
        requires
            self.wf(),
        ensures
            r == self.spec_target_ip(),
    {
        match self {
            Self::TIPPGE(p, prev_tip) => p.target_ip(*prev_tip),
            Self::TIPPGD(p, prev_tip) => p.target_ip(*prev_tip),
            Self::TIP(p, prev_tip) => p.target_ip(*prev_tip),
            Self::FUP(p, prev_tip) => p.target_ip(*prev_tip),
            _ => None,
        }
    }

    /// The kind of packet that this is.
    pub open spec fn spec_kind(&self) -> PacketKind {
        match self {
            Self::PSB(_) => PacketKind::PSB,
            Self::CBR(_) => PacketKind::CBR,
            Self::PSBEND(_) => PacketKind::PSBEND,
            Self::PAD(_) => PacketKind::PAD,
            Self::MODE(_) => PacketKind::MODE,
            Self::TIPPGE(..) => PacketKind::TIPPGE,
            Self::TIPPGD(..) => PacketKind::TIPPGD,
            Self::ShortTNT(_) => PacketKind::ShortTNT,
            Self::LongTNT(_) => PacketKind::LongTNT,
            Self::TIP(..) => PacketKind::TIP,
            Self::FUP(..) => PacketKind::FUP,
            Self::CYC(_) => PacketKind::CYC,
        }
    }

    /// Returns the kind of the packet.
    #[verifier::when_used_as_spec(spec_kind)]
    pub fn kind(&self) -> (r: PacketKind)
        ensures
            r == self.spec_kind(),
    {
        match self {
            Self::PSB(_) => PacketKind::PSB,
            Self::CBR(_) => PacketKind::CBR,
            Self::PSBEND(_) => PacketKind::PSBEND,
            Self::PAD(_) => PacketKind::PAD,
            Self::MODE(_) => PacketKind::MODE,
            Self::TIPPGE(..) => PacketKind::TIPPGE,
            Self::TIPPGD(..) => PacketKind::TIPPGD,
            Self::ShortTNT(_) => PacketKind::ShortTNT,
            Self::LongTNT(_) => PacketKind::LongTNT,
            Self::TIP(..) => PacketKind::TIP,
            Self::FUP(..) => PacketKind::FUP,
            Self::CYC(_) => PacketKind::CYC,
        }
    }
}

} // verus!
