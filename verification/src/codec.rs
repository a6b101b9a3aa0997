//! The wire format of each packet kind.
//!
//! Every codec looks at the bytes that lie ahead; it either frames one whole
//! packet and reports how many bytes the packet occupies, or reports a mismatch
//! (`None`) and has consumed nothing. All packets end on a byte boundary.

use crate::bits::{
    bit_field, le_value, lemma_le_value_bound, lemma_radix_values, read_le, spec_bit_field,
};
use crate::packets::{
    CBRPacket, CYCPacket, FUPPacket, IPBytes, LongTNTPacket, MODEPacket, PADPacket, PSBENDPacket,
    PSBPacket, ShortTNTPacket, TIPPGDPacket, TIPPGEPacket, TIPPacket, TargetIP,
};
use vstd::prelude::*;

verus! {

/// The sixteen bytes that open a packet stream boundary: `02 82`, eight times.
pub open spec fn psb_magic() -> Seq<u8> {
    seq![
        0x02u8, 0x82u8, 0x02u8, 0x82u8, 0x02u8, 0x82u8, 0x02u8, 0x82u8,
        0x02u8, 0x82u8, 0x02u8, 0x82u8, 0x02u8, 0x82u8, 0x02u8, 0x82u8,
    ]
}

/// The two bytes of a PSBEND packet.
pub open spec fn psbend_magic() -> Seq<u8> {
    seq![0x02u8, 0x23u8]
}

/// The two bytes that open a CBR packet.
pub open spec fn cbr_magic() -> Seq<u8> {
    seq![0x02u8, 0x03u8]
}

/// The byte that is a PAD packet.
pub open spec fn pad_magic() -> Seq<u8> {
    seq![0x00u8]
}

/// The byte that opens a MODE packet.
pub open spec fn mode_magic() -> Seq<u8> {
    seq![0x99u8]
}

/// The two bytes that open a long TNT packet.
pub open spec fn long_tnt_magic() -> Seq<u8> {
    seq![0x02u8, 0xa3u8]
}

/// The length of a packet made of `magic` and then `payload` bytes of any
/// content, if `bytes` begins with one.
pub open spec fn spec_fixed_frame(bytes: Seq<u8>, magic: Seq<u8>, payload: nat) -> Option<nat> {
    if magic.is_prefix_of(bytes) && magic.len() + payload <= bytes.len() {
        Some(magic.len() + payload)
    } else {
        None
    }
}

/// Frames a packet that is a fixed magic followed by a fixed number of bytes.
pub fn fixed_frame(bytes: &[u8], magic: &[u8], payload: usize) -> (r: Option<usize>)
    requires
        magic@.len() + payload <= usize::MAX,
    ensures
        match spec_fixed_frame(bytes@, magic@, payload as nat) {
            Some(n) => r == Some(n as usize),
            None => r is None,
        },
{
    let total: usize = magic.len() + payload;
    if bytes.len() < total {
        return None;
    }
    let mut i: usize = 0;
    while i < magic.len()
        invariant
            i <= magic@.len() <= bytes@.len(),
            forall|j: int| 0 <= j < i ==> bytes@[j] == magic@[j],
        decreases magic@.len() - i,
    {
        if bytes[i] != magic[i] {
            return None;
        }
        i = i + 1;
    }
    assert(magic@ =~= bytes@.subrange(0, magic@.len() as int));
    Some(total)
}

impl PSBPacket {
    /// A PSB packet is its sixteen magic bytes and nothing else.
    pub open spec fn spec_read(bytes: Seq<u8>) -> Option<(Self, nat)> {
        match spec_fixed_frame(bytes, psb_magic(), 0) {
            Some(n) => Some((PSBPacket {  }, n)),
            None => None,
        }
    }

    /// Frames the packet at the start of `bytes`, and tells its length in bytes.
    pub fn read(bytes: &[u8]) -> (r: Option<(Self, usize)>)
        ensures
            match Self::spec_read(bytes@) {
                Some((p, n)) => r == Some((p, n as usize)),
                None => r is None,
            },
    {
        let magic: [u8; 16] = [
            0x02, 0x82, 0x02, 0x82, 0x02, 0x82, 0x02, 0x82,
            0x02, 0x82, 0x02, 0x82, 0x02, 0x82, 0x02, 0x82,
        ];
        assert(magic@ =~= psb_magic());
        match fixed_frame(bytes, magic.as_slice(), 0) {
            Some(n) => Some((PSBPacket {  }, n)),
            None => None,
        }
    }
}

impl CBRPacket {
    /// A CBR packet is `02 03` and two bytes of payload, which go unread.
    pub open spec fn spec_read(bytes: Seq<u8>) -> Option<(Self, nat)> {
        match spec_fixed_frame(bytes, cbr_magic(), 2) {
            Some(n) => Some((CBRPacket {  }, n)),
            None => None,
        }
    }

    /// Frames the packet at the start of `bytes`, and tells its length in bytes.
    pub fn read(bytes: &[u8]) -> (r: Option<(Self, usize)>)
        ensures
            match Self::spec_read(bytes@) {
                Some((p, n)) => r == Some((p, n as usize)),
                None => r is None,
            },
    {
        let magic: [u8; 2] = [0x02, 0x03];
        assert(magic@ =~= cbr_magic());
        match fixed_frame(bytes, magic.as_slice(), 2) {
            Some(n) => Some((CBRPacket {  }, n)),
            None => None,
        }
    }
}

impl PSBENDPacket {
    /// A PSBEND packet is `02 23` and nothing else.
    pub open spec fn spec_read(bytes: Seq<u8>) -> Option<(Self, nat)> {
        match spec_fixed_frame(bytes, psbend_magic(), 0) {
            Some(n) => Some((PSBENDPacket {  }, n)),
            None => None,
        }
    }

    /// Frames the packet at the start of `bytes`, and tells its length in bytes.
    pub fn read(bytes: &[u8]) -> (r: Option<(Self, usize)>)
        ensures
            match Self::spec_read(bytes@) {
                Some((p, n)) => r == Some((p, n as usize)),
                None => r is None,
            },
    {
        let magic: [u8; 2] = [0x02, 0x23];
        assert(magic@ =~= psbend_magic());
        match fixed_frame(bytes, magic.as_slice(), 0) {
            Some(n) => Some((PSBENDPacket {  }, n)),
            None => None,
        }
    }
}

impl PADPacket {
    /// A PAD packet is one zero byte.
    pub open spec fn spec_read(bytes: Seq<u8>) -> Option<(Self, nat)> {
        match spec_fixed_frame(bytes, pad_magic(), 0) {
            Some(n) => Some((PADPacket {  }, n)),
            None => None,
        }
    }

    /// Frames the packet at the start of `bytes`, and tells its length in bytes.
    pub fn read(bytes: &[u8]) -> (r: Option<(Self, usize)>)
        ensures
            match Self::spec_read(bytes@) {
                Some((p, n)) => r == Some((p, n as usize)),
                None => r is None,
            },
    {
        let magic: [u8; 1] = [0x00];
        assert(magic@ =~= pad_magic());
        match fixed_frame(bytes, magic.as_slice(), 0) {
            Some(n) => Some((PADPacket {  }, n)),
            None => None,
        }
    }
}

impl MODEPacket {
    /// A MODE packet is `99` and one byte that tells the mode, which goes unread.
    pub open spec fn spec_read(bytes: Seq<u8>) -> Option<(Self, nat)> {
        match spec_fixed_frame(bytes, mode_magic(), 1) {
            Some(n) => Some((MODEPacket {  }, n)),
            None => None,
        }
    }

    /// Frames the packet at the start of `bytes`, and tells its length in bytes.
    pub fn read(bytes: &[u8]) -> (r: Option<(Self, usize)>)
        ensures
            match Self::spec_read(bytes@) {
                Some((p, n)) => r == Some((p, n as usize)),
                None => r is None,
            },
    {
        let magic: [u8; 1] = [0x99];
        assert(magic@ =~= mode_magic());
        match fixed_frame(bytes, magic.as_slice(), 1) {
            Some(n) => Some((MODEPacket {  }, n)),
            None => None,
        }
    }
}

impl LongTNTPacket {
    /// A long TNT packet is `02 a3` and 48 bits of branch decisions, which go unread.
    pub open spec fn spec_read(bytes: Seq<u8>) -> Option<(Self, nat)> {
        match spec_fixed_frame(bytes, long_tnt_magic(), 6) {
            Some(n) => Some((LongTNTPacket {  }, n)),
            None => None,
        }
    }

    /// Frames the packet at the start of `bytes`, and tells its length in bytes.
    pub fn read(bytes: &[u8]) -> (r: Option<(Self, usize)>)
        ensures
            match Self::spec_read(bytes@) {
                Some((p, n)) => r == Some((p, n as usize)),
                None => r is None,
            },
    {
        let magic: [u8; 2] = [0x02, 0xa3];
        assert(magic@ =~= long_tnt_magic());
        match fixed_frame(bytes, magic.as_slice(), 6) {
            Some(n) => Some((LongTNTPacket {  }, n)),
            None => None,
        }
    }
}

impl ShortTNTPacket {
    /// A short TNT packet is the one byte `bbbbbbb0`. The seven `b` bits hold
    /// one to six branch decisions below a stop bit, so they are neither zero
    /// (no stop bit) nor one (a stop bit with no branch under it).
    pub open spec fn is_header(b: u8) -> bool {
        spec_bit_field(b, 7, 1) == 0 && spec_bit_field(b, 0, 7) >= 2
    }

    /// A short TNT packet is one byte that passes `is_header`.
    pub open spec fn spec_read(bytes: Seq<u8>) -> Option<(Self, nat)> {
        if bytes.len() >= 1 && Self::is_header(bytes[0]) {
            Some((ShortTNTPacket {  }, 1))
        } else {
            None
        }
    }

    /// Frames the packet at the start of `bytes`, and tells its length in bytes.
    pub fn read(bytes: &[u8]) -> (r: Option<(Self, usize)>)
        ensures
            match Self::spec_read(bytes@) {
                Some((p, n)) => r == Some((p, n as usize)),
                None => r is None,
            },
    {
        if bytes.len() == 0 {
            return None;
        }
        let branches: u8 = bit_field(bytes[0], 0, 7);
        let magic: u8 = bit_field(bytes[0], 7, 1);
        if magic == 0 && branches >= 2 {
            Some((ShortTNTPacket {  }, 1))
        } else {
            None
        }
    }
}

impl CYCPacket {
    /// A CYC packet opens with a byte whose two lowest bits are set.
    pub open spec fn is_header(b: u8) -> bool {
        spec_bit_field(b, 6, 2) == 0b11
    }

    /// The `exp` bit of the header says that extension bytes follow.
    pub open spec fn has_extension(b: u8) -> bool {
        spec_bit_field(b, 5, 1) == 1
    }

    /// An extension byte with its lowest bit set is followed by another one.
    pub open spec fn continues(e: u8) -> bool {
        e & 0x01 == 0x01
    }

    /// Whether the first `n` bytes of `ext` are a whole extension: the last of
    /// them is the first byte that does not continue.
    pub open spec fn extension_ends_at(ext: Seq<u8>, n: int) -> bool {
        &&& 1 <= n <= ext.len()
        &&& !Self::continues(ext[n - 1])
        &&& forall|i: int| 0 <= i < n - 1 ==> Self::continues(#[trigger] ext[i])
    }

    /// The number of extension bytes at the start of `ext`, the terminating
    /// byte included; nothing if `ext` runs out before one terminates.
    pub open spec fn spec_extension_len(ext: Seq<u8>) -> Option<nat>
        decreases ext.len(),
    {
        if ext.len() == 0 {
            None
        } else if !Self::continues(ext[0]) {
            Some(1)
        } else {
            match Self::spec_extension_len(ext.drop_first()) {
                Some(n) => Some(n + 1),
                None => None,
            }
        }
    }

    /// `spec_extension_len` finds the one place where an extension ends, and
    /// finds nothing exactly when there is no such place.
    pub proof fn lemma_extension_len(ext: Seq<u8>)
        ensures
            match Self::spec_extension_len(ext) {
                Some(n) => Self::extension_ends_at(ext, n as int),
                None => forall|n: int| !Self::extension_ends_at(ext, n),
            },
            forall|n: int, m: int|
                Self::extension_ends_at(ext, n) && Self::extension_ends_at(ext, m) ==> n == m,
        decreases ext.len(),
    {
        if ext.len() > 0 {
            let rest = ext.drop_first();
            Self::lemma_extension_len(rest);
            assert(forall|i: int| 0 <= i < rest.len() ==> rest[i] == ext[i + 1]);
            if Self::continues(ext[0]) {
                match Self::spec_extension_len(rest) {
                    Some(k) => {
                        assert(Self::extension_ends_at(rest, k as int));
                        assert forall|i: int| 0 <= i < k implies Self::continues(
                            #[trigger] ext[i],
                        ) by {
                            if i > 0 {
                                assert(ext[i] == rest[i - 1]);
                            }
                        }
                    },
                    None => {
                        assert forall|n: int| !Self::extension_ends_at(ext, n) by {
                            if Self::extension_ends_at(ext, n) {
                                assert(n >= 2) by {
                                    if n == 1 {
                                        assert(!Self::continues(ext[0]));
                                    }
                                }
                                assert forall|i: int| 0 <= i < n - 2 implies Self::continues(
                                    #[trigger] rest[i],
                                ) by {
                                    assert(rest[i] == ext[i + 1]);
                                }
                                assert(rest[n - 2] == ext[n - 1]);
                                assert(Self::extension_ends_at(rest, n - 1));
                            }
                        }
                    },
                }
            }
        }
        assert forall|n: int, m: int|
            Self::extension_ends_at(ext, n) && Self::extension_ends_at(ext, m) implies n == m by {
            if n < m {
                assert(Self::continues(ext[n - 1]));
            }
            if m < n {
                assert(Self::continues(ext[m - 1]));
            }
        }
    }

    /// A CYC packet is its header and, where the header says so, extension
    /// bytes up to and including the first that does not continue.
    pub open spec fn spec_read(bytes: Seq<u8>) -> Option<(Self, nat)> {
        if bytes.len() >= 1 && Self::is_header(bytes[0]) {
            if Self::has_extension(bytes[0]) {
                match Self::spec_extension_len(bytes.skip(1)) {
                    Some(n) => Some((CYCPacket {  }, 1 + n)),
                    None => None,
                }
            } else {
                Some((CYCPacket {  }, 1))
            }
        } else {
            None
        }
    }

    /// Counts the extension bytes that start at `bytes[from]`.
    pub fn extension_len(bytes: &[u8], from: usize) -> (r: Option<usize>)
        requires
            from <= bytes@.len(),
        ensures
            match Self::spec_extension_len(bytes@.skip(from as int)) {
                Some(n) => r == Some(n as usize) && from + n <= bytes@.len(),
                None => r is None,
            },
    {
        let mut i: usize = from;
        while i < bytes.len()
            invariant
                from <= i <= bytes@.len(),
                Self::spec_extension_len(bytes@.skip(from as int)) == (match Self::spec_extension_len(
                    bytes@.skip(i as int),
                ) {
                    Some(n) => Some((n + (i - from)) as nat),
                    None => None,
                }),
            decreases bytes@.len() - i,
        {
            proof {
                assert(bytes@.skip(i as int).drop_first() =~= bytes@.skip(i + 1));
                assert(bytes@.skip(i as int)[0] == bytes@[i as int]);
            }
            if bytes[i] & 0x01 != 0x01 {
                return Some(i - from + 1);
            }
            i = i + 1;
        }
        None
    }

    /// Frames the packet at the start of `bytes`, and tells its length in bytes.
    pub fn read(bytes: &[u8]) -> (r: Option<(Self, usize)>)
        ensures
            match Self::spec_read(bytes@) {
                Some((p, n)) => r == Some((p, n as usize)),
                None => r is None,
            },
    {
        if bytes.len() == 0 {
            return None;
        }
        let exp: u8 = bit_field(bytes[0], 5, 1);
        let magic: u8 = bit_field(bytes[0], 6, 2);
        if magic != 0b11 {
            return None;
        }
        if exp == 1 {
            match Self::extension_len(bytes, 1) {
                Some(n) => Some((CYCPacket {  }, 1 + n)),
                None => None,
            }
        } else {
            Some((CYCPacket {  }, 1))
        }
    }
}

/// The opcode of a TIP packet, in the five low bits of its first byte.
pub const TIP_OPCODE: u8 = 0x0d;

/// The opcode of a TIP.PGE packet.
pub const TIP_PGE_OPCODE: u8 = 0x11;

/// The opcode of a TIP.PGD packet.
pub const TIP_PGD_OPCODE: u8 = 0x01;

/// The opcode of a FUP packet.
pub const FUP_OPCODE: u8 = 0x1d;

impl IPBytes {
    /// The `IPBytes` field is the three high bits of an IP packet's first byte.
    pub open spec fn spec_read(b: u8) -> Self {
        IPBytes { val: spec_bit_field(b, 0, 3) }
    }

    /// Takes the compression mode out of the first byte of an IP packet.
    pub fn read(b: u8) -> (r: Self)
        ensures
            r == Self::spec_read(b),
            r.wf(),
    {
        let val: u8 = bit_field(b, 0, 3);
        assert((b >> 5u8) & (0xffu8 >> 5u8) < 8) by (bit_vector);
        IPBytes { val }
    }
}

impl TargetIP {
    /// The number of payload bytes that follow the first byte of an IP packet
    /// under each compression mode; the reserved modes have none.
    pub open spec fn payload_len(ip_bytes_val: u8) -> Option<nat> {
        if ip_bytes_val == 0b000 {
            Some(0)
        } else if ip_bytes_val == 0b001 {
            Some(2)
        } else if ip_bytes_val == 0b010 {
            Some(4)
        } else if ip_bytes_val == 0b011 || ip_bytes_val == 0b100 {
            Some(6)
        } else if ip_bytes_val == 0b110 {
            Some(8)
        } else {
            None
        }
    }

    /// The payload at the start of `bytes`: a little-endian integer of the
    /// width that the compression mode gives.
    pub open spec fn spec_read(bytes: Seq<u8>, ip_bytes_val: u8) -> Option<(Self, nat)> {
        match Self::payload_len(ip_bytes_val) {
            Some(n) => if n <= bytes.len() {
                Some(
                    (
                        Self::spec_from_bits((8 * n) as u8, le_value(bytes.take(n as int)) as u64),
                        n,
                    ),
                )
            } else {
                None
            },
            None => None,
        }
    }

    /// Reads the payload that the compression mode `ip_bytes_val` calls for from
    /// the start of `bytes`, and tells its length in bytes.
    pub fn read(bytes: &[u8], ip_bytes_val: u8) -> (r: Option<(Self, usize)>)
        ensures
            match Self::spec_read(bytes@, ip_bytes_val) {
                Some((t, n)) => r == Some((t, n as usize)) && t.fits(IPBytes { val: ip_bytes_val }),
                None => r is None,
            },
    {
        proof {
            lemma_radix_values();
            lemma_le_value_bound(bytes@.take(2));
            lemma_le_value_bound(bytes@.take(4));
            lemma_le_value_bound(bytes@.take(6));
            lemma_le_value_bound(bytes@.take(8));
        }
        match ip_bytes_val {
            0b000 => Some((TargetIP::OutOfContext, 0)),
            0b001 => match read_le(bytes, 2) {
                Some(v) => Some((TargetIP::Ip16(v as u16), 2)),
                None => None,
            },
            0b010 => match read_le(bytes, 4) {
                Some(v) => Some((TargetIP::Ip32(v as u32), 4)),
                None => None,
            },
            0b011 | 0b100 => match read_le(bytes, 6) {
                Some(v) => Some((TargetIP::Ip48(v), 6)),
                None => None,
            },
            0b110 => match read_le(bytes, 8) {
                Some(v) => Some((TargetIP::Ip64(v), 8)),
                None => None,
            },
            _ => None,
        }
    }
}

/// What the packets that carry an IP have in common: a first byte with the
/// compression mode in its three high bits and the opcode in its five low
/// bits, then the payload that the mode calls for.
pub open spec fn spec_ip_packet(bytes: Seq<u8>, opcode: u8) -> Option<(IPBytes, TargetIP, nat)> {
    if bytes.len() >= 1 && spec_bit_field(bytes[0], 3, 5) == opcode {
        let ip_bytes = IPBytes::spec_read(bytes[0]);
        match TargetIP::spec_read(bytes.skip(1), ip_bytes.val) {
            Some((target_ip, n)) => Some((ip_bytes, target_ip, 1 + n)),
            None => None,
        }
    } else {
        None
    }
}

/// An IP packet that was framed lies within the input, and its payload is the
/// one that its compression mode calls for.
pub proof fn lemma_ip_packet(bytes: Seq<u8>, opcode: u8)
    ensures
        spec_ip_packet(bytes, opcode) matches Some((ip_bytes, target_ip, n)) ==> {
            &&& 1 <= n <= bytes.len()
            &&& ip_bytes.wf()
            &&& target_ip.fits(ip_bytes)
        },
{
    if bytes.len() >= 1 {
        let b = bytes[0];
        assert((b >> 5u8) & (0xffu8 >> 5u8) < 8) by (bit_vector);
    }
}

/// Frames an IP packet with the given opcode.
pub fn ip_packet(bytes: &[u8], opcode: u8) -> (r: Option<(IPBytes, TargetIP, usize)>)
    ensures
        match spec_ip_packet(bytes@, opcode) {
            Some((ip_bytes, target_ip, n)) => r == Some((ip_bytes, target_ip, n as usize))
                && target_ip.fits(ip_bytes),
            None => r is None,
        },
{
    if bytes.len() == 0 {
        return None;
    }
    let ip_bytes = IPBytes::read(bytes[0]);
    let magic: u8 = bit_field(bytes[0], 3, 5);
    if magic != opcode {
        return None;
    }
    let payload = vstd::slice::slice_subrange(bytes, 1, bytes.len());
    assert(payload@ =~= bytes@.skip(1));
    match TargetIP::read(payload, ip_bytes.val) {
        Some((target_ip, n)) => Some((ip_bytes, target_ip, 1 + n)),
        None => None,
    }
}

impl TIPPGEPacket {
    /// A TIP.PGE packet is an IP packet with the opcode `0x11`.
    pub open spec fn spec_read(bytes: Seq<u8>) -> Option<(Self, nat)> {
        match spec_ip_packet(bytes, TIP_PGE_OPCODE) {
            Some((ip_bytes, target_ip, n)) => Some(((TIPPGEPacket { ip_bytes, target_ip }), n)),
            None => None,
        }
    }

    /// Frames the packet at the start of `bytes`, and tells its length in bytes.
    pub fn read(bytes: &[u8]) -> (r: Option<(Self, usize)>)
        ensures
            match Self::spec_read(bytes@) {
                Some((p, n)) => r == Some((p, n as usize)) && p.wf(),
                None => r is None,
            },
    {
        match ip_packet(bytes, TIP_PGE_OPCODE) {
            Some((ip_bytes, target_ip, n)) => Some((TIPPGEPacket { ip_bytes, target_ip }, n)),
            None => None,
        }
    }
}

impl TIPPacket {
    /// A TIP packet is an IP packet with the opcode `0x0d`.
    pub open spec fn spec_read(bytes: Seq<u8>) -> Option<(Self, nat)> {
        match spec_ip_packet(bytes, TIP_OPCODE) {
            Some((ip_bytes, target_ip, n)) => Some(((TIPPacket { ip_bytes, target_ip }), n)),
            None => None,
        }
    }

    /// Frames the packet at the start of `bytes`, and tells its length in bytes.
    pub fn read(bytes: &[u8]) -> (r: Option<(Self, usize)>)
        ensures
            match Self::spec_read(bytes@) {
                Some((p, n)) => r == Some((p, n as usize)) && p.wf(),
                None => r is None,
            },
    {
        match ip_packet(bytes, TIP_OPCODE) {
            Some((ip_bytes, target_ip, n)) => Some((TIPPacket { ip_bytes, target_ip }, n)),
            None => None,
        }
    }
}

impl TIPPGDPacket {
    /// A TIP.PGD packet is an IP packet with the opcode `0x01`.
    pub open spec fn spec_read(bytes: Seq<u8>) -> Option<(Self, nat)> {
        match spec_ip_packet(bytes, TIP_PGD_OPCODE) {
            Some((ip_bytes, target_ip, n)) => Some(((TIPPGDPacket { ip_bytes, target_ip }), n)),
            None => None,
        }
    }

    /// Frames the packet at the start of `bytes`, and tells its length in bytes.
    pub fn read(bytes: &[u8]) -> (r: Option<(Self, usize)>)
        ensures
            match Self::spec_read(bytes@) {
                Some((p, n)) => r == Some((p, n as usize)) && p.wf(),
                None => r is None,
            },
    {
        match ip_packet(bytes, TIP_PGD_OPCODE) {
            Some((ip_bytes, target_ip, n)) => Some((TIPPGDPacket { ip_bytes, target_ip }, n)),
            None => None,
        }
    }
}

impl FUPPacket {
    /// A FUP packet is an IP packet with the opcode `0x1d`.
    pub open spec fn spec_read(bytes: Seq<u8>) -> Option<(Self, nat)> {
        match spec_ip_packet(bytes, FUP_OPCODE) {
            Some((ip_bytes, target_ip, n)) => Some(((FUPPacket { ip_bytes, target_ip }), n)),
            None => None,
        }
    }

    /// Frames the packet at the start of `bytes`, and tells its length in bytes.
    pub fn read(bytes: &[u8]) -> (r: Option<(Self, usize)>)
        ensures
            match Self::spec_read(bytes@) {
                Some((p, n)) => r == Some((p, n as usize)) && p.wf(),
                None => r is None,
            },
    {
        match ip_packet(bytes, FUP_OPCODE) {
            Some((ip_bytes, target_ip, n)) => Some((FUPPacket { ip_bytes, target_ip }, n)),
            None => None,
        }
    }
}

} // verus!
