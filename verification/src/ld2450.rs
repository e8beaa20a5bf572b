//! LD2450 2D radar driver: command serialization and target-data
//! deserialization.

use vstd::prelude::*;

use smallvec::SmallVec;

use crate::buffers::{ByteBuf16, bytes16_of};
use crate::frames::{RadarDriver, RadarLLFrame};

verus! {

/// Tracking mode of the LD2450.
#[derive(Debug, Clone, Copy)]
pub enum TrackingMode {
    SingleTarget,
    MultiTarget,
}

/// Commands understood by the LD2450.
#[derive(Debug)]
pub enum Ld2450Command {
    /// Enable configuration mode; the radar ignores other commands
    /// until this is sent.
    EnableConfiguration,
    /// End configuration mode, so the radar starts to work.
    EndConfiguration,
    /// Set tracking mode to single target.
    SingleTargetTracking,
    /// Set tracking mode to multi-target (up to three targets).
    MultiTargetTracking,
    /// Query the current tracking mode.
    QueryTrackingMode,
    /// Read the firmware version.
    FirmwareVersion,
    /// Set the serial port baud rate.
    BaudRate(u32),
    /// Restore factory settings.
    FactoryReset,
    /// Reboot the module.
    Reboot,
    /// Enable Bluetooth.
    BluetoothOn,
    /// Disable Bluetooth.
    BluetoothOff,
    /// Get the MAC address.
    MacAddress,
    /// Query the current zone filtering configuration.
    QueryZoneFiltering,
    /// Set zone filtering: filter type and three regions, each as
    /// `(x1, y1, x2, y2)`.
    SetZoneFiltering(u16, [(i16, i16, i16, i16); 3]),
}

/// The wire code of a supported baud rate; unsupported rates have no
/// code and cannot be serialized.
pub open spec fn baud_code(b: u32) -> u16 {
    if b == 9600 {
        0x0001
    } else if b == 19200 {
        0x0002
    } else if b == 38400 {
        0x0003
    } else if b == 57600 {
        0x0004
    } else if b == 115200 {
        0x0005
    } else if b == 230400 {
        0x0006
    } else if b == 256000 {
        0x0007
    } else if b == 460800 {
        0x0008
    } else {
        0
    }
}

/// Whether a baud rate has a wire code.
pub open spec fn baud_supported(b: u32) -> bool {
    b == 9600 || b == 19200 || b == 38400 || b == 57600 || b == 115200 || b == 230400 || b
        == 256000 || b == 460800
}

/// The command word of each LD2450 command.
pub open spec fn ld2450_opcode(cmd: Ld2450Command) -> u16 {
    match cmd {
        Ld2450Command::EnableConfiguration => 0x00FF,
        Ld2450Command::EndConfiguration => 0x00FE,
        Ld2450Command::SingleTargetTracking => 0x0080,
        Ld2450Command::MultiTargetTracking => 0x0090,
        Ld2450Command::QueryTrackingMode => 0x0091,
        Ld2450Command::FirmwareVersion => 0x00A0,
        Ld2450Command::BaudRate(_) => 0x00A1,
        Ld2450Command::FactoryReset => 0x00A2,
        Ld2450Command::Reboot => 0x00A3,
        Ld2450Command::BluetoothOn => 0x00A4,
        // Same command word as BluetoothOn, different parameter.
        Ld2450Command::BluetoothOff => 0x00A4,
        Ld2450Command::MacAddress => 0x00A5,
        Ld2450Command::QueryZoneFiltering => 0x00C1,
        Ld2450Command::SetZoneFiltering(_, _) => 0x00C2,
    }
}

/// The eight little-endian payload bytes of one zone region.
pub open spec fn region_bytes(r: (i16, i16, i16, i16)) -> Seq<u8> {
    seq![
        r.0 as u8,
        (r.0 >> 8) as u8,
        r.1 as u8,
        (r.1 >> 8) as u8,
        r.2 as u8,
        (r.2 >> 8) as u8,
        r.3 as u8,
        (r.3 >> 8) as u8,
    ]
}

/// The payload bytes of each LD2450 command.
pub open spec fn ld2450_payload(cmd: Ld2450Command) -> Seq<u8> {
    match cmd {
        Ld2450Command::EnableConfiguration => seq![0x01u8, 0x00u8],
        Ld2450Command::BaudRate(b) => seq![
            baud_code(b) as u8,
            (baud_code(b) >> 8) as u8,
        ],
        Ld2450Command::BluetoothOn => seq![0x01u8, 0x00u8],
        Ld2450Command::BluetoothOff => seq![0x00u8, 0x00u8],
        Ld2450Command::MacAddress => seq![0x01u8, 0x00u8],
        Ld2450Command::SetZoneFiltering(t, regions) => seq![t as u8, (t >> 8) as u8]
            + region_bytes(regions[0]) + region_bytes(regions[1]) + region_bytes(regions[2]),
        _ => Seq::empty(),
    }
}

impl RadarDriver for Ld2450Command {
    /// Every command but an unsupported baud rate has a wire form.
    open spec fn serializable(&self) -> bool {
        match *self {
            Ld2450Command::BaudRate(b) => baud_supported(b),
            _ => true,
        }
    }

    fn get_opcode(&self) -> (r: u16)
        ensures
            r == ld2450_opcode(*self),
    {
        match self {
            Ld2450Command::EnableConfiguration => 0x00FF,
            Ld2450Command::EndConfiguration => 0x00FE,
            Ld2450Command::SingleTargetTracking => 0x0080,
            Ld2450Command::MultiTargetTracking => 0x0090,
            Ld2450Command::QueryTrackingMode => 0x0091,
            Ld2450Command::FirmwareVersion => 0x00A0,
            Ld2450Command::BaudRate(_) => 0x00A1,
            Ld2450Command::FactoryReset => 0x00A2,
            Ld2450Command::Reboot => 0x00A3,
            Ld2450Command::BluetoothOn => 0x00A4,
            Ld2450Command::BluetoothOff => 0x00A4,
            Ld2450Command::MacAddress => 0x00A5,
            Ld2450Command::QueryZoneFiltering => 0x00C1,
            Ld2450Command::SetZoneFiltering(_, _) => 0x00C2,
        }
    }

    fn serialize_data(&self, data: &mut ByteBuf16)
        ensures
            bytes16_of(*final(data)) == bytes16_of(*old(data)) + ld2450_payload(*self),
    {
        match self {
            Ld2450Command::EnableConfiguration => {
                data.push(0x01);
                data.push(0x00);
            },
            Ld2450Command::BaudRate(baud_rate) => {
                let br: u16 = match *baud_rate {
                    9600 => 0x0001,
                    19200 => 0x0002,
                    38400 => 0x0003,
                    57600 => 0x0004,
                    115200 => 0x0005,
                    230400 => 0x0006,
                    256000 => 0x0007,
                    460800 => 0x0008,
                    _ => vstd::pervasive::unreached(),
                };
                data.push(br as u8);
                data.push((br >> 8) as u8);
            },
            Ld2450Command::BluetoothOn => {
                data.push(0x01);
                data.push(0x00);
            },
            Ld2450Command::BluetoothOff => {
                data.push(0x00);
                data.push(0x00);
            },
            Ld2450Command::MacAddress => {
                data.push(0x01);
                data.push(0x00);
            },
            Ld2450Command::SetZoneFiltering(filter_type, regions) => {
                data.push(*filter_type as u8);
                data.push((*filter_type >> 8) as u8);
                let mut i: usize = 0;
                while i < 3
                    invariant
                        i <= 3,
                        bytes16_of(*old(data)).len() + 32 <= usize::MAX,
                        bytes16_of(*data).len() == bytes16_of(*old(data)).len() + 2 + 8 * i,
                        bytes16_of(*data) == bytes16_of(*old(data)) + seq![
                            (*filter_type) as u8,
                            ((*filter_type) >> 8) as u8,
                        ] + region_sum(*regions, i as int),
                    decreases 3 - i,
                {
                    let region: (i16, i16, i16, i16) = regions[i];
                    data.push(region.0 as u8);
                    data.push((region.0 >> 8) as u8);
                    data.push(region.1 as u8);
                    data.push((region.1 >> 8) as u8);
                    data.push(region.2 as u8);
                    data.push((region.2 >> 8) as u8);
                    data.push(region.3 as u8);
                    data.push((region.3 >> 8) as u8);
                    proof {
                        assert(region == (*regions)[i as int]);
                        assert(region_sum(*regions, i + 1) =~= region_sum(*regions, i as int)
                            + region_bytes((*regions)[i as int]));
                        assert(bytes16_of(*data) =~= bytes16_of(*old(data)) + seq![
                            (*filter_type) as u8,
                            ((*filter_type) >> 8) as u8,
                        ] + region_sum(*regions, i + 1));
                    }
                    i += 1;
                }
                proof {
                    reveal_with_fuel(region_sum, 4);
                    assert(region_sum(*regions, 3) =~= region_bytes((*regions)[0])
                        + region_bytes((*regions)[1]) + region_bytes((*regions)[2]));
                    assert(bytes16_of(*data) =~= bytes16_of(*old(data)) + ld2450_payload(*self));
                }
            },
            _ => {
                proof {
                    assert(ld2450_payload(*self) =~= Seq::<u8>::empty());
                    assert(bytes16_of(*data) =~= bytes16_of(*old(data)) + ld2450_payload(*self));
                }
            },
        }
    }
}

/// The concatenated payload bytes of the first `n` zone regions.
pub open spec fn region_sum(regions: [(i16, i16, i16, i16); 3], n: int) -> Seq<u8>
    decreases n,
{
    if n <= 0 {
        Seq::empty()
    } else {
        region_sum(regions, n - 1) + region_bytes(regions[n - 1])
    }
}

impl Ld2450Command {
    /// The command as a low-level frame, ready to serialize for the
    /// wire.
    pub fn to_llframe(&self) -> (r: RadarLLFrame)
        requires
            self.serializable(),
        ensures
            r is CommandAckFrame,
            r->CommandAckFrame_0 == ld2450_opcode(*self),
            bytes16_of(r->CommandAckFrame_1) == ld2450_payload(*self),
    {
        let mut data = ByteBuf16::new();
        self.serialize_data(&mut data);
        RadarLLFrame::CommandAckFrame(self.get_opcode(), data)
    }
}

/// A 2D position in millimeters.
#[derive(Debug, Clone, Copy)]
pub struct Position {
    pub x: i16,
    pub y: i16,
}

/// One reported target: position, speed in cm/s, and the sensor's
/// distance resolution in millimeters.
#[derive(Debug, Clone, Copy)]
pub struct TargetData {
    pub position: Position,
    pub speed: i16,
    pub distance_resolution: u16,
}

/// The targets reported in one LD2450 intraframe, at most three.
#[verifier::external_body]
#[derive(Debug)]
pub struct TargetBuf {
    inner: SmallVec<[TargetData; 3]>,
}

/// The targets held by a target buffer.
pub uninterp spec fn targets_of(v: TargetBuf) -> Seq<TargetData>;

impl TargetBuf {
    /// Relies on smallvec::SmallVec::new: a fresh vector is empty.
    #[verifier::external_body]
    pub fn new() -> (r: TargetBuf)
        ensures
            targets_of(r) == Seq::<TargetData>::empty(),
    {
        TargetBuf { inner: SmallVec::new() }
    }

    /// Relies on smallvec::SmallVec::push: appends one element.
    #[verifier::external_body]
    pub fn push(&mut self, t: TargetData)
        requires
            targets_of(*old(self)).len() < usize::MAX,
        ensures
            targets_of(*final(self)) == targets_of(*old(self)).push(t),
    {
        self.inner.push(t)
    }

    /// Relies on smallvec::SmallVec::len: the number of stored elements.
    #[verifier::external_body]
    pub fn len(&self) -> (r: usize)
        ensures
            r == targets_of(*self).len(),
    {
        self.inner.len()
    }

    /// Relies on core indexing into the `SmallVec`'s slice: the element
    /// at `i`.
    #[verifier::external_body]
    pub fn index(&self, i: usize) -> (r: TargetData)
        requires
            i < targets_of(*self).len(),
        ensures
            r == targets_of(*self)[i as int],
    {
        self.inner[i]
    }

    /// The element at `i`, or `None` past the end.
    pub fn get(&self, i: usize) -> (r: Option<TargetData>)
        ensures
            r == (if i < targets_of(*self).len() {
                Some(targets_of(*self)[i as int])
            } else {
                Option::<TargetData>::None
            }),
    {
        if i < self.len() {
            Some(self.index(i))
        } else {
            None
        }
    }
}

/// The parsed targets of one intraframe.
#[derive(Debug)]
pub struct Ld2450TargetData {
    pub targets: TargetBuf,
}

/// Whether the eight bytes of one target slot are all zero, meaning no
/// target is present in that slot.
pub open spec fn chunk_zero(b: Seq<u8>, base: int) -> bool {
    forall|k: int| base <= k < base + 8 ==> b[k] == 0
}

/// The sign-and-magnitude coordinate encoding of the LD2450: the top
/// bit of the high byte is the sign (set means positive), the remaining
/// fifteen bits the magnitude.
pub open spec fn sign_mag(lo: u8, hi: u8) -> int {
    if hi >= 0x80 {
        lo + 256 * (hi - 0x80)
    } else {
        -(lo + 256 * hi)
    }
}

/// The target parsed from one eight-byte slot.
pub open spec fn target_at(b: Seq<u8>, base: int) -> TargetData {
    TargetData {
        position: Position {
            x: sign_mag(b[base], b[base + 1]) as i16,
            y: sign_mag(b[base + 2], b[base + 3]) as i16,
        },
        speed: sign_mag(b[base + 4], b[base + 5]) as i16,
        distance_resolution: (b[base + 6] + 256 * b[base + 7]) as u16,
    }
}

/// The targets parsed from the first `n` slots: empty slots are
/// skipped.
pub open spec fn parsed_targets(b: Seq<u8>, n: int) -> Seq<TargetData>
    decreases n,
{
    if n <= 0 {
        Seq::empty()
    } else {
        parsed_targets(b, n - 1) + if chunk_zero(b, 8 * (n - 1)) {
            Seq::empty()
        } else {
            seq![target_at(b, 8 * (n - 1))]
        }
    }
}

/// What `Ld2450TargetData::deserialize` returns: nothing for a short
/// buffer, otherwise the targets of the three slots.
pub open spec fn ld2450_parse_ok(b: Seq<u8>, r: Option<Ld2450TargetData>) -> bool {
    if b.len() < 24 {
        r is None
    } else {
        match r {
            Some(d) => targets_of(d.targets) == parsed_targets(b, 3),
            None => false,
        }
    }
}

/// Whether the eight bytes at `base` are all zero.
fn chunk_is_zero(buffer: &[u8], base: usize) -> (r: bool)
    requires
        base + 8 <= buffer@.len(),
    ensures
        r == chunk_zero(buffer@, base as int),
{
    let r = buffer[base] == 0 && buffer[base + 1] == 0 && buffer[base + 2] == 0 && buffer[base + 3]
        == 0 && buffer[base + 4] == 0 && buffer[base + 5] == 0 && buffer[base + 6] == 0
        && buffer[base + 7] == 0;
    proof {
        if r {
            assert forall|k: int| base <= k < base + 8 implies buffer@[k] == 0 by {}
        }
    }
    r
}

/// Decode one sign-and-magnitude coordinate.
fn decode_coord(lo: u8, hi: u8) -> (r: i16)
    ensures
        r == sign_mag(lo, hi),
{
    if hi >= 0x80 {
        (lo as i16) + 256 * ((hi - 0x80) as i16)
    } else {
        -((lo as i16) + 256 * (hi as i16))
    }
}

impl Ld2450TargetData {
    /// Parse the three target slots of an intraframe: each slot is
    /// eight bytes, an all-zero slot means no target. A buffer shorter
    /// than the three slots is rejected.
    pub fn deserialize(buffer: &[u8]) -> (r: Option<Ld2450TargetData>)
        ensures
            ld2450_parse_ok(buffer@, r),
    {
        if buffer.len() < 24 {
            // Too short for the three target slots.
            return None;
        }
        let mut targets = TargetBuf::new();
        let mut i: usize = 0;
        while i < 3
            invariant
                buffer@.len() >= 24,
                i <= 3,
                targets_of(targets) == parsed_targets(buffer@, i as int),
                targets_of(targets).len() <= i,
            decreases 3 - i,
        {
            let base: usize = i * 8;
            if !chunk_is_zero(buffer, base) {
                let x: i16 = decode_coord(buffer[base], buffer[base + 1]);
                let y: i16 = decode_coord(buffer[base + 2], buffer[base + 3]);
                let speed: i16 = decode_coord(buffer[base + 4], buffer[base + 5]);
                let distance: u16 = (buffer[base + 6] as u16) + 256 * (buffer[base + 7] as u16);
                targets.push(
                    TargetData { position: Position { x, y }, speed, distance_resolution: distance },
                );
                proof {
                    assert(targets_of(targets) =~= parsed_targets(buffer@, i + 1));
                }
            } else {
                proof {
                    assert(targets_of(targets) =~= parsed_targets(buffer@, i + 1));
                }
            }
            i += 1;
        }
        Some(Ld2450TargetData { targets })
    }
}

} // verus!
