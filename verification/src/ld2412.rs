//! LD2412 1D radar driver: command serialization and target-data
//! deserialization.

use vstd::prelude::*;

use crate::buffers::{ByteBuf16, bytes16_of};
use crate::frames::{RadarDriver, RadarLLFrame};

verus! {

/// Distance resolution of one range gate.
#[derive(Debug, Clone, Copy)]
pub enum RadarResolution {
    Cm75,
    Cm50,
    Cm25,
}

/// The wire code of a resolution.
pub open spec fn res_code(r: RadarResolution) -> u8 {
    match r {
        RadarResolution::Cm75 => 0x00,
        RadarResolution::Cm50 => 0x01,
        RadarResolution::Cm25 => 0x02,
    }
}

/// Commands understood by the LD2412.
#[derive(Debug)]
pub enum Ld2412Command {
    /// Enable configuration mode; the radar ignores other commands
    /// until this is sent.
    EnableConfiguration,
    /// End configuration mode, so the radar starts to work.
    EndConfiguration,
    Resolution(RadarResolution),
    ReadResolution,
    /// Minimum distance, maximum distance, unoccupied duration,
    /// polarity.
    BasicParameters(u8, u8, u16, bool),
    ReadBasicParameters,
    EngineeringModeOn,
    EngineeringModeOff,
    MotionSensitivity([u8; 14]),
    ReadMotionSensitivity,
    StaticSensitivity([u8; 14]),
    ReadStaticSensitivity,
    EnterBackgroundCorrection,
    ReadBackgroundCorrection,
    FirmwareVersion,
    BaudRate(u32),
    FactoryReset,
    Reboot,
    BluetoothOn,
    BluetoothOff,
    MacAddress,
    /// Mode, threshold.
    LightsensorMode(u8, u8),
    ReadLightsensorMode,
}

/// The wire code of a supported baud rate; unsupported rates have no
/// code and cannot be serialized. (The LD2412 accepts 256600 where the
/// LD2450 accepts 256000.)
pub open spec fn baud_code_2412(b: u32) -> u16 {
    if b == 9600 {
        0x0001
    } else if b == 19200 {
        0x0002
    } else if b == 38400 {
        0x0003
    } else if b == 57600 {
        0x0004
    } else if b == 115200 {
        0x0005
    } else if b == 230400 {
        0x0006
    } else if b == 256600 {
        0x0007
    } else if b == 460800 {
        0x0008
    } else {
        0
    }
}

/// Whether a baud rate has a wire code.
pub open spec fn baud_supported_2412(b: u32) -> bool {
    b == 9600 || b == 19200 || b == 38400 || b == 57600 || b == 115200 || b == 230400 || b
        == 256600 || b == 460800
}

/// The command word of each LD2412 command.
pub open spec fn ld2412_opcode(cmd: Ld2412Command) -> u16 {
    match cmd {
        Ld2412Command::EnableConfiguration => 0x00FF,
        Ld2412Command::EndConfiguration => 0x00FE,
        Ld2412Command::Resolution(_) => 0x0001,
        Ld2412Command::ReadResolution => 0x0011,
        Ld2412Command::BasicParameters(_, _, _, _) => 0x0002,
        Ld2412Command::ReadBasicParameters => 0x0012,
        Ld2412Command::MotionSensitivity(_) => 0x0003,
        Ld2412Command::ReadMotionSensitivity => 0x0013,
        Ld2412Command::StaticSensitivity(_) => 0x0004,
        Ld2412Command::ReadStaticSensitivity => 0x0014,
        Ld2412Command::EnterBackgroundCorrection => 0x000B,
        Ld2412Command::ReadBackgroundCorrection => 0x001B,
        Ld2412Command::EngineeringModeOn => 0x0062,
        Ld2412Command::EngineeringModeOff => 0x0063,
        Ld2412Command::FirmwareVersion => 0x00A0,
        Ld2412Command::BaudRate(_) => 0x00A1,
        Ld2412Command::FactoryReset => 0x00A2,
        Ld2412Command::Reboot => 0x00A3,
        Ld2412Command::BluetoothOn => 0x00A4,
        Ld2412Command::BluetoothOff => 0x00A5,
        Ld2412Command::MacAddress => 0x00A6,
        Ld2412Command::LightsensorMode(_, _) => 0x000C,
        Ld2412Command::ReadLightsensorMode => 0x001C,
    }
}

/// The payload bytes of each LD2412 command.
pub open spec fn ld2412_payload(cmd: Ld2412Command) -> Seq<u8> {
    match cmd {
        Ld2412Command::EnableConfiguration => seq![0x01u8, 0x00u8],
        Ld2412Command::Resolution(res) => seq![res_code(res), 0x00u8, 0x00u8, 0x00u8, 0x00u8, 0x00u8],
        Ld2412Command::BasicParameters(min_d, max_d, dur, pol) => seq![
            min_d,
            max_d,
            (dur & 0xFF) as u8,
            ((dur >> 8) & 0xFF) as u8,
            (if pol { 0x01u8 } else { 0x00u8 }),
            0x00u8,
        ],
        Ld2412Command::MotionSensitivity(s) => s@,
        Ld2412Command::StaticSensitivity(s) => s@,
        Ld2412Command::BaudRate(b) => seq![
            baud_code_2412(b) as u8,
            (baud_code_2412(b) >> 8) as u8,
        ],
        Ld2412Command::BluetoothOn => seq![0x01u8, 0x00u8],
        Ld2412Command::BluetoothOff => seq![0x00u8, 0x00u8],
        Ld2412Command::MacAddress => seq![0x01u8, 0x00u8],
        Ld2412Command::LightsensorMode(mode, threshold) => seq![mode, threshold],
        _ => Seq::empty(),
    }
}

impl RadarDriver for Ld2412Command {
    /// Every command but an unsupported baud rate has a wire form.
    open spec fn serializable(&self) -> bool {
        match *self {
            Ld2412Command::BaudRate(b) => baud_supported_2412(b),
            _ => true,
        }
    }

    fn get_opcode(&self) -> (r: u16)
        ensures
            r == ld2412_opcode(*self),
    {
        match self {
            Ld2412Command::EnableConfiguration => 0x00FF,
            Ld2412Command::EndConfiguration => 0x00FE,
            Ld2412Command::Resolution(_) => 0x0001,
            Ld2412Command::ReadResolution => 0x0011,
            Ld2412Command::BasicParameters(_, _, _, _) => 0x0002,
            Ld2412Command::ReadBasicParameters => 0x0012,
            Ld2412Command::MotionSensitivity(_) => 0x0003,
            Ld2412Command::ReadMotionSensitivity => 0x0013,
            Ld2412Command::StaticSensitivity(_) => 0x0004,
            Ld2412Command::ReadStaticSensitivity => 0x0014,
            Ld2412Command::EnterBackgroundCorrection => 0x000B,
            Ld2412Command::ReadBackgroundCorrection => 0x001B,
            Ld2412Command::EngineeringModeOn => 0x0062,
            Ld2412Command::EngineeringModeOff => 0x0063,
            Ld2412Command::FirmwareVersion => 0x00A0,
            Ld2412Command::BaudRate(_) => 0x00A1,
            Ld2412Command::FactoryReset => 0x00A2,
            Ld2412Command::Reboot => 0x00A3,
            Ld2412Command::BluetoothOn => 0x00A4,
            Ld2412Command::BluetoothOff => 0x00A5,
            Ld2412Command::MacAddress => 0x00A6,
            Ld2412Command::LightsensorMode(_, _) => 0x000C,
            Ld2412Command::ReadLightsensorMode => 0x001C,
        }
    }

    fn serialize_data(&self, data: &mut ByteBuf16)
        ensures
            bytes16_of(*final(data)) == bytes16_of(*old(data)) + ld2412_payload(*self),
    {
        match self {
            Ld2412Command::EnableConfiguration => {
                data.push(0x01);
                data.push(0x00);
            },
            Ld2412Command::Resolution(resolution) => {
                let code: u8 = match resolution {
                    RadarResolution::Cm75 => 0x00,
                    RadarResolution::Cm50 => 0x01,
                    RadarResolution::Cm25 => 0x02,
                };
                data.push(code);
                data.push(0x00);
                data.push(0x00);
                data.push(0x00);
                data.push(0x00);
                data.push(0x00);
            },
            Ld2412Command::BasicParameters(min_distance, max_distance, unoccupied_duration, polarity) => {
                data.push(*min_distance);
                data.push(*max_distance);
                data.push((*unoccupied_duration & 0xFF) as u8);
                data.push(((*unoccupied_duration >> 8) & 0xFF) as u8);
                if *polarity {
                    data.push(0x01);
                } else {
                    data.push(0x00);
                }
                data.push(0x00);
            },
            Ld2412Command::MotionSensitivity(sensitivity) => {
                data.extend_from_slice(sensitivity.as_slice());
            },
            Ld2412Command::StaticSensitivity(sensitivity) => {
                data.extend_from_slice(sensitivity.as_slice());
            },
            Ld2412Command::BaudRate(baud_rate) => {
                let br: u16 = match *baud_rate {
                    9600 => 0x0001,
                    19200 => 0x0002,
                    38400 => 0x0003,
                    57600 => 0x0004,
                    115200 => 0x0005,
                    230400 => 0x0006,
                    256600 => 0x0007,
                    460800 => 0x0008,
                    _ => vstd::pervasive::unreached(),
                };
                data.push(br as u8);
                data.push((br >> 8) as u8);
            },
            Ld2412Command::BluetoothOn => {
                data.push(0x01);
                data.push(0x00);
            },
            Ld2412Command::BluetoothOff => {
                data.push(0x00);
                data.push(0x00);
            },
            Ld2412Command::MacAddress => {
                data.push(0x01);
                data.push(0x00);
            },
            Ld2412Command::LightsensorMode(mode, threshold) => {
                data.push(*mode);
                data.push(*threshold);
            },
            _ => {
                proof {
                    assert(ld2412_payload(*self) =~= Seq::<u8>::empty());
                    assert(bytes16_of(*data) =~= bytes16_of(*old(data)) + ld2412_payload(*self));
                }
            },
        }
        proof {
            assert(bytes16_of(*data) =~= bytes16_of(*old(data)) + ld2412_payload(*self));
        }
    }
}

impl Ld2412Command {
    /// The command as a low-level frame, ready to serialize for the
    /// wire.
    pub fn to_llframe(&self) -> (r: RadarLLFrame)
        requires
            self.serializable(),
        ensures
            r is CommandAckFrame,
            r->CommandAckFrame_0 == ld2412_opcode(*self),
            bytes16_of(r->CommandAckFrame_1) == ld2412_payload(*self),
    {
        let mut data = ByteBuf16::new();
        self.serialize_data(&mut data);
        RadarLLFrame::CommandAckFrame(self.get_opcode(), data)
    }
}

/// Target state reported by the LD2412.
#[derive(Debug, Clone, Copy, PartialEq, Eq, Structural)]
pub enum TargetState {
    Untargeted,
    Campaign,
    Stationary,
    MotionStationary,
    BottomNoiseDetectionInProgress,
    BottomNoiseDetectionSuccessful,
    BottomNoiseDetectionFailed,
}

/// The state encoded by a wire byte; bytes above six encode no state.
pub open spec fn state_of_code(code: u8) -> TargetState {
    if code == 0 {
        TargetState::Untargeted
    } else if code == 1 {
        TargetState::Campaign
    } else if code == 2 {
        TargetState::Stationary
    } else if code == 3 {
        TargetState::MotionStationary
    } else if code == 4 {
        TargetState::BottomNoiseDetectionInProgress
    } else if code == 5 {
        TargetState::BottomNoiseDetectionSuccessful
    } else {
        TargetState::BottomNoiseDetectionFailed
    }
}

impl TargetState {
    /// Decode a wire byte; bytes above six encode no state.
    pub fn from_code(code: u8) -> (r: TargetState)
        requires
            code <= 6,
        ensures
            r == state_of_code(code),
    {
        match code {
            0x00 => TargetState::Untargeted,
            0x01 => TargetState::Campaign,
            0x02 => TargetState::Stationary,
            0x03 => TargetState::MotionStationary,
            0x04 => TargetState::BottomNoiseDetectionInProgress,
            0x05 => TargetState::BottomNoiseDetectionSuccessful,
            0x06 => TargetState::BottomNoiseDetectionFailed,
            _ => vstd::pervasive::unreached(),
        }
    }
}

/// One reported target: distance in centimeters and signal energy.
#[derive(Debug, Clone, Copy)]
pub struct Target {
    pub distance: u16,
    pub energy: u8,
}

/// The basic per-frame target data: overall state plus the moving and
/// stationary targets.
#[derive(Debug, Clone, Copy)]
pub struct BasicTargetData {
    pub state: TargetState,
    pub moving_target: Target,
    pub stationary_target: Target,
}

/// Engineering-mode extras: per-gate energies and the light sensor.
#[derive(Debug, Clone, Copy)]
pub struct EngineeringModeData {
    pub b1: u8,
    pub b2: u8,
    pub moving_gates: [u8; 14],
    pub stationary_gates: [u8; 14],
    pub light: u8,
}

/// One parsed LD2412 intraframe.
#[derive(Debug)]
pub struct Ld2412TargetData {
    pub basic_target_data: BasicTargetData,
    pub engineering_mode_data: Option<EngineeringModeData>,
}

/// The basic target data encoded at the head of an intraframe body.
pub open spec fn basic_data_of(b: Seq<u8>) -> BasicTargetData {
    BasicTargetData {
        state: state_of_code(b[0]),
        moving_target: Target { distance: (b[1] + 256 * b[2]) as u16, energy: b[3] },
        stationary_target: Target { distance: (b[4] + 256 * b[5]) as u16, energy: b[6] },
    }
}

/// Whether a buffer is shaped as an intraframe: a data type byte, the
/// 0xAA marker, a body, then 0x55 and a calibration byte.
pub open spec fn intraframe_shape(b: Seq<u8>) -> bool {
    b.len() >= 4 && b[1] == 0xAA && b[b.len() - 2] == 0x55
}

/// Read the basic target data from an intraframe body.
pub fn read_basic_target_data(buffer: &[u8]) -> (r: BasicTargetData)
    requires
        buffer@.len() >= 7,
        buffer@[0] <= 6,
    ensures
        r == basic_data_of(buffer@),
{
    let moving_target = Target {
        distance: (buffer[1] as u16) + 256 * (buffer[2] as u16),
        energy: buffer[3],
    };
    let stationary_target = Target {
        distance: (buffer[4] as u16) + 256 * (buffer[5] as u16),
        energy: buffer[6],
    };
    BasicTargetData { state: TargetState::from_code(buffer[0]), moving_target, stationary_target }
}

/// What `Ld2412TargetData::deserialize` returns for a well-shaped
/// buffer: data type one carries engineering extras, data type two only
/// the basic data, anything else is no frame.
pub open spec fn ld2412_parse_ok(b: Seq<u8>, r: Option<Ld2412TargetData>) -> bool {
    if !intraframe_shape(b) {
        r is None
    } else {
        let body = b.subrange(2, b.len() - 2);
        if b[0] == 0x01 {
            match r {
                Some(d) => d.basic_target_data == basic_data_of(body)
                    && match d.engineering_mode_data {
                    Some(eng) => eng.b1 == body[7] && eng.b2 == body[8] && eng.moving_gates@
                        == body.subrange(9, 23) && eng.stationary_gates@ == body.subrange(23, 37)
                        && eng.light == body[37],
                    None => false,
                },
                None => false,
            }
        } else if b[0] == 0x02 {
            match r {
                Some(d) => d.basic_target_data == basic_data_of(body)
                    && d.engineering_mode_data is None,
                None => false,
            }
        } else {
            r is None
        }
    }
}

/// The inputs on which parsing cannot trip over a short body or an
/// unknown state byte: what a caller must have checked before asking
/// for a parse.
pub open spec fn ld2412_parse_safe(b: Seq<u8>) -> bool {
    intraframe_shape(b) ==> {
        let body = b.subrange(2, b.len() - 2);
        &&& (b[0] == 0x01 ==> body.len() >= 38 && body[0] <= 6)
        &&& (b[0] == 0x02 ==> body.len() >= 7 && body[0] <= 6)
    }
}

impl Ld2412TargetData {
    /// Parse an intraframe: data type one carries the basic data plus
    /// engineering-mode extras, data type two only the basic data.
    pub fn deserialize(buffer: &[u8]) -> (r: Option<Ld2412TargetData>)
        requires
            ld2412_parse_safe(buffer@),
        ensures
            ld2412_parse_ok(buffer@, r),
    {
        let n: usize = buffer.len();
        if n < 4 || buffer[1] != 0xAA || buffer[n - 2] != 0x55 {
            return None;
        }
        let body: &[u8] = vstd::slice::slice_subrange(buffer, 2, n - 2);
        if buffer[0] == 0x01 {
            let basic_target_data = read_basic_target_data(body);
            let moving_gates: [u8; 14] = [
                body[9],
                body[10],
                body[11],
                body[12],
                body[13],
                body[14],
                body[15],
                body[16],
                body[17],
                body[18],
                body[19],
                body[20],
                body[21],
                body[22],
            ];
            let stationary_gates: [u8; 14] = [
                body[23],
                body[24],
                body[25],
                body[26],
                body[27],
                body[28],
                body[29],
                body[30],
                body[31],
                body[32],
                body[33],
                body[34],
                body[35],
                body[36],
            ];
            let eng_data = EngineeringModeData {
                b1: body[7],
                b2: body[8],
                moving_gates,
                stationary_gates,
                light: body[37],
            };
            proof {
                assert(eng_data.moving_gates@ =~= buffer@.subrange(2, buffer@.len() - 2).subrange(
                    9,
                    23,
                ));
                assert(eng_data.stationary_gates@ =~= buffer@.subrange(
                    2,
                    buffer@.len() - 2,
                ).subrange(23, 37));
            }
            Some(Ld2412TargetData { basic_target_data, engineering_mode_data: Some(eng_data) })
        } else if buffer[0] == 0x02 {
            let basic_target_data = read_basic_target_data(body);
            Some(Ld2412TargetData { basic_target_data, engineering_mode_data: None })
        } else {
            // Unknown data type.
            None
        }
    }
}

} // verus!
