//! Low-level radar wire frames shared by the LD2412 and LD2450 drivers:
//! command/acknowledgement frames and the two target-data intraframes.

use vstd::prelude::*;

use vstd::slice::slice_subrange;

use crate::buffers::{ByteBuf16, ByteBuf32, bytes16_of, bytes32_of};

verus! {

/// A radar command driver: every command knows its command word and how
/// to serialize its payload.
pub trait RadarDriver {
    /// Which commands have a wire form; serializing any other would be a
    /// programming error.
    spec fn serializable(&self) -> bool;

    /// The command word.
    fn get_opcode(&self) -> u16;

    /// Append the command's payload bytes to `data`.
    fn serialize_data(&self, data: &mut ByteBuf16)
        requires
            self.serializable(),
            bytes16_of(*old(data)).len() + 32 <= usize::MAX,
    ;
}

/// A low-level frame on the radar serial link.
#[derive(Debug)]
pub enum RadarLLFrame {
    /// Command and acknowledgement frame: command word and payload.
    CommandAckFrame(u16, ByteBuf16),
    /// LD2412 1D target-data intraframe.
    TargetFrame(ByteBuf32),
    /// LD2450 2D target-data intraframe.
    TargetFrame2D(ByteBuf32),
}

/// The value of a little-endian 16-bit field.
pub open spec fn le16_val(lo: u8, hi: u8) -> int {
    lo + 256 * hi
}

/// The two little-endian bytes of a 16-bit value.
pub open spec fn le16_bytes(v: u16) -> Seq<u8> {
    seq![(v & 0xFF) as u8, ((v >> 8) & 0xFF) as u8]
}

/// The bytes of a serialized command frame: header, payload length plus
/// two, command word, payload, trailer.
pub open spec fn cmd_frame_bytes(opcode: u16, payload: Seq<u8>) -> Seq<u8> {
    seq![0xFDu8, 0xFCu8, 0xFBu8, 0xFAu8] + le16_bytes((payload.len() + 2) as u16) + le16_bytes(
        opcode,
    ) + payload + seq![0x04u8, 0x03u8, 0x02u8, 0x01u8]
}

/// Whether a buffer is shaped as a command/acknowledgement frame.
pub open spec fn cmd_shape(b: Seq<u8>) -> bool {
    &&& b.len() >= 12
    &&& b[0] == 0xFD
    &&& b[1] == 0xFC
    &&& b[2] == 0xFB
    &&& b[3] == 0xFA
    &&& b[b.len() - 4] == 0x04
    &&& b[b.len() - 3] == 0x03
    &&& b[b.len() - 2] == 0x02
    &&& b[b.len() - 1] == 0x01
}

/// Whether a buffer is shaped as a 1D target-data frame.
pub open spec fn target_shape(b: Seq<u8>) -> bool {
    &&& b.len() >= 10
    &&& b[0] == 0xF4
    &&& b[1] == 0xF3
    &&& b[2] == 0xF2
    &&& b[3] == 0xF1
    &&& b[b.len() - 4] == 0xF8
    &&& b[b.len() - 3] == 0xF7
    &&& b[b.len() - 2] == 0xF6
    &&& b[b.len() - 1] == 0xF5
}

/// Whether a buffer is shaped as a 2D target-data frame.
pub open spec fn target2d_shape(b: Seq<u8>) -> bool {
    &&& b.len() >= 6
    &&& b[0] == 0xAA
    &&& b[1] == 0xFF
    &&& b[2] == 0x03
    &&& b[3] == 0x00
    &&& b[b.len() - 2] == 0x55
    &&& b[b.len() - 1] == 0xCC
}

/// What `RadarLLFrame::deserialize` returns for a buffer: the first
/// matching shape wins; a 1D frame with a wrong length field is
/// rejected; anything else is no frame.
pub open spec fn deserialize_ok(b: Seq<u8>, r: Option<RadarLLFrame>) -> bool {
    if cmd_shape(b) {
        match r {
            Some(RadarLLFrame::CommandAckFrame(op, data)) => op == le16_val(b[6], b[7])
                && bytes16_of(data) == b.subrange(8, b.len() - 4),
            _ => false,
        }
    } else if target_shape(b) {
        if le16_val(b[4], b[5]) == b.len() - 10 {
            match r {
                Some(RadarLLFrame::TargetFrame(d)) => bytes32_of(d) == b.subrange(6, b.len() - 4),
                _ => false,
            }
        } else {
            r is None
        }
    } else if target2d_shape(b) {
        match r {
            Some(RadarLLFrame::TargetFrame2D(d)) => bytes32_of(d) == b.subrange(4, b.len() - 2),
            _ => false,
        }
    } else {
        r is None
    }
}

impl RadarLLFrame {
    /// Serialize a command frame for the wire. Target-data frames exist
    /// only for deserialization and have no serialized form.
    pub fn serialize(&self) -> (r: ByteBuf32)
        requires
            self is CommandAckFrame,
            bytes16_of(self->CommandAckFrame_1).len() + 2 <= 0xFFFF,
        ensures
            bytes32_of(r) == cmd_frame_bytes(
                self->CommandAckFrame_0,
                bytes16_of(self->CommandAckFrame_1),
            ),
    {
        match self {
            RadarLLFrame::CommandAckFrame(opcode, data) => {
                let mut buffer = ByteBuf32::new();
                buffer.push(0xFD);
                buffer.push(0xFC);
                buffer.push(0xFB);
                buffer.push(0xFA);
                let len_field: u16 = (data.len() as u16) + 2;
                buffer.push((len_field & 0xFF) as u8);
                buffer.push(((len_field >> 8) & 0xFF) as u8);
                buffer.push((*opcode & 0xFF) as u8);
                buffer.push(((*opcode >> 8) & 0xFF) as u8);
                buffer.extend_from_slice(data.as_slice());
                buffer.push(0x04);
                buffer.push(0x03);
                buffer.push(0x02);
                buffer.push(0x01);
                proof {
                    assert(bytes32_of(buffer) =~= cmd_frame_bytes(*opcode, bytes16_of(*data)));
                }
                buffer
            },
            _ => vstd::pervasive::unreached(),
        }
    }

    /// The intraframe body carried by a target-data frame, ready to hand
    /// to the matching target parser; a command frame carries none.
    pub fn intraframe(&self) -> (r: Option<&[u8]>)
        ensures
            self is TargetFrame ==> r is Some && r->0@ == bytes32_of(self->TargetFrame_0),
            self is TargetFrame2D ==> r is Some && r->0@ == bytes32_of(self->TargetFrame2D_0),
            self is CommandAckFrame ==> r is None,
    {
        match self {
            RadarLLFrame::CommandAckFrame(_, _) => None,
            RadarLLFrame::TargetFrame(data) => Some(data.as_slice()),
            RadarLLFrame::TargetFrame2D(data) => Some(data.as_slice()),
        }
    }

    /// Recognize one frame in a buffer: a command/acknowledgement frame,
    /// a 1D target frame (whose length field must match), or a 2D target
    /// frame; anything else is no frame.
    pub fn deserialize(buffer: &[u8]) -> (r: Option<RadarLLFrame>)
        requires
            cmd_shape(buffer@) ==> le16_val(buffer@[4], buffer@[5]) == buffer@.len() - 10,
        ensures
            deserialize_ok(buffer@, r),
    {
        let n: usize = buffer.len();
        if n >= 12 && buffer[0] == 0xFD && buffer[1] == 0xFC && buffer[2] == 0xFB && buffer[3]
            == 0xFA && buffer[n - 4] == 0x04 && buffer[n - 3] == 0x03 && buffer[n - 2] == 0x02
            && buffer[n - 1] == 0x01 {
            let len_field: usize = (buffer[4] as usize) + 256 * (buffer[5] as usize);
            proof {
                assert(cmd_shape(buffer@));
                assert(len_field == n - 10);
            }
            let opcode: u16 = (buffer[6] as u16) + 256 * (buffer[7] as u16);
            let mut data = ByteBuf16::new();
            data.extend_from_slice(slice_subrange(buffer, 8, n - 4));
            proof {
                assert(bytes16_of(data) =~= buffer@.subrange(8, buffer@.len() - 4));
            }
            Some(RadarLLFrame::CommandAckFrame(opcode, data))
        } else if n >= 10 && buffer[0] == 0xF4 && buffer[1] == 0xF3 && buffer[2] == 0xF2
            && buffer[3] == 0xF1 && buffer[n - 4] == 0xF8 && buffer[n - 3] == 0xF7 && buffer[n - 2]
            == 0xF6 && buffer[n - 1] == 0xF5 {
            let len_field: usize = (buffer[4] as usize) + 256 * (buffer[5] as usize);
            if len_field != n - 10 {
                // The intraframe length disagrees with the length field.
                return None;
            }
            let mut data = ByteBuf32::new();
            data.extend_from_slice(slice_subrange(buffer, 6, n - 4));
            proof {
                assert(bytes32_of(data) =~= buffer@.subrange(6, buffer@.len() - 4));
            }
            Some(RadarLLFrame::TargetFrame(data))
        } else if n >= 6 && buffer[0] == 0xAA && buffer[1] == 0xFF && buffer[2] == 0x03 && buffer[3]
            == 0x00 && buffer[n - 2] == 0x55 && buffer[n - 1] == 0xCC {
            let mut data = ByteBuf32::new();
            data.extend_from_slice(slice_subrange(buffer, 4, n - 2));
            proof {
                assert(bytes32_of(data) =~= buffer@.subrange(4, buffer@.len() - 2));
            }
            Some(RadarLLFrame::TargetFrame2D(data))
        } else {
            None
        }
    }
}

} // verus!
