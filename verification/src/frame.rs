//! The wire frame: one snapshot as 16 packed bytes, fields in order, 16-bit
//! fields low byte first, nothing between the fields.
//!
//! | offset | size | field      |
//! |--------|------|------------|
//! | 0      | 1    | cpu_usage  |
//! | 1      | 2    | ram_max    |
//! | 3      | 1    | ram_usage  |
//! | 4      | 4    | ram_unit   |
//! | 8      | 1    | gpu_usage  |
//! | 9      | 2    | vram_max   |
//! | 11     | 1    | vram_usage |
//! | 12     | 4    | vram_unit  |

use crate::system_info::SystemInfo;
use vstd::prelude::*;

verus! {

/// The length of a frame in bytes.
pub const FRAME_LEN: usize = 16;

/// A 16-bit value as two bytes, low byte first.
pub open spec fn le16(value: u16) -> Seq<u8> {
    seq![(value % 256) as u8, (value / 256) as u8]
}

/// The 16-bit value that two bytes write, low byte first.
pub open spec fn from_le16(low: u8, high: u8) -> u16 {
    (low + 256 * high) as u16
}

/// The frame of a snapshot.
pub open spec fn frame_bytes(info: SystemInfo) -> Seq<u8> {
    seq![info.cpu_usage] + le16(info.ram_max) + seq![info.ram_usage] + info.ram_unit@
        + seq![info.gpu_usage] + le16(info.vram_max) + seq![info.vram_usage] + info.vram_unit@
}

/// The snapshot that the 16 bytes of a frame carry.
pub open spec fn frame_fields(frame: Seq<u8>) -> SystemInfo
    recommends
        frame.len() == FRAME_LEN,
{
    SystemInfo {
        cpu_usage: frame[0],
        ram_max: from_le16(frame[1], frame[2]),
        ram_usage: frame[3],
        ram_unit: [frame[4], frame[5], frame[6], frame[7]],
        gpu_usage: frame[8],
        vram_max: from_le16(frame[9], frame[10]),
        vram_usage: frame[11],
        vram_unit: [frame[12], frame[13], frame[14], frame[15]],
    }
}

/// Every snapshot has a frame of exactly 16 bytes, and reading that frame
/// gives the snapshot back, field for field.
pub proof fn lemma_frame_round_trip(info: SystemInfo)
    ensures
        frame_bytes(info).len() == FRAME_LEN,
        frame_fields(frame_bytes(info)) == info,
{
    let frame = frame_bytes(info);
    let back = frame_fields(frame);
    assert(back.ram_unit =~= info.ram_unit);
    assert(back.vram_unit =~= info.vram_unit);
}

/// Any 16 bytes are the frame of the snapshot that they carry: no two frames
/// carry the same snapshot.
pub proof fn lemma_frame_is_canonical(frame: Seq<u8>)
    requires
        frame.len() == FRAME_LEN,
    ensures
        frame_bytes(frame_fields(frame)) == frame,
{
    assert(frame_bytes(frame_fields(frame)) =~= frame);
}

impl SystemInfo {
    /// Packs the snapshot into its frame, from which `from_frame` reads it
    /// back.
    pub fn to_frame(&self) -> (frame: [u8; 16])
        ensures
            frame@ == frame_bytes(*self),
            frame_fields(frame@) == *self,
    {
        let frame: [u8; 16] = [
            self.cpu_usage,
            (self.ram_max % 256) as u8,
            (self.ram_max / 256) as u8,
            self.ram_usage,
            self.ram_unit[0],
            self.ram_unit[1],
            self.ram_unit[2],
            self.ram_unit[3],
            self.gpu_usage,
            (self.vram_max % 256) as u8,
            (self.vram_max / 256) as u8,
            self.vram_usage,
            self.vram_unit[0],
            self.vram_unit[1],
            self.vram_unit[2],
            self.vram_unit[3],
        ];
        assert(frame@ =~= frame_bytes(*self));
        proof {
            lemma_frame_round_trip(*self);
        }
        frame
    }

    /// Reads a snapshot back out of a frame. Only a slice of exactly 16 bytes
    /// is a frame.
    pub fn from_frame(frame: &[u8]) -> (info: Option<SystemInfo>)
        ensures
            info == if frame@.len() == FRAME_LEN {
                Some(frame_fields(frame@))
            } else {
                None
            },
    {
        if frame.len() != FRAME_LEN {
            return None;
        }
        let info = SystemInfo {
            cpu_usage: frame[0],
            ram_max: frame[1] as u16 + 256 * (frame[2] as u16),
            ram_usage: frame[3],
            ram_unit: [frame[4], frame[5], frame[6], frame[7]],
            gpu_usage: frame[8],
            vram_max: frame[9] as u16 + 256 * (frame[10] as u16),
            vram_usage: frame[11],
            vram_unit: [frame[12], frame[13], frame[14], frame[15]],
        };
        assert(info.ram_unit =~= frame_fields(frame@).ram_unit);
        assert(info.vram_unit =~= frame_fields(frame@).vram_unit);
        Some(info)
    }
}

} // verus!
