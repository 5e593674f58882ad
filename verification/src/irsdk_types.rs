//! The simulator's shared-memory layout: its header, the rotating data
//! buffers it describes, and the values read out of a data buffer.

use vstd::prelude::*;
use crate::ibt::{fits, le_i32, le_u32, le_u64, read_u32_at, read_u64_at};

verus! {

/// Description of one of the rotating data buffers.
#[derive(Debug, Clone, Copy)]
pub struct VarBuf {
    pub tick_count: i32,
    pub buf_offset: i32,
    pub _pad: [i32; 2],
}

/// The shared-memory header.
#[derive(Debug, Clone, Copy)]
pub struct IrsdkHeader {
    pub version: i32,
    pub status: i32,
    pub tick_rate: i32,
    pub session_info_update: i32,
    pub session_info_len: i32,
    pub session_info_offset: i32,
    pub num_vars: i32,
    pub var_header_offset: i32,
    pub num_buf: i32,
    pub buf_len: i32,
    pub _pad1: [i32; 2],
    pub var_buf: [VarBuf; 4],
}

/// A variable definition in shared memory.
#[derive(Debug, Clone)]
pub struct IrsdkVarHeader {
    pub var_type: i32,
    pub offset: i32,
    pub count: i32,
    pub count_as_time: bool,
    pub _pad: [u8; 3],
    pub name: [u8; 32],
    pub desc: [u8; 64],
    pub unit: [u8; 32],
}

/// The buffer with the highest tick count among the first `n` (scanning in
/// order, a later buffer wins only with a strictly higher count, and counts
/// that are not positive never win).
pub open spec fn latest_among(bufs: Seq<VarBuf>, n: int) -> (int, i32)
    decreases n,
{
    if n <= 0 {
        (0, 0)
    } else {
        let (idx, tick) = latest_among(bufs, n - 1);
        if bufs[n - 1].tick_count > tick {
            (n - 1, bufs[n - 1].tick_count)
        } else {
            (idx, tick)
        }
    }
}

/// How many of the four buffer slots are in use.
pub open spec fn used_buffers(num_buf: i32) -> int {
    if num_buf < 4 {
        num_buf as int
    } else {
        4
    }
}

impl IrsdkHeader {
    /// A header is usable from version 1 on.
    pub fn is_valid(&self) -> (r: bool)
        ensures
            r == (self.version >= 1),
    {
        self.version >= 1
    }

    /// The index of the buffer that holds the most recent data: the one with
    /// the highest tick count among those in use, the first one when none
    /// has a positive count.
    pub fn latest_buffer_index(&self) -> (r: usize)
        ensures
            r as int == latest_among(self.var_buf@, used_buffers(self.num_buf)).0,
            r < 4,
    {
        let n: i32 = if self.num_buf < 4 {
            self.num_buf
        } else {
            4
        };
        let mut latest_idx: usize = 0;
        let mut latest_tick: i32 = 0;
        let mut i: i32 = 0;
        while i < n
            invariant
                n == used_buffers(self.num_buf),
                n <= 4,
                i >= 0,
                n > 0 ==> i <= n,
                n <= 0 ==> i == 0,
                (latest_idx as int, latest_tick) == latest_among(self.var_buf@, i as int),
                latest_idx < 4,
            decreases n - i,
        {
            let tick = self.var_buf[i as usize].tick_count;
            if tick > latest_tick {
                latest_tick = tick;
                latest_idx = i as usize;
            }
            i = i + 1;
        }
        proof {
            if n <= 0 {
                assert(latest_among(self.var_buf@, n as int) == (0int, 0i32));
            }
        }
        latest_idx
    }
}

/// Reads a little-endian `i32` at an offset of a data buffer; `None` where
/// the buffer is too short.
pub fn read_int(data: &[u8], offset: usize) -> (r: Option<i32>)
    ensures
        fits(data.len() as int, offset as int, 4) ==> r == Some(le_i32(data@, offset as int)),
        !fits(data.len() as int, offset as int, 4) ==> r is None,
{
    if offset > data.len() || data.len() - offset < 4 {
        None
    } else {
        let bits = read_u32_at(data, offset);
        Some(bits as i32)
    }
}

/// Reads the bits of a little-endian `f32` at an offset of a data buffer;
/// `None` where the buffer is too short.
pub fn read_float_bits(data: &[u8], offset: usize) -> (r: Option<u32>)
    ensures
        fits(data.len() as int, offset as int, 4) ==> r == Some(le_u32(data@, offset as int)),
        !fits(data.len() as int, offset as int, 4) ==> r is None,
{
    if offset > data.len() || data.len() - offset < 4 {
        None
    } else {
        Some(read_u32_at(data, offset))
    }
}

/// Reads the bits of a little-endian `f64` at an offset of a data buffer;
/// `None` where the buffer is too short.
pub fn read_double_bits(data: &[u8], offset: usize) -> (r: Option<u64>)
    ensures
        fits(data.len() as int, offset as int, 8) ==> r == Some(le_u64(data@, offset as int)),
        !fits(data.len() as int, offset as int, 8) ==> r is None,
{
    if offset > data.len() || data.len() - offset < 8 {
        None
    } else {
        Some(read_u64_at(data, offset))
    }
}

/// Reads a flag byte at an offset of a data buffer: any byte but zero is
/// set; `None` past the end.
pub fn read_bool(data: &[u8], offset: usize) -> (r: Option<bool>)
    ensures
        offset < data.len() ==> r == Some(data@[offset as int] != 0),
        offset >= data.len() ==> r is None,
{
    if offset >= data.len() {
        None
    } else {
        Some(data[offset] != 0)
    }
}

} // verus!
