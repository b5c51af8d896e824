//! The three payload families the control plane distributes.
//!
//! Each generator is deterministic: the payload is a function of the
//! version alone, so every subscriber that holds a version can check its
//! bytes.  The three registries rotate on independent clocks; here they
//! share one interval, as the deployment configures them.

use vstd::prelude::*;
use crate::registry::{ArtifactGenerator, ArtifactRegistry};
use crate::MAX_TIME_MS;

verus! {

/// How often each registry rotates, in milliseconds.
pub const MATRIX_ROTATION_INTERVAL_MS: i64 = 60_000;

/// How many updates a slow subscriber may lag before losing the oldest.
pub const BROADCAST_BACKLOG: usize = 100;

/// One little-endian byte of a 64-bit value; index 0 is the least
/// significant.
pub open spec fn le_byte_of_u64(v: u64, b: int) -> u8 {
    ((v >> (8 * b) as u64) & 0xff) as u8
}

/// The memory-calibration payload: a 64 by 64 grid of 64-bit words, each
/// derived from its row, column and the version.
pub struct CalibrationGridGenerator {
}

/// One byte of the calibration grid payload.
pub open spec fn calibration_grid_byte(version: u64, idx: int) -> u8 {
    le_byte_of_u64((((idx / 8) / 64) * ((idx / 8) % 64)) as u64 ^ version, idx % 8)
}

impl ArtifactGenerator for CalibrationGridGenerator {
    open spec fn payload_spec(&self, version: u64) -> Seq<u8> {
        Seq::new(32768, |idx: int| calibration_grid_byte(version, idx))
    }

    fn generate_payload(&self, version: u64) -> (r: Vec<u8>) {
        let mut out: Vec<u8> = Vec::new();
        let mut row: usize = 0;
        while row < 64
            invariant
                row <= 64,
                out@.len() == 512 * row,
                forall|idx: int|
                    0 <= idx < out@.len() ==> out@[idx] == calibration_grid_byte(version, idx),
            decreases 64 - row,
        {
            let mut col: usize = 0;
            while col < 64
                invariant
                    row < 64,
                    col <= 64,
                    out@.len() == 512 * row + 8 * col,
                    forall|idx: int|
                        0 <= idx < out@.len() ==> out@[idx] == calibration_grid_byte(version, idx),
                decreases 64 - col,
            {
                proof {
                    assert(row * col <= 63 * 63) by (nonlinear_arith)
                        requires
                            row < 64,
                            col < 64,
                    ;
                }
                let word: u64 = ((row * col) as u64) ^ version;
                let mut b: usize = 0;
                while b < 8
                    invariant
                        row < 64,
                        col < 64,
                        b <= 8,
                        word == ((row * col) as u64) ^ version,
                        out@.len() == 512 * row + 8 * col + b,
                        forall|idx: int|
                            0 <= idx < out@.len() ==> out@[idx] == calibration_grid_byte(
                                version,
                                idx,
                            ),
                    decreases 8 - b,
                {
                    let shift: u32 = (8 * b) as u32;
                    out.push(((word >> shift) & 0xff) as u8);
                    proof {
                        let idx = out@.len() - 1;
                        assert(idx / 8 == 64 * row + col);
                        assert(idx % 8 == b);
                        assert((idx / 8) / 64 == row);
                        assert((idx / 8) % 64 == col);
                    }
                    b = b + 1;
                }
                col = col + 1;
            }
            row = row + 1;
        }
        proof {
            assert(out@ =~= self.payload_spec(version));
        }
        out
    }
}

/// The compute-calibration payload: a multiplication table and an inverse
/// table of 256 64-bit words each, both keyed by the version.
pub struct ComputeLutGenerator {
}

/// One byte of the compute LUT payload.
pub open spec fn compute_lut_byte(version: u64, idx: int) -> u8 {
    if idx < 2048 {
        le_byte_of_u64((idx / 8) as u64 ^ version, idx % 8)
    } else {
        le_byte_of_u64((255 - (idx - 2048) / 8) as u64 ^ version, (idx - 2048) % 8)
    }
}

impl ArtifactGenerator for ComputeLutGenerator {
    open spec fn payload_spec(&self, version: u64) -> Seq<u8> {
        Seq::new(4096, |idx: int| compute_lut_byte(version, idx))
    }

    fn generate_payload(&self, version: u64) -> (r: Vec<u8>) {
        let mut out: Vec<u8> = Vec::new();
        let mut i: usize = 0;
        while i < 256
            invariant
                i <= 256,
                out@.len() == 8 * i,
                forall|idx: int|
                    0 <= idx < out@.len() ==> out@[idx] == compute_lut_byte(version, idx),
            decreases 256 - i,
        {
            let word: u64 = (i as u64) ^ version;
            let mut b: usize = 0;
            while b < 8
                invariant
                    i < 256,
                    b <= 8,
                    word == (i as u64) ^ version,
                    out@.len() == 8 * i + b,
                    forall|idx: int|
                        0 <= idx < out@.len() ==> out@[idx] == compute_lut_byte(version, idx),
                decreases 8 - b,
            {
                let shift: u32 = (8 * b) as u32;
                out.push(((word >> shift) & 0xff) as u8);
                proof {
                    let idx = out@.len() - 1;
                    assert(idx / 8 == i);
                    assert(idx % 8 == b);
                }
                b = b + 1;
            }
            i = i + 1;
        }
        let mut i: usize = 0;
        while i < 256
            invariant
                i <= 256,
                out@.len() == 2048 + 8 * i,
                forall|idx: int|
                    0 <= idx < out@.len() ==> out@[idx] == compute_lut_byte(version, idx),
            decreases 256 - i,
        {
            let word: u64 = ((255 - i) as u64) ^ version;
            let mut b: usize = 0;
            while b < 8
                invariant
                    i < 256,
                    b <= 8,
                    word == ((255 - i) as u64) ^ version,
                    out@.len() == 2048 + 8 * i + b,
                    forall|idx: int|
                        0 <= idx < out@.len() ==> out@[idx] == compute_lut_byte(version, idx),
                decreases 8 - b,
            {
                let shift: u32 = (8 * b) as u32;
                out.push(((word >> shift) & 0xff) as u8);
                proof {
                    let idx = out@.len() - 1;
                    assert((idx - 2048) / 8 == i);
                    assert((idx - 2048) % 8 == b);
                }
                b = b + 1;
            }
            i = i + 1;
        }
        proof {
            assert(out@ =~= self.payload_spec(version));
        }
        out
    }
}

/// The PCIe payload: a 256-byte transfer schedule followed by a
/// version-keyed compression table of 256 64-bit words.
pub struct PcieScheduleGenerator {
}

/// The schedule byte for one index: the index rotated left by one bit,
/// folded with itself.
pub open spec fn schedule_byte(i: u8) -> u8 {
    ((i << 1) | (i >> 7)) ^ i
}

/// One byte of the PCIe payload.
pub open spec fn pcie_byte(version: u64, idx: int) -> u8 {
    if idx < 256 {
        schedule_byte(idx as u8)
    } else {
        le_byte_of_u64(
            ((idx - 256) / 8) as u64 ^ 0x5555555555555555 ^ version,
            (idx - 256) % 8,
        )
    }
}

impl ArtifactGenerator for PcieScheduleGenerator {
    open spec fn payload_spec(&self, version: u64) -> Seq<u8> {
        Seq::new(2304, |idx: int| pcie_byte(version, idx))
    }

    fn generate_payload(&self, version: u64) -> (r: Vec<u8>) {
        let mut out: Vec<u8> = Vec::new();
        let mut i: usize = 0;
        while i < 256
            invariant
                i <= 256,
                out@.len() == i,
                forall|idx: int|
                    0 <= idx < out@.len() ==> out@[idx] == pcie_byte(version, idx),
            decreases 256 - i,
        {
            let v = i as u8;
            out.push(((v << 1) | (v >> 7)) ^ v);
            i = i + 1;
        }
        let mut i: usize = 0;
        while i < 256
            invariant
                i <= 256,
                out@.len() == 256 + 8 * i,
                forall|idx: int|
                    0 <= idx < out@.len() ==> out@[idx] == pcie_byte(version, idx),
            decreases 256 - i,
        {
            let word: u64 = (i as u64) ^ 0x5555555555555555 ^ version;
            let mut b: usize = 0;
            while b < 8
                invariant
                    i < 256,
                    b <= 8,
                    word == (i as u64) ^ 0x5555555555555555 ^ version,
                    out@.len() == 256 + 8 * i + b,
                    forall|idx: int|
                        0 <= idx < out@.len() ==> out@[idx] == pcie_byte(version, idx),
                decreases 8 - b,
            {
                let shift: u32 = (8 * b) as u32;
                out.push(((word >> shift) & 0xff) as u8);
                proof {
                    let idx = out@.len() - 1;
                    assert((idx - 256) / 8 == i);
                    assert((idx - 256) % 8 == b);
                }
                b = b + 1;
            }
            i = i + 1;
        }
        proof {
            assert(out@ =~= self.payload_spec(version));
        }
        out
    }
}

/// The memory-calibration registry instance.
pub fn new_calibration_registry(now_ms: i64) -> (r: ArtifactRegistry<CalibrationGridGenerator>)
    requires
        0 <= now_ms,
        now_ms + MATRIX_ROTATION_INTERVAL_MS <= MAX_TIME_MS,
    ensures
        r.wf(),
        r.current.version == 1,
        r.rotation_interval_ms == MATRIX_ROTATION_INTERVAL_MS,
        r.backlog_capacity == BROADCAST_BACKLOG,
        r.next_subscriber_id == 0,
        r.subscribers@.len() == 0,
        r.current.generated_at_ms == now_ms,
        r.current.expires_at_ms == now_ms + MATRIX_ROTATION_INTERVAL_MS,
{
    ArtifactRegistry::new(
        CalibrationGridGenerator {  },
        MATRIX_ROTATION_INTERVAL_MS,
        BROADCAST_BACKLOG,
        now_ms,
    )
}

/// The compute-calibration registry instance.
pub fn new_compute_registry(now_ms: i64) -> (r: ArtifactRegistry<ComputeLutGenerator>)
    requires
        0 <= now_ms,
        now_ms + MATRIX_ROTATION_INTERVAL_MS <= MAX_TIME_MS,
    ensures
        r.wf(),
        r.current.version == 1,
        r.rotation_interval_ms == MATRIX_ROTATION_INTERVAL_MS,
        r.backlog_capacity == BROADCAST_BACKLOG,
        r.next_subscriber_id == 0,
        r.subscribers@.len() == 0,
        r.current.generated_at_ms == now_ms,
        r.current.expires_at_ms == now_ms + MATRIX_ROTATION_INTERVAL_MS,
{
    ArtifactRegistry::new(
        ComputeLutGenerator {  },
        MATRIX_ROTATION_INTERVAL_MS,
        BROADCAST_BACKLOG,
        now_ms,
    )
}

/// The PCIe amplification registry instance.
pub fn new_pcie_registry(now_ms: i64) -> (r: ArtifactRegistry<PcieScheduleGenerator>)
    requires
        0 <= now_ms,
        now_ms + MATRIX_ROTATION_INTERVAL_MS <= MAX_TIME_MS,
    ensures
        r.wf(),
        r.current.version == 1,
        r.rotation_interval_ms == MATRIX_ROTATION_INTERVAL_MS,
        r.backlog_capacity == BROADCAST_BACKLOG,
        r.next_subscriber_id == 0,
        r.subscribers@.len() == 0,
        r.current.generated_at_ms == now_ms,
        r.current.expires_at_ms == now_ms + MATRIX_ROTATION_INTERVAL_MS,
{
    ArtifactRegistry::new(
        PcieScheduleGenerator {  },
        MATRIX_ROTATION_INTERVAL_MS,
        BROADCAST_BACKLOG,
        now_ms,
    )
}

} // verus!
