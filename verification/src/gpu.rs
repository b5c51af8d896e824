//! Baseline and target GPU type identifiers.
//!
//! These enums mirror the wire protocol's numeric codes; certificates may be
//! bound to a baseline GPU type.

use vstd::prelude::*;

verus! {

/// Supported baseline GPU types.
#[derive(Clone, Copy, Debug, PartialEq, Eq, Hash, Structural)]
pub enum BaselineGpuType {
    Unknown,
    NvidiaV100,
    NvidiaA100,
    NvidiaH100,
    NvidiaH200,
    NvidiaL40S,
    NvidiaA10,
    NvidiaA30,
    NvidiaA40,
    NvidiaTeslaT4,
    NvidiaRtx4090,
    NvidiaRtx4080,
    NvidiaRtx4070Ti,
    NvidiaRtx5090,
    NvidiaRtx5080,
    NvidiaRtx3090,
    NvidiaRtx3090Ti,
    NvidiaRtx3080,
    AmdMi100,
    AmdMi250,
    AmdMi300X,
    AmdMi325X,
    AmdRx7900Xtx,
    AmdRx7900Xt,
}

impl BaselineGpuType {
    /// The wire code of each baseline GPU type.
    pub open spec fn proto_code(self) -> i32 {
        match self {
            BaselineGpuType::Unknown => 0,
            BaselineGpuType::NvidiaV100 => 1,
            BaselineGpuType::NvidiaA100 => 2,
            BaselineGpuType::NvidiaH100 => 3,
            BaselineGpuType::NvidiaH200 => 4,
            BaselineGpuType::NvidiaL40S => 5,
            BaselineGpuType::NvidiaA10 => 6,
            BaselineGpuType::NvidiaA30 => 7,
            BaselineGpuType::NvidiaA40 => 8,
            BaselineGpuType::NvidiaTeslaT4 => 9,
            BaselineGpuType::NvidiaRtx4090 => 10,
            BaselineGpuType::NvidiaRtx4080 => 11,
            BaselineGpuType::NvidiaRtx4070Ti => 12,
            BaselineGpuType::NvidiaRtx5090 => 13,
            BaselineGpuType::NvidiaRtx5080 => 14,
            BaselineGpuType::NvidiaRtx3090 => 15,
            BaselineGpuType::NvidiaRtx3090Ti => 16,
            BaselineGpuType::NvidiaRtx3080 => 17,
            BaselineGpuType::AmdMi100 => 20,
            BaselineGpuType::AmdMi250 => 21,
            BaselineGpuType::AmdMi300X => 22,
            BaselineGpuType::AmdMi325X => 23,
            BaselineGpuType::AmdRx7900Xtx => 25,
            BaselineGpuType::AmdRx7900Xt => 26,
        }
    }

    /// Decode a wire code; unknown codes map to `Unknown`.
    pub fn from_proto(value: i32) -> (r: BaselineGpuType)
        ensures
            r.proto_code() == value || (r is Unknown && !exists|t: BaselineGpuType|
                (#[trigger] t.proto_code()) == value),
            value == 0 ==> r is Unknown,
    {
        let r = match value {
            1 => BaselineGpuType::NvidiaV100,
            2 => BaselineGpuType::NvidiaA100,
            3 => BaselineGpuType::NvidiaH100,
            4 => BaselineGpuType::NvidiaH200,
            5 => BaselineGpuType::NvidiaL40S,
            6 => BaselineGpuType::NvidiaA10,
            7 => BaselineGpuType::NvidiaA30,
            8 => BaselineGpuType::NvidiaA40,
            9 => BaselineGpuType::NvidiaTeslaT4,
            10 => BaselineGpuType::NvidiaRtx4090,
            11 => BaselineGpuType::NvidiaRtx4080,
            12 => BaselineGpuType::NvidiaRtx4070Ti,
            13 => BaselineGpuType::NvidiaRtx5090,
            14 => BaselineGpuType::NvidiaRtx5080,
            15 => BaselineGpuType::NvidiaRtx3090,
            16 => BaselineGpuType::NvidiaRtx3090Ti,
            17 => BaselineGpuType::NvidiaRtx3080,
            20 => BaselineGpuType::AmdMi100,
            21 => BaselineGpuType::AmdMi250,
            22 => BaselineGpuType::AmdMi300X,
            23 => BaselineGpuType::AmdMi325X,
            25 => BaselineGpuType::AmdRx7900Xtx,
            26 => BaselineGpuType::AmdRx7900Xt,
            _ => BaselineGpuType::Unknown,
        };
        proof {
            if r is Unknown && value != 0 {
                assert forall|t: BaselineGpuType| (#[trigger] t.proto_code()) != value by {
                }
            }
        }
        r
    }

    /// Encode to the wire code.
    pub fn to_proto(&self) -> (r: i32)
        ensures
            r == self.proto_code(),
    {
        match self {
            BaselineGpuType::Unknown => 0,
            BaselineGpuType::NvidiaV100 => 1,
            BaselineGpuType::NvidiaA100 => 2,
            BaselineGpuType::NvidiaH100 => 3,
            BaselineGpuType::NvidiaH200 => 4,
            BaselineGpuType::NvidiaL40S => 5,
            BaselineGpuType::NvidiaA10 => 6,
            BaselineGpuType::NvidiaA30 => 7,
            BaselineGpuType::NvidiaA40 => 8,
            BaselineGpuType::NvidiaTeslaT4 => 9,
            BaselineGpuType::NvidiaRtx4090 => 10,
            BaselineGpuType::NvidiaRtx4080 => 11,
            BaselineGpuType::NvidiaRtx4070Ti => 12,
            BaselineGpuType::NvidiaRtx5090 => 13,
            BaselineGpuType::NvidiaRtx5080 => 14,
            BaselineGpuType::NvidiaRtx3090 => 15,
            BaselineGpuType::NvidiaRtx3090Ti => 16,
            BaselineGpuType::NvidiaRtx3080 => 17,
            BaselineGpuType::AmdMi100 => 20,
            BaselineGpuType::AmdMi250 => 21,
            BaselineGpuType::AmdMi300X => 22,
            BaselineGpuType::AmdMi325X => 23,
            BaselineGpuType::AmdRx7900Xtx => 25,
            BaselineGpuType::AmdRx7900Xt => 26,
        }
    }

    /// Human-readable name.
    pub fn name(&self) -> (r: &'static str)
        ensures
            self is Unknown ==> r@ == "Unknown GPU"@,
    {
        match self {
            BaselineGpuType::Unknown => "Unknown GPU",
            BaselineGpuType::NvidiaV100 => "NVIDIA V100",
            BaselineGpuType::NvidiaA100 => "NVIDIA A100",
            BaselineGpuType::NvidiaH100 => "NVIDIA H100",
            BaselineGpuType::NvidiaH200 => "NVIDIA H200",
            BaselineGpuType::NvidiaL40S => "NVIDIA L40S",
            BaselineGpuType::NvidiaA10 => "NVIDIA A10",
            BaselineGpuType::NvidiaA30 => "NVIDIA A30",
            BaselineGpuType::NvidiaA40 => "NVIDIA A40",
            BaselineGpuType::NvidiaTeslaT4 => "NVIDIA Tesla T4",
            BaselineGpuType::NvidiaRtx4090 => "NVIDIA RTX 4090",
            BaselineGpuType::NvidiaRtx4080 => "NVIDIA RTX 4080",
            BaselineGpuType::NvidiaRtx4070Ti => "NVIDIA RTX 4070 Ti",
            BaselineGpuType::NvidiaRtx5090 => "NVIDIA RTX 5090",
            BaselineGpuType::NvidiaRtx5080 => "NVIDIA RTX 5080",
            BaselineGpuType::NvidiaRtx3090 => "NVIDIA RTX 3090",
            BaselineGpuType::NvidiaRtx3090Ti => "NVIDIA RTX 3090 Ti",
            BaselineGpuType::NvidiaRtx3080 => "NVIDIA RTX 3080",
            BaselineGpuType::AmdMi100 => "AMD Instinct MI100",
            BaselineGpuType::AmdMi250 => "AMD Instinct MI250",
            BaselineGpuType::AmdMi300X => "AMD Instinct MI300X",
            BaselineGpuType::AmdMi325X => "AMD Instinct MI325X",
            BaselineGpuType::AmdRx7900Xtx => "AMD RX 7900 XTX",
            BaselineGpuType::AmdRx7900Xt => "AMD RX 7900 XT",
        }
    }

    /// Whether this GPU type is supported.
    pub fn is_supported(&self) -> (r: bool)
        ensures
            r <==> !(self is Unknown),
    {
        !matches!(self, BaselineGpuType::Unknown)
    }
}

/// Target GPU types that can be emulated.
#[derive(Clone, Copy, Debug, PartialEq, Eq, Hash, Structural)]
pub enum TargetGpuType {
    Unknown,
    H100,
    H200,
    Mi300X,
    A100,
    L40S,
    Custom,
}

impl TargetGpuType {
    /// The wire code of each target GPU type.
    pub open spec fn proto_code(self) -> i32 {
        match self {
            TargetGpuType::Unknown => 0,
            TargetGpuType::H100 => 1,
            TargetGpuType::H200 => 2,
            TargetGpuType::Mi300X => 3,
            TargetGpuType::A100 => 4,
            TargetGpuType::L40S => 5,
            TargetGpuType::Custom => 99,
        }
    }

    /// Decode a wire code; unknown codes map to `Unknown`.
    pub fn from_proto(value: i32) -> (r: TargetGpuType)
        ensures
            r.proto_code() == value || (r is Unknown && !exists|t: TargetGpuType|
                (#[trigger] t.proto_code()) == value),
            value == 0 ==> r is Unknown,
    {
        let r = match value {
            1 => TargetGpuType::H100,
            2 => TargetGpuType::H200,
            3 => TargetGpuType::Mi300X,
            4 => TargetGpuType::A100,
            5 => TargetGpuType::L40S,
            99 => TargetGpuType::Custom,
            _ => TargetGpuType::Unknown,
        };
        proof {
            if r is Unknown && value != 0 {
                assert forall|t: TargetGpuType| (#[trigger] t.proto_code()) != value by {
                }
            }
        }
        r
    }

    /// Encode to the wire code.
    pub fn to_proto(&self) -> (r: i32)
        ensures
            r == self.proto_code(),
    {
        match self {
            TargetGpuType::Unknown => 0,
            TargetGpuType::H100 => 1,
            TargetGpuType::H200 => 2,
            TargetGpuType::Mi300X => 3,
            TargetGpuType::A100 => 4,
            TargetGpuType::L40S => 5,
            TargetGpuType::Custom => 99,
        }
    }

    /// Human-readable name.
    pub fn name(&self) -> (r: &'static str)
        ensures
            self is Unknown ==> r@ == "Unknown Target"@,
    {
        match self {
            TargetGpuType::Unknown => "Unknown Target",
            TargetGpuType::H100 => "NVIDIA H100 80GB HBM3",
            TargetGpuType::H200 => "NVIDIA H200 141GB HBM3e",
            TargetGpuType::Mi300X => "AMD MI300X 192GB HBM3",
            TargetGpuType::A100 => "NVIDIA A100 80GB HBM2e",
            TargetGpuType::L40S => "NVIDIA L40S 48GB GDDR6",
            TargetGpuType::Custom => "Custom Target",
        }
    }
}

} // verus!
