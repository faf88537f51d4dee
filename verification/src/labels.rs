//! Human-readable labels for the native library's classification values.
//!
//! A raw topology value packs two independent planes: the low byte is the
//! PCIe connectivity class between two devices, and the bits above the low
//! byte carry the NVLink version class, one bit per version.  Each plane is
//! decoded on its own; a plane with no recognised bit yields its sentinel
//! label.
use vstd::prelude::*;

verus! {

/// PCIe topology class: no class reported yet.
pub const DCGM_TOPOLOGY_UNINITIALIZED: u32 = 0x0;

/// PCIe topology class: same board.
pub const DCGM_TOPOLOGY_BOARD: u32 = 0x1;

/// PCIe topology class: single PCIe bridge.
pub const DCGM_TOPOLOGY_SINGLE: u32 = 0x2;

/// PCIe topology class: multiple PCIe bridges.
pub const DCGM_TOPOLOGY_MULTIPLE: u32 = 0x4;

/// PCIe topology class: same host bridge.
pub const DCGM_TOPOLOGY_HOSTBRIDGE: u32 = 0x8;

/// PCIe topology class: same NUMA node.
pub const DCGM_TOPOLOGY_CPU: u32 = 0x10;

/// PCIe topology class: across the system interconnect.
pub const DCGM_TOPOLOGY_SYSTEM: u32 = 0x20;

/// NVLink class bit for NVLink version 1; version `n` is this bit shifted up
/// by `n - 1`.
pub const DCGM_TOPOLOGY_NVLINK1: u32 = 0x100;

/// NVLink class bit for NVLink version 2.
pub const DCGM_TOPOLOGY_NVLINK2: u32 = 0x200;

/// NVLink class bit for NVLink version 3.
pub const DCGM_TOPOLOGY_NVLINK3: u32 = 0x400;

/// NVLink class bit for NVLink version 4.
pub const DCGM_TOPOLOGY_NVLINK4: u32 = 0x800;

/// NVLink class bit for NVLink version 5.
pub const DCGM_TOPOLOGY_NVLINK5: u32 = 0x1000;

/// NVLink class bit for NVLink version 6.
pub const DCGM_TOPOLOGY_NVLINK6: u32 = 0x2000;

/// NVLink class bit for NVLink version 7.
pub const DCGM_TOPOLOGY_NVLINK7: u32 = 0x4000;

/// NVLink class bit for NVLink version 8.
pub const DCGM_TOPOLOGY_NVLINK8: u32 = 0x8000;

/// NVLink class bit for NVLink version 9.
pub const DCGM_TOPOLOGY_NVLINK9: u32 = 0x10000;

/// NVLink class bit for NVLink version 10.
pub const DCGM_TOPOLOGY_NVLINK10: u32 = 0x20000;

/// NVLink class bit for NVLink version 11.
pub const DCGM_TOPOLOGY_NVLINK11: u32 = 0x40000;

/// NVLink class bit for NVLink version 12.
pub const DCGM_TOPOLOGY_NVLINK12: u32 = 0x80000;

/// NVLink class bit for NVLink version 13.
pub const DCGM_TOPOLOGY_NVLINK13: u32 = 0x100000;

/// NVLink class bit for NVLink version 14.
pub const DCGM_TOPOLOGY_NVLINK14: u32 = 0x200000;

/// NVLink class bit for NVLink version 15.
pub const DCGM_TOPOLOGY_NVLINK15: u32 = 0x400000;

/// NVLink class bit for NVLink version 16.
pub const DCGM_TOPOLOGY_NVLINK16: u32 = 0x800000;

/// NVLink class bit for NVLink version 17.
pub const DCGM_TOPOLOGY_NVLINK17: u32 = 0x1000000;

/// NVLink class bit for NVLink version 18.
pub const DCGM_TOPOLOGY_NVLINK18: u32 = 0x2000000;

/// Entity group tag for GPUs.
pub const DCGM_FE_GPU: u32 = 1;

/// Entity group tag for virtual GPUs.
pub const DCGM_FE_VGPU: u32 = 2;

/// Entity group tag for NVSwitches.
pub const DCGM_FE_SWITCH: u32 = 3;

/// Entity group tag for ConnectX network interfaces.
pub const DCGM_FE_CONNECTX: u32 = 9;

/// NVLink link state: the link is not supported.
pub const NVLINK_STATE_NOT_SUPPORTED: u32 = 0;

/// NVLink link state: the link is disabled.
pub const NVLINK_STATE_DISABLED: u32 = 1;

/// NVLink link state: the link is down.
pub const NVLINK_STATE_DOWN: u32 = 2;

/// NVLink link state: the link is up.
pub const NVLINK_STATE_UP: u32 = 3;

/// The PCIe plane label of a raw topology value: only the low byte counts.
pub open spec fn spec_pcie_label(link: u32) -> Seq<char> {
    let low = link & 0xFF;
    if low == DCGM_TOPOLOGY_UNINITIALIZED {
        "N/A"@
    } else if low == DCGM_TOPOLOGY_BOARD {
        "PSB"@
    } else if low == DCGM_TOPOLOGY_SINGLE {
        "PIX"@
    } else if low == DCGM_TOPOLOGY_MULTIPLE {
        "PXB"@
    } else if low == DCGM_TOPOLOGY_HOSTBRIDGE {
        "PHB"@
    } else if low == DCGM_TOPOLOGY_CPU {
        "NODE"@
    } else if low == DCGM_TOPOLOGY_SYSTEM {
        "SYS"@
    } else {
        "ERR"@
    }
}

/// The NVLink plane label of a raw topology value: only the bits above the
/// low byte count, and exactly one version bit is recognised at a time.
pub open spec fn spec_nvlink_label(link: u32) -> Seq<char> {
    let high = link & 0xFFFF_FF00;
    if high == DCGM_TOPOLOGY_NVLINK1 {
        "NV1"@
    } else if high == DCGM_TOPOLOGY_NVLINK2 {
        "NV2"@
    } else if high == DCGM_TOPOLOGY_NVLINK3 {
        "NV3"@
    } else if high == DCGM_TOPOLOGY_NVLINK4 {
        "NV4"@
    } else if high == DCGM_TOPOLOGY_NVLINK5 {
        "NV5"@
    } else if high == DCGM_TOPOLOGY_NVLINK6 {
        "NV6"@
    } else if high == DCGM_TOPOLOGY_NVLINK7 {
        "NV7"@
    } else if high == DCGM_TOPOLOGY_NVLINK8 {
        "NV8"@
    } else if high == DCGM_TOPOLOGY_NVLINK9 {
        "NV9"@
    } else if high == DCGM_TOPOLOGY_NVLINK10 {
        "NV10"@
    } else if high == DCGM_TOPOLOGY_NVLINK11 {
        "NV11"@
    } else if high == DCGM_TOPOLOGY_NVLINK12 {
        "NV12"@
    } else if high == DCGM_TOPOLOGY_NVLINK13 {
        "NV13"@
    } else if high == DCGM_TOPOLOGY_NVLINK14 {
        "NV14"@
    } else if high == DCGM_TOPOLOGY_NVLINK15 {
        "NV15"@
    } else if high == DCGM_TOPOLOGY_NVLINK16 {
        "NV16"@
    } else if high == DCGM_TOPOLOGY_NVLINK17 {
        "NV17"@
    } else if high == DCGM_TOPOLOGY_NVLINK18 {
        "NV18"@
    } else {
        "ERR"@
    }
}

/// Decodes the PCIe plane of a raw topology value into its label.
pub fn p2p_pcie_connectivity_to_string(link: u32) -> (r: String)
    ensures
        r@ == spec_pcie_label(link),
{
    let low = link & 0xFF;
    if low == DCGM_TOPOLOGY_UNINITIALIZED {
        "N/A".to_owned()
    } else if low == DCGM_TOPOLOGY_BOARD {
        "PSB".to_owned()
    } else if low == DCGM_TOPOLOGY_SINGLE {
        "PIX".to_owned()
    } else if low == DCGM_TOPOLOGY_MULTIPLE {
        "PXB".to_owned()
    } else if low == DCGM_TOPOLOGY_HOSTBRIDGE {
        "PHB".to_owned()
    } else if low == DCGM_TOPOLOGY_CPU {
        "NODE".to_owned()
    } else if low == DCGM_TOPOLOGY_SYSTEM {
        "SYS".to_owned()
    } else {
        "ERR".to_owned()
    }
}

/// Decodes the NVLink plane of a raw topology value into its label.
pub fn p2p_nvlink_connectivity_to_string(link: u32) -> (r: String)
    ensures
        r@ == spec_nvlink_label(link),
{
    let high = link & 0xFFFF_FF00;
    if high == DCGM_TOPOLOGY_NVLINK1 {
        "NV1".to_owned()
    } else if high == DCGM_TOPOLOGY_NVLINK2 {
        "NV2".to_owned()
    } else if high == DCGM_TOPOLOGY_NVLINK3 {
        "NV3".to_owned()
    } else if high == DCGM_TOPOLOGY_NVLINK4 {
        "NV4".to_owned()
    } else if high == DCGM_TOPOLOGY_NVLINK5 {
        "NV5".to_owned()
    } else if high == DCGM_TOPOLOGY_NVLINK6 {
        "NV6".to_owned()
    } else if high == DCGM_TOPOLOGY_NVLINK7 {
        "NV7".to_owned()
    } else if high == DCGM_TOPOLOGY_NVLINK8 {
        "NV8".to_owned()
    } else if high == DCGM_TOPOLOGY_NVLINK9 {
        "NV9".to_owned()
    } else if high == DCGM_TOPOLOGY_NVLINK10 {
        "NV10".to_owned()
    } else if high == DCGM_TOPOLOGY_NVLINK11 {
        "NV11".to_owned()
    } else if high == DCGM_TOPOLOGY_NVLINK12 {
        "NV12".to_owned()
    } else if high == DCGM_TOPOLOGY_NVLINK13 {
        "NV13".to_owned()
    } else if high == DCGM_TOPOLOGY_NVLINK14 {
        "NV14".to_owned()
    } else if high == DCGM_TOPOLOGY_NVLINK15 {
        "NV15".to_owned()
    } else if high == DCGM_TOPOLOGY_NVLINK16 {
        "NV16".to_owned()
    } else if high == DCGM_TOPOLOGY_NVLINK17 {
        "NV17".to_owned()
    } else if high == DCGM_TOPOLOGY_NVLINK18 {
        "NV18".to_owned()
    } else {
        "ERR".to_owned()
    }
}

/// The label of an NVLink link state.
pub open spec fn spec_nvlink_state_label(state: u32) -> Seq<char> {
    if state == NVLINK_STATE_NOT_SUPPORTED {
        "NOT SUPPORTED"@
    } else if state == NVLINK_STATE_DISABLED {
        "DISABLED"@
    } else if state == NVLINK_STATE_DOWN {
        "DOWN"@
    } else if state == NVLINK_STATE_UP {
        "UP"@
    } else {
        "ERR: UNKNOWN"@
    }
}

/// Names an NVLink link state.
pub fn nvlink_state_to_string(state: u32) -> (r: String)
    ensures
        r@ == spec_nvlink_state_label(state),
{
    if state == NVLINK_STATE_NOT_SUPPORTED {
        "NOT SUPPORTED".to_owned()
    } else if state == NVLINK_STATE_DISABLED {
        "DISABLED".to_owned()
    } else if state == NVLINK_STATE_DOWN {
        "DOWN".to_owned()
    } else if state == NVLINK_STATE_UP {
        "UP".to_owned()
    } else {
        "ERR: UNKNOWN".to_owned()
    }
}

/// The label of an entity group tag.
pub open spec fn spec_entity_group_label(g: u32) -> Seq<char> {
    if g == DCGM_FE_GPU {
        "GPU"@
    } else if g == DCGM_FE_SWITCH {
        "SWITCH"@
    } else if g == DCGM_FE_CONNECTX {
        "NIC"@
    } else if g == DCGM_FE_VGPU {
        "VGPU"@
    } else {
        "N/A"@
    }
}

/// Names an entity group tag.
pub fn field_entity_group_to_string(g: u32) -> (r: String)
    ensures
        r@ == spec_entity_group_label(g),
{
    if g == DCGM_FE_GPU {
        "GPU".to_owned()
    } else if g == DCGM_FE_SWITCH {
        "SWITCH".to_owned()
    } else if g == DCGM_FE_CONNECTX {
        "NIC".to_owned()
    } else if g == DCGM_FE_VGPU {
        "VGPU".to_owned()
    } else {
        "N/A".to_owned()
    }
}

/// The two planes are independent: a raw topology value with only low-byte
/// bits set carries no NVLink class, so its NVLink label is the error/unknown
/// sentinel, while its PCIe label is read from those same bits.
pub proof fn lemma_low_byte_only_classification(link: u32)
    requires
        link & 0xFFFF_FF00 == 0,
    ensures
        spec_nvlink_label(link) == "ERR"@,
        spec_pcie_label(link) == spec_pcie_label(link & 0xFF),
{
    assert(link & 0xFF & 0xFF == link & 0xFF) by (bit_vector);
}

/// The two planes are independent, the other way round: a raw topology value
/// with no low-byte bit set carries no PCIe class, so its PCIe label is the
/// uninitialised sentinel, while its NVLink label is read from the high bits
/// alone.
pub proof fn lemma_high_bits_only_classification(link: u32)
    requires
        link & 0xFF == 0,
    ensures
        spec_pcie_label(link) == "N/A"@,
        spec_nvlink_label(link) == spec_nvlink_label(link & 0xFFFF_FF00),
{
    assert(link & 0xFFFF_FF00 & 0xFFFF_FF00 == link & 0xFFFF_FF00) by (bit_vector);
}

/// The PCIe plane always decodes to one of the defined class labels or a
/// sentinel: nothing else comes out.
pub proof fn lemma_pcie_label_total(link: u32)
    ensures
        spec_pcie_label(link) == "N/A"@ || spec_pcie_label(link) == "PSB"@ || spec_pcie_label(link)
            == "PIX"@ || spec_pcie_label(link) == "PXB"@ || spec_pcie_label(link) == "PHB"@
            || spec_pcie_label(link) == "NODE"@ || spec_pcie_label(link) == "SYS"@
            || spec_pcie_label(link) == "ERR"@,
{
}

} // verus!
