use dcgm_safe::labels::field_entity_group_to_string;
use dcgm_safe::labels::nvlink_state_to_string;
use dcgm_safe::labels::p2p_nvlink_connectivity_to_string;
use dcgm_safe::labels::p2p_pcie_connectivity_to_string;
use dcgm_safe::labels::DCGM_TOPOLOGY_BOARD;
use dcgm_safe::labels::DCGM_TOPOLOGY_CPU;
use dcgm_safe::labels::DCGM_TOPOLOGY_HOSTBRIDGE;
use dcgm_safe::labels::DCGM_TOPOLOGY_MULTIPLE;
use dcgm_safe::labels::DCGM_TOPOLOGY_NVLINK1;
use dcgm_safe::labels::DCGM_TOPOLOGY_NVLINK18;
use dcgm_safe::labels::DCGM_TOPOLOGY_NVLINK2;
use dcgm_safe::labels::DCGM_TOPOLOGY_SINGLE;
use dcgm_safe::labels::DCGM_TOPOLOGY_SYSTEM;

#[test]
fn pcie_labels_cover_every_defined_class() {
    assert_eq!(p2p_pcie_connectivity_to_string(0), "N/A");
    assert_eq!(p2p_pcie_connectivity_to_string(DCGM_TOPOLOGY_BOARD), "PSB");
    assert_eq!(p2p_pcie_connectivity_to_string(DCGM_TOPOLOGY_SINGLE), "PIX");
    assert_eq!(p2p_pcie_connectivity_to_string(DCGM_TOPOLOGY_MULTIPLE), "PXB");
    assert_eq!(p2p_pcie_connectivity_to_string(DCGM_TOPOLOGY_HOSTBRIDGE), "PHB");
    assert_eq!(p2p_pcie_connectivity_to_string(DCGM_TOPOLOGY_CPU), "NODE");
    assert_eq!(p2p_pcie_connectivity_to_string(DCGM_TOPOLOGY_SYSTEM), "SYS");
    assert_eq!(p2p_pcie_connectivity_to_string(0x3), "ERR");
}

#[test]
fn nvlink_labels_cover_first_and_last_versions() {
    assert_eq!(p2p_nvlink_connectivity_to_string(DCGM_TOPOLOGY_NVLINK1), "NV1");
    assert_eq!(p2p_nvlink_connectivity_to_string(DCGM_TOPOLOGY_NVLINK2), "NV2");
    assert_eq!(p2p_nvlink_connectivity_to_string(DCGM_TOPOLOGY_NVLINK18), "NV18");
    assert_eq!(p2p_nvlink_connectivity_to_string(0x300), "ERR");
}

#[test]
fn low_byte_only_value_has_pcie_class_but_no_nvlink_class() {
    let raw = DCGM_TOPOLOGY_HOSTBRIDGE;
    assert_eq!(p2p_pcie_connectivity_to_string(raw), "PHB");
    assert_eq!(p2p_nvlink_connectivity_to_string(raw), "ERR");
}

#[test]
fn high_bits_only_value_has_nvlink_class_but_no_pcie_class() {
    let raw = DCGM_TOPOLOGY_NVLINK2;
    assert_eq!(p2p_nvlink_connectivity_to_string(raw), "NV2");
    assert_eq!(p2p_pcie_connectivity_to_string(raw), "N/A");
}

#[test]
fn combined_value_decodes_both_planes() {
    let raw = DCGM_TOPOLOGY_NVLINK1 | DCGM_TOPOLOGY_SYSTEM;
    assert_eq!(p2p_pcie_connectivity_to_string(raw), "SYS");
    assert_eq!(p2p_nvlink_connectivity_to_string(raw), "NV1");
}

#[test]
fn nvlink_states_have_labels() {
    assert_eq!(nvlink_state_to_string(0), "NOT SUPPORTED");
    assert_eq!(nvlink_state_to_string(1), "DISABLED");
    assert_eq!(nvlink_state_to_string(2), "DOWN");
    assert_eq!(nvlink_state_to_string(3), "UP");
    assert_eq!(nvlink_state_to_string(4), "ERR: UNKNOWN");
}

#[test]
fn entity_groups_have_labels() {
    assert_eq!(field_entity_group_to_string(1), "GPU");
    assert_eq!(field_entity_group_to_string(2), "VGPU");
    assert_eq!(field_entity_group_to_string(3), "SWITCH");
    assert_eq!(field_entity_group_to_string(9), "NIC");
    assert_eq!(field_entity_group_to_string(0), "N/A");
}
