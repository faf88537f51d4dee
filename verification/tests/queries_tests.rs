use dcgm_safe::error::DCGM_ST_NOT_SUPPORTED;
use dcgm_safe::session::DcgmLibSafe;
use dcgm_safe::session::Mode;
use dcgm_safe::topology::DeviceAttributes;
use dcgm_safe::topology::EntityLinkStates;
use dcgm_safe::topology::TopologyPath;
use dcgm_safe::values::dereference_field_value_v2;
use dcgm_safe::values::EntityPair;
use dcgm_safe::values::FieldValue;
use dcgm_safe::version::make_version1;
use dcgm_safe::version::make_version2;
use dcgm_safe::version::make_version3;
use dcgm_safe::version::make_version4;

fn session() -> DcgmLibSafe {
    let (mut s, _) = DcgmLibSafe::new(Mode::Embedded, &Vec::new()).unwrap();
    s.completeConnect(0, None, 1).unwrap();
    s
}

fn sample(status: i32, value: i64) -> FieldValue {
    FieldValue { entityGroupId: 1, entityId: 0, fieldId: 150, status, value }
}

#[test]
fn version_tags_pack_revision_into_top_byte() {
    assert_eq!(make_version1(100), 100 | (1 << 24));
    assert_eq!(make_version2(16), 16 | (2 << 24));
    assert_eq!(make_version3(0x1234), 0x1234 | (3 << 24));
    assert_eq!(make_version4(8), 8 | (4 << 24));
}

#[test]
fn device_enumeration_returns_reported_prefix() {
    let s = session();
    let buffer: Vec<u32> = vec![4, 7, 9, 0, 0];
    let ids = s.getAllSupportedDevices(0, None, &buffer, 3).unwrap();
    assert_eq!(ids, vec![4, 7, 9]);
}

#[test]
fn device_enumeration_fails_on_status() {
    let s = session();
    let buffer: Vec<u32> = vec![0; 32];
    let err = s.getAllSupportedDevices(-9, None, &buffer, 0).unwrap_err();
    assert_eq!(err.message, "Unknown DCGM error -9");
}

#[test]
fn device_enumeration_rejects_count_beyond_capacity() {
    let s = session();
    let buffer: Vec<u32> = vec![0; 32];
    let err = s.getAllSupportedDevices(0, None, &buffer, 33).unwrap_err();
    assert_eq!(err.message, "reported count exceeds buffer capacity");
    let err = s.getAllSupportedDevices(0, None, &buffer, -1).unwrap_err();
    assert_eq!(err.message, "reported count exceeds buffer capacity");
}

#[test]
fn entity_enumeration_returns_reported_prefix() {
    let s = session();
    let buffer: Vec<u32> = vec![11, 12, 0, 0];
    let ids = s.getEntityGroupEntites(0, None, &buffer, 2).unwrap();
    assert_eq!(ids, vec![11, 12]);
}

#[test]
fn group_creation_returns_native_handle() {
    let s = session();
    assert_eq!(s.createGroup(0, None, 400).unwrap(), 400);
    let err = s.createGroup(-2, None, 400).unwrap_err();
    assert_eq!(err.message, "Unknown DCGM error -2");
}

#[test]
fn group_management_checks_status() {
    let s = session();
    assert!(s.addEntityToGroup(0, None).is_ok());
    assert!(s.destroyGroup(0, None).is_ok());
    assert!(s.fieldGroupDestroy(0, None).is_ok());
    assert!(s.updateAllFields(0, None).is_ok());
    assert!(s.init(0, None).is_ok());
    let err = s.addEntityToGroup(-4, Some("out of memory".to_string())).unwrap_err();
    assert_eq!(err.message, "out of memory");
}

#[test]
fn field_group_creation_returns_native_handle() {
    let s = session();
    assert_eq!(s.fieldGroupCreate(0, None, 17).unwrap(), 17);
}

#[test]
fn watch_fails_on_registration_error() {
    let s = session();
    let err = s.watchFields(-11, None, None).unwrap_err();
    assert_eq!(err.message, "Unknown DCGM error -11");
}

#[test]
fn watch_fails_on_forced_update_error() {
    let s = session();
    let err = s.watchFields(0, None, Some((-12, Some("timeout".to_string())))).unwrap_err();
    assert_eq!(err.message, "timeout");
}

#[test]
fn watch_succeeds_when_both_calls_succeed() {
    let s = session();
    assert!(s.watchFields(0, None, Some((0, None))).is_ok());
}

#[test]
fn topology_selection_encodes_request_and_rejects_large_ids() {
    let s = session();
    let req = s.selectGpusByTopology(&vec![0, 2], 2).unwrap();
    assert_eq!(req.input_gpu_mask, 0b101);
    assert_eq!(req.num_gpus, 2);
    assert_eq!(req.hint_flags, 0);
    let err = s.selectGpusByTopology(&vec![0, 64], 2).unwrap_err();
    assert_eq!(err.message, "gpu value out of bounds");
}

#[test]
fn topology_selection_decodes_reply_mask() {
    let s = session();
    let ids = s.selectGpusByTopologyReply(0, None, 0b1100).unwrap();
    assert_eq!(ids, vec![2, 3]);
    let err = s.selectGpusByTopologyReply(-9, None, 0b1100).unwrap_err();
    assert_eq!(err.message, "Unknown DCGM error -9");
}

#[test]
fn latest_values_buffer_is_one_record_per_entity_and_field() {
    let s = session();
    assert_eq!(s.latestValuesBufferLen(2, 3).unwrap(), 6);
    let err = s.latestValuesBufferLen(0, 3).unwrap_err();
    assert_eq!(err.message, "no entities or fields requested");
    let err = s.latestValuesBufferLen(2, 0).unwrap_err();
    assert_eq!(err.message, "no entities or fields requested");
    let err = s.latestValuesBufferLen(usize::MAX, 2).unwrap_err();
    assert_eq!(err.message, "requested sample count too large");
}

#[test]
fn entities_latest_values_returns_populated_buffer() {
    let s = session();
    let entities = vec![
        EntityPair { entityGroupId: 1, entityId: 0 },
        EntityPair { entityGroupId: 1, entityId: 1 },
    ];
    let fields: Vec<u16> = vec![150];
    let values = vec![sample(0, 40), sample(0, 41)];
    let out = s.entitiesGetLatestValues(&entities, &fields, 0, None, values.clone()).unwrap();
    assert_eq!(out, values);
}

#[test]
fn entities_latest_values_rejects_empty_inputs() {
    let s = session();
    let fields: Vec<u16> = vec![150];
    let err = s.entitiesGetLatestValues(&Vec::new(), &fields, 0, None, Vec::new()).unwrap_err();
    assert_eq!(err.message, "no entities or fields requested");
    let entities = vec![EntityPair { entityGroupId: 1, entityId: 0 }];
    let err = s.entitiesGetLatestValues(&entities, &Vec::new(), 0, None, Vec::new()).unwrap_err();
    assert_eq!(err.message, "no entities or fields requested");
}

#[test]
fn entities_latest_values_rejects_wrong_buffer_length() {
    let s = session();
    let entities = vec![EntityPair { entityGroupId: 1, entityId: 0 }];
    let fields: Vec<u16> = vec![150, 155];
    let err = s.entitiesGetLatestValues(&entities, &fields, 0, None, vec![sample(0, 1)])
        .unwrap_err();
    assert_eq!(err.message, "field value buffer length mismatch");
}

#[test]
fn entity_latest_values_returns_one_record_per_field() {
    let s = session();
    let fields: Vec<u16> = vec![150, 155];
    let values = vec![sample(0, 40), sample(0, 90)];
    let out = s.entityGetLatestValues(&fields, 0, None, values.clone()).unwrap();
    assert_eq!(out, values);
    let err = s.entityGetLatestValues(&Vec::new(), 0, None, Vec::new()).unwrap_err();
    assert_eq!(err.message, "no entities or fields requested");
}

#[test]
fn field_value_payload_is_read_after_status_check() {
    assert_eq!(dereference_field_value_v2(&sample(0, 55)).unwrap(), 55);
    let err = dereference_field_value_v2(&sample(-16, 55)).unwrap_err();
    assert_eq!(err.message, "Field Value is not being watched");
    let err = dereference_field_value_v2(&sample(-3, 55)).unwrap_err();
    assert_eq!(err.message, "Unknown or Unimplemented Return Status");
}

#[test]
fn device_attributes_come_back_on_success() {
    let s = session();
    let attrs = DeviceAttributes { pciBusId: "00000000:17:00.0".to_string() };
    let out = s.getDeviceAttributes(0, None, attrs.clone()).unwrap();
    assert_eq!(out.pciBusId, "00000000:17:00.0");
    let err = s.getDeviceAttributes(-8, None, attrs).unwrap_err();
    assert_eq!(err.message, "Unknown DCGM error -8");
}

#[test]
fn topology_not_supported_is_the_valid_empty_case() {
    let s = session();
    let attrs = DeviceAttributes { pciBusId: "00000000:17:00.0".to_string() };
    let links = s.getDeviceTopology(DCGM_ST_NOT_SUPPORTED, None, 4, &Vec::new(), &attrs).unwrap();
    assert!(links.is_empty());
}

#[test]
fn topology_success_yields_one_link_per_reported_peer() {
    let s = session();
    let attrs = DeviceAttributes { pciBusId: "00000000:17:00.0".to_string() };
    let paths = vec![
        TopologyPath { gpuId: 1, path: 0x8 },
        TopologyPath { gpuId: 2, path: 0x100 },
        TopologyPath { gpuId: 3, path: 0 },
    ];
    let links = s.getDeviceTopology(0, None, 2, &paths, &attrs).unwrap();
    assert_eq!(links.len(), 2);
    assert_eq!(links[0].gpu, 1);
    assert_eq!(links[0].link, 0x8);
    assert_eq!(links[0].bus_id, "00000000:17:00.0");
    assert_eq!(links[1].gpu, 2);
    assert_eq!(links[1].link, 0x100);
}

#[test]
fn topology_failure_is_an_error() {
    let s = session();
    let attrs = DeviceAttributes { pciBusId: String::new() };
    let err = s.getDeviceTopology(-3, None, 0, &Vec::new(), &attrs).unwrap_err();
    assert_eq!(err.message, "Unknown DCGM error -3");
    let err = s.getDeviceTopology(0, None, 1, &Vec::new(), &attrs).unwrap_err();
    assert_eq!(err.message, "reported count exceeds buffer capacity");
}

#[test]
fn nvlink_status_flattens_every_link_of_every_entity() {
    let s = session();
    let gpus = vec![EntityLinkStates { entityId: 0, linkState: vec![3; 18] }];
    let switches = vec![EntityLinkStates { entityId: 10, linkState: vec![2; 64] }];
    let statuses = s.getNvLinkLinkStatus(0, None, &gpus, &switches).unwrap();
    assert_eq!(statuses.len(), 18 + 64);
    assert_eq!(statuses[0].parent_id, 0);
    assert_eq!(statuses[0].parent_type, 1);
    assert_eq!(statuses[0].state, 3);
    assert_eq!(statuses[0].index, 0);
    assert_eq!(statuses[17].index, 17);
    assert_eq!(statuses[18].parent_id, 10);
    assert_eq!(statuses[18].parent_type, 3);
    assert_eq!(statuses[18].state, 2);
    assert_eq!(statuses[18].index, 0);
    assert_eq!(statuses[81].index, 63);
}

#[test]
fn nvlink_status_failure_is_an_error() {
    let s = session();
    let err = s.getNvLinkLinkStatus(-13, None, &Vec::new(), &Vec::new()).unwrap_err();
    assert_eq!(err.message, "Unknown DCGM error -13");
}
