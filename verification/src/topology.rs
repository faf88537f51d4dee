//! Device attributes, per-peer topology, and NVLink link status.
//!
//! The topology query distinguishes "no topology available" from "query
//! failed": a not-supported status is the valid empty case and yields zero
//! links, while any other failure is an error.  On success the reply names
//! one peer GPU per path entry, and each entry becomes one link record
//! carrying the queried device's bus id for identification.
use vstd::prelude::*;
use crate::error::DCGMError;
use crate::error::DCGM_ST_OK;
use crate::error::DCGM_ST_NOT_SUPPORTED;
use crate::error::check_status;
use crate::error::spec_error_message;
use crate::labels::DCGM_FE_GPU;
use crate::labels::DCGM_FE_SWITCH;
use crate::session::DcgmLibSafe;

verus! {

/// Links per GPU in the native NVLink status report.
pub const DCGM_NVLINK_MAX_LINKS_PER_GPU: usize = 18;

/// Links per NVSwitch in the native NVLink status report.
pub const DCGM_NVLINK_MAX_LINKS_PER_NVSWITCH: usize = 64;

/// What the attributes query resolves for a device: the identifying fields
/// the topology query reads.
#[derive(Clone, Debug)]
pub struct DeviceAttributes {
    pub pciBusId: String,
}

/// One peer-to-peer link of a queried device: the peer GPU, the queried
/// device's bus id, and the raw bit-packed connectivity classification.
#[derive(Clone, Debug)]
pub struct P2PLink {
    pub gpu: u32,
    pub bus_id: String,
    pub link: u32,
}

/// One path entry of the native topology reply: a peer GPU and the raw
/// connectivity value towards it.
#[derive(Clone, Copy, Debug, PartialEq, Eq, Structural)]
pub struct TopologyPath {
    pub gpuId: u32,
    pub path: u32,
}

/// The per-entity row of the native NVLink status reply: the entity and the
/// state of each of its links.
#[derive(Clone, Debug)]
pub struct EntityLinkStates {
    pub entityId: u32,
    pub linkState: Vec<u32>,
}

/// The link-status record for one link of one parent entity.
#[derive(Clone, Copy, Debug, PartialEq, Eq, Structural)]
pub struct NvLinkStatus {
    pub parent_id: u32,
    pub parent_type: u32,
    pub state: u32,
    pub index: u32,
}

/// The status record owed for link `j` of the GPU row `g`.
pub open spec fn spec_gpu_link_status(g: EntityLinkStates, j: int) -> NvLinkStatus {
    NvLinkStatus {
        parent_id: g.entityId,
        parent_type: DCGM_FE_GPU,
        state: g.linkState@[j],
        index: j as u32,
    }
}

/// The status record owed for link `j` of the NVSwitch row `s`.
pub open spec fn spec_switch_link_status(s: EntityLinkStates, j: int) -> NvLinkStatus {
    NvLinkStatus {
        parent_id: s.entityId,
        parent_type: DCGM_FE_SWITCH,
        state: s.linkState@[j],
        index: j as u32,
    }
}

impl DcgmLibSafe {
    /// Interprets the reply of the attributes fetch: on success, the resolved
    /// attributes as the driver decoded them.
    pub fn getDeviceAttributes(
        &self,
        code: i32,
        native: Option<String>,
        attributes: DeviceAttributes,
    ) -> (r: Result<DeviceAttributes, DCGMError>)
        ensures
            r is Ok <==> code == DCGM_ST_OK,
            r matches Ok(a) ==> a == attributes,
            r matches Err(e) ==> e.message@ == spec_error_message(
                code as int,
                native.deep_view(),
            ),
    {
        match check_status(code, native) {
            Err(e) => Err(e),
            Ok(_) => Ok(attributes),
        }
    }

    /// Interprets the reply of the topology query for one device.  A
    /// not-supported status is the valid empty case: zero links, not an
    /// error.  On success the result holds one link per reported peer, in
    /// reply order, each carrying the queried device's bus id; the reported
    /// peer count is held against the path buffer rather than trusted.
    pub fn getDeviceTopology(
        &self,
        code: i32,
        native: Option<String>,
        num_gpus: u32,
        gpu_paths: &Vec<TopologyPath>,
        attributes: &DeviceAttributes,
    ) -> (r: Result<Vec<P2PLink>, DCGMError>)
        ensures
            r is Ok <==> (code == DCGM_ST_NOT_SUPPORTED || (code == DCGM_ST_OK && num_gpus
                <= gpu_paths@.len())),
            code == DCGM_ST_NOT_SUPPORTED ==> (r matches Ok(links) && links@.len() == 0),
            code == DCGM_ST_OK && num_gpus <= gpu_paths@.len() ==> (r matches Ok(links) && {
                &&& links@.len() == num_gpus
                &&& forall|i: int|
                    0 <= i < num_gpus ==> {
                        &&& (#[trigger] links@[i]).gpu == gpu_paths@[i].gpuId
                        &&& links@[i].link == gpu_paths@[i].path
                        &&& links@[i].bus_id@ == attributes.pciBusId@
                    }
            }),
            code == DCGM_ST_OK && num_gpus > gpu_paths@.len() ==> (r matches Err(e) && e.message@
                == "reported count exceeds buffer capacity"@),
            code != DCGM_ST_OK && code != DCGM_ST_NOT_SUPPORTED ==> (r matches Err(e)
                && e.message@ == spec_error_message(code as int, native.deep_view())),
    {
        if code == DCGM_ST_NOT_SUPPORTED {
            return Ok(Vec::new());
        }
        match check_status(code, native) {
            Err(e) => Err(e),
            Ok(_) => {
                let n = num_gpus as usize;
                if n > gpu_paths.len() {
                    return Err(DCGMError::from_text("reported count exceeds buffer capacity"));
                }
                let mut links: Vec<P2PLink> = Vec::new();
                let mut i: usize = 0;
                while i < n
                    invariant
                        0 <= i <= n,
                        n <= gpu_paths@.len(),
                        links@.len() == i,
                        forall|k: int|
                            0 <= k < i ==> {
                                &&& (#[trigger] links@[k]).gpu == gpu_paths@[k].gpuId
                                &&& links@[k].link == gpu_paths@[k].path
                                &&& links@[k].bus_id@ == attributes.pciBusId@
                            },
                    decreases n - i,
                {
                    let link = P2PLink {
                        gpu: gpu_paths[i].gpuId,
                        bus_id: attributes.pciBusId.clone(),
                        link: gpu_paths[i].path,
                    };
                    links.push(link);
                    i = i + 1;
                }
                Ok(links)
            },
        }
    }

    /// Interprets the reply of the NVLink status query: one record per link
    /// of every reported GPU and NVSwitch, GPUs first, each row flattened in
    /// link order.
    pub fn getNvLinkLinkStatus(
        &self,
        code: i32,
        native: Option<String>,
        gpus: &Vec<EntityLinkStates>,
        switches: &Vec<EntityLinkStates>,
    ) -> (r: Result<Vec<NvLinkStatus>, DCGMError>)
        requires
            forall|i: int|
                0 <= i < gpus@.len() ==> (#[trigger] gpus@[i]).linkState@.len()
                    == DCGM_NVLINK_MAX_LINKS_PER_GPU,
            forall|i: int|
                0 <= i < switches@.len() ==> (#[trigger] switches@[i]).linkState@.len()
                    == DCGM_NVLINK_MAX_LINKS_PER_NVSWITCH,
            gpus@.len() * DCGM_NVLINK_MAX_LINKS_PER_GPU + switches@.len()
                * DCGM_NVLINK_MAX_LINKS_PER_NVSWITCH <= usize::MAX,
        ensures
            r is Ok <==> code == DCGM_ST_OK,
            r matches Err(e) ==> e.message@ == spec_error_message(
                code as int,
                native.deep_view(),
            ),
            r matches Ok(statuses) ==> {
                &&& statuses@.len() == gpus@.len() * DCGM_NVLINK_MAX_LINKS_PER_GPU
                    + switches@.len() * DCGM_NVLINK_MAX_LINKS_PER_NVSWITCH
                &&& forall|i: int, j: int|
                    0 <= i < gpus@.len() && 0 <= j < DCGM_NVLINK_MAX_LINKS_PER_GPU ==> statuses@[i
                        * DCGM_NVLINK_MAX_LINKS_PER_GPU + j] == spec_gpu_link_status(
                        gpus@[i],
                        j,
                    )
                &&& forall|i: int, j: int|
                    0 <= i < switches@.len() && 0 <= j < DCGM_NVLINK_MAX_LINKS_PER_NVSWITCH
                        ==> statuses@[gpus@.len() * DCGM_NVLINK_MAX_LINKS_PER_GPU + i
                        * DCGM_NVLINK_MAX_LINKS_PER_NVSWITCH + j] == spec_switch_link_status(
                        switches@[i],
                        j,
                    )
            },
    {
        match check_status(code, native) {
            Err(e) => Err(e),
            Ok(_) => {
                let mut statuses: Vec<NvLinkStatus> = Vec::new();
                let mut i: usize = 0;
                while i < gpus.len()
                    invariant
                        0 <= i <= gpus@.len(),
                        forall|k: int|
                            0 <= k < gpus@.len() ==> (#[trigger] gpus@[k]).linkState@.len()
                                == DCGM_NVLINK_MAX_LINKS_PER_GPU,
                        gpus@.len() * DCGM_NVLINK_MAX_LINKS_PER_GPU <= usize::MAX,
                        statuses@.len() == i * DCGM_NVLINK_MAX_LINKS_PER_GPU,
                        forall|k: int, j: int|
                            0 <= k < i && 0 <= j < DCGM_NVLINK_MAX_LINKS_PER_GPU ==> statuses@[k
                                * DCGM_NVLINK_MAX_LINKS_PER_GPU + j] == spec_gpu_link_status(
                                gpus@[k],
                                j,
                            ),
                    decreases gpus@.len() - i,
                {
                    let row = &gpus[i];
                    let mut j: usize = 0;
                    while j < DCGM_NVLINK_MAX_LINKS_PER_GPU
                        invariant
                            0 <= j <= DCGM_NVLINK_MAX_LINKS_PER_GPU,
                            0 <= i < gpus@.len(),
                            row == gpus@[i as int],
                            row.linkState@.len() == DCGM_NVLINK_MAX_LINKS_PER_GPU,
                            gpus@.len() * DCGM_NVLINK_MAX_LINKS_PER_GPU <= usize::MAX,
                            statuses@.len() == i * DCGM_NVLINK_MAX_LINKS_PER_GPU + j,
                            forall|k: int, l: int|
                                0 <= k < i && 0 <= l < DCGM_NVLINK_MAX_LINKS_PER_GPU
                                    ==> statuses@[k * DCGM_NVLINK_MAX_LINKS_PER_GPU + l]
                                    == spec_gpu_link_status(gpus@[k], l),
                            forall|l: int|
                                0 <= l < j ==> statuses@[i * DCGM_NVLINK_MAX_LINKS_PER_GPU + l]
                                    == spec_gpu_link_status(gpus@[i as int], l),
                        decreases DCGM_NVLINK_MAX_LINKS_PER_GPU - j,
                    {
                        proof {
                            lemma_row_index_bound(
                                i as int,
                                j as int,
                                gpus@.len() as int,
                                DCGM_NVLINK_MAX_LINKS_PER_GPU as int,
                            );
                        }
                        let record = NvLinkStatus {
                            parent_id: row.entityId,
                            parent_type: DCGM_FE_GPU,
                            state: row.linkState[j],
                            index: j as u32,
                        };
                        statuses.push(record);
                        j = j + 1;
                    }
                    i = i + 1;
                }
                let gpu_total = statuses.len();
                let mut i: usize = 0;
                while i < switches.len()
                    invariant
                        0 <= i <= switches@.len(),
                        forall|k: int|
                            0 <= k < switches@.len() ==> (#[trigger] switches@[k]).linkState@.len()
                                == DCGM_NVLINK_MAX_LINKS_PER_NVSWITCH,
                        gpu_total == gpus@.len() * DCGM_NVLINK_MAX_LINKS_PER_GPU,
                        gpu_total + switches@.len() * DCGM_NVLINK_MAX_LINKS_PER_NVSWITCH
                            <= usize::MAX,
                        statuses@.len() == gpu_total + i * DCGM_NVLINK_MAX_LINKS_PER_NVSWITCH,
                        forall|k: int, j: int|
                            0 <= k < gpus@.len() && 0 <= j < DCGM_NVLINK_MAX_LINKS_PER_GPU
                                ==> statuses@[k * DCGM_NVLINK_MAX_LINKS_PER_GPU + j]
                                == spec_gpu_link_status(gpus@[k], j),
                        forall|k: int, j: int|
                            0 <= k < i && 0 <= j < DCGM_NVLINK_MAX_LINKS_PER_NVSWITCH
                                ==> statuses@[gpu_total + k * DCGM_NVLINK_MAX_LINKS_PER_NVSWITCH
                                + j] == spec_switch_link_status(switches@[k], j),
                    decreases switches@.len() - i,
                {
                    let row = &switches[i];
                    let mut j: usize = 0;
                    while j < DCGM_NVLINK_MAX_LINKS_PER_NVSWITCH
                        invariant
                            0 <= j <= DCGM_NVLINK_MAX_LINKS_PER_NVSWITCH,
                            0 <= i < switches@.len(),
                            row == switches@[i as int],
                            row.linkState@.len() == DCGM_NVLINK_MAX_LINKS_PER_NVSWITCH,
                            gpu_total == gpus@.len() * DCGM_NVLINK_MAX_LINKS_PER_GPU,
                            gpu_total + switches@.len() * DCGM_NVLINK_MAX_LINKS_PER_NVSWITCH
                                <= usize::MAX,
                            statuses@.len() == gpu_total + i * DCGM_NVLINK_MAX_LINKS_PER_NVSWITCH
                                + j,
                            forall|k: int, l: int|
                                0 <= k < gpus@.len() && 0 <= l < DCGM_NVLINK_MAX_LINKS_PER_GPU
                                    ==> statuses@[k * DCGM_NVLINK_MAX_LINKS_PER_GPU + l]
                                    == spec_gpu_link_status(gpus@[k], l),
                            forall|k: int, l: int|
                                0 <= k < i && 0 <= l < DCGM_NVLINK_MAX_LINKS_PER_NVSWITCH
                                    ==> statuses@[gpu_total + k
                                    * DCGM_NVLINK_MAX_LINKS_PER_NVSWITCH + l]
                                    == spec_switch_link_status(switches@[k], l),
                            forall|l: int|
                                0 <= l < j ==> statuses@[gpu_total + i
                                    * DCGM_NVLINK_MAX_LINKS_PER_NVSWITCH + l]
                                    == spec_switch_link_status(switches@[i as int], l),
                        decreases DCGM_NVLINK_MAX_LINKS_PER_NVSWITCH - j,
                    {
                        proof {
                            lemma_row_index_bound(
                                i as int,
                                j as int,
                                switches@.len() as int,
                                DCGM_NVLINK_MAX_LINKS_PER_NVSWITCH as int,
                            );
                        }
                        let record = NvLinkStatus {
                            parent_id: row.entityId,
                            parent_type: DCGM_FE_SWITCH,
                            state: row.linkState[j],
                            index: j as u32,
                        };
                        statuses.push(record);
                        j = j + 1;
                    }
                    i = i + 1;
                }
                Ok(statuses)
            },
        }
    }
}

/// Within `rows` rows of `width` links each, the flat index of link `j` of
/// row `i` stays below the total.
proof fn lemma_row_index_bound(i: int, j: int, rows: int, width: int)
    by (nonlinear_arith)
    requires
        0 <= i < rows,
        0 <= j < width,
    ensures
        i * width + j < rows * width,
        i * width + j >= 0,
{
}

} // verus!
