//! Typed query and management operations over the native replies.
//!
//! Enumeration calls follow one pattern: the driver hands the native library
//! a bounded buffer of the library-defined maximum capacity, the library
//! populates a prefix and reports its length, and only after a successful
//! status check is that prefix read — with the reported length held against
//! the buffer's real capacity rather than trusted.
use vstd::prelude::*;
use crate::bitmask::encode_gpu_bitmask;
use crate::bitmask::decode_gpu_bitmask;
use crate::bitmask::mask_has;
use crate::bitmask::spec_encodes;
use crate::bitmask::spec_mask_bits;
use crate::error::DCGMError;
use crate::error::DCGM_ST_OK;
use crate::error::check_status;
use crate::error::spec_error_message;
use crate::session::DcgmLibSafe;

verus! {

/// The native library's maximum device count: the capacity of every
/// enumeration buffer.
pub const DCGM_MAX_NUM_DEVICES: usize = 32;

/// Group type for a group created empty, to be filled entity by entity.
pub const DCGM_GROUP_EMPTY: u32 = 1;

/// Takes the populated prefix of an enumeration buffer, holding the reported
/// count against the buffer's capacity.
fn reported_prefix(buffer: &Vec<u32>, count: i32) -> (r: Result<Vec<u32>, DCGMError>)
    ensures
        r is Ok <==> 0 <= count <= buffer@.len(),
        r matches Ok(ids) ==> ids@ == buffer@.take(count as int),
        r matches Err(e) ==> e.message@ == "reported count exceeds buffer capacity"@,
{
    if count < 0 {
        return Err(DCGMError::from_text("reported count exceeds buffer capacity"));
    }
    let n = count as usize;
    if n > buffer.len() {
        return Err(DCGMError::from_text("reported count exceeds buffer capacity"));
    }
    let mut ids: Vec<u32> = Vec::new();
    let mut i: usize = 0;
    while i < n
        invariant
            0 <= i <= n,
            n <= buffer@.len(),
            ids@ == buffer@.take(i as int),
        decreases n - i,
    {
        ids.push(buffer[i]);
        proof {
            assert(buffer@.take(i as int + 1) =~= buffer@.take(i as int).push(buffer@[i as int]));
        }
        i = i + 1;
    }
    Ok(ids)
}

/// The request for a topology-optimal device subset: the candidate set as a
/// membership bitmask, the subset size wanted, and the hint flags (none).
#[derive(Clone, Copy, Debug, PartialEq, Eq, Structural)]
pub struct TopologySelectRequest {
    pub input_gpu_mask: u64,
    pub num_gpus: u32,
    pub hint_flags: u64,
}

impl DcgmLibSafe {
    /// Interprets the reply of the global initialisation call.
    pub fn init(&self, code: i32, native: Option<String>) -> (r: Result<(), DCGMError>)
        ensures
            r is Ok <==> code == DCGM_ST_OK,
            r matches Err(e) ==> e.message@ == spec_error_message(
                code as int,
                native.deep_view(),
            ),
    {
        check_status(code, native)
    }

    /// Interprets the reply of the supported-device enumeration: on success,
    /// exactly the populated prefix of the device-id buffer, of the reported
    /// length.
    pub fn getAllSupportedDevices(
        &self,
        code: i32,
        native: Option<String>,
        gpu_id_list: &Vec<u32>,
        count: i32,
    ) -> (r: Result<Vec<u32>, DCGMError>)
        ensures
            r is Ok <==> (code == DCGM_ST_OK && 0 <= count <= gpu_id_list@.len()),
            r matches Ok(ids) ==> ids@ == gpu_id_list@.take(count as int),
            code != DCGM_ST_OK ==> (r matches Err(e) && e.message@ == spec_error_message(
                code as int,
                native.deep_view(),
            )),
            code == DCGM_ST_OK && !(0 <= count <= gpu_id_list@.len()) ==> (r matches Err(e)
                && e.message@ == "reported count exceeds buffer capacity"@),
    {
        match check_status(code, native) {
            Err(e) => Err(e),
            Ok(_) => reported_prefix(gpu_id_list, count),
        }
    }

    /// Interprets the reply of the entity enumeration for one entity group
    /// type: the same bounded-buffer pattern as the device enumeration.
    pub fn getEntityGroupEntites(
        &self,
        code: i32,
        native: Option<String>,
        entity_id_list: &Vec<u32>,
        count: i32,
    ) -> (r: Result<Vec<u32>, DCGMError>)
        ensures
            r is Ok <==> (code == DCGM_ST_OK && 0 <= count <= entity_id_list@.len()),
            r matches Ok(ids) ==> ids@ == entity_id_list@.take(count as int),
            code != DCGM_ST_OK ==> (r matches Err(e) && e.message@ == spec_error_message(
                code as int,
                native.deep_view(),
            )),
            code == DCGM_ST_OK && !(0 <= count <= entity_id_list@.len()) ==> (r matches Err(e)
                && e.message@ == "reported count exceeds buffer capacity"@),
    {
        match check_status(code, native) {
            Err(e) => Err(e),
            Ok(_) => reported_prefix(entity_id_list, count),
        }
    }

    /// Interprets the reply of the group-creation call: on success, the
    /// opaque group handle the native library assigned.
    pub fn createGroup(&self, code: i32, native: Option<String>, group_id: u64) -> (r: Result<
        u64,
        DCGMError,
    >)
        ensures
            r is Ok <==> code == DCGM_ST_OK,
            r matches Ok(id) ==> id == group_id,
            r matches Err(e) ==> e.message@ == spec_error_message(
                code as int,
                native.deep_view(),
            ),
    {
        match check_status(code, native) {
            Err(e) => Err(e),
            Ok(_) => Ok(group_id),
        }
    }

    /// Interprets the reply of adding one entity to a group.
    pub fn addEntityToGroup(&self, code: i32, native: Option<String>) -> (r: Result<
        (),
        DCGMError,
    >)
        ensures
            r is Ok <==> code == DCGM_ST_OK,
            r matches Err(e) ==> e.message@ == spec_error_message(
                code as int,
                native.deep_view(),
            ),
    {
        check_status(code, native)
    }

    /// Interprets the reply of destroying a group.
    pub fn destroyGroup(&self, code: i32, native: Option<String>) -> (r: Result<(), DCGMError>)
        ensures
            r is Ok <==> code == DCGM_ST_OK,
            r matches Err(e) ==> e.message@ == spec_error_message(
                code as int,
                native.deep_view(),
            ),
    {
        check_status(code, native)
    }

    /// Interprets the reply of the field-group-creation call: on success, the
    /// opaque field-group handle the native library assigned.
    pub fn fieldGroupCreate(&self, code: i32, native: Option<String>, field_handle: u64) -> (r:
        Result<u64, DCGMError>)
        ensures
            r is Ok <==> code == DCGM_ST_OK,
            r matches Ok(id) ==> id == field_handle,
            r matches Err(e) ==> e.message@ == spec_error_message(
                code as int,
                native.deep_view(),
            ),
    {
        match check_status(code, native) {
            Err(e) => Err(e),
            Ok(_) => Ok(field_handle),
        }
    }

    /// Interprets the reply of destroying a field group.
    pub fn fieldGroupDestroy(&self, code: i32, native: Option<String>) -> (r: Result<
        (),
        DCGMError,
    >)
        ensures
            r is Ok <==> code == DCGM_ST_OK,
            r matches Err(e) ==> e.message@ == spec_error_message(
                code as int,
                native.deep_view(),
            ),
    {
        check_status(code, native)
    }

    /// Interprets the reply of the forced synchronous field update.
    pub fn updateAllFields(&self, code: i32, native: Option<String>) -> (r: Result<
        (),
        DCGMError,
    >)
        ensures
            r is Ok <==> code == DCGM_ST_OK,
            r matches Err(e) ==> e.message@ == spec_error_message(
                code as int,
                native.deep_view(),
            ),
    {
        check_status(code, native)
    }

    /// Interprets the outcome of registering a field watch.  The first status
    /// is from the watch registration; the second is from the forced update
    /// that must follow so the first read is not stale, made only when the
    /// registration succeeded.  Fails with the translated error of whichever
    /// call failed.
    pub fn watchFields(
        &self,
        watch_code: i32,
        watch_native: Option<String>,
        update: Option<(i32, Option<String>)>,
    ) -> (r: Result<(), DCGMError>)
        requires
            update is Some <==> watch_code == DCGM_ST_OK,
        ensures
            r is Ok <==> (watch_code == DCGM_ST_OK && update is Some && update.unwrap().0
                == DCGM_ST_OK),
            watch_code != DCGM_ST_OK ==> (r matches Err(e) && e.message@ == spec_error_message(
                watch_code as int,
                watch_native.deep_view(),
            )),
            watch_code == DCGM_ST_OK && update is Some && update.unwrap().0 != DCGM_ST_OK ==> (
            r matches Err(e) && e.message@ == spec_error_message(
                update.unwrap().0 as int,
                update.unwrap().1.deep_view(),
            )),
    {
        match check_status(watch_code, watch_native) {
            Err(e) => Err(e),
            Ok(_) => match update {
                Some((update_code, update_native)) => check_status(update_code, update_native),
                None => vstd::pervasive::unreached(),
            },
        }
    }

    /// Builds the topology-selection request: the candidate ids encoded as a
    /// membership bitmask.  Fails with the out-of-range error, before any
    /// native call is owed, exactly when some id exceeds 63.
    pub fn selectGpusByTopology(&self, gpuIds: &Vec<u32>, numGpus: u32) -> (r: Result<
        TopologySelectRequest,
        DCGMError,
    >)
        ensures
            r is Ok <==> (forall|i: int| 0 <= i < gpuIds@.len() ==> gpuIds@[i] <= 63),
            r matches Ok(req) ==> spec_encodes(gpuIds@, req.input_gpu_mask) && req.num_gpus
                == numGpus && req.hint_flags == 0,
            r matches Err(e) ==> e.message@ == "gpu value out of bounds"@,
    {
        match encode_gpu_bitmask(gpuIds) {
            Err(e) => Err(e),
            Ok(mask) => Ok(
                TopologySelectRequest { input_gpu_mask: mask, num_gpus: numGpus, hint_flags: 0 },
            ),
        }
    }

    /// Decodes the reply of the topology selection: the chosen subset comes
    /// back as a membership bitmask, read out low-to-high into a strictly
    /// ascending id list.
    pub fn selectGpusByTopologyReply(
        &self,
        code: i32,
        native: Option<String>,
        output_mask: u64,
    ) -> (r: Result<Vec<u32>, DCGMError>)
        ensures
            r is Ok <==> code == DCGM_ST_OK,
            r matches Ok(ids) ==> {
                &&& ids@ == spec_mask_bits(output_mask, 64)
                &&& forall|b: u32| #[trigger] ids@.contains(b) <==> mask_has(output_mask, b)
                &&& forall|i: int, j: int| 0 <= i < j < ids@.len() ==> ids@[i] < ids@[j]
            },
            r matches Err(e) ==> e.message@ == spec_error_message(
                code as int,
                native.deep_view(),
            ),
    {
        match check_status(code, native) {
            Err(e) => Err(e),
            Ok(_) => Ok(decode_gpu_bitmask(output_mask)),
        }
    }
}

} // verus!
