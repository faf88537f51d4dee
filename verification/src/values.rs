//! Field-value records and the latest-value queries.
//!
//! A latest-value query populates an output buffer sized exactly to the
//! number of requested samples: one record per entity and field.  Empty
//! entity or field lists are rejected outright — there is no record to
//! return and the native call would be handed an empty buffer.  Each record
//! carries its own per-sample status, checked before its payload is read.
use vstd::prelude::*;
use crate::error::DCGMError;
use crate::error::DCGM_ST_OK;
use crate::error::DCGM_ST_NOT_WATCHED;
use crate::error::check_status;
use crate::error::spec_error_message;
use crate::session::DcgmLibSafe;

verus! {

/// One entity paired with its entity group tag, as latest-value requests
/// name their subjects.
#[derive(Clone, Copy, Debug, PartialEq, Eq, Structural)]
pub struct EntityPair {
    pub entityGroupId: u32,
    pub entityId: u32,
}

/// One sampled field value: the entity and field it belongs to, the
/// per-sample status, and the payload.
#[derive(Clone, Copy, Debug, PartialEq, Eq, Structural)]
pub struct FieldValue {
    pub entityGroupId: u32,
    pub entityId: u32,
    pub fieldId: u16,
    pub status: i32,
    pub value: i64,
}

/// Reads the payload out of one sampled field value, checking its per-sample
/// status first: a watched, successfully sampled value yields its payload; a
/// value that is not being watched, or carries any other status, is an error.
pub fn dereference_field_value_v2(fv: &FieldValue) -> (r: Result<i64, DCGMError>)
    ensures
        r is Ok <==> fv.status == DCGM_ST_OK,
        r matches Ok(v) ==> v == fv.value,
        fv.status == DCGM_ST_NOT_WATCHED ==> (r matches Err(e) && e.message@
            == "Field Value is not being watched"@),
        fv.status != DCGM_ST_OK && fv.status != DCGM_ST_NOT_WATCHED ==> (r matches Err(e)
            && e.message@ == "Unknown or Unimplemented Return Status"@),
{
    if fv.status == DCGM_ST_OK {
        Ok(fv.value)
    } else if fv.status == DCGM_ST_NOT_WATCHED {
        Err(DCGMError::from_text("Field Value is not being watched"))
    } else {
        Err(DCGMError::from_text("Unknown or Unimplemented Return Status"))
    }
}

impl DcgmLibSafe {
    /// The output-buffer length owed for a latest-value query over several
    /// entities: one record per entity and field.  Rejects empty inputs and a
    /// sample count beyond what a buffer can hold.
    pub fn latestValuesBufferLen(&self, num_entities: usize, num_fields: usize) -> (r: Result<
        usize,
        DCGMError,
    >)
        ensures
            r is Ok <==> (num_entities > 0 && num_fields > 0 && num_entities * num_fields
                <= usize::MAX),
            r matches Ok(n) ==> n == num_entities * num_fields,
            num_entities == 0 || num_fields == 0 ==> (r matches Err(e) && e.message@
                == "no entities or fields requested"@),
            num_entities > 0 && num_fields > 0 && num_entities * num_fields > usize::MAX ==> (
            r matches Err(e) && e.message@ == "requested sample count too large"@),
    {
        if num_entities == 0 || num_fields == 0 {
            return Err(DCGMError::from_text("no entities or fields requested"));
        }
        match num_entities.checked_mul(num_fields) {
            Some(n) => Ok(n),
            None => Err(DCGMError::from_text("requested sample count too large")),
        }
    }

    /// Interprets the reply of a latest-value query over several entities:
    /// on success, the populated buffer of exactly one record per entity and
    /// field.  Empty inputs are rejected, and the buffer length is held
    /// against the request rather than trusted.
    pub fn entitiesGetLatestValues(
        &self,
        entities: &Vec<EntityPair>,
        fields: &Vec<u16>,
        code: i32,
        native: Option<String>,
        values: Vec<FieldValue>,
    ) -> (r: Result<Vec<FieldValue>, DCGMError>)
        ensures
            r is Ok <==> (entities@.len() > 0 && fields@.len() > 0 && code == DCGM_ST_OK
                && values@.len() == entities@.len() * fields@.len()),
            r matches Ok(vs) ==> vs == values,
            entities@.len() == 0 || fields@.len() == 0 ==> (r matches Err(e) && e.message@
                == "no entities or fields requested"@),
            entities@.len() > 0 && fields@.len() > 0 && code != DCGM_ST_OK ==> (r matches Err(e)
                && e.message@ == spec_error_message(code as int, native.deep_view())),
            entities@.len() > 0 && fields@.len() > 0 && code == DCGM_ST_OK && values@.len()
                != entities@.len() * fields@.len() ==> (r matches Err(e) && e.message@
                == "field value buffer length mismatch"@),
    {
        if entities.len() == 0 || fields.len() == 0 {
            return Err(DCGMError::from_text("no entities or fields requested"));
        }
        match check_status(code, native) {
            Err(e) => Err(e),
            Ok(_) => {
                let buffer_len = values.len();
                let expected = match entities.len().checked_mul(fields.len()) {
                    Some(n) => n,
                    None => {
                        return Err(DCGMError::from_text("field value buffer length mismatch"));
                    },
                };
                if buffer_len != expected {
                    return Err(DCGMError::from_text("field value buffer length mismatch"));
                }
                Ok(values)
            },
        }
    }

    /// Interprets the reply of a latest-value query over one entity: on
    /// success, the populated buffer of exactly one record per field.  An
    /// empty field list is rejected, and the buffer length is held against
    /// the request rather than trusted.
    pub fn entityGetLatestValues(
        &self,
        fields: &Vec<u16>,
        code: i32,
        native: Option<String>,
        values: Vec<FieldValue>,
    ) -> (r: Result<Vec<FieldValue>, DCGMError>)
        ensures
            r is Ok <==> (fields@.len() > 0 && code == DCGM_ST_OK && values@.len()
                == fields@.len()),
            r matches Ok(vs) ==> vs == values,
            fields@.len() == 0 ==> (r matches Err(e) && e.message@
                == "no entities or fields requested"@),
            fields@.len() > 0 && code != DCGM_ST_OK ==> (r matches Err(e) && e.message@
                == spec_error_message(code as int, native.deep_view())),
            fields@.len() > 0 && code == DCGM_ST_OK && values@.len() != fields@.len() ==> (
            r matches Err(e) && e.message@ == "field value buffer length mismatch"@),
    {
        if fields.len() == 0 {
            return Err(DCGMError::from_text("no entities or fields requested"));
        }
        match check_status(code, native) {
            Err(e) => Err(e),
            Ok(_) => {
                if values.len() != fields.len() {
                    return Err(DCGMError::from_text("field value buffer length mismatch"));
                }
                Ok(values)
            },
        }
    }
}

} // verus!
