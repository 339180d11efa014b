//! Assembling a history write: the reference is validated, the timestamps
//! are read, and what is left is a request that only needs sending.

use crate::error::PrError;
use crate::reference::EntityRef;
use crate::timestamp::{normalize, normalizes_to, Convention, SampleBatch};
use crate::trusted::ref_is_valid;
use vstd::prelude::*;

verus! {

/// A write that is ready to be sent: the point, its samples with their time
/// zone context, and the unit of the values where one is asserted. No unit
/// means that none is asserted, not that the values have none.
#[derive(Debug, PartialEq)]
pub struct WriteRequest<V> {
    pub id: EntityRef,
    pub batch: SampleBatch<V>,
    pub unit: Option<String>,
}

/// The unit that a request keeps is the one that was given.
pub open spec fn same_unit(kept: Option<String>, given: Option<&str>) -> bool {
    match given {
        Some(unit) => kept matches Some(text) && text@ == unit@,
        None => kept is None,
    }
}

/// What assembling a write from an already normalized batch gives: the
/// request where the reference is valid, with batch and unit as given, and
/// `RefParse` where it is not.
pub open spec fn assembles_to<V>(
    id: Seq<char>,
    batch: SampleBatch<V>,
    unit: Option<&str>,
    r: Result<WriteRequest<V>, PrError>,
) -> bool {
    match r {
        Ok(request) => {
            &&& ref_is_valid(id)
            &&& request.id@ == id
            &&& request.batch == batch
            &&& same_unit(request.unit, unit)
        },
        Err(failure) => !ref_is_valid(id) && failure is RefParse,
    }
}

/// What planning a write from timestamp texts gives. The reference is
/// looked at first: where it is not valid the plan fails with `RefParse`,
/// whatever the samples are. Else the plan stands or falls with the
/// normalizing of the samples.
pub open spec fn plans_to<'a, V>(
    id: Seq<char>,
    time_zone_name: Seq<char>,
    data: Seq<(&'a str, V)>,
    unit: Option<&str>,
    convention: Convention,
    r: Result<WriteRequest<V>, PrError>,
) -> bool {
    match r {
        Ok(request) => {
            &&& ref_is_valid(id)
            &&& request.id@ == id
            &&& same_unit(request.unit, unit)
            &&& normalizes_to(data, time_zone_name, convention, Ok(request.batch))
        },
        Err(failure) => if ref_is_valid(id) {
            normalizes_to(data, time_zone_name, convention, Err(failure))
        } else {
            failure is RefParse
        },
    }
}

/// Copies the unit of a request.
pub fn keep_unit(unit: Option<&str>) -> (kept: Option<String>)
    ensures
        same_unit(kept, unit),
{
    match unit {
        Some(text) => Some(text.to_owned()),
        None => None,
    }
}

/// Assembles a write from a batch that is already normalized.
pub fn assemble<V>(id: String, batch: SampleBatch<V>, unit: Option<&str>) -> (r: Result<
    WriteRequest<V>,
    PrError,
>)
    ensures
        assembles_to(id@, batch, unit, r),
{
    match EntityRef::new(id) {
        Ok(entity) => Ok(WriteRequest { id: entity, batch, unit: keep_unit(unit) }),
        Err(failure) => Err(failure),
    }
}

/// Plans a write from timestamp texts in the given convention.
pub fn plan<V: Copy>(
    id: String,
    time_zone_name: &str,
    data: &Vec<(&str, V)>,
    unit: Option<&str>,
    convention: Convention,
) -> (r: Result<WriteRequest<V>, PrError>)
    ensures
        plans_to(id@, time_zone_name@, data@, unit, convention, r),
{
    let entity = match EntityRef::new(id) {
        Ok(entity) => entity,
        Err(failure) => {
            return Err(failure);
        },
    };
    match normalize(data, time_zone_name, convention) {
        Ok(batch) => Ok(WriteRequest { id: entity, batch, unit: keep_unit(unit) }),
        Err(failure) => Err(failure),
    }
}

/// An invalid reference is rejected with `RefParse` whatever else the
/// request holds, so that no request is left to send.
pub proof fn lemma_invalid_reference_is_rejected<V>(
    id: Seq<char>,
    time_zone_name: Seq<char>,
    data: Seq<(&str, V)>,
    unit: Option<&str>,
    convention: Convention,
    r: Result<WriteRequest<V>, PrError>,
)
    requires
        plans_to(id, time_zone_name, data, unit, convention, r),
        !ref_is_valid(id),
    ensures
        r matches Err(PrError::RefParse(_)),
{
}

/// A write without samples to a valid reference is always planned: a
/// request without points, and never an error.
pub proof fn lemma_empty_write_is_planned<V>(
    id: Seq<char>,
    time_zone_name: Seq<char>,
    unit: Option<&str>,
    convention: Convention,
    r: Result<WriteRequest<V>, PrError>,
)
    requires
        plans_to(id, time_zone_name, Seq::<(&str, V)>::empty(), unit, convention, r),
        ref_is_valid(id),
    ensures
        r matches Ok(request) && request.batch.points@.len() == 0,
{
}

/// A plan that stands holds a batch in which every sample shares the time
/// zone context of the request, under the convention of the request.
pub proof fn lemma_planned_samples_share_zone<V>(
    id: Seq<char>,
    time_zone_name: Seq<char>,
    data: Seq<(&str, V)>,
    unit: Option<&str>,
    convention: Convention,
    request: WriteRequest<V>,
)
    requires
        plans_to(id, time_zone_name, data, unit, convention, Ok::<WriteRequest<V>, PrError>(request)),
    ensures
        request.batch.convention == convention,
        request.batch.time_zone_name@ == time_zone_name,
        request.batch.wf(),
{
}

} // verus!
