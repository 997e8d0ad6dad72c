//! The impact provider capability: turning an inventory and a duration of
//! use into an estimated inventory.
use vstd::prelude::*;
use crate::model::{CloudResourceWithImpacts, EstimatedInventory, ImpactsValues, Inventory};

verus! {

/// Why a provider call failed as a whole.
#[derive(Clone, Debug)]
pub enum ProviderError {
    /// The requested duration of use, in fixed-point hours, is not positive.
    InvalidDuration { usage_duration_hours: i64 },
    /// The backend answered with a number of impact records that is not the
    /// number of resources asked about.
    UnmatchedImpacts { resources: usize, impacts: usize },
    /// The backend could not be reached, or its answer could not be read.
    Backend(String),
}

/// `estimated` pairs the resources of `inventory`, in order, each with
/// impacts computed over `usage_duration_hours`.
pub open spec fn is_estimation_of<R>(
    estimated: Seq<CloudResourceWithImpacts<R>>,
    inventory: Seq<R>,
    usage_duration_hours: i64,
) -> bool {
    &&& estimated.len() == inventory.len()
    &&& forall|i: int|
        #![trigger estimated[i]]
        0 <= i < estimated.len() ==> {
            &&& estimated[i].cloud_resource == inventory[i]
            &&& estimated[i].impacts_duration_hours == usage_duration_hours
        }
}

/// Impacts as a provider reports them: with the backend's raw data only on a
/// verbose call.
pub open spec fn reported_impacts(impacts: Option<ImpactsValues>, verbose: bool) -> Option<
    ImpactsValues,
> {
    match impacts {
        Some(v) => Some(
            ImpactsValues {
                raw_data: if verbose {
                    v.raw_data
                } else {
                    None
                },
                ..v
            },
        ),
        None => None,
    }
}

/// A backend that estimates the impacts of cloud resources.
///
/// Implement this trait to support another impact database or API version;
/// summaries depend on this contract only, never on a concrete backend.
pub trait ImpactProvider<R> {
    /// Returns the resources of `inventory`, in order, each paired with its
    /// impacts over `usage_duration_hours` (fixed-point hours), or `None` in
    /// place of impacts where the backend has none for it. Raw backend data is
    /// requested by `verbose`.
    ///
    /// Fails as a whole when the duration is not positive, or when the
    /// backend cannot be reached or read.
    fn get_impacts(
        &self,
        inventory: Inventory<R>,
        usage_duration_hours: i64,
        verbose: bool,
    ) -> (r: Result<EstimatedInventory<R>, ProviderError>)
        ensures
            usage_duration_hours <= 0 ==> r == Err::<EstimatedInventory<R>, ProviderError>(
                ProviderError::InvalidDuration { usage_duration_hours },
            ),
            r matches Ok(e) ==> is_estimation_of(
                e.impacting_resources@,
                inventory.resources@,
                usage_duration_hours,
            ),
    ;
}

/// Accepts a positive duration of use; rejects any other before a backend
/// is asked.
pub fn check_usage_duration(usage_duration_hours: i64) -> (r: Result<(), ProviderError>)
    ensures
        usage_duration_hours > 0 <==> r is Ok,
        usage_duration_hours <= 0 ==> r == Err::<(), ProviderError>(
            ProviderError::InvalidDuration { usage_duration_hours },
        ),
{
    if usage_duration_hours <= 0 {
        Err(ProviderError::InvalidDuration { usage_duration_hours })
    } else {
        Ok(())
    }
}

/// The elements of `v` in reverse order.
fn reversed<T>(v: Vec<T>) -> (r: Vec<T>)
    ensures
        r@.len() == v@.len(),
        forall|j: int| 0 <= j < v@.len() ==> #[trigger] r@[j] == v@[v@.len() - 1 - j],
{
    let ghost original = v@;
    let mut v = v;
    let mut r: Vec<T> = Vec::new();
    while v.len() > 0
        invariant
            v@ == original.take(v@.len() as int),
            v@.len() + r@.len() == original.len(),
            forall|j: int|
                0 <= j < r@.len() ==> #[trigger] r@[j] == original[original.len() - 1 - j],
        decreases v@.len(),
    {
        if let Some(x) = v.pop() {
            r.push(x);
        }
    }
    r
}

/// Builds the estimated inventory of a provider call from the impacts that
/// the backend reported for each resource of `inventory`, in order.
///
/// Fails when the duration is not positive, or when the backend reported a
/// number of records that is not the number of resources. Raw backend data
/// is kept only when `verbose` is set.
pub fn estimate_inventory<R>(
    inventory: Inventory<R>,
    impacts: Vec<Option<ImpactsValues>>,
    usage_duration_hours: i64,
    verbose: bool,
) -> (r: Result<EstimatedInventory<R>, ProviderError>)
    ensures
        usage_duration_hours <= 0 ==> r == Err::<EstimatedInventory<R>, ProviderError>(
            ProviderError::InvalidDuration { usage_duration_hours },
        ),
        usage_duration_hours > 0 && impacts@.len() != inventory.resources@.len() ==> r == Err::<
            EstimatedInventory<R>,
            ProviderError,
        >(
            ProviderError::UnmatchedImpacts {
                resources: inventory.resources@.len() as usize,
                impacts: impacts@.len() as usize,
            },
        ),
        usage_duration_hours > 0 && impacts@.len() == inventory.resources@.len() ==> {
            &&& r is Ok
            &&& is_estimation_of(
                r->Ok_0.impacting_resources@,
                inventory.resources@,
                usage_duration_hours,
            )
            &&& forall|i: int|
                #![trigger r->Ok_0.impacting_resources@[i]]
                0 <= i < impacts@.len() ==> r->Ok_0.impacting_resources@[i].impacts_values
                    == reported_impacts(impacts@[i], verbose)
        },
{
    check_usage_duration(usage_duration_hours)?;
    let n = inventory.resources.len();
    if impacts.len() != n {
        return Err(ProviderError::UnmatchedImpacts { resources: n, impacts: impacts.len() });
    }
    let ghost resources0 = inventory.resources@;
    let ghost impacts0 = impacts@;
    let mut resources = reversed(inventory.resources);
    let mut found = reversed(impacts);
    let mut paired: Vec<CloudResourceWithImpacts<R>> = Vec::new();
    while resources.len() > 0
        invariant
            resources0.len() == n,
            impacts0.len() == n,
            resources@.len() == found@.len(),
            resources@.len() + paired@.len() == n,
            forall|j: int|
                0 <= j < resources@.len() ==> #[trigger] resources@[j] == resources0[n - 1 - j],
            forall|j: int| 0 <= j < found@.len() ==> #[trigger] found@[j] == impacts0[n - 1 - j],
            forall|k: int|
                #![trigger paired@[k]]
                0 <= k < paired@.len() ==> {
                    &&& paired@[k].cloud_resource == resources0[k]
                    &&& paired@[k].impacts_values == reported_impacts(impacts0[k], verbose)
                    &&& paired@[k].impacts_duration_hours == usage_duration_hours
                },
        decreases resources@.len(),
    {
        if let (Some(cloud_resource), Some(impacts_values)) = (resources.pop(), found.pop()) {
            let impacts_values = match impacts_values {
                Some(mut values) => {
                    if !verbose {
                        values.raw_data = None;
                    }
                    Some(values)
                },
                None => None,
            };
            paired.push(
                CloudResourceWithImpacts {
                    cloud_resource,
                    impacts_values,
                    impacts_duration_hours: usage_duration_hours,
                },
            );
        }
    }
    Ok(EstimatedInventory { impacting_resources: paired })
}

} // verus!
