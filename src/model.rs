//! The data model: per-resource impact figures, resources paired with them,
//! and the inventories that providers read and produce.
use vstd::prelude::*;

verus! {

/// Number of fixed-point steps in one whole unit (kg Sb-eq, MJ, kg CO2-eq, or
/// hour): a stored value `v` stands for `v / FIXED_POINT_ONE` units.
pub const FIXED_POINT_ONE: u64 = 1_000_000_000_000;

/// Declares `serde_json::Value`, the type of the provider-specific diagnostic
/// payload. Values of it are carried through unchanged and never read.
#[verifier::external_type_specification]
#[verifier::external_body]
pub struct ExJsonValue(serde_json::Value);

/// Impacts of an individual resource, every figure in fixed-point steps.
///
/// A resource has all six figures or none: the absence of impacts is
/// expressed by `Option<ImpactsValues>` where it is paired with a resource.
#[derive(Clone, Debug)]
pub struct ImpactsValues {
    pub adp_manufacture_kgsbeq: u64,
    pub adp_use_kgsbeq: u64,
    pub pe_manufacture_megajoules: u64,
    pub pe_use_megajoules: u64,
    pub gwp_manufacture_kgco2eq: u64,
    pub gwp_use_kgco2eq: u64,
    pub raw_data: Option<serde_json::Value>,
}

/// The six impact metrics, each split into a manufacturing and a use phase.
pub enum Metric {
    AdpManufacture,
    AdpUse,
    PeManufacture,
    PeUse,
    GwpManufacture,
    GwpUse,
}

impl ImpactsValues {
    /// The figure of this record for metric `m`.
    pub open spec fn metric(self, m: Metric) -> int {
        match m {
            Metric::AdpManufacture => self.adp_manufacture_kgsbeq as int,
            Metric::AdpUse => self.adp_use_kgsbeq as int,
            Metric::PeManufacture => self.pe_manufacture_megajoules as int,
            Metric::PeUse => self.pe_use_megajoules as int,
            Metric::GwpManufacture => self.gwp_manufacture_kgco2eq as int,
            Metric::GwpUse => self.gwp_use_kgco2eq as int,
        }
    }
}

/// A cloud resource (opaque here) with its impacts, if any could be found,
/// and the duration of use, in fixed-point hours, that they were computed for.
#[derive(Clone, Debug)]
pub struct CloudResourceWithImpacts<R> {
    pub cloud_resource: R,
    pub impacts_values: Option<ImpactsValues>,
    pub impacts_duration_hours: i64,
}

impl<R> CloudResourceWithImpacts<R> {
    /// Whether impacts were found for the resource.
    pub open spec fn is_assessed(self) -> bool {
        self.impacts_values is Some
    }

    /// What the resource adds to the total of metric `m`: its figure when it
    /// is assessed, nothing otherwise.
    pub open spec fn contribution(self, m: Metric) -> int {
        match self.impacts_values {
            Some(v) => v.metric(m),
            None => 0,
        }
    }
}

/// The resources to assess, in discovery order.
#[derive(Clone, Debug)]
pub struct Inventory<R> {
    pub resources: Vec<R>,
}

/// The resources of an inventory, each paired with its impacts, in the
/// inventory's order.
#[derive(Clone, Debug)]
pub struct EstimatedInventory<R> {
    pub impacting_resources: Vec<CloudResourceWithImpacts<R>>,
}

/// Number of assessed resources in `rs`.
pub open spec fn assessed_count<R>(rs: Seq<CloudResourceWithImpacts<R>>) -> nat
    decreases rs.len(),
{
    if rs.len() == 0 {
        0
    } else {
        assessed_count(rs.drop_last()) + if rs.last().is_assessed() {
            1nat
        } else {
            0nat
        }
    }
}

/// Number of resources in `rs` that are not assessed.
pub open spec fn not_assessed_count<R>(rs: Seq<CloudResourceWithImpacts<R>>) -> nat
    decreases rs.len(),
{
    if rs.len() == 0 {
        0
    } else {
        not_assessed_count(rs.drop_last()) + if rs.last().is_assessed() {
            0nat
        } else {
            1nat
        }
    }
}

/// Sum of metric `m` over the assessed resources of `rs`.
pub open spec fn metric_total<R>(rs: Seq<CloudResourceWithImpacts<R>>, m: Metric) -> int
    decreases rs.len(),
{
    if rs.len() == 0 {
        0
    } else {
        metric_total(rs.drop_last(), m) + rs.last().contribution(m)
    }
}

} // verus!
