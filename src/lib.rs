//! Environmental impact estimation for inventories of cloud resources.
//!
//! The library pairs each resource of an inventory with its impact figures
//! (through a pluggable [`impact_provider::ImpactProvider`]) and folds the
//! resulting estimated inventory into one [`summary::ImpactsSummary`].
//!
//! Impact figures and durations are fixed-point integers: a value `v` stands
//! for `v / model::FIXED_POINT_ONE` units. Sums over integers are exact, so a
//! summary does not depend on the order in which resources are visited.
pub mod model;
pub mod summary;
pub mod impact_provider;
