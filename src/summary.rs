//! Folding an estimated inventory into one impacts summary.
use vstd::prelude::*;
use crate::model::{
    assessed_count, metric_total, not_assessed_count, CloudResourceWithImpacts,
    EstimatedInventory, Metric,
};

verus! {

/// The aggregated impacts and metadata about the scan results.
///
/// Metric totals are sums of per-resource fixed-point figures; the duration
/// is in fixed-point hours.
#[derive(Clone, Debug)]
pub struct ImpactsSummary {
    pub number_of_resources_total: usize,
    pub number_of_resources_assessed: usize,
    pub number_of_resources_not_assessed: usize,
    pub duration_of_use_hours: i64,
    pub adp_manufacture_kgsbeq: u128,
    pub adp_use_kgsbeq: u128,
    pub pe_manufacture_megajoules: u128,
    pub pe_use_megajoules: u128,
    pub gwp_manufacture_kgco2eq: u128,
    pub gwp_use_kgco2eq: u128,
    pub aws_region: String,
    pub country: String,
}

impl ImpactsSummary {
    /// The total of metric `m` held by this summary.
    pub open spec fn total(self, m: Metric) -> int {
        match m {
            Metric::AdpManufacture => self.adp_manufacture_kgsbeq as int,
            Metric::AdpUse => self.adp_use_kgsbeq as int,
            Metric::PeManufacture => self.pe_manufacture_megajoules as int,
            Metric::PeUse => self.pe_use_megajoules as int,
            Metric::GwpManufacture => self.gwp_manufacture_kgco2eq as int,
            Metric::GwpUse => self.gwp_use_kgco2eq as int,
        }
    }

    /// Returns a summary of impacts for a list of cloud resources.
    ///
    /// Assessed resources add their six figures to the totals; the others are
    /// only counted. Region, country and duration are copied from the
    /// arguments.
    pub fn new<R>(
        aws_region: String,
        country: String,
        resources_with_impacts: EstimatedInventory<R>,
        duration_of_use_hours: i64,
    ) -> (summary: Self)
        ensures
            summary.number_of_resources_total
                == resources_with_impacts.impacting_resources@.len(),
            summary.number_of_resources_assessed == assessed_count(
                resources_with_impacts.impacting_resources@,
            ),
            summary.number_of_resources_not_assessed == not_assessed_count(
                resources_with_impacts.impacting_resources@,
            ),
            summary.number_of_resources_total == summary.number_of_resources_assessed
                + summary.number_of_resources_not_assessed,
            forall|m: Metric|
                #[trigger] summary.total(m) == metric_total(
                    resources_with_impacts.impacting_resources@,
                    m,
                ),
            resources_with_impacts.impacting_resources@.len() == 0 ==> {
                &&& summary.number_of_resources_total == 0
                &&& summary.number_of_resources_assessed == 0
                &&& summary.number_of_resources_not_assessed == 0
                &&& forall|m: Metric| #[trigger] summary.total(m) == 0
            },
            summary.duration_of_use_hours == duration_of_use_hours,
            summary.aws_region == aws_region,
            summary.country == country,
    {
        let resources = resources_with_impacts.impacting_resources;
        let n = resources.len();
        let mut summary = ImpactsSummary {
            number_of_resources_total: n,
            number_of_resources_assessed: 0,
            number_of_resources_not_assessed: 0,
            duration_of_use_hours,
            adp_manufacture_kgsbeq: 0,
            adp_use_kgsbeq: 0,
            pe_manufacture_megajoules: 0,
            pe_use_megajoules: 0,
            gwp_manufacture_kgco2eq: 0,
            gwp_use_kgco2eq: 0,
            aws_region,
            country,
        };
        let mut i: usize = 0;
        while i < n
            invariant
                n == resources@.len(),
                i <= n,
                summary.number_of_resources_total == n,
                summary.number_of_resources_assessed == assessed_count(resources@.take(i as int)),
                summary.number_of_resources_not_assessed == not_assessed_count(
                    resources@.take(i as int),
                ),
                summary.number_of_resources_assessed + summary.number_of_resources_not_assessed
                    == i,
                forall|m: Metric|
                    #[trigger] summary.total(m) == metric_total(resources@.take(i as int), m),
                forall|m: Metric|
                    #[trigger] summary.total(m) <= i * (u64::MAX as int),
                summary.duration_of_use_hours == duration_of_use_hours,
                summary.aws_region == aws_region,
                summary.country == country,
            decreases n - i,
        {
            let resource = &resources[i];
            let ghost prev = summary;
            proof {
                assert(resources@.take(i + 1).drop_last() =~= resources@.take(i as int));
            }
            // Only resources with impact data add to the totals.
            if let Some(impacts) = &resource.impacts_values {
                assert(summary.total(Metric::AdpManufacture) <= i * (u64::MAX as int));
                assert(summary.total(Metric::AdpUse) <= i * (u64::MAX as int));
                assert(summary.total(Metric::PeManufacture) <= i * (u64::MAX as int));
                assert(summary.total(Metric::PeUse) <= i * (u64::MAX as int));
                assert(summary.total(Metric::GwpManufacture) <= i * (u64::MAX as int));
                assert(summary.total(Metric::GwpUse) <= i * (u64::MAX as int));
                summary.number_of_resources_assessed += 1;
                summary.adp_manufacture_kgsbeq += impacts.adp_manufacture_kgsbeq as u128;
                summary.adp_use_kgsbeq += impacts.adp_use_kgsbeq as u128;
                summary.pe_manufacture_megajoules += impacts.pe_manufacture_megajoules as u128;
                summary.pe_use_megajoules += impacts.pe_use_megajoules as u128;
                summary.gwp_manufacture_kgco2eq += impacts.gwp_manufacture_kgco2eq as u128;
                summary.gwp_use_kgco2eq += impacts.gwp_use_kgco2eq as u128;
            } else {
                summary.number_of_resources_not_assessed += 1;
            }
            proof {
                let prefix = resources@.take(i + 1);
                assert(prefix.last() == *resource);
                assert forall|m: Metric|
                    #[trigger] summary.total(m) == prev.total(m) + resource.contribution(m)
                    && summary.total(m) <= (i + 1) * (u64::MAX as int) by {
                    lemma_contribution_bound(*resource, m);
                    assert(prev.total(m) <= i * (u64::MAX as int));
                    assert((i + 1) * (u64::MAX as int) == i * (u64::MAX as int) + u64::MAX)
                        by (nonlinear_arith);
                    match m {
                        Metric::AdpManufacture => {},
                        Metric::AdpUse => {},
                        Metric::PeManufacture => {},
                        Metric::PeUse => {},
                        Metric::GwpManufacture => {},
                        Metric::GwpUse => {},
                    }
                }
            }
            i += 1;
        }
        assert(resources@.take(n as int) =~= resources@);
        summary
    }
}

/// Summarizing the concatenation of two inventories gives the sums of
/// summarizing each: counts add up, and so does every metric total.
pub proof fn lemma_summary_of_concatenation<R>(
    a: Seq<CloudResourceWithImpacts<R>>,
    b: Seq<CloudResourceWithImpacts<R>>,
)
    ensures
        (a + b).len() == a.len() + b.len(),
        assessed_count(a + b) == assessed_count(a) + assessed_count(b),
        not_assessed_count(a + b) == not_assessed_count(a) + not_assessed_count(b),
        forall|m: Metric|
            #[trigger] metric_total(a + b, m) == metric_total(a, m) + metric_total(b, m),
    decreases b.len(),
{
    if b.len() == 0 {
        assert(a + b =~= a);
        assert forall|m: Metric|
            #[trigger] metric_total(a + b, m) == metric_total(a, m) + metric_total(b, m) by {
            assert(metric_total(b, m) == 0);
        }
    } else {
        lemma_summary_of_concatenation(a, b.drop_last());
        assert((a + b).drop_last() =~= a + b.drop_last());
        assert((a + b).last() == b.last());
        assert forall|m: Metric|
            #[trigger] metric_total(a + b, m) == metric_total(a, m) + metric_total(b, m) by {
            assert(metric_total(a + b, m) == metric_total(a + b.drop_last(), m) + b.last().contribution(m));
            assert(metric_total(b, m) == metric_total(b.drop_last(), m) + b.last().contribution(m));
        }
    }
}

/// The summary of an inventory does not depend on the order of its
/// resources: two inventories holding the same resources, each as many times,
/// have the same counts and the same metric totals.
pub proof fn lemma_summary_order_independent<R>(
    a: Seq<CloudResourceWithImpacts<R>>,
    b: Seq<CloudResourceWithImpacts<R>>,
)
    requires
        a.to_multiset() =~= b.to_multiset(),
    ensures
        a.len() == b.len(),
        assessed_count(a) == assessed_count(b),
        not_assessed_count(a) == not_assessed_count(b),
        forall|m: Metric| #[trigger] metric_total(a, m) == metric_total(b, m),
    decreases a.len(),
{
    broadcast use vstd::seq_lib::group_to_multiset_ensures;

    if a.len() == 0 {
        assert(b.to_multiset().len() == 0);
        assert(b =~= a);
        assert forall|m: Metric| #[trigger] metric_total(a, m) == metric_total(b, m) by {
            assert(metric_total(a, m) == 0);
            assert(metric_total(b, m) == 0);
        }
    } else {
        let x = a.last();
        let rest = a.drop_last();
        assert(a =~= rest.push(x));
        assert(a.to_multiset().count(x) > 0);
        assert(b.contains(x));
        let i = choose|i: int| 0 <= i < b.len() && b[i] == x;
        let others = b.remove(i);
        assert(others.to_multiset() =~= rest.to_multiset());
        lemma_summary_order_independent(rest, others);
        let front = b.take(i);
        let back = b.skip(i + 1);
        assert(others =~= front + back);
        assert(b =~= (front + seq![x]) + back);
        lemma_summary_of_concatenation(front, back);
        lemma_summary_of_concatenation(front + seq![x], back);
        lemma_summary_of_concatenation(front, seq![x]);
        lemma_summary_of_single(x);
        assert forall|m: Metric| #[trigger] metric_total(a, m) == metric_total(b, m) by {
            assert(metric_total(a, m) == metric_total(rest, m) + x.contribution(m));
            assert(metric_total(rest, m) == metric_total(others, m));
            assert(metric_total(front + seq![x], m) == metric_total(front, m) + metric_total(seq![x], m));
            assert(metric_total(b, m) == metric_total(front + seq![x], m) + metric_total(back, m));
            assert(metric_total(others, m) == metric_total(front, m) + metric_total(back, m));
        }
    }
}

/// A resource without impacts adds nothing to any metric total and is
/// counted only as not assessed, wherever it stands in the inventory.
pub proof fn lemma_unassessed_resource_contributes_nothing<R>(
    a: Seq<CloudResourceWithImpacts<R>>,
    x: CloudResourceWithImpacts<R>,
    b: Seq<CloudResourceWithImpacts<R>>,
)
    requires
        x.impacts_values is None,
    ensures
        assessed_count(a + seq![x] + b) == assessed_count(a + b),
        not_assessed_count(a + seq![x] + b) == not_assessed_count(a + b) + 1,
        forall|m: Metric| #[trigger] metric_total(a + seq![x] + b, m) == metric_total(a + b, m),
{
    lemma_summary_of_concatenation(a, b);
    lemma_summary_of_concatenation(a + seq![x], b);
    lemma_summary_of_concatenation(a, seq![x]);
    lemma_summary_of_single(x);
}

/// Summary of an inventory of one resource.
proof fn lemma_summary_of_single<R>(x: CloudResourceWithImpacts<R>)
    ensures
        assessed_count(seq![x]) == if x.is_assessed() { 1nat } else { 0nat },
        not_assessed_count(seq![x]) == if x.is_assessed() { 0nat } else { 1nat },
        forall|m: Metric| #[trigger] metric_total(seq![x], m) == x.contribution(m),
{
    reveal_with_fuel(assessed_count, 2);
    reveal_with_fuel(not_assessed_count, 2);
    reveal_with_fuel(metric_total, 2);
    assert(seq![x].drop_last() =~= Seq::<CloudResourceWithImpacts<R>>::empty());
    assert(seq![x].last() == x);
}

/// A resource adds at most one `u64` to each total.
proof fn lemma_contribution_bound<R>(r: CloudResourceWithImpacts<R>, m: Metric)
    ensures
        0 <= r.contribution(m) <= u64::MAX,
{
}

} // verus!
