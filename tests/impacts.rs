use cloud_scanner::impact_provider::{
    check_usage_duration, estimate_inventory, ImpactProvider, ProviderError,
};
use cloud_scanner::model::{
    CloudResourceWithImpacts, EstimatedInventory, ImpactsValues, Inventory, FIXED_POINT_ONE,
};
use cloud_scanner::summary::ImpactsSummary;

fn values(a: u64, b: u64, c: u64, d: u64, e: u64, f: u64) -> ImpactsValues {
    ImpactsValues {
        adp_manufacture_kgsbeq: a,
        adp_use_kgsbeq: b,
        pe_manufacture_megajoules: c,
        pe_use_megajoules: d,
        gwp_manufacture_kgco2eq: e,
        gwp_use_kgco2eq: f,
        raw_data: None,
    }
}

fn resource(name: &str, impacts: Option<ImpactsValues>) -> CloudResourceWithImpacts<String> {
    CloudResourceWithImpacts {
        cloud_resource: name.to_string(),
        impacts_values: impacts,
        impacts_duration_hours: 24 * FIXED_POINT_ONE as i64,
    }
}

fn summarize(resources: Vec<CloudResourceWithImpacts<String>>) -> ImpactsSummary {
    ImpactsSummary::new(
        "eu-west-1".to_string(),
        "FRA".to_string(),
        EstimatedInventory { impacting_resources: resources },
        24 * FIXED_POINT_ONE as i64,
    )
}

fn metrics(s: &ImpactsSummary) -> [u128; 6] {
    [
        s.adp_manufacture_kgsbeq,
        s.adp_use_kgsbeq,
        s.pe_manufacture_megajoules,
        s.pe_use_megajoules,
        s.gwp_manufacture_kgco2eq,
        s.gwp_use_kgco2eq,
    ]
}

fn counts(s: &ImpactsSummary) -> [usize; 3] {
    [
        s.number_of_resources_total,
        s.number_of_resources_assessed,
        s.number_of_resources_not_assessed,
    ]
}

#[test]
fn summary_of_three_resources() {
    let one = FIXED_POINT_ONE;
    let s = summarize(vec![
        resource("r1", Some(values(one, 2 * one, 3 * one, 4 * one, 5 * one, 6 * one))),
        resource("r2", Some(values(0, 0, 0, 0, 0, 0))),
        resource("r3", None),
    ]);
    assert_eq!(s.number_of_resources_total, 3);
    assert_eq!(s.number_of_resources_assessed, 2);
    assert_eq!(s.number_of_resources_not_assessed, 1);
    let one = one as u128;
    assert_eq!(s.adp_manufacture_kgsbeq, one);
    assert_eq!(s.adp_use_kgsbeq, 2 * one);
    assert_eq!(s.pe_manufacture_megajoules, 3 * one);
    assert_eq!(s.pe_use_megajoules, 4 * one);
    assert_eq!(s.gwp_manufacture_kgco2eq, 5 * one);
    assert_eq!(s.gwp_use_kgco2eq, 6 * one);
    assert_eq!(s.duration_of_use_hours, 24 * FIXED_POINT_ONE as i64);
    assert_eq!(s.aws_region, "eu-west-1");
    assert_eq!(s.country, "FRA");
}

#[test]
fn summary_of_empty_inventory() {
    let s = summarize(vec![]);
    assert_eq!(counts(&s), [0, 0, 0]);
    assert_eq!(metrics(&s), [0; 6]);
    assert_eq!(s.duration_of_use_hours, 24 * FIXED_POINT_ONE as i64);
}

#[test]
fn counts_add_up() {
    let s = summarize(vec![
        resource("a", None),
        resource("b", Some(values(1, 1, 1, 1, 1, 1))),
        resource("c", None),
        resource("d", None),
    ]);
    assert_eq!(counts(&s), [4, 1, 3]);
    assert_eq!(
        s.number_of_resources_total,
        s.number_of_resources_assessed + s.number_of_resources_not_assessed
    );
}

#[test]
fn summary_of_concatenation_is_sum() {
    let a = vec![
        resource("a1", Some(values(1, 2, 3, 4, 5, 6))),
        resource("a2", None),
    ];
    let b = vec![
        resource("b1", Some(values(10, 20, 30, 40, 50, 60))),
        resource("b2", Some(values(7, 0, 7, 0, 7, 0))),
    ];
    let mut ab = a.clone();
    ab.extend(b.clone());
    let (sa, sb, sab) = (summarize(a), summarize(b), summarize(ab));
    let (ma, mb, mab) = (metrics(&sa), metrics(&sb), metrics(&sab));
    for k in 0..6 {
        assert_eq!(mab[k], ma[k] + mb[k]);
    }
    assert_eq!(mab, [18, 22, 40, 44, 62, 66]);
    let (ca, cb, cab) = (counts(&sa), counts(&sb), counts(&sab));
    for k in 0..3 {
        assert_eq!(cab[k], ca[k] + cb[k]);
    }
}

#[test]
fn summary_ignores_order() {
    let forward = vec![
        resource("x", Some(values(1, 2, 3, 4, 5, 6))),
        resource("y", None),
        resource("z", Some(values(6, 5, 4, 3, 2, 1))),
    ];
    let mut backward = forward.clone();
    backward.reverse();
    let (f, b) = (summarize(forward), summarize(backward));
    assert_eq!(metrics(&f), metrics(&b));
    assert_eq!(counts(&f), counts(&b));
    assert_eq!(metrics(&f), [7; 6]);
}

#[test]
fn unassessed_resource_adds_nothing() {
    let base = vec![resource("a", Some(values(3, 3, 3, 3, 3, 3)))];
    let mut with_skip = base.clone();
    with_skip.insert(0, resource("skipped", None));
    let (s0, s1) = (summarize(base), summarize(with_skip));
    assert_eq!(metrics(&s0), metrics(&s1));
    assert_eq!(s1.number_of_resources_assessed, s0.number_of_resources_assessed);
    assert_eq!(s1.number_of_resources_not_assessed, s0.number_of_resources_not_assessed + 1);
    assert_eq!(s1.number_of_resources_total, s0.number_of_resources_total + 1);
}

#[test]
fn largest_figures_do_not_overflow() {
    let max = u64::MAX;
    let s = summarize(vec![
        resource("a", Some(values(max, max, max, max, max, max))),
        resource("b", Some(values(max, max, max, max, max, max))),
        resource("c", Some(values(max, 0, max, 0, max, 0))),
    ]);
    let m = max as u128;
    assert_eq!(metrics(&s), [3 * m, 2 * m, 3 * m, 2 * m, 3 * m, 2 * m]);
}

#[test]
fn non_positive_duration_is_rejected() {
    assert!(matches!(
        check_usage_duration(0),
        Err(ProviderError::InvalidDuration { usage_duration_hours: 0 })
    ));
    assert!(matches!(
        check_usage_duration(-5),
        Err(ProviderError::InvalidDuration { usage_duration_hours: -5 })
    ));
    assert!(check_usage_duration(1).is_ok());
}

#[test]
fn estimate_rejects_non_positive_duration() {
    let inventory = Inventory { resources: vec!["a".to_string()] };
    let r = estimate_inventory(inventory, vec![None], -3, false);
    assert!(matches!(r, Err(ProviderError::InvalidDuration { usage_duration_hours: -3 })));
}

#[test]
fn estimate_rejects_unmatched_impacts() {
    let inventory = Inventory { resources: vec!["a".to_string(), "b".to_string()] };
    let r = estimate_inventory(inventory, vec![None], 10, false);
    assert!(matches!(r, Err(ProviderError::UnmatchedImpacts { resources: 2, impacts: 1 })));
}

#[test]
fn estimate_pairs_resources_in_order() {
    let inventory = Inventory {
        resources: vec!["a".to_string(), "b".to_string(), "c".to_string()],
    };
    let impacts = vec![Some(values(1, 0, 0, 0, 0, 0)), None, Some(values(3, 0, 0, 0, 0, 0))];
    let e = estimate_inventory(inventory, impacts, 48, true).unwrap();
    let names: Vec<&str> = e.impacting_resources.iter().map(|r| r.cloud_resource.as_str()).collect();
    assert_eq!(names, ["a", "b", "c"]);
    assert!(e.impacting_resources.iter().all(|r| r.impacts_duration_hours == 48));
    assert_eq!(e.impacting_resources[0].impacts_values.as_ref().unwrap().adp_manufacture_kgsbeq, 1);
    assert!(e.impacting_resources[1].impacts_values.is_none());
    assert_eq!(e.impacting_resources[2].impacts_values.as_ref().unwrap().adp_manufacture_kgsbeq, 3);
}

#[test]
fn estimate_keeps_raw_data_only_when_verbose() {
    let mut v = values(1, 1, 1, 1, 1, 1);
    v.raw_data = Some(serde_json::Value::String("backend answer".to_string()));
    let inventory = || Inventory { resources: vec!["a".to_string()] };
    let quiet = estimate_inventory(inventory(), vec![Some(v.clone())], 1, false).unwrap();
    let loud = estimate_inventory(inventory(), vec![Some(v)], 1, true).unwrap();
    let quiet_values = quiet.impacting_resources[0].impacts_values.as_ref().unwrap();
    let loud_values = loud.impacting_resources[0].impacts_values.as_ref().unwrap();
    assert!(quiet_values.raw_data.is_none());
    assert_eq!(quiet_values.gwp_use_kgco2eq, 1);
    assert_eq!(
        loud_values.raw_data,
        Some(serde_json::Value::String("backend answer".to_string()))
    );
}

/// A backend that knows the impacts of resources by name.
struct TableProvider {
    table: Vec<(String, ImpactsValues)>,
}

impl ImpactProvider<String> for TableProvider {
    fn get_impacts(
        &self,
        inventory: Inventory<String>,
        usage_duration_hours: i64,
        verbose: bool,
    ) -> Result<EstimatedInventory<String>, ProviderError> {
        check_usage_duration(usage_duration_hours)?;
        let impacts = inventory
            .resources
            .iter()
            .map(|name| self.table.iter().find(|(n, _)| n == name).map(|(_, v)| v.clone()))
            .collect();
        estimate_inventory(inventory, impacts, usage_duration_hours, verbose)
    }
}

#[test]
fn provider_then_summary() {
    let provider = TableProvider {
        table: vec![("vm".to_string(), values(2, 2, 2, 2, 2, 2))],
    };
    let inventory = Inventory { resources: vec!["vm".to_string(), "bucket".to_string()] };
    assert!(matches!(
        provider.get_impacts(inventory.clone(), 0, false),
        Err(ProviderError::InvalidDuration { .. })
    ));
    let estimated = provider.get_impacts(inventory, 5, false).unwrap();
    let s = ImpactsSummary::new("eu-west-3".to_string(), "FRA".to_string(), estimated, 5);
    assert_eq!(counts(&s), [2, 1, 1]);
    assert_eq!(metrics(&s), [2; 6]);
}
