use jobagg::coordinate::all_jobs_modes;
use jobagg::occupations::OccupationType;
use jobagg::regions::Region;
use jobagg::search::{
    build_request, enumerate_partitions, url_job_ads, url_search, Filter, SearchDuration,
    SearchMode, Source, MAX_RECORDS, PAGE_SIZE,
};
use jobagg::timefmt::request_bounds;

#[test]
fn window_day_counts() {
    assert_eq!(SearchDuration::Daily.to_days(), 1);
    assert_eq!(SearchDuration::TwoDays.to_days(), 2);
    assert_eq!(SearchDuration::Weekly.to_days(), 7);
    assert_eq!(SearchDuration::Monthly.to_days(), 30);
    assert_eq!(SearchDuration::Max.to_days(), 0);
}

#[test]
fn region_codes() {
    assert_eq!(Region::Blekinge.get_value(), "DQZd_uYs_oKb");
    assert_eq!(Region::Stockholm.get_value(), "CifL_Rzy_Mku");
    assert_eq!(Region::Ostergotland.get_value(), "oLT3_Q9p_3nn");
}

#[test]
fn all_regions_in_order() {
    let regions = Region::all();
    assert_eq!(regions.len(), 21);
    assert_eq!(regions[0], Region::Blekinge);
    assert_eq!(regions[20], Region::Ostergotland);
}

#[test]
fn readable_occupation_labels() {
    assert_eq!(OccupationType::DataIT.as_readable_string(), "Data/IT");
    assert_eq!(
        OccupationType::AdministrationEkonomiJuridik.as_readable_string(),
        "Administration Ekonomi Juridik"
    );
    assert_eq!(OccupationType::HalsoSjukvard.as_readable_string(), "Hälso Sjukvård");
    assert_eq!(OccupationType::Transport.as_readable_string(), "Transport");
}

#[test]
fn source_labels() {
    assert_eq!(Source::Primary.api_label(), "pb");
    assert_eq!(Source::External.api_label(), "joblinks");
    assert_eq!(Source::Primary.record_label(), "Platsbanken");
    assert_eq!(Source::External.record_label(), "External");
}

#[test]
fn endpoints_and_limits() {
    assert_eq!(url_search(), "https://platsbanken-api.arbetsformedlingen.se/jobs/v1/search");
    assert_eq!(url_job_ads(), "https://arbetsformedlingen.se/platsbanken/annonser/");
    assert_eq!(MAX_RECORDS, 2000);
    assert_eq!(PAGE_SIZE, 100);
}

#[test]
fn region_sweep_has_one_partition_per_region() {
    let ps = enumerate_partitions(&SearchMode::AllRegionsPrimary);
    assert_eq!(ps.len(), 21);
    for (p, region) in ps.iter().zip(Region::all()) {
        assert_eq!(p.source, Source::Primary);
        assert_eq!(p.filters, vec![Filter::Region { code: region.get_value().to_string() }]);
    }
    let ps = enumerate_partitions(&SearchMode::AllRegionsExternal);
    assert_eq!(ps.len(), 21);
    assert!(ps.iter().all(|p| p.source == Source::External));
}

#[test]
fn title_search_covers_both_sources() {
    let ps = enumerate_partitions(&SearchMode::ByTitle { title: "Data".to_string() });
    assert_eq!(ps.len(), 2);
    assert_eq!(ps[0].source, Source::Primary);
    assert_eq!(ps[1].source, Source::External);
    for p in &ps {
        assert_eq!(p.filters, vec![Filter::FreeText { text: "Data".to_string() }]);
    }
}

#[test]
fn region_search_covers_both_sources() {
    let ps = enumerate_partitions(&SearchMode::ByRegion { region: Region::Skane });
    assert_eq!(ps.len(), 2);
    for p in &ps {
        assert_eq!(
            p.filters,
            vec![Filter::Region { code: Region::Skane.get_value().to_string() }]
        );
    }
}

#[test]
fn combined_search_sends_both_filters() {
    let ps = enumerate_partitions(&SearchMode::ByRegionAndTitle {
        region: Region::Uppsala,
        title: "IT".to_string(),
    });
    assert_eq!(ps.len(), 2);
    for p in &ps {
        assert_eq!(
            p.filters,
            vec![
                Filter::FreeText { text: "IT".to_string() },
                Filter::Region { code: Region::Uppsala.get_value().to_string() },
            ]
        );
    }
}

#[test]
fn flag_sweeps_have_one_primary_partition() {
    let ps = enumerate_partitions(&SearchMode::Abroad);
    assert_eq!(ps.len(), 1);
    assert_eq!(ps[0].source, Source::Primary);
    assert_eq!(ps[0].filters, vec![Filter::Abroad]);
    let ps = enumerate_partitions(&SearchMode::UnspecifiedWorkplace);
    assert_eq!(ps[0].filters, vec![Filter::UnspecifiedWorkplace]);
}

#[test]
fn bounds_honor_the_window() {
    let (from, to) = request_bounds(&SearchDuration::Weekly);
    assert!(from.is_some());
    assert!(!to.is_empty());
    let (from, _to) = request_bounds(&SearchDuration::Max);
    assert!(from.is_none());
}

#[test]
fn request_carries_partition_and_offset() {
    let ps = enumerate_partitions(&SearchMode::Abroad);
    let (from, to) = request_bounds(&SearchDuration::Daily);
    let req = build_request(&ps[0], &from, &to, 300);
    assert_eq!(req.filters, ps[0].filters);
    assert_eq!(req.source, Source::Primary);
    assert_eq!(req.from_date, from);
    assert_eq!(req.to_date, to);
    assert_eq!(req.page_size, 100);
    assert_eq!(req.start_index, 300);
}

#[test]
fn whole_board_run_has_four_jobs() {
    let modes = all_jobs_modes();
    assert_eq!(modes.len(), 4);
    assert!(matches!(modes[0], SearchMode::AllRegionsPrimary));
    assert!(matches!(modes[1], SearchMode::AllRegionsExternal));
    assert!(matches!(modes[2], SearchMode::Abroad));
    assert!(matches!(modes[3], SearchMode::UnspecifiedWorkplace));
}
