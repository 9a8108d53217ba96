use jobagg::fetch::FetchProgress;
use jobagg::records::JobAd;
use jobagg::search::{enumerate_partitions, SearchDuration, SearchMode, PAGE_SIZE};
use jobagg::timefmt::request_bounds;

fn item(n: usize) -> JobAd {
    JobAd {
        id: Some(format!("id-{}", n)),
        title: Some("Data Engineer".to_string()),
        occupation: None,
        workplace: None,
        workplace_name: None,
        published_date: Some("2024-05-05T10:11:12.000Z".to_string()),
        last_application_date: None,
        source: None,
        url: None,
        source_links: None,
        created_at: None,
    }
}

fn page(size: usize) -> Vec<JobAd> {
    (0..size).map(item).collect()
}

#[test]
fn pagination_stops_on_empty_page() {
    let partitions = enumerate_partitions(&SearchMode::Abroad);
    let partition = &partitions[0];
    let (from, to) = request_bounds(&SearchDuration::Weekly);
    let pages: Vec<Vec<JobAd>> = vec![page(100), page(100), page(37), page(0)];
    let mut progress = FetchProgress::new();
    let mut issued: usize = 0;
    let mut offsets: Vec<usize> = Vec::new();
    while let Some(req) = progress.next_request(partition, &from, &to) {
        offsets.push(req.start_index);
        let answer = &pages[issued];
        issued += 1;
        progress.absorb_page(answer, partition.source);
    }
    assert_eq!(issued, 4);
    assert_eq!(progress.requests, 4);
    assert_eq!(progress.records.len(), 237);
    assert_eq!(offsets, vec![0, 100, 200, 300]);
}

#[test]
fn short_page_is_not_a_stop_signal() {
    let partitions = enumerate_partitions(&SearchMode::Abroad);
    let partition = &partitions[0];
    let (from, to) = request_bounds(&SearchDuration::Max);
    let mut progress = FetchProgress::new();
    assert!(progress.next_request(partition, &from, &to).is_some());
    progress.absorb_page(&page(37), partition.source);
    assert!(progress.next_request(partition, &from, &to).is_some());
}

#[test]
fn ceiling_stops_full_pages() {
    let partitions = enumerate_partitions(&SearchMode::UnspecifiedWorkplace);
    let partition = &partitions[0];
    let (from, to) = request_bounds(&SearchDuration::Daily);
    let mut progress = FetchProgress::new();
    let mut issued: usize = 0;
    while let Some(_req) = progress.next_request(partition, &from, &to) {
        issued += 1;
        progress.absorb_page(&page(PAGE_SIZE), partition.source);
    }
    assert_eq!(issued, 20);
    assert_eq!(progress.records.len(), 2000);
    assert!(progress.next_request(partition, &from, &to).is_none());
}

#[test]
fn empty_first_page_collects_nothing() {
    let partitions = enumerate_partitions(&SearchMode::Abroad);
    let partition = &partitions[0];
    let (from, to) = request_bounds(&SearchDuration::Max);
    let mut progress = FetchProgress::new();
    let mut issued: usize = 0;
    while let Some(_req) = progress.next_request(partition, &from, &to) {
        issued += 1;
        progress.absorb_page(&Vec::new(), partition.source);
    }
    assert_eq!(issued, 1);
    assert!(progress.records.is_empty());
}

#[test]
fn requests_carry_partition_and_bounds() {
    let partitions = enumerate_partitions(&SearchMode::ByTitle { title: "Data".to_string() });
    let partition = &partitions[1];
    let (from, to) = request_bounds(&SearchDuration::Max);
    let progress = FetchProgress::new();
    let req = progress.next_request(partition, &from, &to).unwrap();
    assert_eq!(req.filters, partition.filters);
    assert_eq!(req.source, partition.source);
    assert_eq!(req.from_date, from);
    assert_eq!(req.to_date, to);
    assert_eq!(req.page_size, PAGE_SIZE);
    assert_eq!(req.start_index, 0);
}

#[test]
fn absorbed_items_are_normalized() {
    let partitions = enumerate_partitions(&SearchMode::Abroad);
    let partition = &partitions[0];
    let mut progress = FetchProgress::new();
    progress.absorb_page(&page(2), partition.source);
    let rec = &progress.records[0];
    assert_eq!(rec.id.as_deref(), Some("id-0"));
    assert_eq!(rec.published_date.as_deref(), Some("2024-05-05"));
    assert_eq!(rec.source.as_deref(), Some("Platsbanken"));
    assert!(rec.created_at.is_some());
    assert_eq!(
        rec.url.as_deref(),
        Some("https://arbetsformedlingen.se/platsbanken/annonser/id-0")
    );
}
