use jobagg::normalize::normalize_ad;
use jobagg::records::{DbJobAd, DbJobResponse, JobAd, JobResponse, SourceLinks};
use jobagg::search::Source;

fn raw() -> JobAd {
    JobAd {
        id: None,
        title: None,
        occupation: None,
        workplace: None,
        workplace_name: None,
        published_date: None,
        last_application_date: None,
        source: None,
        url: None,
        source_links: None,
        created_at: None,
    }
}

fn norm(ad: &JobAd, source: Source) -> DbJobAd {
    normalize_ad(ad, source, &"2024-06-01T00:00:00.000Z".to_string())
}

fn link(url: &str) -> SourceLinks {
    SourceLinks { label: "ad".to_string(), url: url.to_string() }
}

#[test]
fn primary_url_joins_base_and_id() {
    let mut ad = raw();
    ad.id = Some("abc123".to_string());
    let rec = norm(&ad, Source::Primary);
    assert_eq!(
        rec.url.as_deref(),
        Some("https://arbetsformedlingen.se/platsbanken/annonser/abc123")
    );
}

#[test]
fn primary_url_absent_without_id() {
    let rec = norm(&raw(), Source::Primary);
    assert_eq!(rec.url, None);
}

#[test]
fn external_url_takes_first_link() {
    let mut ad = raw();
    ad.id = Some("abc123".to_string());
    ad.source_links = Some(vec![link("http://x"), link("http://y")]);
    let rec = norm(&ad, Source::External);
    assert_eq!(rec.url.as_deref(), Some("http://x"));
}

#[test]
fn external_url_absent_for_empty_links() {
    let mut ad = raw();
    ad.source_links = Some(Vec::new());
    assert_eq!(norm(&ad, Source::External).url, None);
    assert_eq!(norm(&raw(), Source::External).url, None);
}

#[test]
fn unparsable_date_becomes_sentinel() {
    let mut ad = raw();
    ad.published_date = Some("not-a-date".to_string());
    let rec = norm(&ad, Source::Primary);
    assert_eq!(rec.published_date.as_deref(), Some("Invalid date"));
}

#[test]
fn valid_timestamp_truncates_to_day() {
    let mut ad = raw();
    ad.published_date = Some("2024-05-05T10:11:12.000Z".to_string());
    ad.last_application_date = Some("2024-12-31T23:59:59.999Z".to_string());
    let rec = norm(&ad, Source::Primary);
    assert_eq!(rec.published_date.as_deref(), Some("2024-05-05"));
    assert_eq!(rec.last_application_date.as_deref(), Some("2024-12-31"));
}

#[test]
fn absent_dates_stay_absent() {
    let rec = norm(&raw(), Source::Primary);
    assert_eq!(rec.published_date, None);
    assert_eq!(rec.last_application_date, None);
}

#[test]
fn source_label_and_created_at_are_set() {
    let rec = norm(&raw(), Source::Primary);
    assert_eq!(rec.source.as_deref(), Some("Platsbanken"));
    assert_eq!(rec.created_at.as_deref(), Some("2024-06-01T00:00:00.000Z"));
    let rec = norm(&raw(), Source::External);
    assert_eq!(rec.source.as_deref(), Some("External"));
}

#[test]
fn fields_are_carried_over() {
    let mut ad = raw();
    ad.title = Some("Data Engineer".to_string());
    ad.occupation = Some("IT".to_string());
    ad.workplace = Some("Stockholm".to_string());
    ad.workplace_name = Some("Acme".to_string());
    let rec = norm(&ad, Source::Primary);
    assert_eq!(rec.title.as_deref(), Some("Data Engineer"));
    assert_eq!(rec.occupation.as_deref(), Some("IT"));
    assert_eq!(rec.workplace.as_deref(), Some("Stockholm"));
    assert_eq!(rec.workplace_name.as_deref(), Some("Acme"));
}

#[test]
fn conversion_from_raw_takes_first_link() {
    let mut ad = raw();
    ad.id = Some("1".to_string());
    ad.url = Some("ignored".to_string());
    ad.source_links = Some(vec![link("http://x"), link("http://y")]);
    let rec = DbJobAd::from(ad);
    assert_eq!(rec.id.as_deref(), Some("1"));
    assert_eq!(rec.url.as_deref(), Some("http://x"));
}

#[test]
fn page_conversion_keeps_order() {
    let mut a = raw();
    a.id = Some("a".to_string());
    let mut b = raw();
    b.id = Some("b".to_string());
    let response = JobResponse { ads: vec![a, b], number_of_ads: 2 };
    let converted = DbJobResponse::from_response(&response);
    assert_eq!(converted.ads.len(), 2);
    assert_eq!(converted.ads[0].id.as_deref(), Some("a"));
    assert_eq!(converted.ads[1].id.as_deref(), Some("b"));
}

#[test]
fn duplicate_copies_every_field() {
    let mut ad = raw();
    ad.id = Some("z".to_string());
    ad.title = Some("T".to_string());
    let rec = norm(&ad, Source::Primary);
    assert_eq!(rec.duplicate(), rec);
}
