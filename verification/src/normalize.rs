use vstd::prelude::*;
use vstd::string::StringExecFns;
use crate::records::{clone_opt_string, DbJobAd, JobAd};
use crate::search::{url_job_ads, url_job_ads_spec, Source};
use crate::timefmt::{parse_timestamp_day, parsed_day_of};

verus! {

/// The sentinel recorded for a date that fails to parse.
pub open spec fn invalid_date_spec() -> Seq<char> {
    "Invalid date"@
}

/// The day string kept for a parse outcome: the parsed day when there is
/// one, the sentinel otherwise.
pub open spec fn date_or_sentinel(p: Option<Seq<char>>) -> Seq<char> {
    match p {
        Some(d) => d,
        None => invalid_date_spec(),
    }
}

/// What an optional source timestamp normalizes to: absent stays absent, a
/// present timestamp becomes its parsed day or the sentinel.
pub open spec fn normalized_date(d: Option<Seq<char>>) -> Option<Seq<char>> {
    match d {
        Some(s) => Some(date_or_sentinel(parsed_day_of(s))),
        None => None,
    }
}

/// Resolves a parse outcome to the day string that is recorded: a failed
/// parse is never fatal, it yields the sentinel instead.
pub fn date_or_fallback(parsed: Option<String>) -> (r: String)
    ensures
        r@ == date_or_sentinel(parsed.deep_view()),
{
    match parsed {
        Some(d) => d,
        None => "Invalid date".to_owned(),
    }
}

/// Normalizes one optional source timestamp to an optional day string.
pub fn normalize_date(d: &Option<String>) -> (r: Option<String>)
    ensures
        r.deep_view() == normalized_date(d.deep_view()),
{
    match d {
        Some(s) => Some(date_or_fallback(parse_timestamp_day(s.as_str()))),
        None => None,
    }
}

/// The detail-page link of a normalized item.  For the primary board it is
/// the fixed base path joined with the item's identifier, absent when the
/// identifier is; for the external aggregator it is the first outbound link,
/// absent when there is none.
pub open spec fn derived_url(ad: JobAd, source: Source) -> Option<Seq<char>> {
    match source {
        Source::Primary => match ad.id {
            Some(id) => Some(url_job_ads_spec() + id@),
            None => None,
        },
        Source::External => match ad.source_links {
            Some(links) => if links@.len() > 0 {
                Some(links@[0].url@)
            } else {
                None
            },
            None => None,
        },
    }
}

/// What the canonical record built from a raw item holds, given the
/// partition's source and the ingestion timestamp: identifying fields are
/// carried over, the two dates are normalized, the origin label and the
/// derived link are set, and the ingestion timestamp is recorded once.
pub open spec fn normalized_from(
    rec: DbJobAd,
    ad: JobAd,
    source: Source,
    created_at: Seq<char>,
) -> bool {
    &&& rec.id == ad.id
    &&& rec.title == ad.title
    &&& rec.occupation == ad.occupation
    &&& rec.workplace == ad.workplace
    &&& rec.workplace_name == ad.workplace_name
    &&& rec.published_date.deep_view() == normalized_date(ad.published_date.deep_view())
    &&& rec.last_application_date.deep_view() == normalized_date(
        ad.last_application_date.deep_view(),
    )
    &&& rec.source matches Some(s) && s@ == source.record_label_spec()
    &&& rec.url.deep_view() == derived_url(ad, source)
    &&& rec.created_at matches Some(c) && c@ == created_at
}

/// Builds the canonical record for one raw item.
pub fn normalize_ad(ad: &JobAd, source: Source, created_at: &String) -> (rec: DbJobAd)
    ensures
        normalized_from(rec, *ad, source, created_at@),
{
    let url: Option<String> = match source {
        Source::Primary => match &ad.id {
            Some(id) => Some(String::from_str(url_job_ads()).concat(id.as_str())),
            None => None,
        },
        Source::External => match &ad.source_links {
            Some(links) => if links.len() > 0 {
                Some(links[0].url.clone())
            } else {
                None
            },
            None => None,
        },
    };
    DbJobAd {
        id: clone_opt_string(&ad.id),
        title: clone_opt_string(&ad.title),
        occupation: clone_opt_string(&ad.occupation),
        workplace: clone_opt_string(&ad.workplace),
        workplace_name: clone_opt_string(&ad.workplace_name),
        published_date: normalize_date(&ad.published_date),
        last_application_date: normalize_date(&ad.last_application_date),
        source: Some(source.record_label().to_owned()),
        url,
        created_at: Some(created_at.clone()),
    }
}

} // verus!
