use vstd::prelude::*;

verus! {

/// One raw item as the remote search endpoint returns it, before
/// normalization.  Optional fields may be absent in a response.
#[derive(Debug, Clone, PartialEq)]
pub struct JobAd {
    pub id: Option<String>,
    pub title: Option<String>,
    pub occupation: Option<String>,
    pub workplace: Option<String>,
    pub workplace_name: Option<String>,
    pub published_date: Option<String>,
    pub last_application_date: Option<String>,
    pub source: Option<String>,
    pub url: Option<String>,
    pub source_links: Option<Vec<SourceLinks>>,
    pub created_at: Option<String>,
}

/// An outbound link attached to an item of the external aggregator.
#[derive(Debug, Clone, PartialEq)]
pub struct SourceLinks {
    pub label: String,
    pub url: String,
}

/// One page of the remote search endpoint's answer.
#[derive(Debug)]
pub struct JobResponse {
    pub ads: Vec<JobAd>,
    pub number_of_ads: i64,
}

/// The canonical job record, as stored and queried.
#[derive(Debug, Clone, PartialEq)]
pub struct DbJobAd {
    pub id: Option<String>,
    pub title: Option<String>,
    pub occupation: Option<String>,
    pub workplace: Option<String>,
    pub workplace_name: Option<String>,
    pub published_date: Option<String>,
    pub last_application_date: Option<String>,
    pub source: Option<String>,
    pub url: Option<String>,
    pub created_at: Option<String>,
}

/// A page of canonical records.
#[derive(Debug)]
pub struct DbJobResponse {
    pub ads: Vec<DbJobAd>,
}

/// Copies an optional string; the copy equals the original.
pub fn clone_opt_string(o: &Option<String>) -> (r: Option<String>)
    ensures
        r == *o,
{
    match o {
        Some(s) => Some(s.clone()),
        None => None,
    }
}

/// The detail-page link carried by an external item: the first of its
/// outbound links, absent if it has none.
pub open spec fn first_link_url(links: Option<Vec<SourceLinks>>) -> Option<String> {
    match links {
        Some(ls) => if ls@.len() > 0 {
            Some(ls@[0].url)
        } else {
            None
        },
        None => None,
    }
}

/// The record that a raw item maps to when no partition context is applied:
/// fields carried over, the link taken from the item's outbound links.
pub open spec fn to_db_spec(j: JobAd) -> DbJobAd {
    DbJobAd {
        id: j.id,
        title: j.title,
        occupation: j.occupation,
        workplace: j.workplace,
        workplace_name: j.workplace_name,
        published_date: j.published_date,
        last_application_date: j.last_application_date,
        source: j.source,
        url: first_link_url(j.source_links),
        created_at: j.created_at,
    }
}

/// Builds the canonical record for a raw item without consuming it.
pub fn to_db_record(ad: &JobAd) -> (r: DbJobAd)
    ensures
        r == to_db_spec(*ad),
{
    let url = match &ad.source_links {
        Some(links) => if links.len() > 0 {
            Some(links[0].url.clone())
        } else {
            None
        },
        None => None,
    };
    DbJobAd {
        id: clone_opt_string(&ad.id),
        title: clone_opt_string(&ad.title),
        occupation: clone_opt_string(&ad.occupation),
        workplace: clone_opt_string(&ad.workplace),
        workplace_name: clone_opt_string(&ad.workplace_name),
        published_date: clone_opt_string(&ad.published_date),
        last_application_date: clone_opt_string(&ad.last_application_date),
        source: clone_opt_string(&ad.source),
        url,
        created_at: clone_opt_string(&ad.created_at),
    }
}

impl DbJobAd {
    /// Copies the record; the copy equals the original.
    pub fn duplicate(&self) -> (r: DbJobAd)
        ensures
            r == *self,
    {
        DbJobAd {
            id: clone_opt_string(&self.id),
            title: clone_opt_string(&self.title),
            occupation: clone_opt_string(&self.occupation),
            workplace: clone_opt_string(&self.workplace),
            workplace_name: clone_opt_string(&self.workplace_name),
            published_date: clone_opt_string(&self.published_date),
            last_application_date: clone_opt_string(&self.last_application_date),
            source: clone_opt_string(&self.source),
            url: clone_opt_string(&self.url),
            created_at: clone_opt_string(&self.created_at),
        }
    }
}

impl From<JobAd> for DbJobAd {
    fn from(job_ad: JobAd) -> (r: DbJobAd) {
        to_db_record(&job_ad)
    }
}

impl vstd::std_specs::convert::FromSpecImpl<JobAd> for DbJobAd {
    open spec fn obeys_from_spec() -> bool {
        true
    }

    open spec fn from_spec(v: JobAd) -> DbJobAd {
        to_db_spec(v)
    }
}

impl DbJobResponse {
    /// Converts a whole page, one canonical record per raw item, order kept.
    pub fn from_response(job_response: &JobResponse) -> (r: DbJobResponse)
        ensures
            r.ads@ == job_response.ads@.map_values(|a: JobAd| to_db_spec(a)),
    {
        let mut ads: Vec<DbJobAd> = Vec::new();
        let mut i: usize = 0;
        while i < job_response.ads.len()
            invariant
                i <= job_response.ads@.len(),
                ads@.len() == i,
                forall|k: int| 0 <= k < i ==> ads@[k] == to_db_spec(job_response.ads@[k]),
            decreases job_response.ads@.len() - i,
        {
            ads.push(to_db_record(&job_response.ads[i]));
            i = i + 1;
        }
        let r = DbJobResponse { ads };
        proof {
            assert(r.ads@ =~= job_response.ads@.map_values(|a: JobAd| to_db_spec(a)));
        }
        r
    }
}

} // verus!
