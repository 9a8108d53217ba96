use vstd::prelude::*;
use crate::records::clone_opt_string;
use crate::regions::Region;

verus! {

/// Hard ceiling on the start offset of a paginated fetch: a partition is
/// never asked for records past this offset.
pub const MAX_RECORDS: usize = 2000;

/// Number of records requested per page.
pub const PAGE_SIZE: usize = 100;

pub open spec fn url_search_spec() -> Seq<char> {
    "https://platsbanken-api.arbetsformedlingen.se/jobs/v1/search"@
}

/// The search endpoint.
pub fn url_search() -> (u: &'static str)
    ensures
        u@ == url_search_spec(),
{
    "https://platsbanken-api.arbetsformedlingen.se/jobs/v1/search"
}

pub open spec fn url_job_ads_spec() -> Seq<char> {
    "https://arbetsformedlingen.se/platsbanken/annonser/"@
}

/// The base path that a primary-source detail-page link starts with.
pub fn url_job_ads() -> (u: &'static str)
    ensures
        u@ == url_job_ads_spec(),
{
    "https://arbetsformedlingen.se/platsbanken/annonser/"
}

/// The named recency windows a search can be bounded by.
#[derive(Clone, Copy, PartialEq, Eq, Structural, Debug)]
pub enum SearchDuration {
    Daily,
    TwoDays,
    Weekly,
    Monthly,
    Max,
}

impl SearchDuration {
    /// The day count subtracted from the current time to form the lower
    /// publish-date bound; zero stands for no lower bound.
    pub open spec fn days_spec(self) -> int {
        match self {
            SearchDuration::Daily => 1,
            SearchDuration::TwoDays => 2,
            SearchDuration::Weekly => 7,
            SearchDuration::Monthly => 30,
            SearchDuration::Max => 0,
        }
    }

    /// The day count of the window; zero stands for no lower bound.
    pub fn to_days(&self) -> (d: i64)
        ensures
            d == self.days_spec(),
    {
        match self {
            SearchDuration::Daily => 1,
            SearchDuration::TwoDays => 2,
            SearchDuration::Weekly => 7,
            SearchDuration::Monthly => 30,
            SearchDuration::Max => 0,
        }
    }
}

/// The two origins a listing can come from.
#[derive(Clone, Copy, PartialEq, Eq, Structural, Debug)]
pub enum Source {
    Primary,
    External,
}

impl Source {
    /// The label the remote API expects in a request.
    pub open spec fn api_label_spec(self) -> Seq<char> {
        match self {
            Source::Primary => "pb"@,
            Source::External => "joblinks"@,
        }
    }

    /// The label the remote API expects in a request.
    pub fn api_label(&self) -> (l: &'static str)
        ensures
            l@ == self.api_label_spec(),
    {
        match self {
            Source::Primary => "pb",
            Source::External => "joblinks",
        }
    }

    /// The origin label written into a stored record.
    pub open spec fn record_label_spec(self) -> Seq<char> {
        match self {
            Source::Primary => "Platsbanken"@,
            Source::External => "External"@,
        }
    }

    /// The origin label written into a stored record.
    pub fn record_label(&self) -> (l: &'static str)
        ensures
            l@ == self.record_label_spec(),
    {
        match self {
            Source::Primary => "Platsbanken",
            Source::External => "External",
        }
    }
}

/// One filter entry of a search request.
#[derive(Debug, Clone, PartialEq)]
pub enum Filter {
    Region { code: String },
    FreeText { text: String },
    Abroad,
    UnspecifiedWorkplace,
}

/// One independently fetchable slice of the remote listing set.
#[derive(Debug, Clone, PartialEq)]
pub struct Partition {
    pub source: Source,
    pub filters: Vec<Filter>,
}

/// The search modes a fetch job can be configured with.
#[derive(Debug)]
pub enum SearchMode {
    AllRegionsPrimary,
    AllRegionsExternal,
    ByTitle { title: String },
    ByRegion { region: Region },
    ByRegionAndTitle { region: Region, title: String },
    Abroad,
    UnspecifiedWorkplace,
}

/// One request body sent to the search endpoint.
#[derive(Debug, Clone, PartialEq)]
pub struct SearchRequest {
    pub filters: Vec<Filter>,
    pub from_date: Option<String>,
    pub page_size: usize,
    pub start_index: usize,
    pub to_date: String,
    pub source: Source,
}

pub open spec fn single_region(p: Partition, r: Region) -> bool {
    &&& p.filters@.len() == 1
    &&& p.filters@[0] matches Filter::Region { code } && code@ == r.code_spec()
}

pub open spec fn single_freetext(p: Partition, t: Seq<char>) -> bool {
    &&& p.filters@.len() == 1
    &&& p.filters@[0] matches Filter::FreeText { text } && text@ == t
}

pub open spec fn freetext_and_region(p: Partition, t: Seq<char>, r: Region) -> bool {
    &&& p.filters@.len() == 2
    &&& p.filters@[0] matches Filter::FreeText { text } && text@ == t
    &&& p.filters@[1] matches Filter::Region { code } && code@ == r.code_spec()
}

pub open spec fn region_sweep_ok(ps: Seq<Partition>, source: Source) -> bool {
    &&& ps.len() == Region::order_spec().len()
    &&& forall|i: int|
        0 <= i < ps.len() ==> (#[trigger] ps[i]).source == source && single_region(
            ps[i],
            Region::order_spec()[i],
        )
}

pub open spec fn source_pair_ok(ps: Seq<Partition>) -> bool {
    &&& ps.len() == 2
    &&& ps[0].source == Source::Primary
    &&& ps[1].source == Source::External
}

/// What the partition enumeration yields for each search mode.
pub open spec fn partitions_ok(mode: SearchMode, ps: Seq<Partition>) -> bool {
    match mode {
        SearchMode::AllRegionsPrimary => region_sweep_ok(ps, Source::Primary),
        SearchMode::AllRegionsExternal => region_sweep_ok(ps, Source::External),
        SearchMode::ByTitle { title } => {
            &&& source_pair_ok(ps)
            &&& forall|i: int| 0 <= i < ps.len() ==> single_freetext(#[trigger] ps[i], title@)
        },
        SearchMode::ByRegion { region } => {
            &&& source_pair_ok(ps)
            &&& forall|i: int| 0 <= i < ps.len() ==> single_region(#[trigger] ps[i], region)
        },
        SearchMode::ByRegionAndTitle { region, title } => {
            &&& source_pair_ok(ps)
            &&& forall|i: int|
                0 <= i < ps.len() ==> freetext_and_region(#[trigger] ps[i], title@, region)
        },
        SearchMode::Abroad => {
            &&& ps.len() == 1
            &&& ps[0].source == Source::Primary
            &&& ps[0].filters@.len() == 1
            &&& ps[0].filters@[0] is Abroad
        },
        SearchMode::UnspecifiedWorkplace => {
            &&& ps.len() == 1
            &&& ps[0].source == Source::Primary
            &&& ps[0].filters@.len() == 1
            &&& ps[0].filters@[0] is UnspecifiedWorkplace
        },
    }
}

fn region_filters(region: &Region) -> (fs: Vec<Filter>)
    ensures
        fs@.len() == 1,
        fs@[0] matches Filter::Region { code } && code@ == region.code_spec(),
{
    let mut fs: Vec<Filter> = Vec::new();
    fs.push(Filter::Region { code: region.get_value().to_owned() });
    fs
}

fn freetext_filters(title: &String) -> (fs: Vec<Filter>)
    ensures
        fs@.len() == 1,
        fs@[0] matches Filter::FreeText { text } && text@ == title@,
{
    let mut fs: Vec<Filter> = Vec::new();
    fs.push(Filter::FreeText { text: title.clone() });
    fs
}

fn region_sweep(source: Source) -> (ps: Vec<Partition>)
    ensures
        region_sweep_ok(ps@, source),
{
    let regions = Region::all();
    let mut ps: Vec<Partition> = Vec::new();
    let mut i: usize = 0;
    while i < regions.len()
        invariant
            regions@ == Region::order_spec(),
            i <= regions@.len(),
            ps@.len() == i,
            forall|k: int|
                0 <= k < i ==> (#[trigger] ps@[k]).source == source && single_region(
                    ps@[k],
                    Region::order_spec()[k],
                ),
        decreases regions@.len() - i,
    {
        let filters = region_filters(&regions[i]);
        ps.push(Partition { source, filters });
        i = i + 1;
    }
    ps
}

/// The ordered set of partitions a search mode is fetched through: one per
/// region for a whole-board sweep, one per source for a filtered search, a
/// single one for the abroad and unspecified-workplace sweeps.
pub fn enumerate_partitions(mode: &SearchMode) -> (ps: Vec<Partition>)
    ensures
        partitions_ok(*mode, ps@),
{
    match mode {
        SearchMode::AllRegionsPrimary => region_sweep(Source::Primary),
        SearchMode::AllRegionsExternal => region_sweep(Source::External),
        SearchMode::ByTitle { title } => {
            let mut ps: Vec<Partition> = Vec::new();
            ps.push(Partition { source: Source::Primary, filters: freetext_filters(title) });
            ps.push(Partition { source: Source::External, filters: freetext_filters(title) });
            ps
        },
        SearchMode::ByRegion { region } => {
            let mut ps: Vec<Partition> = Vec::new();
            ps.push(Partition { source: Source::Primary, filters: region_filters(region) });
            ps.push(Partition { source: Source::External, filters: region_filters(region) });
            ps
        },
        SearchMode::ByRegionAndTitle { region, title } => {
            let mut ps: Vec<Partition> = Vec::new();
            let mut fs1: Vec<Filter> = Vec::new();
            fs1.push(Filter::FreeText { text: title.clone() });
            fs1.push(Filter::Region { code: region.get_value().to_owned() });
            let mut fs2: Vec<Filter> = Vec::new();
            fs2.push(Filter::FreeText { text: title.clone() });
            fs2.push(Filter::Region { code: region.get_value().to_owned() });
            ps.push(Partition { source: Source::Primary, filters: fs1 });
            ps.push(Partition { source: Source::External, filters: fs2 });
            ps
        },
        SearchMode::Abroad => {
            let mut fs: Vec<Filter> = Vec::new();
            fs.push(Filter::Abroad);
            let mut ps: Vec<Partition> = Vec::new();
            ps.push(Partition { source: Source::Primary, filters: fs });
            ps
        },
        SearchMode::UnspecifiedWorkplace => {
            let mut fs: Vec<Filter> = Vec::new();
            fs.push(Filter::UnspecifiedWorkplace);
            let mut ps: Vec<Partition> = Vec::new();
            ps.push(Partition { source: Source::Primary, filters: fs });
            ps
        },
    }
}

/// Copies a filter list; the copy equals the original entry for entry.
fn clone_filters(fs: &Vec<Filter>) -> (r: Vec<Filter>)
    ensures
        r@ == fs@,
{
    let mut out: Vec<Filter> = Vec::new();
    let mut i: usize = 0;
    while i < fs.len()
        invariant
            i <= fs@.len(),
            out@.len() == i,
            forall|k: int| 0 <= k < i ==> out@[k] == fs@[k],
        decreases fs@.len() - i,
    {
        let f = match &fs[i] {
            Filter::Region { code } => Filter::Region { code: code.clone() },
            Filter::FreeText { text } => Filter::FreeText { text: text.clone() },
            Filter::Abroad => Filter::Abroad,
            Filter::UnspecifiedWorkplace => Filter::UnspecifiedWorkplace,
        };
        out.push(f);
        i = i + 1;
    }
    proof {
        assert(out@ =~= fs@);
    }
    out
}

/// One page request for a partition: its filters, the publish-date bounds,
/// the fixed page size, and the given start offset.
pub fn build_request(
    partition: &Partition,
    from_date: &Option<String>,
    to_date: &String,
    start_index: usize,
) -> (r: SearchRequest)
    ensures
        r.filters@ == partition.filters@,
        r.from_date == *from_date,
        r.page_size == PAGE_SIZE,
        r.start_index == start_index,
        r.to_date == *to_date,
        r.source == partition.source,
{
    SearchRequest {
        filters: clone_filters(&partition.filters),
        from_date: clone_opt_string(from_date),
        page_size: PAGE_SIZE,
        start_index,
        to_date: to_date.clone(),
        source: partition.source,
    }
}

} // verus!
