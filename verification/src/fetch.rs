use vstd::prelude::*;
use crate::normalize::{normalize_ad, normalized_from};
use crate::records::{DbJobAd, JobAd};
use crate::search::{build_request, Partition, SearchRequest, Source, MAX_RECORDS, PAGE_SIZE};
use crate::timefmt::now_timestamp;

verus! {

/// The advancing state of one partition's paginated fetch: how far the
/// offset cursor has moved, how many requests were answered, whether the
/// fetch is finished, and the records normalized so far.
pub struct FetchProgress {
    pub offset: usize,
    pub requests: usize,
    pub done: bool,
    pub records: Vec<DbJobAd>,
}

/// Every item of one answered page stands normalized, in order, at the end
/// of the record list, all with the same ingestion timestamp.
pub open spec fn page_normalized(
    recs: Seq<DbJobAd>,
    base: int,
    items: Seq<JobAd>,
    source: Source,
    ts: Seq<char>,
) -> bool {
    forall|j: int|
        0 <= j < items.len() ==> normalized_from(#[trigger] recs[base + j], items[j], source, ts)
}

impl FetchProgress {
    /// Holds between requests: the offset counts exactly one page per
    /// answered request, it never passes the ceiling, and an unfinished
    /// fetch still stands strictly below the ceiling.
    pub open spec fn inv(self) -> bool {
        &&& self.offset <= MAX_RECORDS
        &&& self.requests * PAGE_SIZE == self.offset
        &&& (!self.done ==> self.offset < MAX_RECORDS)
    }

    /// A fresh fetch: nothing asked, nothing collected.
    pub fn new() -> (p: FetchProgress)
        ensures
            p.inv(),
            p.offset == 0,
            p.requests == 0,
            !p.done,
            p.records@ == Seq::<DbJobAd>::empty(),
    {
        FetchProgress { offset: 0, requests: 0, done: false, records: Vec::new() }
    }

    /// The next page request of this fetch, `None` once the fetch is
    /// finished: it carries the partition's filters and source, the given
    /// publish-date bounds, the fixed page size, and the current offset.
    pub fn next_request(
        &self,
        partition: &Partition,
        from_date: &Option<String>,
        to_date: &String,
    ) -> (r: Option<SearchRequest>)
        ensures
            (r is Some) <==> !self.done,
            r matches Some(req) ==> {
                &&& req.filters@ == partition.filters@
                &&& req.source == partition.source
                &&& req.from_date == *from_date
                &&& req.to_date == *to_date
                &&& req.page_size == PAGE_SIZE
                &&& req.start_index == self.offset
            },
    {
        if self.done {
            None
        } else {
            Some(build_request(partition, from_date, to_date, self.offset))
        }
    }

    /// Takes one answered page: every item is normalized and appended with
    /// one shared ingestion timestamp, the offset advances by one page, and
    /// the fetch is finished exactly when the page was empty or the advanced
    /// offset has reached the ceiling.  The empty page is the authoritative
    /// stop signal: a short but non-empty page does not stop the fetch.
    pub fn absorb_page(&mut self, items: &Vec<JobAd>, source: Source)
        requires
            old(self).inv(),
            !old(self).done,
        ensures
            final(self).inv(),
            final(self).requests == old(self).requests + 1,
            final(self).offset == old(self).offset + PAGE_SIZE,
            final(self).done == (items@.len() == 0 || old(self).offset + PAGE_SIZE
                >= MAX_RECORDS),
            final(self).records@.len() == old(self).records@.len() + items@.len(),
            forall|k: int|
                0 <= k < old(self).records@.len() ==> final(self).records@[k] == old(
                    self,
                ).records@[k],
            exists|ts: Seq<char>|
                #[trigger] page_normalized(
                    final(self).records@,
                    old(self).records@.len() as int,
                    items@,
                    source,
                    ts,
                ),
    {
        let created_at = now_timestamp();
        let ghost pre = *self;
        let mut j: usize = 0;
        while j < items.len()
            invariant
                j <= items@.len(),
                self.offset == pre.offset,
                self.requests == pre.requests,
                self.done == pre.done,
                self.records@.len() == pre.records@.len() + j,
                forall|k: int|
                    0 <= k < pre.records@.len() ==> self.records@[k] == pre.records@[k],
                forall|k: int|
                    0 <= k < j ==> normalized_from(
                        #[trigger] self.records@[pre.records@.len() + k],
                        items@[k],
                        source,
                        created_at@,
                    ),
            decreases items@.len() - j,
        {
            let rec = normalize_ad(&items[j], source, &created_at);
            self.records.push(rec);
            j = j + 1;
        }
        proof {
            assert(self.requests * PAGE_SIZE == self.offset);
            assert(self.offset < MAX_RECORDS);
            assert(self.requests * PAGE_SIZE < MAX_RECORDS);
        }
        self.requests = self.requests + 1;
        self.offset = self.offset + PAGE_SIZE;
        if items.len() == 0 || self.offset >= MAX_RECORDS {
            self.done = true;
        }
        proof {
            assert(page_normalized(
                self.records@,
                pre.records@.len() as int,
                items@,
                source,
                created_at@,
            ));
        }
    }
}

/// Pagination termination, the ceiling half: the invariant alone bounds the
/// number of answered requests by the ceiling divided by the page size, so a
/// fetch can never issue more pages than that, however the remote answers.
pub proof fn lemma_requests_bounded(p: FetchProgress)
    requires
        p.inv(),
    ensures
        p.requests <= MAX_RECORDS / PAGE_SIZE,
{
}

/// Ceiling enforcement: a fetch that has been answered a full
/// `MAX_RECORDS / PAGE_SIZE` pages is finished, even though no page was
/// empty, so no further request is issued.
pub proof fn lemma_ceiling_enforcement(p: FetchProgress)
    requires
        p.inv(),
        p.requests >= MAX_RECORDS / PAGE_SIZE,
    ensures
        p.done,
{
}

} // verus!
