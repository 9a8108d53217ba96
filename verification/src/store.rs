use vstd::prelude::*;
use crate::records::{clone_opt_string, DbJobAd};
use crate::strmatch::{
    dec_str, decimal_string, is_substring_of, lex_le, str_contains, str_lex_le,
};

verus! {

/// The small query vocabulary of the store: match-all, most-recent-since a
/// timestamp, or one field matched against one or more patterns.
#[derive(Debug)]
pub enum SearchQuery {
    Location(Vec<String>),
    Title(Vec<String>),
    Occupation(Vec<String>),
    Company(Vec<String>),
    MostRecent(i32),
    All,
}

/// The record carries the given identifier.
pub open spec fn rec_has_id(r: DbJobAd, k: Seq<char>) -> bool {
    r.id matches Some(s) && s@ == k
}

/// Some stored record carries the given identifier.
pub open spec fn contains_id(s: Seq<DbJobAd>, k: Seq<char>) -> bool {
    exists|i: int| 0 <= i < s.len() && rec_has_id(#[trigger] s[i], k)
}

/// The record's identifier is present, already stored.
pub open spec fn id_present(s: Seq<DbJobAd>, r: DbJobAd) -> bool {
    r.id matches Some(k) && contains_id(s, k@)
}

/// One record passing the upsert: appended when its identifier is absent
/// from the store, and also when it has no identifier (nothing can conflict
/// with it); skipped, leaving the store untouched, when its identifier is
/// already stored.
pub open spec fn upsert_step(s: Seq<DbJobAd>, r: DbJobAd) -> Seq<DbJobAd> {
    match r.id {
        None => s.push(r),
        Some(id) => if contains_id(s, id@) {
            s
        } else {
            s.push(r)
        },
    }
}

/// A whole batch passing the upsert, front to back; a record conflicting
/// with an earlier record of the same batch is skipped too.
pub open spec fn upsert_seq(s: Seq<DbJobAd>, batch: Seq<DbJobAd>) -> Seq<DbJobAd>
    decreases batch.len(),
{
    if batch.len() == 0 {
        s
    } else {
        upsert_seq(upsert_step(s, batch[0]), batch.drop_first())
    }
}

/// A pattern list matches a value when at least one pattern occurs in it.
pub open spec fn some_pattern_matches(v: Seq<char>, pats: Seq<String>) -> bool {
    exists|i: int| 0 <= i < pats.len() && is_substring_of((#[trigger] pats[i])@, v)
}

/// A field matches when it is present and some pattern occurs in it.
pub open spec fn field_matches(f: Option<String>, pats: Seq<String>) -> bool {
    f matches Some(v) && some_pattern_matches(v@, pats)
}

/// Which records a query selects: all of them; those ingested at or after
/// the timestamp, compared on the decimal rendering of the bound; or those
/// whose queried field holds one of the patterns as a case-sensitive
/// substring — OR semantics across the patterns of one field.
pub open spec fn query_matches(rec: DbJobAd, q: SearchQuery) -> bool {
    match q {
        SearchQuery::All => true,
        SearchQuery::MostRecent(ts) => rec.created_at matches Some(c) && lex_le(
            dec_str(ts as int),
            c@,
        ),
        SearchQuery::Location(pats) => field_matches(rec.workplace, pats@),
        SearchQuery::Title(pats) => field_matches(rec.title, pats@),
        SearchQuery::Occupation(pats) => field_matches(rec.occupation, pats@),
        SearchQuery::Company(pats) => field_matches(rec.workplace_name, pats@),
    }
}

/// The stored records a query selects, in store order.
pub open spec fn filtered(s: Seq<DbJobAd>, q: SearchQuery) -> Seq<DbJobAd>
    decreases s.len(),
{
    if s.len() == 0 {
        Seq::empty()
    } else {
        filtered(s.drop_last(), q) + if query_matches(s.last(), q) {
            seq![s.last()]
        } else {
            Seq::empty()
        }
    }
}

fn any_pattern_matches(v: &String, pats: &Vec<String>) -> (r: bool)
    ensures
        r == some_pattern_matches(v@, pats@),
{
    let mut i: usize = 0;
    while i < pats.len()
        invariant
            i <= pats@.len(),
            forall|k: int| 0 <= k < i ==> !is_substring_of((#[trigger] pats@[k])@, v@),
        decreases pats@.len() - i,
    {
        if str_contains(v.as_str(), pats[i].as_str()) {
            return true;
        }
        i = i + 1;
    }
    false
}

fn opt_field_matches(f: &Option<String>, pats: &Vec<String>) -> (r: bool)
    ensures
        r == field_matches(*f, pats@),
{
    match f {
        Some(v) => any_pattern_matches(v, pats),
        None => false,
    }
}

fn record_matches(rec: &DbJobAd, q: &SearchQuery) -> (r: bool)
    ensures
        r == query_matches(*rec, *q),
{
    match q {
        SearchQuery::All => true,
        SearchQuery::MostRecent(ts) => match &rec.created_at {
            Some(c) => {
                let bound = decimal_string(*ts);
                str_lex_le(bound.as_str(), c.as_str())
            },
            None => false,
        },
        SearchQuery::Location(pats) => opt_field_matches(&rec.workplace, pats),
        SearchQuery::Title(pats) => opt_field_matches(&rec.title, pats),
        SearchQuery::Occupation(pats) => opt_field_matches(&rec.occupation, pats),
        SearchQuery::Company(pats) => opt_field_matches(&rec.workplace_name, pats),
    }
}

/// The persistence store: canonical records keyed by listing identifier,
/// written only through the insert-if-absent upsert.
pub struct JobStore {
    jobs: Vec<DbJobAd>,
}

impl View for JobStore {
    type V = Seq<DbJobAd>;

    closed spec fn view(&self) -> Seq<DbJobAd> {
        self.jobs@
    }
}

impl JobStore {
    /// An empty store.
    pub fn new() -> (s: JobStore)
        ensures
            s@ == Seq::<DbJobAd>::empty(),
    {
        JobStore { jobs: Vec::new() }
    }

    /// How many records are stored.
    pub fn len(&self) -> (n: usize)
        ensures
            n == self@.len(),
    {
        self.jobs.len()
    }

    /// A copy of the stored records, in store order.
    pub fn all_records(&self) -> (r: Vec<DbJobAd>)
        ensures
            r@ == self@,
    {
        let mut out: Vec<DbJobAd> = Vec::new();
        let mut i: usize = 0;
        while i < self.jobs.len()
            invariant
                i <= self.jobs@.len(),
                out@.len() == i,
                forall|k: int| 0 <= k < i ==> out@[k] == self.jobs@[k],
            decreases self.jobs@.len() - i,
        {
            out.push(self.jobs[i].duplicate());
            i = i + 1;
        }
        proof {
            assert(out@ =~= self.jobs@);
        }
        out
    }

    fn contains_key(&self, key: &String) -> (r: bool)
        ensures
            r == contains_id(self@, key@),
    {
        let mut i: usize = 0;
        while i < self.jobs.len()
            invariant
                i <= self.jobs@.len(),
                forall|k: int| 0 <= k < i ==> !rec_has_id(#[trigger] self.jobs@[k], key@),
            decreases self.jobs@.len() - i,
        {
            let hit = match &self.jobs[i].id {
                Some(k) => *k == *key,
                None => false,
            };
            if hit {
                proof {
                    assert(rec_has_id(self.jobs@[i as int], key@));
                }
                return true;
            }
            i = i + 1;
        }
        false
    }

    /// Inserts, in one pass, every record of the batch whose identifier is
    /// not yet stored; a record whose identifier is already present is
    /// skipped and the stored record is left untouched.  Returns how many
    /// records were inserted — conflicts are skipped silently, not errors.
    pub fn upsert_batch(&mut self, batch: Vec<DbJobAd>) -> (inserted: usize)
        ensures
            final(self)@ == upsert_seq(old(self)@, batch@),
            old(self)@.len() + inserted == final(self)@.len(),
    {
        let ghost b0 = batch@;
        let ghost s0 = self.jobs@;
        let base = self.jobs.len();
        let mut rest = batch;
        while rest.len() > 0
            invariant
                base == s0.len(),
                rest@.len() <= b0.len(),
                rest@ == b0.skip(b0.len() - rest@.len()),
                self.jobs@ == upsert_seq(s0, b0.take(b0.len() - rest@.len())),
                s0.len() <= self.jobs@.len(),
            decreases rest@.len(),
        {
            let ghost consumed = b0.len() - rest@.len();
            let rec = rest.remove(0);
            proof {
                assert(rec == b0[consumed as int]);
                assert(rest@ =~= b0.skip(consumed as int + 1));
                assert(b0.take(consumed as int + 1) =~= b0.take(consumed as int).push(
                    b0[consumed as int],
                ));
                lemma_upsert_seq_snoc(s0, b0.take(consumed as int), b0[consumed as int]);
            }
            let present = match &rec.id {
                Some(k) => self.contains_key(k),
                None => false,
            };
            if !present {
                self.jobs.push(rec);
            }
        }
        proof {
            assert(b0.take(b0.len() as int) =~= b0);
        }
        self.jobs.len() - base
    }

    /// The records the query selects, in store order; an empty result is
    /// valid, not an error.
    pub fn query(&self, q: &SearchQuery) -> (r: Vec<DbJobAd>)
        ensures
            r@ == filtered(self@, *q),
    {
        let mut out: Vec<DbJobAd> = Vec::new();
        let mut i: usize = 0;
        while i < self.jobs.len()
            invariant
                i <= self.jobs@.len(),
                out@ == filtered(self.jobs@.take(i as int), *q),
            decreases self.jobs@.len() - i,
        {
            if record_matches(&self.jobs[i], q) {
                out.push(self.jobs[i].duplicate());
            }
            proof {
                let ii = i as int;
                assert(self.jobs@.take(ii + 1).drop_last() =~= self.jobs@.take(ii));
                assert(self.jobs@.take(ii + 1).last() == self.jobs@[ii]);
            }
            i = i + 1;
        }
        proof {
            assert(self.jobs@.take(self.jobs@.len() as int) =~= self.jobs@);
        }
        out
    }
}

proof fn lemma_upsert_seq_snoc(s: Seq<DbJobAd>, b: Seq<DbJobAd>, r: DbJobAd)
    ensures
        upsert_seq(s, b.push(r)) == upsert_step(upsert_seq(s, b), r),
    decreases b.len(),
{
    if b.len() == 0 {
        assert(b.push(r)[0] == r);
        assert(b.push(r).drop_first() =~= Seq::<DbJobAd>::empty());
        assert(upsert_seq(s, b.push(r)) == upsert_seq(
            upsert_step(s, r),
            b.push(r).drop_first(),
        ));
        assert(upsert_seq(upsert_step(s, r), Seq::<DbJobAd>::empty()) == upsert_step(s, r));
        assert(upsert_seq(s, b) == s);
    } else {
        assert(b.push(r)[0] == b[0]);
        assert(b.push(r).drop_first() =~= b.drop_first().push(r));
        lemma_upsert_seq_snoc(upsert_step(s, b[0]), b.drop_first(), r);
    }
}

proof fn lemma_upsert_step_monotone(s: Seq<DbJobAd>, r: DbJobAd, k: Seq<char>)
    requires
        contains_id(s, k),
    ensures
        contains_id(upsert_step(s, r), k),
{
    let i = choose|i: int| 0 <= i < s.len() && rec_has_id(#[trigger] s[i], k);
    assert(rec_has_id(upsert_step(s, r)[i], k));
}

proof fn lemma_upsert_seq_monotone(s: Seq<DbJobAd>, b: Seq<DbJobAd>, k: Seq<char>)
    requires
        contains_id(s, k),
    ensures
        contains_id(upsert_seq(s, b), k),
    decreases b.len(),
{
    if b.len() > 0 {
        lemma_upsert_step_monotone(s, b[0], k);
        lemma_upsert_seq_monotone(upsert_step(s, b[0]), b.drop_first(), k);
    }
}

proof fn lemma_upsert_step_adds(s: Seq<DbJobAd>, r: DbJobAd, k: Seq<char>)
    requires
        rec_has_id(r, k),
    ensures
        contains_id(upsert_step(s, r), k),
{
    if !id_present(s, r) {
        assert(upsert_step(s, r) == s.push(r));
        assert(rec_has_id(upsert_step(s, r)[s.len() as int], k));
    }
}

proof fn lemma_upsert_seq_covers(s: Seq<DbJobAd>, b: Seq<DbJobAd>, j: int, k: Seq<char>)
    requires
        0 <= j < b.len(),
        rec_has_id(b[j], k),
    ensures
        contains_id(upsert_seq(s, b), k),
    decreases b.len(),
{
    if j == 0 {
        lemma_upsert_step_adds(s, b[0], k);
        lemma_upsert_seq_monotone(upsert_step(s, b[0]), b.drop_first(), k);
    } else {
        assert(b.drop_first()[j - 1] == b[j]);
        lemma_upsert_seq_covers(upsert_step(s, b[0]), b.drop_first(), j - 1, k);
    }
}

proof fn lemma_upsert_seq_noop(s: Seq<DbJobAd>, b: Seq<DbJobAd>)
    requires
        forall|j: int| 0 <= j < b.len() ==> id_present(s, #[trigger] b[j]),
    ensures
        upsert_seq(s, b) == s,
    decreases b.len(),
{
    if b.len() > 0 {
        assert(id_present(s, b[0]));
        assert(upsert_step(s, b[0]) == s);
        assert forall|j: int| 0 <= j < b.drop_first().len() implies id_present(
            s,
            #[trigger] b.drop_first()[j],
        ) by {
            assert(b.drop_first()[j] == b[j + 1]);
        }
        lemma_upsert_seq_noop(s, b.drop_first());
    }
}

/// The upsert never rewrites what is stored: every record already in the
/// store stands unchanged, in place, after any batch — an insert can only
/// append.
pub proof fn lemma_upsert_preserves_stored(s: Seq<DbJobAd>, b: Seq<DbJobAd>)
    ensures
        s.len() <= upsert_seq(s, b).len(),
        forall|i: int| 0 <= i < s.len() ==> upsert_seq(s, b)[i] == s[i],
    decreases b.len(),
{
    if b.len() > 0 {
        let s1 = upsert_step(s, b[0]);
        assert(s.len() <= s1.len());
        assert(forall|i: int| 0 <= i < s.len() ==> s1[i] == s[i]);
        lemma_upsert_preserves_stored(s1, b.drop_first());
        assert(upsert_seq(s, b) == upsert_seq(s1, b.drop_first()));
    }
}

/// A query answer is sound and complete: everything it returns is a stored
/// record that matches the query, and every stored record that matches the
/// query is returned.
pub proof fn lemma_filtered_characterizes(s: Seq<DbJobAd>, q: SearchQuery)
    ensures
        forall|j: int|
            0 <= j < filtered(s, q).len() ==> query_matches(#[trigger] filtered(s, q)[j], q)
                && s.contains(filtered(s, q)[j]),
        forall|i: int|
            0 <= i < s.len() && query_matches(#[trigger] s[i], q) ==> filtered(s, q).contains(
                s[i],
            ),
    decreases s.len(),
{
    if s.len() > 0 {
        let d = s.drop_last();
        lemma_filtered_characterizes(d, q);
        let f = filtered(s, q);
        let fd = filtered(d, q);
        assert forall|j: int|
            0 <= j < f.len() implies query_matches(#[trigger] f[j], q) && s.contains(f[j]) by {
            if j < fd.len() {
                assert(f[j] == fd[j]);
                let i = choose|i: int| 0 <= i < d.len() && d[i] == fd[j];
                assert(s[i] == fd[j]);
            } else {
                assert(f[j] == s.last());
                assert(s[s.len() - 1] == s.last());
            }
        }
        assert forall|i: int|
            0 <= i < s.len() && query_matches(#[trigger] s[i], q) implies f.contains(s[i]) by {
            if i < s.len() - 1 {
                assert(d[i] == s[i]);
                assert(fd.contains(s[i]));
                let j = choose|j: int| 0 <= j < fd.len() && fd[j] == s[i];
                assert(f[j] == s[i]);
            } else {
                assert(s[i] == s.last());
                assert(f[fd.len() as int] == s.last());
            }
        }
    }
}

/// Idempotent upsert: when every record of a batch carries an identifier,
/// upserting the batch twice leaves exactly the store that one upsert
/// leaves — in particular the second pass inserts nothing, so its insert
/// count is zero.
pub proof fn lemma_upsert_idempotent(s: Seq<DbJobAd>, b: Seq<DbJobAd>)
    requires
        forall|j: int| 0 <= j < b.len() ==> (#[trigger] b[j]).id is Some,
    ensures
        upsert_seq(upsert_seq(s, b), b) == upsert_seq(s, b),
{
    let u = upsert_seq(s, b);
    assert forall|j: int| 0 <= j < b.len() implies id_present(u, #[trigger] b[j]) by {
        match b[j].id {
            Some(key) => {
                lemma_upsert_seq_covers(s, b, j, key@);
            },
            None => {
                assert(false);
            },
        }
    }
    lemma_upsert_seq_noop(u, b);
}

/// No overwrite on conflict: a batch holding one record whose identifier is
/// already stored leaves the store exactly as it was — every stored field
/// of the conflicting record is kept.
pub proof fn lemma_no_overwrite(s: Seq<DbJobAd>, r: DbJobAd, k: Seq<char>)
    requires
        rec_has_id(r, k),
        contains_id(s, k),
    ensures
        upsert_seq(s, seq![r]) == s,
{
    assert(seq![r][0] == r);
    assert(seq![r].drop_first() =~= Seq::<DbJobAd>::empty());
    assert(upsert_step(s, r) == s);
    assert(upsert_seq(s, seq![r]) == upsert_seq(upsert_step(s, r), seq![r].drop_first()));
    assert(upsert_seq(s, Seq::<DbJobAd>::empty()) == s);
}

} // verus!
