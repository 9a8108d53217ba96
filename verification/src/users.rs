use vstd::prelude::*;
use crate::occupations::OccupationType;
use crate::regions::Region;

verus! {

/// A user's watch set: the occupation categories and the regions they
/// chose.  Either set may be absent; a write that leaves one absent must
/// not disturb what the store already holds for it.
#[derive(Debug, Clone, PartialEq)]
pub struct UserSelections {
    pub selected_occupations: Option<Vec<OccupationType>>,
    pub selected_regions: Option<Vec<Region>>,
}

/// The occupation is among the chosen ones.
pub open spec fn occupation_selected(s: UserSelections, occ: OccupationType) -> bool {
    s.selected_occupations matches Some(v) && v@.contains(occ)
}

fn contains_occ(v: &Vec<OccupationType>, occ: &OccupationType) -> (r: bool)
    ensures
        r == v@.contains(*occ),
{
    let mut i: usize = 0;
    while i < v.len()
        invariant
            i <= v@.len(),
            forall|k: int| 0 <= k < i ==> v@[k] != *occ,
        decreases v@.len() - i,
    {
        if v[i] == *occ {
            proof {
                assert(v@[i as int] == *occ);
            }
            return true;
        }
        i = i + 1;
    }
    false
}

fn without_occ(v: &Vec<OccupationType>, occ: &OccupationType) -> (r: Vec<OccupationType>)
    ensures
        forall|x: OccupationType| r@.contains(x) == (v@.contains(x) && x != *occ),
{
    let mut out: Vec<OccupationType> = Vec::new();
    let mut i: usize = 0;
    while i < v.len()
        invariant
            i <= v@.len(),
            forall|x: OccupationType|
                out@.contains(x) == (v@.take(i as int).contains(x) && x != *occ),
        decreases v@.len() - i,
    {
        let ghost pre = out@;
        let ghost ii = i as int;
        if !(v[i] == *occ) {
            out.push(v[i]);
        }
        proof {
            assert(v@.take(ii + 1) =~= v@.take(ii).push(v@[ii]));
            assert forall|x: OccupationType|
                out@.contains(x) == (v@.take(ii + 1).contains(x) && x != *occ) by {
                lemma_push_contains(pre, v@[ii], x);
                lemma_push_contains(v@.take(ii), v@[ii], x);
                if v@[ii] != *occ && x == v@[ii] {
                    assert(out@[out@.len() - 1] == v@[ii]);
                    assert(out@.contains(x));
                }
            }
        }
        i = i + 1;
    }
    proof {
        assert(v@.take(v@.len() as int) =~= v@);
    }
    out
}

proof fn lemma_push_contains(s: Seq<OccupationType>, e: OccupationType, x: OccupationType)
    ensures
        s.push(e).contains(x) == (s.contains(x) || x == e),
{
    if s.contains(x) {
        let i = choose|i: int| 0 <= i < s.len() && s[i] == x;
        assert(s.push(e)[i] == x);
    }
    if x == e {
        assert(s.push(e)[s.len() as int] == x);
    }
    if s.push(e).contains(x) {
        let i = choose|i: int| 0 <= i < s.push(e).len() && s.push(e)[i] == x;
        if i < s.len() {
            assert(s[i] == x);
        }
    }
}

fn copied_occs(v: &Vec<OccupationType>) -> (r: Vec<OccupationType>)
    ensures
        r@ == v@,
{
    let mut out: Vec<OccupationType> = Vec::new();
    let mut i: usize = 0;
    while i < v.len()
        invariant
            i <= v@.len(),
            out@.len() == i,
            forall|k: int| 0 <= k < i ==> out@[k] == v@[k],
        decreases v@.len() - i,
    {
        out.push(v[i]);
        i = i + 1;
    }
    proof {
        assert(out@ =~= v@);
    }
    out
}

impl UserSelections {
    /// Fresh selections: both sets present and empty.
    pub fn new() -> (s: UserSelections)
        ensures
            s.selected_occupations matches Some(v) && v@ == Seq::<OccupationType>::empty(),
            s.selected_regions matches Some(w) && w@ == Seq::<Region>::empty(),
    {
        UserSelections {
            selected_occupations: Some(Vec::new()),
            selected_regions: Some(Vec::new()),
        }
    }

    /// Flips whether one occupation is watched and touches nothing else;
    /// toggling on an absent set yields the set of that one occupation.
    pub fn toggle(&mut self, occupation: OccupationType)
        ensures
            final(self).selected_regions == old(self).selected_regions,
            final(self).selected_occupations is Some,
            forall|x: OccupationType|
                occupation_selected(*final(self), x) == if x == occupation {
                    !occupation_selected(*old(self), x)
                } else {
                    occupation_selected(*old(self), x)
                },
    {
        let updated: Vec<OccupationType> = match &self.selected_occupations {
            None => {
                let mut v: Vec<OccupationType> = Vec::new();
                v.push(occupation);
                proof {
                    assert forall|x: OccupationType| v@.contains(x) == (x == occupation) by {
                        lemma_push_contains(Seq::empty(), occupation, x);
                    }
                }
                v
            },
            Some(v) => {
                if contains_occ(v, &occupation) {
                    without_occ(v, &occupation)
                } else {
                    let ghost pre = v@;
                    let mut w = copied_occs(v);
                    w.push(occupation);
                    proof {
                        assert forall|x: OccupationType|
                            w@.contains(x) == (pre.contains(x) || x == occupation) by {
                            lemma_push_contains(pre, occupation, x);
                        }
                    }
                    w
                }
            },
        };
        self.selected_occupations = Some(updated);
    }

    /// Whether one occupation is watched; an absent set watches nothing.
    pub fn is_selected(&self, occupation: &OccupationType) -> (r: bool)
        ensures
            r == occupation_selected(*self, *occupation),
    {
        match &self.selected_occupations {
            Some(v) => contains_occ(v, occupation),
            None => false,
        }
    }
}

/// One user of the presentation layer, with their watch set.
#[derive(Debug)]
pub struct User {
    pub id: String,
    pub selections: UserSelections,
}

impl User {
    /// A user known only by identifier: no selections recorded yet, so a
    /// write for them disturbs neither stored column.
    pub fn new(id: String) -> (u: User)
        ensures
            u.id == id,
            u.selections.selected_occupations is None,
            u.selections.selected_regions is None,
    {
        User {
            id,
            selections: UserSelections { selected_occupations: None, selected_regions: None },
        }
    }
}

/// The column-preserving rule of a user write: a column supplied by the
/// incoming selections replaces the stored one; a column the incoming
/// selections leave absent keeps whatever was stored.
pub fn merge_selections(stored: UserSelections, incoming: UserSelections) -> (r: UserSelections)
    ensures
        r.selected_occupations == if incoming.selected_occupations is Some {
            incoming.selected_occupations
        } else {
            stored.selected_occupations
        },
        r.selected_regions == if incoming.selected_regions is Some {
            incoming.selected_regions
        } else {
            stored.selected_regions
        },
{
    let occupations = if incoming.selected_occupations.is_some() {
        incoming.selected_occupations
    } else {
        stored.selected_occupations
    };
    let regions = if incoming.selected_regions.is_some() {
        incoming.selected_regions
    } else {
        stored.selected_regions
    };
    UserSelections { selected_occupations: occupations, selected_regions: regions }
}

} // verus!
