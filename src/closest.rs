//! The nearest-entity resolver: a single pass over the entities of a feed message, in
//! order, keeping a running minimum distance and a candidate nearest entity.
//!
//! Distances reach the resolver as `EntityDistance` values: an entity without a position,
//! a distance given by an order key, or a distance that compares with nothing (a
//! not-a-number result of the distance formula). Keys compare as the distances do.
use vstd::prelude::*;
use crate::feed::GtfsRtError;

verus! {

/// How far one entity lies from the reference coordinate.
#[derive(Debug, Clone, Copy, PartialEq, Eq, Structural)]
pub enum EntityDistance {
    /// The entity reports no position; spatial queries skip it.
    NoPosition,
    /// A distance, by a key whose integer order is the order of the distances.
    Ordered(u32),
    /// A distance that is neither less nor greater than any other.
    Unordered,
}

/// `a` is strictly nearer than `b`.
pub open spec fn nearer(a: EntityDistance, b: EntityDistance) -> bool {
    match (a, b) {
        (EntityDistance::Ordered(x), EntityDistance::Ordered(y)) => x < y,
        _ => false,
    }
}

/// The resolver's state after the entities `s`: the running minimum distance (`None`
/// until a positioned entity has been seen) and the index of the candidate nearest
/// entity. The first positioned entity sets the running minimum but is not made the
/// candidate; each later one that is strictly nearer than the running minimum becomes
/// both.
pub open spec fn scan(s: Seq<EntityDistance>) -> (Option<EntityDistance>, Option<int>)
    decreases s.len(),
{
    if s.len() == 0 {
        (None, None)
    } else {
        let prev = scan(s.drop_last());
        let e = s.last();
        if e is NoPosition {
            prev
        } else {
            match prev.0 {
                None => (Some(e), prev.1),
                Some(m) => if nearer(e, m) {
                    (Some(e), Some(s.len() - 1))
                } else {
                    prev
                },
            }
        }
    }
}

/// What the resolver returns for the entities `s`: `NoEntityFound` when none of them has a
/// position, else the candidate nearest entity, which may be none at all.
pub open spec fn closest_of(s: Seq<EntityDistance>) -> Result<Option<int>, GtfsRtError> {
    match scan(s).0 {
        None => Err(GtfsRtError::NoEntityFound),
        Some(_) => Ok(scan(s).1),
    }
}

pub open spec fn index_view(o: Option<usize>) -> Option<int> {
    match o {
        Some(i) => Some(i as int),
        None => None,
    }
}

pub open spec fn result_view(r: Result<Option<usize>, GtfsRtError>) -> Result<
    Option<int>,
    GtfsRtError,
> {
    match r {
        Ok(o) => Ok(index_view(o)),
        Err(e) => Err(e),
    }
}

pub open spec fn has_position(s: Seq<EntityDistance>) -> bool {
    exists|i: int| 0 <= i < s.len() && !(s[i] is NoPosition)
}

/// No distance of `s` is incomparable.
pub open spec fn all_comparable(s: Seq<EntityDistance>) -> bool {
    forall|i: int| 0 <= i < s.len() ==> !(s[i] is Unordered)
}

/// `f` is the first entity of `s` with a position.
pub open spec fn is_first_positioned(s: Seq<EntityDistance>, f: int) -> bool {
    &&& 0 <= f < s.len()
    &&& !(s[f] is NoPosition)
    &&& forall|i: int| 0 <= i < f ==> s[i] is NoPosition
}

/// `j` is the earliest entity of `s` at the least distance.
pub open spec fn is_earliest_nearest(s: Seq<EntityDistance>, j: int) -> bool {
    &&& 0 <= j < s.len()
    &&& s[j] is Ordered
    &&& forall|i: int|
        0 <= i < s.len() && #[trigger] s[i] is Ordered ==> s[j]->Ordered_0 <= s[i]->Ordered_0
    &&& forall|i: int| 0 <= i < j && #[trigger] s[i] is Ordered ==> s[j]->Ordered_0 < s[i]->Ordered_0
}

proof fn lemma_earliest_nearest_unique(s: Seq<EntityDistance>, j: int, k: int)
    requires
        is_earliest_nearest(s, j),
        is_earliest_nearest(s, k),
    ensures
        j == k,
{
    if j < k {
        assert(s[j] is Ordered);
    } else if k < j {
        assert(s[k] is Ordered);
    }
}

proof fn lemma_scan_tracks_earliest_nearest(s: Seq<EntityDistance>)
    requires
        all_comparable(s),
    ensures
        scan(s).0 is Some ==> exists|k: int|
            is_earliest_nearest(s, k) && scan(s).0 == Some(#[trigger] s[k]),
        scan(s).1 matches Some(j) ==> is_earliest_nearest(s, j),
        scan(s).0 is Some && scan(s).1 is None ==> exists|f: int|
            is_first_positioned(s, f) && #[trigger] is_earliest_nearest(s, f),
    decreases s.len(),
{
    if s.len() > 0 {
        let p = s.drop_last();
        let n = s.len() - 1;
        let e = s[n];
        assert forall|i: int| 0 <= i < n implies s[i] == p[i] by {}
        assert(all_comparable(p));
        lemma_scan_tracks_earliest_nearest(p);
        if e is NoPosition {
            if scan(p).0 is Some {
                let k = choose|k: int| is_earliest_nearest(p, k) && scan(p).0 == Some(#[trigger] p[k]);
                assert(is_earliest_nearest(s, k));
                assert(scan(s).0 == Some(s[k]));
            }
            if let Some(j) = scan(p).1 {
                assert(is_earliest_nearest(s, j));
            }
            if scan(p).0 is Some && scan(p).1 is None {
                let f = choose|f: int| is_first_positioned(p, f) && #[trigger] is_earliest_nearest(p, f);
                assert(is_first_positioned(s, f));
                assert(is_earliest_nearest(s, f));
            }
        } else if scan(p).0 is None {
            lemma_candidate_has_position(p);
            assert forall|i: int| 0 <= i < n implies s[i] is NoPosition by {
                if !(s[i] is NoPosition) {
                    assert(!(p[i] is NoPosition));
                }
            }
            assert(is_earliest_nearest(s, n));
            assert(is_first_positioned(s, n));
            lemma_candidate_has_position(p);
        } else {
            let k = choose|k: int| is_earliest_nearest(p, k) && scan(p).0 == Some(#[trigger] p[k]);
            if nearer(e, p[k]) {
                assert(is_earliest_nearest(s, n));
                assert(scan(s).0 == Some(s[n]));
            } else {
                assert(is_earliest_nearest(s, k));
                assert(scan(s).0 == Some(s[k]));
                if let Some(j) = scan(p).1 {
                    lemma_earliest_nearest_unique(p, j, k);
                    assert(is_earliest_nearest(s, j));
                }
                if scan(p).1 is None {
                    let f = choose|f: int| is_first_positioned(p, f) && #[trigger] is_earliest_nearest(p, f);
                    lemma_earliest_nearest_unique(p, f, k);
                    assert(is_first_positioned(s, f));
                    assert(is_earliest_nearest(s, f));
                }
            }
        }
    }
}

/// When every distance is comparable, the resolver's candidate is exactly the earliest
/// entity at the least distance, unless that entity is the first one with a position: then
/// there is no candidate at all.
pub proof fn lemma_closest_is_earliest_nearest(s: Seq<EntityDistance>, j: int)
    requires
        all_comparable(s),
    ensures
        scan(s).1 == Some(j) <==> is_earliest_nearest(s, j) && !is_first_positioned(s, j),
{
    lemma_scan_tracks_earliest_nearest(s);
    lemma_candidate_has_position(s);
    if scan(s).1 == Some(j) {
        let w = choose|i: int| 0 <= i < s.take(j).len() && !(s.take(j)[i] is NoPosition);
        assert(!(s[w] is NoPosition));
    }
    if is_earliest_nearest(s, j) && !is_first_positioned(s, j) {
        assert(has_position(s));
        if let Some(j2) = scan(s).1 {
            lemma_earliest_nearest_unique(s, j, j2);
        } else {
            let f = choose|f: int| is_first_positioned(s, f) && #[trigger] is_earliest_nearest(s, f);
            lemma_earliest_nearest_unique(s, j, f);
        }
    }
}

fn is_nearer(a: EntityDistance, b: EntityDistance) -> (r: bool)
    ensures
        r == nearer(a, b),
{
    match (a, b) {
        (EntityDistance::Ordered(x), EntityDistance::Ordered(y)) => x < y,
        _ => false,
    }
}

/// The candidate is always an entity with a position, and one seen after another
/// positioned entity.
pub proof fn lemma_candidate_has_position(s: Seq<EntityDistance>)
    ensures
        scan(s).0 is None <==> !has_position(s),
        scan(s).1 matches Some(j) ==> 0 < j < s.len() && s[j] is Ordered && has_position(
            s.take(j),
        ),
    decreases s.len(),
{
    if s.len() > 0 {
        let p = s.drop_last();
        lemma_candidate_has_position(p);
        let n = s.len() - 1;
        assert forall|i: int| 0 <= i < n implies s[i] == p[i] by {}
        if let Some(j) = scan(p).1 {
            assert(s.take(j) =~= p.take(j));
        }
        if has_position(p) {
            let w = choose|i: int| 0 <= i < p.len() && !(p[i] is NoPosition);
            assert(s[w] == p[w]);
            assert(s.take(n)[w] == s[w]);
        }
        if !(s[n] is NoPosition) {
            assert(has_position(s));
        } else if has_position(s) {
            let w = choose|i: int| 0 <= i < s.len() && !(s[i] is NoPosition);
            assert(p[w] == s[w]);
        }
    }
}

/// Picks the entity nearest the reference coordinate, given each entity's distance in
/// list order. Fails with `NoEntityFound` exactly when no entity has a position; the first
/// positioned entity only sets the running minimum, and ties never replace the candidate.
pub fn find_closest(distances: &Vec<EntityDistance>) -> (r: Result<Option<usize>, GtfsRtError>)
    ensures
        result_view(r) == closest_of(distances@),
        r is Err <==> !has_position(distances@),
        r matches Ok(Some(j)) ==> j < distances.len() && distances@[j as int] is Ordered,
{
    let mut least: Option<EntityDistance> = None;
    let mut best: Option<usize> = None;
    let mut i: usize = 0;
    while i < distances.len()
        invariant
            i <= distances.len(),
            (least, index_view(best)) == scan(distances@.take(i as int)),
        decreases distances.len() - i,
    {
        let e = distances[i];
        proof {
            assert(distances@.take(i + 1).drop_last() =~= distances@.take(i as int));
        }
        match e {
            EntityDistance::NoPosition => {},
            _ => match least {
                None => {
                    least = Some(e);
                },
                Some(m) => {
                    if is_nearer(e, m) {
                        least = Some(e);
                        best = Some(i);
                    }
                },
            },
        }
        i += 1;
    }
    proof {
        assert(distances@.take(distances.len() as int) =~= distances@);
        lemma_candidate_has_position(distances@);
    }
    match least {
        None => Err(GtfsRtError::NoEntityFound),
        Some(_) => Ok(best),
    }
}

} // verus!
