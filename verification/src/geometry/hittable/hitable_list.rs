//! A scene: the things a ray is tried against, and the choice among what it
//! met.
use super::{HitEnum, HitRecord};
use vstd::prelude::*;

verus! {

/// Things that a ray can meet, in the order in which they were added.
#[derive(Debug)]
pub struct HitableList {
    list: Vec<HitEnum>,
}

impl View for HitableList {
    type V = Seq<HitEnum>;

    closed spec fn view(&self) -> Seq<HitEnum> {
        self.list@
    }
}

/// Whether a candidate can be chosen: there is a hit, and its parameter is
/// a finite number.
pub open spec fn eligible(candidate: Option<HitRecord>) -> bool {
    candidate is Some && candidate.unwrap().t.spec_is_finite()
}

/// Whether candidate `i` is the closest hit: it can be chosen, none that can
/// be chosen has a smaller parameter, and all before it have a larger one.
pub open spec fn is_closest(candidates: Seq<Option<HitRecord>>, i: int) -> bool {
    &&& 0 <= i < candidates.len()
    &&& eligible(candidates[i])
    &&& forall|j: int|
        0 <= j < candidates.len() && eligible(#[trigger] candidates[j])
            ==> candidates[i].unwrap().t.key() <= candidates[j].unwrap().t.key()
    &&& forall|j: int|
        0 <= j < i && eligible(#[trigger] candidates[j])
            ==> candidates[i].unwrap().t.key() < candidates[j].unwrap().t.key()
}

/// Whether `found` is the answer of a scan over `candidates`: the closest
/// hit, or nothing where no candidate can be chosen.
pub open spec fn chosen(candidates: Seq<Option<HitRecord>>, found: Option<HitRecord>) -> bool {
    match found {
        Some(_) => exists|i: int| #[trigger] is_closest(candidates, i) && candidates[i] == found,
        None => forall|j: int| 0 <= j < candidates.len() ==> !eligible(#[trigger] candidates[j]),
    }
}

impl HitableList {
    /// The empty scene.
    pub fn new() -> (r: HitableList)
        ensures
            r@ == Seq::<HitEnum>::empty(),
    {
        HitableList { list: Vec::new() }
    }

    /// Adds a thing behind those that are there.
    pub fn add(&mut self, hittable: HitEnum)
        ensures
            final(self)@ == old(self)@.push(hittable),
    {
        self.list.push(hittable);
    }

    /// How many things the scene holds.
    pub fn len(&self) -> (r: usize)
        ensures
            r == self@.len(),
    {
        self.list.len()
    }

    /// The thing that was added as number `i`, counting from 0.
    pub fn get(&self, i: usize) -> (r: &HitEnum)
        requires
            i < self@.len(),
        ensures
            *r == self@[i as int],
    {
        &self.list[i]
    }

    /// Chooses the closest hit among what a ray met. `candidates` holds, for
    /// each thing of a scene in order, the record of the ray's hit on it, if
    /// there is one. A record whose parameter is not a finite number is
    /// passed over. Of several closest hits the first is chosen.
    pub fn hit(candidates: &Vec<Option<HitRecord>>) -> (r: Option<HitRecord>)
        ensures
            chosen(candidates@, r),
            r is None <==> forall|j: int|
                0 <= j < candidates@.len() ==> !eligible(#[trigger] candidates@[j]),
    {
        let mut best: Option<HitRecord> = None;
        let ghost mut at: int = 0;
        let mut i: usize = 0;
        while i < candidates.len()
            invariant
                i <= candidates@.len(),
                best is None ==> forall|j: int| 0 <= j < i ==> !eligible(#[trigger] candidates@[j]),
                best is Some ==> 0 <= at < i && candidates@[at] == best && eligible(best),
                best is Some ==> forall|j: int|
                    0 <= j < i && eligible(#[trigger] candidates@[j]) ==> best.unwrap().t.key()
                        <= candidates@[j].unwrap().t.key(),
                best is Some ==> forall|j: int|
                    0 <= j < at && eligible(#[trigger] candidates@[j]) ==> best.unwrap().t.key()
                        < candidates@[j].unwrap().t.key(),
            decreases candidates@.len() - i,
        {
            let candidate = candidates[i];
            match candidate {
                Some(found) => {
                    if found.t.is_finite() {
                        let closer = match best {
                            Some(held) => found.t.lt(held.t),
                            None => true,
                        };
                        if closer {
                            best = candidate;
                            proof {
                                at = i as int;
                            }
                        }
                    }
                },
                None => {},
            }
            i += 1;
        }
        proof {
            if best is Some {
                assert(is_closest(candidates@, at));
            }
        }
        best
    }

    /// At most one candidate is the closest hit.
    pub proof fn lemma_closest_unique(candidates: Seq<Option<HitRecord>>, i: int, j: int)
        requires
            is_closest(candidates, i),
            is_closest(candidates, j),
        ensures
            i == j,
    {
    }

    /// A scan has one answer.
    pub proof fn lemma_chosen_unique(
        candidates: Seq<Option<HitRecord>>,
        first: Option<HitRecord>,
        second: Option<HitRecord>,
    )
        requires
            chosen(candidates, first),
            chosen(candidates, second),
        ensures
            first == second,
    {
        if first is Some && second is Some {
            let i = choose|i: int| #[trigger] is_closest(candidates, i) && candidates[i] == first;
            let j = choose|j: int| #[trigger] is_closest(candidates, j) && candidates[j] == second;
            Self::lemma_closest_unique(candidates, i, j);
        } else if first is Some {
            let i = choose|i: int| #[trigger] is_closest(candidates, i) && candidates[i] == first;
            assert(eligible(candidates[i]));
        } else if second is Some {
            let j = choose|j: int| #[trigger] is_closest(candidates, j) && candidates[j] == second;
            assert(eligible(candidates[j]));
        }
    }

    /// Against the empty scene a ray meets nothing.
    pub proof fn lemma_empty_scene_no_hit(found: Option<HitRecord>)
        requires
            chosen(Seq::<Option<HitRecord>>::empty(), found),
        ensures
            found is None,
    {
        if found is Some {
            let i = choose|i: int| #[trigger]
                is_closest(Seq::<Option<HitRecord>>::empty(), i) && Seq::<
                    Option<HitRecord>,
                >::empty()[i] == found;
            assert(0 <= i < 0);
        }
    }

    /// The order of the scene does not change how far the closest hit is:
    /// two scans over the same candidates in different orders both find
    /// nothing, or find hits at the same parameter.
    pub proof fn lemma_order_is_irrelevant(
        first: Seq<Option<HitRecord>>,
        second: Seq<Option<HitRecord>>,
        found_first: Option<HitRecord>,
        found_second: Option<HitRecord>,
    )
        requires
            first.to_multiset() == second.to_multiset(),
            chosen(first, found_first),
            chosen(second, found_second),
        ensures
            found_first is Some <==> found_second is Some,
            found_first is Some ==> found_first.unwrap().t.key() == found_second.unwrap().t.key(),
    {
        assert forall|c: Option<HitRecord>| first.contains(c) <==> second.contains(c) by {
            vstd::seq_lib::to_multiset_contains(first, c);
            vstd::seq_lib::to_multiset_contains(second, c);
        }
        if found_first is Some {
            let i = choose|i: int| #[trigger] is_closest(first, i) && first[i] == found_first;
            assert(first.contains(first[i]));
            let j = choose|j: int| 0 <= j < second.len() && second[j] == first[i];
            assert(eligible(second[j]));
        }
        if found_second is Some {
            let i = choose|i: int| #[trigger] is_closest(second, i) && second[i] == found_second;
            assert(second.contains(second[i]));
            let j = choose|j: int| 0 <= j < first.len() && first[j] == second[i];
            assert(eligible(first[j]));
        }
        if found_first is Some && found_second is Some {
            let i = choose|i: int| #[trigger] is_closest(first, i) && first[i] == found_first;
            let k = choose|k: int| #[trigger] is_closest(second, k) && second[k] == found_second;
            assert(first.contains(first[i]));
            let j = choose|j: int| 0 <= j < second.len() && second[j] == first[i];
            assert(eligible(second[j]));
            assert(second.contains(second[k]));
            let l = choose|l: int| 0 <= l < first.len() && first[l] == second[k];
            assert(eligible(first[l]));
        }
    }

    /// A scene inside a scene is scanned as if its things stood in the
    /// outer scene themselves: where the inner scene's answer takes the
    /// place of its candidates, the outer scan finds what a scan over all
    /// candidates in one row finds.
    pub proof fn lemma_nested_scan_is_flat_scan(
        before: Seq<Option<HitRecord>>,
        inner: Seq<Option<HitRecord>>,
        after: Seq<Option<HitRecord>>,
        found_inner: Option<HitRecord>,
        found_nested: Option<HitRecord>,
        found_flat: Option<HitRecord>,
    )
        requires
            chosen(inner, found_inner),
            chosen(before.push(found_inner) + after, found_nested),
            chosen(before + inner + after, found_flat),
        ensures
            found_nested == found_flat,
    {
        let flat = before + inner + after;
        let nested = before.push(found_inner) + after;
        let b = before.len() as int;
        let n = inner.len() as int;
        assert(flat.len() == b + n + after.len());
        assert(nested.len() == b + 1 + after.len());
        assert forall|j: int| 0 <= j < b implies flat[j] == before[j] && nested[j] == before[j] by {}
        assert forall|j: int| 0 <= j < n implies flat[b + j] == inner[j] by {}
        assert forall|j: int| 0 <= j < after.len() implies flat[b + n + j] == after[j] && nested[b
            + 1 + j] == after[j] by {}
        assert(nested[b] == found_inner);
        if found_inner is Some {
            let ii = choose|ii: int| #[trigger] is_closest(inner, ii) && inner[ii] == found_inner;
            assert(flat[b + ii] == found_inner);
        }
        if found_flat is None {
            if found_inner is Some {
                let ii = choose|ii: int| #[trigger]
                    is_closest(inner, ii) && inner[ii] == found_inner;
                assert(eligible(flat[b + ii]));
            }
            assert forall|j: int| 0 <= j < nested.len() implies !eligible(
                #[trigger] nested[j],
            ) by {
                if j < b {
                    assert(nested[j] == flat[j]);
                } else if j > b {
                    assert(nested[j] == flat[j + n - 1]);
                }
            }
            if found_nested is Some {
                let k = choose|k: int| #[trigger]
                    is_closest(nested, k) && nested[k] == found_nested;
                assert(eligible(nested[k]));
            }
        } else {
            let i = choose|i: int| #[trigger] is_closest(flat, i) && flat[i] == found_flat;
            // Where the closest hit of the flat scan stands in the nested one.
            let at = if i < b {
                i
            } else if i < b + n {
                b
            } else {
                i - n + 1
            };
            if b <= i < b + n {
                assert(eligible(inner[i - b]));
                assert(found_inner is Some);
                let ii = choose|ii: int| #[trigger]
                    is_closest(inner, ii) && inner[ii] == found_inner;
                assert forall|j: int| 0 <= j < n && eligible(#[trigger] inner[j]) implies inner[i
                    - b].unwrap().t.key() <= inner[j].unwrap().t.key() by {
                    assert(eligible(flat[b + j]));
                }
                assert forall|j: int| 0 <= j < i - b && eligible(#[trigger] inner[j]) implies inner[i
                    - b].unwrap().t.key() < inner[j].unwrap().t.key() by {
                    assert(eligible(flat[b + j]));
                }
                assert(is_closest(inner, i - b));
                Self::lemma_closest_unique(inner, ii, i - b);
            }
            assert(nested[at] == flat[i]);
            assert forall|j: int| 0 <= j < nested.len() && eligible(
                #[trigger] nested[j],
            ) implies nested[at].unwrap().t.key() <= nested[j].unwrap().t.key() by {
                if j < b {
                    assert(eligible(flat[j]));
                } else if j == b {
                    let ii = choose|ii: int| #[trigger]
                        is_closest(inner, ii) && inner[ii] == found_inner;
                    assert(eligible(flat[b + ii]));
                } else {
                    assert(eligible(flat[j + n - 1]));
                }
            }
            assert forall|j: int| 0 <= j < at && eligible(#[trigger] nested[j]) implies nested[at].unwrap().t.key()
                < nested[j].unwrap().t.key() by {
                if j < b {
                    assert(eligible(flat[j]));
                } else if j == b {
                    let ii = choose|ii: int| #[trigger]
                        is_closest(inner, ii) && inner[ii] == found_inner;
                    assert(eligible(flat[b + ii]));
                } else {
                    assert(eligible(flat[j + n - 1]));
                }
            }
            assert(is_closest(nested, at));
            assert(chosen(nested, found_flat));
            Self::lemma_chosen_unique(nested, found_nested, found_flat);
        }
    }
}

} // verus!
