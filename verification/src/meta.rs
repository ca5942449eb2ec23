//! Record-type construction.
//!
//! Declaring a record type runs once: the base types' linearizations are
//! merged into one consistent ordering, inherited attribute descriptors are
//! collected along it, slot-index collisions introduced by multiple
//! inheritance are repaired by cloning the colliding descriptor at a fresh
//! index, newly declared attributes receive indexes, every behavior's method
//! reference is checked against the methods visible on the type, and the
//! finished mapping is frozen into an [`AtorsType`].  Construction either
//! completes in full or fails with a specific report; there is no partial
//! result.

use std::rc::Rc;

use vstd::prelude::*;

use crate::errors::Error;
use crate::errors::ErrorV;
use crate::errors::err_view;
use crate::instance::AtorsBase;
use crate::instance::MAX_SLOTS;
use crate::instance::slots_view;
use crate::member::Member;
use crate::member::MemberBuilder;
use crate::member::PreGetattrBehavior;
use crate::member::PostGetattrBehavior;
use crate::member::PreSetattrBehavior;
use crate::member::PostSetattrBehavior;
use crate::member::DefaultBehavior;
use crate::validators::Coercer;
use crate::validators::ValueValidator;
use crate::value::Value;
use crate::value::value_eq;
use crate::value::vview;
use crate::value::ValueV;

verus! {

/// A fully constructed record type: its nominal identity, name, frozen
/// flag, the linearization of its ancestors (nearest first, the type itself
/// excluded), the complete name-to-descriptor mapping, the names of the
/// attributes declared or overridden by this type itself, and the method
/// names visible on it.
pub struct AtorsType {
    pub type_id: u64,
    pub name: String,
    pub frozen: bool,
    pub mro: Vec<Rc<AtorsType>>,
    pub members: Vec<(String, Rc<Member>)>,
    pub specific: Vec<String>,
    pub methods: Vec<String>,
}

/// Whether a member mapping binds a name.
pub open spec fn has_member(ms: Seq<(String, Rc<Member>)>, name: Seq<char>) -> bool {
    exists|i: int| 0 <= i < ms.len() && ms[i].0@ == name
}

/// Member names are pairwise distinct.
pub open spec fn member_names_unique(ms: Seq<(String, Rc<Member>)>) -> bool {
    forall|i: int, j: int|
        0 <= i < j < ms.len() ==> (#[trigger] ms[i].0@) != (#[trigger] ms[j].0@)
}

/// Whether a linearization contains a type of the given identity.
pub open spec fn mro_contains_id(mro: Seq<Rc<AtorsType>>, id: u64) -> bool {
    exists|j: int| 0 <= j < mro.len() && (#[trigger] mro[j]).type_id == id
}

/// Member slot indices are pairwise distinct.
pub open spec fn member_indices_unique(ms: Seq<(String, Rc<Member>)>) -> bool {
    forall|i: int, j: int|
        0 <= i < j < ms.len() ==> (#[trigger] ms[i].1.slot_index) != (#[trigger] ms[j].1.slot_index)
}

impl AtorsType {
    /// The full name-to-descriptor mapping.
    pub fn members(&self) -> (r: &Vec<(String, Rc<Member>)>)
        ensures
            r == &self.members,
    {
        &self.members
    }

    /// Allocate an instance: unfrozen, one unset slot for each index the
    /// type's descriptors can address.  Allocation succeeds exactly when the
    /// addressed slot span fits the slot cap.
    pub fn new_instance(&self) -> (r: Result<AtorsBase, Error>)
        ensures
            match r {
                Ok(obj) => needed_slots(self.members@) <= MAX_SLOTS && !obj.frozen
                    && obj.owner_name@ == self.name@ && obj.slots@.len() == needed_slots(
                    self.members@,
                ) && (forall|i: int| 0 <= i < obj.slots@.len() ==> obj.slots@[i] is None) && (
                forall|k: int|
                    0 <= k < self.members@.len()
                        ==> (#[trigger] self.members@[k].1.slot_index as int) < obj.slots@.len()),
                Err(e) => needed_slots(self.members@) > MAX_SLOTS && err_view(e)
                    == (ErrorV::SlotsExhausted { owner: self.name@ }),
            },
    {
        let mut needed: usize = 0;
        let mut k: usize = 0;
        while k < self.members.len()
            invariant
                k <= self.members@.len(),
                needed <= 256,
                needed == needed_slots(self.members@.take(k as int)),
            decreases self.members@.len() - k,
        {
            let idx = self.members[k].1.index();
            proof {
                assert(self.members@.take(k + 1).drop_last() =~= self.members@.take(k as int));
                assert(self.members@.take(k + 1).last() == self.members@[k as int]);
            }
            if (idx as usize) + 1 > needed {
                needed = (idx as usize) + 1;
            }
            k = k + 1;
        }
        proof {
            assert(self.members@.take(self.members@.len() as int) =~= self.members@);
            lemma_needed_slots_covers(self.members@);
        }
        AtorsBase::new(self.name.clone(), needed)
    }
}

/// The slot span a member mapping addresses: one past its highest index.
pub open spec fn needed_slots(ms: Seq<(String, Rc<Member>)>) -> int
    decreases ms.len(),
{
    if ms.len() == 0 {
        0
    } else {
        let rest = needed_slots(ms.drop_last());
        let own = ms.last().1.slot_index as int + 1;
        if own > rest {
            own
        } else {
            rest
        }
    }
}

/// Every member's index lies inside the addressed slot span.
proof fn lemma_needed_slots_covers(ms: Seq<(String, Rc<Member>)>)
    ensures
        forall|k: int|
            0 <= k < ms.len() ==> (#[trigger] ms[k].1.slot_index as int) < needed_slots(ms),
        needed_slots(ms) >= 0,
    decreases ms.len(),
{
    if ms.len() > 0 {
        lemma_needed_slots_covers(ms.drop_last());
        assert forall|k: int|
            0 <= k < ms.len() implies (#[trigger] ms[k].1.slot_index as int) < needed_slots(ms) by {
            if k < ms.len() - 1 {
                assert(ms.drop_last()[k] == ms[k]);
            }
        }
    }
}

/// Allocates fresh slot indexes from the slot-index pool: each grant is the
/// smallest unoccupied index not below the scan position, which only moves
/// forward.  Grants stay below the instance slot cap, so a type that would
/// exceed it fails while it is being constructed.
pub struct FreeSlotIndexFactory {
    pub occupied: Vec<bool>,
    pub next_index: u8,
}

/// The factory's bitmap covers the whole 8-bit index space.
pub open spec fn factory_wf(f: FreeSlotIndexFactory) -> bool {
    f.occupied@.len() == 256
}

impl FreeSlotIndexFactory {
    /// A factory whose occupied set is given by the provided indexes.
    pub fn new(taken: &Vec<u8>) -> (r: Self)
        ensures
            factory_wf(r),
            r.next_index == 0,
            forall|b: int|
                0 <= b < 256 ==> (r.occupied@[b] <==> (exists|i: int|
                    0 <= i < taken@.len() && taken@[i] == b)),
    {
        let mut occupied: Vec<bool> = Vec::new();
        let mut b: usize = 0;
        while b < 256
            invariant
                b <= 256,
                occupied@.len() == b,
                forall|j: int| 0 <= j < b ==> !occupied@[j],
            decreases 256 - b,
        {
            occupied.push(false);
            b = b + 1;
        }
        let mut i: usize = 0;
        while i < taken.len()
            invariant
                occupied@.len() == 256,
                i <= taken@.len(),
                forall|j: int|
                    0 <= j < 256 ==> (occupied@[j] <==> (exists|k: int|
                        0 <= k < i && taken@[k] == j)),
            decreases taken@.len() - i,
        {
            let idx = taken[i];
            occupied.set(idx as usize, true);
            i = i + 1;
            proof {
                assert forall|j: int| 0 <= j < 256 implies (occupied@[j] <==> (exists|k: int|
                    0 <= k < i && taken@[k] == j)) by {
                    if j == idx as int {
                        assert(taken@[i - 1] == idx);
                    }
                }
            }
        }
        FreeSlotIndexFactory { occupied, next_index: 0 }
    }

    /// The next free slot index: the smallest unoccupied index at or above
    /// the scan position; the grant is recorded as occupied.  When no index
    /// below the instance slot cap is free, the request fails.
    pub fn next_index(&mut self) -> (r: Result<u8, ()>)
        requires
            factory_wf(*old(self)),
        ensures
            factory_wf(*final(self)),
            match r {
                Ok(i) => {
                    &&& old(self).next_index <= i
                    &&& (i as int) < MAX_SLOTS
                    &&& !old(self).occupied@[i as int]
                    &&& forall|j: int|
                        old(self).next_index <= j < i as int ==> old(self).occupied@[j]
                    &&& final(self).occupied@ == old(self).occupied@.update(i as int, true)
                    &&& final(self).next_index == i
                },
                Err(_) => {
                    &&& forall|j: int|
                        old(self).next_index <= j < MAX_SLOTS ==> old(self).occupied@[j]
                    &&& *final(self) == *old(self)
                },
            },
    {
        let mut cur: u8 = self.next_index;
        while (cur as usize) < MAX_SLOTS && self.occupied[cur as usize]
            invariant
                factory_wf(*self),
                *self == *old(self),
                old(self).next_index <= cur,
                cur <= 255,
                forall|j: int| old(self).next_index <= j < cur as int ==> self.occupied@[j],
            decreases 256 - cur as int,
        {
            cur = cur + 1;
        }
        if (cur as usize) >= MAX_SLOTS {
            return Err(());
        }
        self.occupied.set(cur as usize, true);
        self.next_index = cur;
        Ok(cur)
    }
}

/// A behavior references a method the owning type does not have.
pub fn make_unknown_method_error(
    member_name: &String,
    behavior_name: &str,
    meth_name: &String,
) -> (r: Error)
    ensures
        err_view(r) == (ErrorV::UnknownMethod {
            member: member_name@,
            behavior: behavior_name@,
            meth: meth_name@,
        }),
{
    Error::UnknownMethod {
        member: member_name.clone(),
        behavior: String::from_str(behavior_name),
        meth: meth_name.clone(),
    }
}

/// Sum of the lengths of the merge inputs: the merge's termination measure.
pub open spec fn total_len(s: Seq<Seq<u64>>) -> int
    decreases s.len(),
{
    if s.len() == 0 {
        0
    } else {
        total_len(s.drop_last()) + s.last().len()
    }
}

/// Whether an identifier appears in the tail of a list.
pub open spec fn in_tail(t: u64, l: Seq<u64>) -> bool {
    exists|i: int| 1 <= i < l.len() && l[i] == t
}

/// A good merge candidate heads some list and sits in no list's tail.
pub open spec fn good_candidate(inputs: Seq<Seq<u64>>, t: u64) -> bool {
    forall|k: int| 0 <= k < inputs.len() ==> !in_tail(t, #[trigger] inputs[k])
}

proof fn lemma_total_len_nonneg(s: Seq<Seq<u64>>)
    ensures
        total_len(s) >= 0,
    decreases s.len(),
{
    if s.len() > 0 {
        lemma_total_len_nonneg(s.drop_last());
    }
}

/// Changing one list to a shorter one decreases the total length.
proof fn lemma_total_len_update(s: Seq<Seq<u64>>, k: int, l: Seq<u64>)
    requires
        0 <= k < s.len(),
    ensures
        total_len(s.update(k, l)) == total_len(s) - s[k].len() + l.len(),
    decreases s.len(),
{
    if s.len() > 0 {
        if k == s.len() - 1 {
            assert(s.update(k, l).drop_last() =~= s.drop_last());
        } else {
            assert(s.update(k, l).drop_last() =~= s.drop_last().update(k, l));
            lemma_total_len_update(s.drop_last(), k, l);
        }
    }
}

/// Removing one list decreases the total length by that list's length.
proof fn lemma_total_len_remove(s: Seq<Seq<u64>>, k: int)
    requires
        0 <= k < s.len(),
    ensures
        total_len(s.remove(k)) == total_len(s) - s[k].len(),
    decreases s.len(),
{
    if k == s.len() - 1 {
        assert(s.remove(k) =~= s.drop_last());
    } else {
        assert(s.remove(k).drop_last() =~= s.drop_last().remove(k));
        lemma_total_len_remove(s.drop_last(), k);
    }
}

/// The identifiers of one list.
pub open spec fn list_ids(l: Seq<u64>) -> Set<u64> {
    Set::new(|t: u64| l.contains(t))
}

/// The identifiers of a family of lists.
pub open spec fn family_ids(ss: Seq<Seq<u64>>) -> Set<u64>
    decreases ss.len(),
{
    if ss.len() == 0 {
        Set::empty()
    } else {
        family_ids(ss.drop_last()).union(list_ids(ss.last()))
    }
}

/// Membership in a family is membership in one of its lists.
proof fn lemma_family_ids(ss: Seq<Seq<u64>>, t: u64)
    ensures
        family_ids(ss).contains(t) <==> (exists|q: int|
            0 <= q < ss.len() && (#[trigger] ss[q]).contains(t)),
    decreases ss.len(),
{
    if ss.len() > 0 {
        lemma_family_ids(ss.drop_last(), t);
        if family_ids(ss).contains(t) {
            if family_ids(ss.drop_last()).contains(t) {
                let q = choose|q: int|
                    0 <= q < ss.drop_last().len() && (#[trigger] ss.drop_last()[q]).contains(t);
                assert(ss[q].contains(t));
            } else {
                assert(ss[ss.len() - 1].contains(t));
            }
        }
        if exists|q: int| 0 <= q < ss.len() && (#[trigger] ss[q]).contains(t) {
            let q = choose|q: int| 0 <= q < ss.len() && (#[trigger] ss[q]).contains(t);
            if q < ss.len() - 1 {
                assert(ss.drop_last()[q].contains(t));
            }
        }
    }
}

/// Merge the base linearizations into one consistent ordering: repeatedly
/// take the head of the first list that appears in no other list's tail and
/// strike it from every head where it stands; with lists left but no such
/// head, the hierarchy is inconsistent.
///
/// A successful merge lists each identifier of the inputs exactly once and
/// nothing else; when every input list is empty the merge trivially
/// succeeds.
pub(crate) fn c3_merge(inputs: &Vec<Vec<u64>>, owner: &String) -> (r: Result<Vec<u64>, Error>)
    ensures
        match r {
            Ok(out) => {
                &&& forall|i: int, j: int| 0 <= i < j < out@.len() ==> out@[i] != out@[j]
                &&& list_ids(out@) == family_ids(seqs_view(inputs@))
            },
            Err(e) => err_view(e) == (ErrorV::InconsistentHierarchy { owner: owner@ })
                && (exists|q: int|
                0 <= q < inputs@.len() && (#[trigger] inputs@[q]@).len() > 0),
        },
{
    let mut work: Vec<Vec<u64>> = Vec::new();
    let mut i: usize = 0;
    while i < inputs.len()
        invariant
            i <= inputs@.len(),
            forall|k: int| 0 <= k < work@.len() ==> (#[trigger] work@[k]@).len() > 0,
            family_ids(seqs_view(work@)) == family_ids(seqs_view(inputs@).take(i as int)),
            work@.len() > 0 ==> (exists|q: int|
                0 <= q < inputs@.len() && (#[trigger] inputs@[q]@).len() > 0),
        decreases inputs@.len() - i,
    {
        proof {
            assert(seqs_view(inputs@).take(i + 1).drop_last() =~= seqs_view(inputs@).take(i as int));
            assert(seqs_view(inputs@).take(i + 1).last() == inputs@[i as int]@);
        }
        if inputs[i].len() > 0 {
            let ghost ow = seqs_view(work@);
            work.push(crate::value::clone_ids(&inputs[i]));
            proof {
                assert(seqs_view(work@).drop_last() =~= ow);
                assert(seqs_view(work@).last() == inputs@[i as int]@);
            }
        } else {
            proof {
                assert(list_ids(inputs@[i as int]@) =~= Set::<u64>::empty());
                assert(family_ids(seqs_view(inputs@).take(i + 1)) =~= family_ids(
                    seqs_view(inputs@).take(i as int),
                ));
            }
        }
        i = i + 1;
    }
    proof {
        assert(seqs_view(inputs@).take(inputs@.len() as int) =~= seqs_view(inputs@));
    }
    let mut mro: Vec<u64> = Vec::new();
    loop
        invariant
            forall|k: int| 0 <= k < work@.len() ==> (#[trigger] work@[k]@).len() > 0,
            forall|i: int, j: int| 0 <= i < j < mro@.len() ==> mro@[i] != mro@[j],
            forall|q: int, p: int|
                0 <= q < work@.len() && 0 <= p < work@[q]@.len() ==> !mro@.contains(
                    #[trigger] work@[q]@[p],
                ),
            family_ids(seqs_view(work@)).union(list_ids(mro@)) == family_ids(seqs_view(inputs@)),
            work@.len() > 0 ==> (exists|q: int|
                0 <= q < inputs@.len() && (#[trigger] inputs@[q]@).len() > 0),
        decreases total_len(seqs_view(work@)),
    {
        proof {
            lemma_total_len_nonneg(seqs_view(work@));
        }
        if work.len() == 0 {
            proof {
                assert(family_ids(seqs_view(work@)) =~= Set::<u64>::empty());
                assert(list_ids(mro@) =~= family_ids(seqs_view(work@)).union(list_ids(mro@)));
            }
            return Ok(mro);
        }
        // Find the first head that sits in no tail.
        let mut chosen: Option<u64> = None;
        let ghost mut chosen_at: int = 0;
        let mut k: usize = 0;
        while k < work.len() && chosen.is_none()
            invariant
                k <= work@.len(),
                forall|j: int| 0 <= j < work@.len() ==> (#[trigger] work@[j]@).len() > 0,
                chosen matches Some(c) ==> 0 <= chosen_at < work@.len() && work@[chosen_at]@[0]
                    == c && (forall|q: int, p: int|
                    0 <= q < work@.len() && 1 <= p < work@[q]@.len() ==> #[trigger] work@[q]@[p]
                        != c),
            decreases work@.len() - k, (if chosen is None {
                1int
            } else {
                0int
            }),
        {
            let cand = work[k][0];
            let mut ok = true;
            let mut j: usize = 0;
            while j < work.len()
                invariant
                    k < work@.len(),
                    cand == work@[k as int]@[0],
                    j <= work@.len(),
                    forall|q: int| 0 <= q < work@.len() ==> (#[trigger] work@[q]@).len() > 0,
                    ok ==> (forall|q: int, p: int|
                        0 <= q < j && 1 <= p < work@[q]@.len() ==> #[trigger] work@[q]@[p]
                            != cand),
                decreases work@.len() - j,
            {
                let mut p: usize = 1;
                let mut hit = false;
                while p < work[j].len()
                    invariant
                        j < work@.len(),
                        1 <= p,
                        !hit ==> (forall|pp: int|
                            1 <= pp < p ==> work@[j as int]@[pp] != cand),
                    decreases work@[j as int]@.len() - p,
                {
                    if work[j][p] == cand {
                        hit = true;
                    }
                    p = p + 1;
                }
                if hit {
                    ok = false;
                }
                j = j + 1;
            }
            if ok {
                chosen = Some(cand);
                proof {
                    chosen_at = k as int;
                }
            } else {
                k = k + 1;
            }
        }
        let t = match chosen {
            Some(t) => t,
            None => {
                return Err(Error::InconsistentHierarchy { owner: owner.clone() });
            },
        };
        proof {
            assert(work@[chosen_at]@[0] == t);
        }
        let ghost omro = mro@;
        mro.push(t);
        proof {
            assert(!omro.contains(t)) by {
                assert(work@[chosen_at]@[0] == t);
            }
            assert forall|i: int, j: int| 0 <= i < j < mro@.len() implies mro@[i] != mro@[j] by {
                if j == mro@.len() - 1 {
                    assert(!omro.contains(t));
                    assert(omro[i] == mro@[i]);
                }
            }
        }
        // Strike the candidate from the head of every list where it stands;
        // drop lists that become empty.  The candidate sits in no tail, so
        // after the pass it is gone from the working lists entirely.
        let ghost pre = seqs_view(work@);
        let mut new_work: Vec<Vec<u64>> = Vec::new();
        let mut w: usize = 0;
        let ghost mut struck: bool = false;
        while w < work.len()
            invariant
                w <= work@.len(),
                seqs_view(work@) == pre,
                mro@ == omro.push(t),
                0 <= chosen_at < work@.len(),
                work@[chosen_at]@[0] == t,
                forall|q: int, p: int|
                    0 <= q < work@.len() && 1 <= p < work@[q]@.len() ==> #[trigger] work@[q]@[p]
                        != t,
                forall|q: int| 0 <= q < work@.len() ==> (#[trigger] work@[q]@).len() > 0,
                forall|q: int| 0 <= q < new_work@.len() ==> (#[trigger] new_work@[q]@).len() > 0,
                forall|q: int, p: int|
                    0 <= q < work@.len() && 0 <= p < work@[q]@.len() ==> !omro.contains(
                        #[trigger] work@[q]@[p],
                    ),
                forall|q: int, p: int|
                    0 <= q < new_work@.len() && 0 <= p < new_work@[q]@.len() ==> !mro@.contains(
                        #[trigger] new_work@[q]@[p],
                    ),
                total_len(seqs_view(new_work@)) <= total_len(pre.take(w as int)) - (if struck {
                    1int
                } else {
                    0int
                }),
                chosen_at < w ==> struck,
                family_ids(seqs_view(new_work@)).insert(t) == family_ids(pre.take(w as int)).insert(
                    t,
                ),
                !family_ids(seqs_view(new_work@)).contains(t),
            decreases work@.len() - w,
        {
            proof {
                assert(pre.take(w as int + 1).drop_last() =~= pre.take(w as int));
                assert(pre.take(w as int + 1).last() == work@[w as int]@);
                assert(total_len(pre.take(w as int + 1)) == total_len(pre.take(w as int))
                    + work@[w as int]@.len());
            }
            let ghost nw_pre = seqs_view(new_work@);
            if work[w][0] == t {
                let mut rest: Vec<u64> = Vec::new();
                let mut p: usize = 1;
                while p < work[w].len()
                    invariant
                        w < work@.len(),
                        1 <= p <= work@[w as int]@.len(),
                        rest@.len() == p - 1,
                        forall|pp: int| 0 <= pp < p - 1 ==> rest@[pp] == work@[w as int]@[pp + 1],
                    decreases work@[w as int]@.len() - p,
                {
                    rest.push(work[w][p]);
                    p = p + 1;
                }
                proof {
                    assert(rest@ =~= work@[w as int]@.drop_first());
                    assert(list_ids(work@[w as int]@) =~= list_ids(rest@).insert(t)) by {
                        assert(work@[w as int]@[0] == t);
                        assert forall|x: u64| list_ids(work@[w as int]@).contains(x) implies list_ids(
                            rest@,
                        ).insert(t).contains(x) by {
                            let p0 = choose|p0: int|
                                0 <= p0 < work@[w as int]@.len() && work@[w as int]@[p0] == x;
                            if p0 > 0 {
                                assert(rest@[p0 - 1] == x);
                            }
                        }
                        assert forall|x: u64| list_ids(rest@).insert(t).contains(x) implies list_ids(
                            work@[w as int]@,
                        ).contains(x) by {
                            if x != t && list_ids(rest@).contains(x) {
                                let p0 = choose|p0: int| 0 <= p0 < rest@.len() && rest@[p0] == x;
                                assert(work@[w as int]@[p0 + 1] == x);
                            }
                        }
                    }
                    assert(!list_ids(rest@).contains(t)) by {
                        if list_ids(rest@).contains(t) {
                            let p0 = choose|p0: int| 0 <= p0 < rest@.len() && rest@[p0] == t;
                            assert(work@[w as int]@[p0 + 1] == t);
                        }
                    }
                }
                proof {
                    assert(family_ids(pre.take(w as int + 1)) =~= family_ids(
                        pre.take(w as int),
                    ).union(list_ids(work@[w as int]@)));
                }
                if rest.len() > 0 {
                    new_work.push(rest);
                    proof {
                        assert(seqs_view(new_work@).drop_last() =~= nw_pre);
                        assert(total_len(seqs_view(new_work@)) == total_len(nw_pre) + rest@.len());
                        assert(family_ids(seqs_view(new_work@)) =~= family_ids(nw_pre).union(
                            list_ids(rest@),
                        ));
                        assert forall|x: u64|
                            family_ids(seqs_view(new_work@)).insert(t).contains(x) == family_ids(
                                pre.take(w as int + 1),
                            ).insert(t).contains(x) by {
                            if x != t {
                                assert(family_ids(nw_pre).insert(t).contains(x) == family_ids(
                                    pre.take(w as int),
                                ).insert(t).contains(x));
                                assert(list_ids(work@[w as int]@).contains(x) == list_ids(
                                    rest@,
                                ).insert(t).contains(x));
                            }
                        }
                        assert(family_ids(seqs_view(new_work@)).insert(t) =~= family_ids(
                            pre.take(w as int + 1),
                        ).insert(t));
                    }
                } else {
                    proof {
                        assert(rest@ =~= Seq::<u64>::empty());
                        assert(list_ids(rest@) =~= Set::<u64>::empty());
                        assert forall|x: u64|
                            family_ids(seqs_view(new_work@)).insert(t).contains(x) == family_ids(
                                pre.take(w as int + 1),
                            ).insert(t).contains(x) by {
                            if x != t {
                                assert(family_ids(nw_pre).insert(t).contains(x) == family_ids(
                                    pre.take(w as int),
                                ).insert(t).contains(x));
                                assert(list_ids(work@[w as int]@).contains(x) == list_ids(
                                    rest@,
                                ).insert(t).contains(x));
                            }
                        }
                        assert(family_ids(seqs_view(new_work@)).insert(t) =~= family_ids(
                            pre.take(w as int + 1),
                        ).insert(t));
                    }
                }
                proof {
                    struck = true;
                }
            } else {
                proof {
                    assert(w as int != chosen_at);
                    assert(!list_ids(work@[w as int]@).contains(t)) by {
                        if list_ids(work@[w as int]@).contains(t) {
                            let p0 = choose|p0: int|
                                0 <= p0 < work@[w as int]@.len() && work@[w as int]@[p0] == t;
                        }
                    }
                }
                let kept = crate::value::clone_ids(&work[w]);
                new_work.push(kept);
                proof {
                    assert(seqs_view(new_work@).drop_last() =~= nw_pre);
                    assert(total_len(seqs_view(new_work@)) == total_len(nw_pre)
                        + work@[w as int]@.len());
                    assert(family_ids(seqs_view(new_work@)) =~= family_ids(nw_pre).union(
                        list_ids(work@[w as int]@),
                    ));
                    assert(family_ids(pre.take(w as int + 1)) =~= family_ids(
                        pre.take(w as int),
                    ).union(list_ids(work@[w as int]@)));
                    assert forall|x: u64|
                        family_ids(seqs_view(new_work@)).insert(t).contains(x) == family_ids(
                            pre.take(w as int + 1),
                        ).insert(t).contains(x) by {
                        if x != t {
                            assert(family_ids(nw_pre).insert(t).contains(x) == family_ids(
                                pre.take(w as int),
                            ).insert(t).contains(x));
                        }
                    }
                    assert(family_ids(seqs_view(new_work@)).insert(t) =~= family_ids(
                        pre.take(w as int + 1),
                    ).insert(t));
                }
            }
            w = w + 1;
        }
        proof {
            assert(pre.take(work@.len() as int) =~= pre);
            assert(struck);
            assert(total_len(seqs_view(new_work@)) <= total_len(pre) - 1);
            lemma_total_len_nonneg(seqs_view(new_work@));
            // The candidate moved from the working lists into the output;
            // every other identifier stayed put.
            assert(list_ids(mro@) =~= list_ids(omro).insert(t)) by {
                assert forall|x: u64| list_ids(mro@).contains(x) implies list_ids(omro).insert(
                    t,
                ).contains(x) by {
                    let p0 = choose|p0: int| 0 <= p0 < mro@.len() && mro@[p0] == x;
                    if p0 < omro.len() {
                        assert(omro[p0] == x);
                    }
                }
                assert forall|x: u64| list_ids(omro).insert(t).contains(x) implies list_ids(
                    mro@,
                ).contains(x) by {
                    if x != t && list_ids(omro).contains(x) {
                        let p0 = choose|p0: int| 0 <= p0 < omro.len() && omro[p0] == x;
                        assert(mro@[p0] == x);
                    } else {
                        assert(mro@[mro@.len() - 1] == t);
                    }
                }
            }
            assert(list_ids(pre[chosen_at]).contains(t)) by {
                assert(pre[chosen_at][0] == t);
            }
            assert(family_ids(pre).contains(t)) by {
                lemma_family_ids(pre, t);
                assert(pre[chosen_at].contains(t));
            }
            assert forall|x: u64|
                family_ids(seqs_view(new_work@)).union(list_ids(mro@)).contains(x) == family_ids(
                    pre,
                ).union(list_ids(omro)).contains(x) by {
                if x == t {
                    assert(list_ids(mro@).contains(t));
                    assert(family_ids(pre).contains(t));
                } else {
                    assert(family_ids(seqs_view(new_work@)).insert(t).contains(x) == family_ids(
                        pre,
                    ).insert(t).contains(x));
                    assert(list_ids(mro@).contains(x) == list_ids(omro).insert(t).contains(x));
                }
            }
            assert(family_ids(seqs_view(new_work@)).union(list_ids(mro@)) =~= family_ids(
                pre,
            ).union(list_ids(omro)));
        }
        work = new_work;
    }
}

/// The views of a vector of index lists.
pub open spec fn seqs_view(s: Seq<Vec<u64>>) -> Seq<Seq<u64>> {
    Seq::new(
        s.len(),
        |i: int|
            if 0 <= i < s.len() {
                s[i]@
            } else {
                Seq::empty()
            },
    )
}


/// Whether a list of names contains the given name.
pub fn contains_str(v: &Vec<String>, s: &String) -> (r: bool)
    ensures
        r == (exists|i: int| 0 <= i < v@.len() && (#[trigger] v@[i]@) == s@),
{
    let mut i: usize = 0;
    while i < v.len()
        invariant
            i <= v@.len(),
            forall|j: int| 0 <= j < i ==> (#[trigger] v@[j]@) != s@,
        decreases v@.len() - i,
    {
        if v[i] == *s {
            return true;
        }
        i = i + 1;
    }
    false
}

/// Whether a list of slot indexes contains the given index.
fn contains_u8(v: &Vec<u8>, x: u8) -> (r: bool)
    ensures
        r == (exists|i: int| 0 <= i < v@.len() && (#[trigger] v@[i]) == x),
{
    let mut i: usize = 0;
    while i < v.len()
        invariant
            i <= v@.len(),
            forall|j: int| 0 <= j < i ==> (#[trigger] v@[j]) != x,
        decreases v@.len() - i,
    {
        if v[i] == x {
            return true;
        }
        i = i + 1;
    }
    false
}

/// The position of a member of the given name, if one exists.
fn find_member_pos(ms: &Vec<(String, Rc<Member>)>, name: &String) -> (r: Option<usize>)
    ensures
        match r {
            Some(p) => p < ms@.len() && ms@[p as int].0@ == name@,
            None => !has_member(ms@, name@),
        },
{
    let mut i: usize = 0;
    while i < ms.len()
        invariant
            i <= ms@.len(),
            forall|j: int| 0 <= j < i ==> (#[trigger] ms@[j].0@) != name@,
        decreases ms@.len() - i,
    {
        if ms[i].0 == *name {
            return Some(i);
        }
        i = i + 1;
    }
    None
}

/// Insert a member under a name, replacing any member already bound to it;
/// names stay pairwise distinct.
fn upsert_member(ms: &mut Vec<(String, Rc<Member>)>, name: String, m: Rc<Member>)
    requires
        member_names_unique(old(ms)@),
    ensures
        member_names_unique(final(ms)@),
        has_member(final(ms)@, name@),
        forall|n: Seq<char>|
            #[trigger] has_member(old(ms)@, n) ==> has_member(final(ms)@, n),
{
    let ghost oms = ms@;
    match find_member_pos(ms, &name) {
        Some(p) => {
            let ghost gname = name@;
            ms.set(p, (name, m));
            proof {
                assert(ms@[p as int].0@ == gname);
                assert forall|n: Seq<char>| #[trigger] has_member(oms, n) implies has_member(
                    ms@,
                    n,
                ) by {
                    let w = choose|w: int| 0 <= w < oms.len() && oms[w].0@ == n;
                    if w == p as int {
                        assert(ms@[p as int].0@ == n);
                    } else {
                        assert(ms@[w].0@ == n);
                    }
                }
            }
        },
        None => {
            ms.push((name, m));
            proof {
                assert(ms@[ms@.len() - 1].0@ == ms@.last().0@);
                assert forall|n: Seq<char>| #[trigger] has_member(oms, n) implies has_member(
                    ms@,
                    n,
                ) by {
                    let w = choose|w: int| 0 <= w < oms.len() && oms[w].0@ == n;
                    assert(ms@[w].0@ == n);
                }
            }
        },
    }
}


/// First pass of collision repair: the indexes claimed first, and a mark for
/// every member whose index was already claimed by an earlier one.
fn detect_conflicts(members: &Vec<(String, Rc<Member>)>) -> (r: (
    Vec<u8>,
    Vec<bool>,
    Ghost<Seq<int>>,
    Ghost<Seq<int>>,
))
    ensures
        ({
            let (taken, conflict, pos, owner) = r;
            &&& conflict@.len() == members@.len()
            &&& pos@.len() == members@.len()
            &&& owner@.len() == taken@.len()
            &&& forall|i: int|
                0 <= i < members@.len() && !conflict@[i] ==> 0 <= #[trigger] pos@[i]
                    < taken@.len() && taken@[pos@[i]] == members@[i].1.slot_index
            &&& forall|k: int|
                0 <= k < taken@.len() ==> 0 <= #[trigger] owner@[k] < members@.len()
                    && !conflict@[owner@[k]] && members@[owner@[k]].1.slot_index == taken@[k]
            &&& forall|i: int, j: int|
                0 <= i < j < members@.len() && !conflict@[i] && !conflict@[j] ==> (
                #[trigger] members@[i].1.slot_index) != (#[trigger] members@[j].1.slot_index)
        }),
{
    let mut taken: Vec<u8> = Vec::new();
    let mut conflict: Vec<bool> = Vec::new();
    let ghost mut tpos: Seq<int> = Seq::empty();
    let ghost mut towner: Seq<int> = Seq::empty();
    let mut mi: usize = 0;
    while mi < members.len()
        invariant
            mi <= members@.len(),
            conflict@.len() == mi,
            tpos.len() == mi,
            towner.len() == taken@.len(),
            forall|i: int|
                0 <= i < mi && !conflict@[i] ==> 0 <= #[trigger] tpos[i] < taken@.len()
                    && taken@[tpos[i]] == members@[i].1.slot_index,
            forall|k: int|
                0 <= k < taken@.len() ==> 0 <= #[trigger] towner[k] < mi && !conflict@[towner[k]]
                    && members@[towner[k]].1.slot_index == taken@[k],
            forall|i: int, j: int|
                0 <= i < j < mi && !conflict@[i] && !conflict@[j] ==> (
                #[trigger] members@[i].1.slot_index) != (#[trigger] members@[j].1.slot_index),
        decreases members@.len() - mi,
    {
        let idx = members[mi].1.index();
        if contains_u8(&taken, idx) {
            conflict.push(true);
            proof {
                tpos = tpos.push(0);
            }
        } else {
            taken.push(idx);
            conflict.push(false);
            proof {
                tpos = tpos.push(taken@.len() - 1);
                towner = towner.push(mi as int);
                assert(taken@[taken@.len() - 1] == members@[mi as int].1.slot_index);
                assert forall|i: int, j: int|
                    0 <= i < j < mi + 1 && !conflict@[i] && !conflict@[j] implies (
                #[trigger] members@[i].1.slot_index) != (#[trigger] members@[j].1.slot_index) by {
                    if j == mi as int {
                        assert(taken@[tpos[i]] == members@[i].1.slot_index);
                    }
                }
            }
        }
        mi = mi + 1;
    }
    (taken, conflict, Ghost(tpos), Ghost(towner))
}

/// Construct a record type: merge the base linearizations, collect the
/// inherited descriptors along the merged order (later types take
/// precedence), repair slot-index collisions by cloning the colliding
/// descriptor at a fresh index, give every newly declared attribute an
/// index, check each behavior's method reference against the methods
/// visible on the type, and finalize.
///
/// The finished type binds each declared name, binds each name once, no two
/// of its descriptors share a slot index, and each non-inheriting declared
/// attribute's descriptor carries exactly what its builder configured
/// (unless a later declaration of the same name replaced it).  Construction
/// fails only for a frozen base, an inconsistent hierarchy, an exhausted
/// slot-index space, an unresolved method reference or an inheritance
/// request with nothing to inherit; with no bases, resolvable references,
/// no inheritance requests, and at most as many attributes as slots,
/// construction succeeds.  A frozen direct base is reported before the
/// hierarchy is merged.
/// The inputs on which construction is promised to succeed: no bases, at
/// most as many declared attributes as the slot space holds, no inheritance
/// requests, and every behavior reference resolving against the type's own
/// methods.
pub open spec fn plain_declaration(
    bases: Seq<Rc<AtorsType>>,
    own_builders: Seq<(String, MemberBuilder)>,
    own_methods: Seq<String>,
) -> bool {
    &&& bases.len() == 0
    &&& own_builders.len() <= MAX_SLOTS
    &&& forall|k: int|
        0 <= k < own_builders.len() ==> !(#[trigger] own_builders[k].1).inherit && refs_ok(
            own_builders[k].1,
            own_methods,
        )
}

#[verifier::spinoff_prover]
pub fn create_ators_subclass(
    type_id: u64,
    name: String,
    bases: Vec<Rc<AtorsType>>,
    own_builders: Vec<(String, MemberBuilder)>,
    own_methods: Vec<String>,
    frozen: bool,
) -> (r: Result<AtorsType, Error>)
    ensures
        match r {
            Ok(t) => {
                &&& t.type_id == type_id
                &&& t.name@ == name@
                &&& t.frozen == frozen
                &&& member_names_unique(t.members@)
                &&& member_indices_unique(t.members@)
                &&& !frozen ==> (forall|i: int|
                    0 <= i < t.mro@.len() ==> !(#[trigger] t.mro@[i]).frozen)
                &&& forall|k: int|
                    0 <= k < own_builders@.len() ==> has_member(
                        t.members@,
                        (#[trigger] own_builders@[k].0@),
                    )
                &&& forall|j: int, mi: int|
                    0 <= j < t.mro@.len() && 0 <= mi < (#[trigger] t.mro@[j]).members@.len()
                        && known_method(t.mro@[j].specific@, #[trigger] t.mro@[j].members@[mi].0@)
                        ==> has_member(t.members@, t.mro@[j].members@[mi].0@)
                &&& forall|bi: int|
                    0 <= bi < bases@.len() ==> mro_contains_id(
                        t.mro@,
                        (#[trigger] bases@[bi]).type_id,
                    )
                &&& forall|k: int|
                    0 <= k < own_builders@.len() && !(#[trigger] own_builders@[k].1).inherit && (
                    forall|k2: int|
                        k < k2 < own_builders@.len() ==> (#[trigger] own_builders@[k2].0@)
                            != own_builders@[k].0@) ==> crate::member::built_matches(
                        *lookup_member(t.members@, own_builders@[k].0@),
                        own_builders@[k].1,
                    )
            },
            Err(e) => {
                ||| e is FrozenBase
                ||| e is InconsistentHierarchy
                ||| e is SlotsExhausted
                ||| e is UnknownMethod
                ||| e is UnknownInheritedMember
            },
        },
        (!frozen && (exists|i: int| 0 <= i < bases@.len() && (#[trigger] bases@[i]).frozen))
            ==> r is Err,
        plain_declaration(bases@, own_builders@, own_methods@) ==> r is Ok,
{
    // A non-frozen type must not inherit from a frozen one; direct bases are
    // checked up front.
    let mut bi: usize = 0;
    while bi < bases.len()
        invariant
            bi <= bases@.len(),
            !frozen ==> forall|j: int| 0 <= j < bi ==> !(#[trigger] bases@[j]).frozen,
        decreases bases@.len() - bi,
    {
        if !frozen && bases[bi].is_frozen_type() {
            return Err(
                Error::FrozenBase { base: bases[bi].name.clone(), sub: name },
            );
        }
        bi = bi + 1;
    }
    // Merge the linearizations.
    let mut inputs: Vec<Vec<u64>> = Vec::new();
    let mut pool: Vec<Rc<AtorsType>> = Vec::new();
    let mut bi: usize = 0;
    while bi < bases.len()
        invariant
            bi <= bases@.len(),
            inputs@.len() == bi,
            forall|q: int|
                0 <= q < bi ==> (#[trigger] inputs@[q]@).len() > 0 && inputs@[q]@[0] == bases@[
                    q
                ].type_id,
        decreases bases@.len() - bi,
    {
        let base = &bases[bi];
        let mut lin: Vec<u64> = Vec::new();
        lin.push(base.type_id);
        let mut ai: usize = 0;
        while ai < base.mro.len()
            invariant
                ai <= base.mro@.len(),
                bi < bases@.len(),
                lin@.len() > 0,
                lin@[0] == bases@[bi as int].type_id,
            decreases base.mro@.len() - ai,
        {
            lin.push(base.mro[ai].type_id);
            ai = ai + 1;
        }
        inputs.push(lin);
        proof {
            assert(inputs@.last()@[0] == bases@[bi as int].type_id);
        }
        pool.push(bases[bi].clone());
        let mut ai: usize = 0;
        while ai < base.mro.len()
            invariant
                ai <= base.mro@.len(),
            decreases base.mro@.len() - ai,
        {
            pool.push(base.mro[ai].clone());
            ai = ai + 1;
        }
        bi = bi + 1;
    }
    let merged = match c3_merge(&inputs, &name) {
        Ok(m) => m,
        Err(e) => {
            proof {
                if bases@.len() == 0 {
                    assert(false);
                }
            }
            return Err(e);
        },
    };
    proof {
        if bases@.len() == 0 {
            assert(merged@.len() == 0) by {
                if merged@.len() > 0 {
                    assert(list_ids(merged@).contains(merged@[0]));
                    assert(seqs_view(inputs@) =~= Seq::<Seq<u64>>::empty());
                    assert(family_ids(seqs_view(inputs@)) =~= Set::<u64>::empty());
                }
            }
        }
    }
    // Resolve the merged identifiers back to types.
    let mut lin_types: Vec<Rc<AtorsType>> = Vec::new();
    let mut mi: usize = 0;
    while mi < merged.len()
        invariant
            mi <= merged@.len(),
            lin_types@.len() == mi,
            bases@.len() == 0 ==> merged@.len() == 0,
            forall|q: int| 0 <= q < mi ==> (#[trigger] lin_types@[q]).type_id == merged@[q],
        decreases merged@.len() - mi,
    {
        let id = merged[mi];
        let mut found: Option<usize> = None;
        let mut pi: usize = 0;
        while pi < pool.len() && found.is_none()
            invariant
                pi <= pool@.len(),
                found matches Some(p) ==> p < pool@.len() && pool@[p as int].type_id == id,
            decreases pool@.len() - pi, (if found is None {
                1int
            } else {
                0int
            }),
        {
            if pool[pi].type_id == id {
                found = Some(pi);
            } else {
                pi = pi + 1;
            }
        }
        proof {
            if bases@.len() == 0 {
                assert(false);
            }
        }
        match found {
            Some(p) => {
                lin_types.push(pool[p].clone());
                proof {
                    assert(lin_types@.last().type_id == merged@[mi as int]);
                }
            },
            None => {
                return Err(Error::InconsistentHierarchy { owner: name });
            },
        }
        mi = mi + 1;
    }
    // Collect inherited members, walking the linearization in reverse so
    // that attributes overridden nearer the new type take precedence; only
    // each ancestor's own attributes are pulled in.  An ancestor frozen
    // while the new type is not rejects construction.
    let mut members: Vec<(String, Rc<Member>)> = Vec::new();
    let mut li: usize = lin_types.len();
    while li > 0
        invariant
            li <= lin_types@.len(),
            member_names_unique(members@),
            bases@.len() == 0 ==> lin_types@.len() == 0 && members@.len() == 0,
            !frozen ==> (forall|j: int|
                li <= j < lin_types@.len() ==> !(#[trigger] lin_types@[j]).frozen),
            forall|j: int, mi2: int|
                li <= j < lin_types@.len() && 0 <= mi2 < lin_types@[j].members@.len()
                    && known_method(
                    lin_types@[j].specific@,
                    (#[trigger] lin_types@[j].members@[mi2]).0@,
                ) ==> has_member(members@, lin_types@[j].members@[mi2].0@),
        decreases li,
    {
        li = li - 1;
        let anc = &lin_types[li];
        if !frozen && anc.is_frozen_type() {
            return Err(
                Error::FrozenBase { base: anc.name.clone(), sub: name },
            );
        }
        let mut ai: usize = 0;
        while ai < anc.members.len()
            invariant
                ai <= anc.members@.len(),
                li < lin_types@.len(),
                anc == lin_types@[li as int],
                member_names_unique(members@),
                bases@.len() == 0 ==> lin_types@.len() == 0 && members@.len() == 0,
                forall|j: int, mi2: int|
                    li + 1 <= j < lin_types@.len() && 0 <= mi2 < lin_types@[j].members@.len()
                        && known_method(
                        lin_types@[j].specific@,
                        (#[trigger] lin_types@[j].members@[mi2]).0@,
                    ) ==> has_member(members@, lin_types@[j].members@[mi2].0@),
                forall|mi2: int|
                    0 <= mi2 < ai && known_method(
                        anc.specific@,
                        (#[trigger] anc.members@[mi2]).0@,
                    ) ==> has_member(members@, anc.members@[mi2].0@),
            decreases anc.members@.len() - ai,
        {
            if contains_str(&anc.specific, &anc.members[ai].0) {
                let mn = anc.members[ai].0.clone();
                let mm = anc.members[ai].1.clone();
                upsert_member(&mut members, mn, mm);
                proof {
                    assert(has_member(members@, anc.members@[ai as int].0@));
                }
            }
            ai = ai + 1;
        }
    }
    // Detect index collisions: the first claimant of an index keeps it,
    // every later claimant is marked for repair.
    let (taken, conflict, tpos_g, towner_g) = detect_conflicts(&members);
    let ghost tpos = tpos_g@;
    let ghost towner = towner_g@;
    proof {
        if members@.len() == 0 {
            assert(taken@.len() == 0) by {
                if taken@.len() > 0 {
                    assert(0 <= towner[0] < members@.len());
                }
            }
        }
    }
    let mut factory = FreeSlotIndexFactory::new(&taken);
    let ghost init_occ = factory.occupied@;
    proof {
        assert forall|q: int|
            0 <= q < members@.len() && !conflict@[q] implies init_occ[(
            #[trigger] members@[q].1.slot_index) as int] by {
            assert(taken@[tpos[q]] == members@[q].1.slot_index);
        }
    }
    let mut resolved: Vec<(String, Rc<Member>)> = Vec::new();
    let mut mi: usize = 0;
    while mi < members.len()
        invariant
            mi <= members@.len(),
            factory_wf(factory),
            init_occ.len() == 256,
            resolved@.len() == mi,
            conflict@.len() == members@.len(),
            member_names_unique(members@),
            forall|i: int| 0 <= i < mi ==> (#[trigger] resolved@[i].0@) == members@[i].0@,
            forall|i: int|
                0 <= i < mi && !conflict@[i] ==> (#[trigger] resolved@[i].1.slot_index)
                    == members@[i].1.slot_index,
            forall|i: int|
                0 <= i < mi && conflict@[i] ==> !init_occ[(
                #[trigger] resolved@[i].1.slot_index) as int],
            forall|i: int|
                0 <= i < mi ==> factory.occupied@[(#[trigger] resolved@[i].1.slot_index) as int],
            forall|b: int| 0 <= b < 256 && init_occ[b] ==> factory.occupied@[b],
            forall|i: int, j: int|
                0 <= i < j < members@.len() && !conflict@[i] && !conflict@[j] ==> (
                #[trigger] members@[i].1.slot_index) != (#[trigger] members@[j].1.slot_index),
            forall|q: int|
                0 <= q < members@.len() && !conflict@[q] ==> init_occ[(
                #[trigger] members@[q].1.slot_index) as int],
            member_indices_unique(resolved@),
            bases@.len() == 0 ==> members@.len() == 0 && factory.occupied@ == init_occ
                && factory.next_index == 0,
        decreases members@.len() - mi,
    {
        proof {
            if bases@.len() == 0 {
                assert(false);
            }
        }
        if conflict[mi] {
            let ni = match factory.next_index() {
                Ok(n) => n,
                Err(u) => {
                    return Err(Error::SlotsExhausted { owner: name });
                },
            };
            let repl = Rc::new(members[mi].1.clone_with_index(ni));
            let mn = members[mi].0.clone();
            resolved.push((mn, repl));
            proof {
                assert(resolved@.last().1.slot_index == ni);
                assert(member_indices_unique(resolved@));
            }
        } else {
            let mn = members[mi].0.clone();
            let mm = members[mi].1.clone();
            resolved.push((mn, mm));
            proof {
                assert(resolved@.last().1.slot_index == members@[mi as int].1.slot_index);
                assert(member_indices_unique(resolved@));
            }
        }
        mi = mi + 1;
    }
    proof {
        assert(member_names_unique(resolved@));
    }
    // The methods visible on the new type: everything its bases expose plus
    // what it defines itself.
    let mut methods: Vec<String> = Vec::new();
    let mut bi: usize = 0;
    while bi < bases.len()
        invariant
            bi <= bases@.len(),
        decreases bases@.len() - bi,
    {
        let base = &bases[bi];
        let mut ki: usize = 0;
        while ki < base.methods.len()
            invariant
                ki <= base.methods@.len(),
                bi < bases@.len(),
            decreases base.methods@.len() - ki,
        {
            if !contains_str(&methods, &base.methods[ki]) {
                methods.push(base.methods[ki].clone());
            }
            ki = ki + 1;
        }
        bi = bi + 1;
    }
    let mut ki: usize = 0;
    while ki < own_methods.len()
        invariant
            ki <= own_methods@.len(),
            forall|j: int| 0 <= j < ki ==> known_method(methods@, (#[trigger] own_methods@[j]@)),
        decreases own_methods@.len() - ki,
    {
        let ghost omethods = methods@;
        if !contains_str(&methods, &own_methods[ki]) {
            methods.push(own_methods[ki].clone());
            proof {
                assert(methods@.last()@ == own_methods@[ki as int]@);
                assert forall|j: int|
                    0 <= j < ki + 1 implies known_method(
                    methods@,
                    (#[trigger] own_methods@[j]@),
                ) by {
                    if j < ki {
                        let w = choose|w: int|
                            0 <= w < omethods.len() && omethods[w]@ == own_methods@[j]@;
                        assert(methods@[w]@ == own_methods@[j]@);
                    } else {
                        assert(methods@[methods@.len() - 1]@ == own_methods@[j]@);
                    }
                }
            }
        } else {
            proof {
                assert(known_method(methods@, own_methods@[ki as int]@));
            }
        }
        ki = ki + 1;
    }
    // New and overriding attributes: an attribute matching an inherited name
    // reuses that attribute's index and may inherit its unset behaviors; a
    // genuinely new attribute receives the next free index.  Every behavior
    // that references a method by name must resolve against the visible
    // methods.
    let mut specific: Vec<String> = Vec::new();
    let ghost base_resolved = resolved@;
    proof {
        assert forall|n: Seq<char>| #[trigger] has_member(members@, n) implies has_member(
            base_resolved,
            n,
        ) by {
            let w = choose|w: int| 0 <= w < members@.len() && members@[w].0@ == n;
            assert(resolved@[w].0@ == n);
        }
    }
    let mut own = own_builders;
    let ghost own0 = own@;
    proof {
        assert(own0 == own_builders@);
    }
    let ghost mut processed: int = 0;
    let ghost mut own_pos: Seq<int> = Seq::empty();
    let ghost mut granted: int = 0;
    proof {
        if plain_declaration(bases@, own_builders@, own_methods@) {
            assert(members@.len() == 0);
            assert(resolved@.len() == 0);
            assert(taken@.len() == 0);
            assert(factory.occupied@ == init_occ);
            assert forall|bb: int| 0 <= bb < 256 implies !factory.occupied@[bb] by {
                if init_occ[bb] {
                    assert(exists|w: int| 0 <= w < taken@.len() && taken@[w] == bb);
                }
            }
        }
        assert(own@ =~= own0.skip(0));
    }
    while own.len() > 0
        invariant
            own0 == own_builders@,
            forall|n: Seq<char>|
                #[trigger] has_member(base_resolved, n) ==> has_member(resolved@, n),
            factory_wf(factory),
            0 <= processed <= own0.len(),
            own@ == own0.skip(processed),
            own_pos.len() == processed,
            member_names_unique(resolved@),
            member_indices_unique(resolved@),
            forall|i: int|
                0 <= i < resolved@.len() ==> factory.occupied@[(
                #[trigger] resolved@[i].1.slot_index) as int],
            forall|j: int| 0 <= j < own_methods@.len() ==> known_method(
                methods@,
                (#[trigger] own_methods@[j]@),
            ),
            forall|k: int|
                0 <= k < processed ==> 0 <= #[trigger] own_pos[k] < resolved@.len()
                    && resolved@[own_pos[k]].0@ == own0[k].0@,
            forall|k: int|
                0 <= k < processed && !(#[trigger] own0[k].1).inherit && (forall|k2: int|
                    k < k2 < processed ==> (#[trigger] own0[k2].0@) != own0[k].0@)
                    ==> crate::member::built_matches(*resolved@[own_pos[k]].1, own0[k].1),
            plain_declaration(bases@, own_builders@, own_methods@) ==> {
                &&& 0 <= granted <= processed
                &&& resolved@.len() <= processed
                &&& (forall|bb: int| 0 <= bb < 256 ==> (factory.occupied@[bb] <==> bb < granted))
                &&& (granted == 0 ==> factory.next_index == 0)
                &&& (granted > 0 ==> factory.next_index as int == granted - 1)
            },
        decreases own@.len(),
    {
        let ghost oldown = own@;
        let (bname, mut b) = own.remove(0);
        proof {
            assert(oldown == own0.skip(processed));
            assert(oldown.len() > 0);
            assert(0 <= processed < own0.len());
            assert(own@ =~= oldown.skip(1));
            assert(own0.skip(processed).skip(1) =~= own0.skip(processed + 1));
            assert(own@ =~= own0.skip(processed + 1));
            assert(oldown[0] == own0[processed]);
            assert(bname == own0[processed].0);
            assert(b == own0[processed].1);
        }
        b.name = Some(bname.clone());
        match check_method_refs(&bname, &b, &methods) {
            Err(e) => {
                proof {
                    if plain_declaration(bases@, own_builders@, own_methods@) {
                        assert(0 <= processed < own_builders@.len()) by {
                            assert(own0.skip(processed).len() > 0);
                        }
                        assert(!own_builders@[processed].1.inherit && refs_ok(
                            own_builders@[processed].1,
                            own_methods@,
                        ));
                        assert(refs_ok(b, own_methods@));
                        lemma_refs_ok_mono(b, own_methods@, methods@);
                        assert(false);
                    }
                }
                return Err(e);
            },
            Ok(u) => {},
        }
        let pos = find_member_pos(&resolved, &bname);
        let ghost opos = own_pos;
        let ghost oresolved = resolved@;
        match pos {
            Some(p) => {
                let existing = resolved[p].1.clone();
                b.slot_index = Some(existing.index());
                if b.should_inherit() {
                    b.get_inherited_behavior_from_member(&existing);
                }
                let built = match b.build(&name) {
                    Ok(m) => m,
                    Err(e) => {
                        proof {
                            assert(false);
                        }
                        return Err(e);
                    },
                };
                resolved.set(p, (bname.clone(), Rc::new(built)));
                proof {
                    assert forall|n: Seq<char>| #[trigger] has_member(base_resolved, n) implies
                        has_member(resolved@, n) by {
                        assert(has_member(oresolved, n));
                        let w = choose|w: int| 0 <= w < oresolved.len() && oresolved[w].0@ == n;
                        if w == p as int {
                            assert(resolved@[p as int].0@ == bname@);
                            assert(oresolved[p as int].0@ == bname@);
                        } else {
                            assert(resolved@[w].0@ == n);
                        }
                    }
                    own_pos = own_pos.push(p as int);
                    assert(member_names_unique(resolved@));
                    assert(member_indices_unique(resolved@));
                    assert forall|k: int|
                        0 <= k < processed + 1 implies 0 <= #[trigger] own_pos[k]
                        < resolved@.len() && resolved@[own_pos[k]].0@ == own0[k].0@ by {
                        if k < processed {
                            if opos[k] == p as int {
                                assert(oresolved[p as int].0@ == bname@);
                            }
                        }
                    }
                    assert forall|k: int|
                        0 <= k < processed + 1 && !(#[trigger] own0[k].1).inherit && (forall|
                            k2: int,
                        |
                            k < k2 < processed + 1 ==> (#[trigger] own0[k2].0@) != own0[k].0@)
                            implies crate::member::built_matches(
                        *resolved@[own_pos[k]].1,
                        own0[k].1,
                    ) by {
                        if k < processed {
                            assert(own0[processed].0@ != own0[k].0@);
                            assert(oresolved[opos[k]].0@ == own0[k].0@);
                            assert(own_pos[k] != p as int);
                        }
                    }
                }
            },
            None => {
                if b.should_inherit() {
                    proof {
                        if plain_declaration(bases@, own_builders@, own_methods@) {
                            assert(0 <= processed < own_builders@.len()) by {
                                assert(own0.skip(processed).len() > 0);
                            }
                            assert(!own_builders@[processed].1.inherit);
                            assert(false);
                        }
                    }
                    return Err(
                        Error::UnknownInheritedMember { member: bname, owner: name },
                    );
                }
                let ghost ofac = factory;
                proof {
                    if plain_declaration(bases@, own_builders@, own_methods@) {
                        assert(own0.skip(processed).len() > 0);
                        assert(processed < own0.len());
                    }
                }
                let ni = match factory.next_index() {
                    Ok(n) => n,
                    Err(u) => {
                        proof {
                            if plain_declaration(bases@, own_builders@, own_methods@) {
                                assert(granted < MAX_SLOTS);
                                assert(!ofac.occupied@[granted]);
                                assert(ofac.next_index as int <= granted);
                                assert(false);
                            }
                        }
                        return Err(Error::SlotsExhausted { owner: name });
                    },
                };
                b.slot_index = Some(ni);
                let built = match b.build(&name) {
                    Ok(m) => m,
                    Err(e) => {
                        proof {
                            assert(false);
                        }
                        return Err(e);
                    },
                };
                resolved.push((bname.clone(), Rc::new(built)));
                proof {
                    assert forall|n: Seq<char>| #[trigger] has_member(base_resolved, n) implies
                        has_member(resolved@, n) by {
                        assert(has_member(oresolved, n));
                        let w = choose|w: int| 0 <= w < oresolved.len() && oresolved[w].0@ == n;
                        assert(resolved@[w].0@ == n);
                    }
                    own_pos = own_pos.push(resolved@.len() - 1);
                    assert(resolved@.last().1.slot_index == ni);
                    assert(member_names_unique(resolved@));
                    assert(member_indices_unique(resolved@));
                    assert forall|k: int|
                        0 <= k < processed + 1 implies 0 <= #[trigger] own_pos[k]
                        < resolved@.len() && resolved@[own_pos[k]].0@ == own0[k].0@ by {
                        if k < processed {
                            assert(oresolved[opos[k]] == resolved@[own_pos[k]]);
                        }
                    }
                    assert forall|k: int|
                        0 <= k < processed + 1 && !(#[trigger] own0[k].1).inherit && (forall|
                            k2: int,
                        |
                            k < k2 < processed + 1 ==> (#[trigger] own0[k2].0@) != own0[k].0@)
                            implies crate::member::built_matches(
                        *resolved@[own_pos[k]].1,
                        own0[k].1,
                    ) by {
                        if k < processed {
                            assert(oresolved[opos[k]] == resolved@[own_pos[k]]);
                        }
                    }
                    if plain_declaration(bases@, own_builders@, own_methods@) {
                        assert(ni as int == granted) by {
                            if (ni as int) < granted {
                                assert(ofac.occupied@[ni as int]);
                            }
                            if (ni as int) > granted {
                                assert(ofac.next_index as int <= granted);
                                assert(ofac.occupied@[granted]);
                            }
                        }
                        granted = granted + 1;
                        assert forall|bb: int|
                            0 <= bb < 256 implies (factory.occupied@[bb] <==> bb < granted) by {
                            assert(factory.occupied@ == ofac.occupied@.update(ni as int, true));
                        }
                    }
                }
            },
        }
        specific.push(bname);
        proof {
            processed = processed + 1;
        }
    }
    proof {
        assert(own0 == own_builders@);
        assert(own0.skip(processed) =~= own0.skip(own0.len() as int));
        assert(processed == own0.len()) by {
            if processed < own0.len() {
                assert(own0.skip(processed).len() > 0);
            }
        }
        assert forall|k: int|
            0 <= k < own_builders@.len() implies has_member(
            resolved@,
            (#[trigger] own_builders@[k].0@),
        ) by {
            assert(resolved@[own_pos[k]].0@ == own0[k].0@);
        }
        assert forall|k: int|
            0 <= k < own_builders@.len() && !(#[trigger] own_builders@[k].1).inherit && (forall|
                k2: int,
            |
                k < k2 < own_builders@.len() ==> (#[trigger] own_builders@[k2].0@)
                    != own_builders@[k].0@) implies crate::member::built_matches(
            *lookup_member(resolved@, own_builders@[k].0@),
            own_builders@[k].1,
        ) by {
            assert(resolved@[own_pos[k]].0@ == own0[k].0@);
            assert(crate::member::built_matches(*resolved@[own_pos[k]].1, own0[k].1));
            assert forall|j: int| 0 <= j < own_pos[k] implies (#[trigger] resolved@[j].0@)
                != own0[k].0@ by {
                assert(member_names_unique(resolved@));
            }
            lemma_lookup_member_first(resolved@, own0[k].0@, own_pos[k]);
        }
        assert forall|j: int, mi2: int|
            0 <= j < lin_types@.len() && 0 <= mi2 < lin_types@[j].members@.len() && known_method(
                lin_types@[j].specific@,
                (#[trigger] lin_types@[j].members@[mi2]).0@,
            ) implies has_member(resolved@, lin_types@[j].members@[mi2].0@) by {
            assert(has_member(members@, lin_types@[j].members@[mi2].0@));
            assert(has_member(base_resolved, lin_types@[j].members@[mi2].0@));
        }
        assert forall|bi: int|
            0 <= bi < bases@.len() implies mro_contains_id(
            lin_types@,
            (#[trigger] bases@[bi]).type_id,
        ) by {
            let id = bases@[bi].type_id;
            assert(inputs@[bi]@[0] == id);
            assert(list_ids(inputs@[bi]@).contains(id));
            assert(seqs_view(inputs@)[bi] == inputs@[bi]@);
            assert(family_ids(seqs_view(inputs@)).contains(id)) by {
                lemma_family_ids(seqs_view(inputs@), id);
            }
            assert(list_ids(merged@).contains(id));
            let pm = choose|pm: int| 0 <= pm < merged@.len() && merged@[pm] == id;
            assert(lin_types@[pm].type_id == id);
        }
    }
    Ok(
        AtorsType {
            type_id,
            name,
            frozen,
            mro: lin_types,
            members: resolved,
            specific,
            methods,
        },
    )
}

/// A builder whose references resolve against a type's own methods also
/// resolves against any method list that contains them all.
proof fn lemma_refs_ok_mono(b: MemberBuilder, own: Seq<String>, methods: Seq<String>)
    requires
        refs_ok(b, own),
        forall|j: int| 0 <= j < own.len() ==> known_method(methods, (#[trigger] own[j]@)),
    ensures
        refs_ok(b, methods),
{
    assert forall|n: Seq<char>| #[trigger] known_method(own, n) implies known_method(
        methods,
        n,
    ) by {
        let w = choose|w: int| 0 <= w < own.len() && own[w]@ == n;
        assert(known_method(methods, own[w]@));
    }
    match b.value_validators {
        Some(vvs) => {
            assert forall|i: int| 0 <= i < vvs@.len() implies vv_ref_ok(
                #[trigger] vvs@[i],
                methods,
            ) by {
                assert(vv_ref_ok(vvs@[i], own));
            }
        },
        None => {},
    }
}

/// Whether a method name is among the visible method names.
pub open spec fn known_method(methods: Seq<String>, name: Seq<char>) -> bool {
    exists|i: int| 0 <= i < methods.len() && (#[trigger] methods[i]@) == name
}

/// Whether one secondary constraint's method reference resolves.
pub open spec fn vv_ref_ok(vv: ValueValidator, methods: Seq<String>) -> bool {
    match vv {
        ValueValidator::ObjectMethod { meth_name } => known_method(methods, meth_name@),
        _ => true,
    }
}

/// Whether every method reference a builder's behaviors carry resolves
/// against the visible method names.
pub open spec fn refs_ok(b: MemberBuilder, methods: Seq<String>) -> bool {
    &&& match b.pre_getattr {
        Some(PreGetattrBehavior::ObjectMethod { meth_name }) => known_method(methods, meth_name@),
        _ => true,
    }
    &&& match b.post_getattr {
        Some(PostGetattrBehavior::ObjectMethod { meth_name }) => known_method(methods, meth_name@),
        _ => true,
    }
    &&& match b.pre_setattr {
        Some(PreSetattrBehavior::ObjectMethod { meth_name }) => known_method(methods, meth_name@),
        _ => true,
    }
    &&& match b.post_setattr {
        Some(PostSetattrBehavior::ObjectMethod { meth_name }) => known_method(methods, meth_name@),
        _ => true,
    }
    &&& match b.default {
        Some(DefaultBehavior::ObjectMethod { meth_name }) => known_method(methods, meth_name@),
        _ => true,
    }
    &&& match b.coerce {
        Some(Coercer::ObjectMethod { meth_name }) => known_method(methods, meth_name@),
        _ => true,
    }
    &&& match b.coerce_init {
        Some(Coercer::ObjectMethod { meth_name }) => known_method(methods, meth_name@),
        _ => true,
    }
    &&& match b.value_validators {
        Some(vvs) => forall|i: int| 0 <= i < vvs@.len() ==> vv_ref_ok(#[trigger] vvs@[i], methods),
        None => true,
    }
}

/// Check every method reference of a builder's behaviors against the
/// methods visible on the type; the first unresolved reference rejects
/// construction, naming the attribute and the behavior.
fn check_method_refs(
    member_name: &String,
    b: &MemberBuilder,
    methods: &Vec<String>,
) -> (r: Result<(), Error>)
    ensures
        r is Ok <==> refs_ok(*b, methods@),
        r matches Err(e) ==> e is UnknownMethod,
{
    match &b.pre_getattr {
        Some(PreGetattrBehavior::ObjectMethod { meth_name }) => {
            if !contains_str(methods, meth_name) {
                return Err(make_unknown_method_error(member_name, "pre_getattr", meth_name));
            }
        },
        _ => {},
    }
    match &b.post_getattr {
        Some(PostGetattrBehavior::ObjectMethod { meth_name }) => {
            if !contains_str(methods, meth_name) {
                return Err(make_unknown_method_error(member_name, "post_getattr", meth_name));
            }
        },
        _ => {},
    }
    match &b.pre_setattr {
        Some(PreSetattrBehavior::ObjectMethod { meth_name }) => {
            if !contains_str(methods, meth_name) {
                return Err(make_unknown_method_error(member_name, "pre_setattr", meth_name));
            }
        },
        _ => {},
    }
    match &b.post_setattr {
        Some(PostSetattrBehavior::ObjectMethod { meth_name }) => {
            if !contains_str(methods, meth_name) {
                return Err(make_unknown_method_error(member_name, "post_setattr", meth_name));
            }
        },
        _ => {},
    }
    match &b.default {
        Some(DefaultBehavior::ObjectMethod { meth_name }) => {
            if !contains_str(methods, meth_name) {
                return Err(make_unknown_method_error(member_name, "default", meth_name));
            }
        },
        _ => {},
    }
    match &b.coerce {
        Some(Coercer::ObjectMethod { meth_name }) => {
            if !contains_str(methods, meth_name) {
                return Err(make_unknown_method_error(member_name, "coerce", meth_name));
            }
        },
        _ => {},
    }
    match &b.coerce_init {
        Some(Coercer::ObjectMethod { meth_name }) => {
            if !contains_str(methods, meth_name) {
                return Err(make_unknown_method_error(member_name, "coerce_init", meth_name));
            }
        },
        _ => {},
    }
    if b.value_validators.is_some() {
        let vvs = b.value_validators.as_ref().unwrap();
        proof {
            assert(*vvs == b.value_validators->0);
        }
        let mut i: usize = 0;
        while i < vvs.len()
            invariant
                *vvs == b.value_validators->0,
                b.value_validators is Some,
                i <= vvs@.len(),
                forall|j: int| 0 <= j < i ==> vv_ref_ok(#[trigger] vvs@[j], methods@),
            decreases vvs@.len() - i,
        {
            match &vvs[i] {
                ValueValidator::ObjectMethod { meth_name } => {
                    if !contains_str(methods, meth_name) {
                        proof {
                            assert(!vv_ref_ok(vvs@[i as int], methods@));
                            assert(!refs_ok(*b, methods@)) by {
                                if refs_ok(*b, methods@) {
                                    assert(vv_ref_ok(vvs@[i as int], methods@));
                                }
                            }
                        }
                        return Err(
                            make_unknown_method_error(member_name, "value_validator", meth_name),
                        );
                    }
                },
                _ => {},
            }
            i = i + 1;
        }
    }
    Ok(())
}

impl AtorsType {
    /// Whether instances of this type freeze after creation.
    pub fn is_frozen_type(&self) -> (r: bool)
        ensures
            r == self.frozen,
    {
        self.frozen
    }
}


/// Retrieve a single member of a record type by name.
pub fn get_member<'a>(t: &'a AtorsType, member_name: &String) -> (r: Result<&'a Rc<Member>, Error>)
    ensures
        match r {
            Ok(m) => has_member(t.members@, member_name@) && *m == lookup_member(
                t.members@,
                member_name@,
            ),
            Err(e) => !has_member(t.members@, member_name@) && err_view(e)
                == (ErrorV::UnknownMember { name: member_name@ }),
        },
{
    let mut i: usize = 0;
    while i < t.members.len()
        invariant
            i <= t.members@.len(),
            forall|j: int| 0 <= j < i ==> (#[trigger] t.members@[j].0@) != member_name@,
        decreases t.members@.len() - i,
    {
        if t.members[i].0 == *member_name {
            proof {
                lemma_lookup_member_first(t.members@, member_name@, i as int);
            }
            return Ok(&t.members[i].1);
        }
        i = i + 1;
    }
    Err(Error::UnknownMember { name: member_name.clone() })
}

/// The first member bound to the given name.
pub open spec fn lookup_member(ms: Seq<(String, Rc<Member>)>, name: Seq<char>) -> Rc<Member>
    decreases ms.len(),
{
    if ms.len() == 0 {
        arbitrary()
    } else if ms.first().0@ == name {
        ms.first().1
    } else {
        lookup_member(ms.drop_first(), name)
    }
}

/// The first match in a member mapping is the lookup's result.
proof fn lemma_lookup_member_first(ms: Seq<(String, Rc<Member>)>, name: Seq<char>, i: int)
    requires
        0 <= i < ms.len(),
        ms[i].0@ == name,
        forall|j: int| 0 <= j < i ==> (#[trigger] ms[j].0@) != name,
    ensures
        has_member(ms, name),
        lookup_member(ms, name) == ms[i].1,
    decreases i,
{
    if i == 0 {
    } else {
        assert(ms.first().0@ != name);
        lemma_lookup_member_first(ms.drop_first(), name, i - 1);
        assert(ms.drop_first()[i - 1] == ms[i]);
    }
}

/// The member a lookup returns is bound in the mapping.
pub proof fn lemma_lookup_is_element(ms: Seq<(String, Rc<Member>)>, name: Seq<char>)
    requires
        has_member(ms, name),
    ensures
        exists|p: int|
            0 <= p < ms.len() && (#[trigger] ms[p]).1 == lookup_member(ms, name) && ms[p].0@
                == name,
    decreases ms.len(),
{
    if ms.len() > 0 {
        if ms.first().0@ == name {
            assert(ms[0].1 == lookup_member(ms, name));
        } else {
            assert(has_member(ms.drop_first(), name)) by {
                let w = choose|w: int| 0 <= w < ms.len() && ms[w].0@ == name;
                assert(ms.drop_first()[w - 1].0@ == name);
            }
            lemma_lookup_is_element(ms.drop_first(), name);
            let p = choose|p: int|
                0 <= p < ms.drop_first().len() && (#[trigger] ms.drop_first()[p]).1
                    == lookup_member(ms.drop_first(), name) && ms.drop_first()[p].0@ == name;
            assert(ms[p + 1].1 == lookup_member(ms, name));
        }
    }
}

/// All members of a record type, as name/descriptor pairs.
pub fn get_members<'a>(t: &'a AtorsType) -> (r: &'a Vec<(String, Rc<Member>)>)
    ensures
        r == &t.members,
{
    &t.members
}

/// Whether a member carries the given metadata tag.
pub open spec fn has_tag(m: Member, tag: Seq<char>) -> bool {
    match m.metadata {
        Some(md) => crate::validators::has_attr(crate::value::attr_views(md@), tag),
        None => false,
    }
}

/// The value a member carries under the given metadata tag.
pub open spec fn tag_value(m: Member, tag: Seq<char>) -> ValueV {
    match m.metadata {
        Some(md) => crate::validators::lookup_attr(crate::value::attr_views(md@), tag),
        None => ValueV::NoneValue,
    }
}


/// All members carrying the given metadata tag, each with the value stored
/// under the tag: exactly the tagged members, none lost and none invented.
pub fn get_members_by_tag(t: &AtorsType, tag: &String) -> (r: Vec<(String, Rc<Member>, Value)>)
    ensures
        forall|k: int|
            0 <= k < r@.len() ==> (exists|j: int|
                0 <= j < t.members@.len() && (#[trigger] r@[k]).0@ == t.members@[j].0@ && has_tag(
                    *t.members@[j].1,
                    tag@,
                ) && vview(r@[k].2) == tag_value(*t.members@[j].1, tag@)),
        forall|j: int|
            0 <= j < t.members@.len() && has_tag(*(#[trigger] t.members@[j].1), tag@) ==> (exists|
                k: int,
            |
                0 <= k < r@.len() && r@[k].0@ == t.members@[j].0@),
{
    let mut out: Vec<(String, Rc<Member>, Value)> = Vec::new();
    let ghost mut src_of: Seq<int> = Seq::empty();
    let ghost mut out_of: Seq<int> = Seq::empty();
    let mut i: usize = 0;
    while i < t.members.len()
        invariant
            i <= t.members@.len(),
            src_of.len() == out@.len(),
            out_of.len() == i,
            forall|k: int|
                0 <= k < out@.len() ==> 0 <= #[trigger] src_of[k] < t.members@.len() && out@[k].0@
                    == t.members@[src_of[k]].0@ && has_tag(*t.members@[src_of[k]].1, tag@) && vview(
                    out@[k].2,
                ) == tag_value(*t.members@[src_of[k]].1, tag@),
            forall|j: int|
                0 <= j < i && has_tag(*(#[trigger] t.members@[j].1), tag@) ==> 0 <= out_of[j]
                    < out@.len() && out@[out_of[j]].0@ == t.members@[j].0@,
        decreases t.members@.len() - i,
    {
        let m = &t.members[i].1;
        match m.metadata() {
            Some(md) => match crate::validators::find_attr(md, tag) {
                Some(v) => {
                    let nm = t.members[i].0.clone();
                    let rc = t.members[i].1.clone();
                    out.push((nm, rc, v));
                    proof {
                        src_of = src_of.push(i as int);
                        out_of = out_of.push(out@.len() - 1);
                        assert(out@.last().0@ == t.members@[i as int].0@);
                        assert(has_tag(*t.members@[i as int].1, tag@));
                        assert(vview(out@.last().2) == tag_value(*t.members@[i as int].1, tag@));
                    }
                },
                None => {
                    proof {
                        out_of = out_of.push(0);
                        assert(!has_tag(*t.members@[i as int].1, tag@));
                    }
                },
            },
            None => {
                proof {
                    out_of = out_of.push(0);
                }
            },
        }
        i = i + 1;
    }
    proof {
        assert forall|k: int|
            0 <= k < out@.len() implies (exists|j: int|
            0 <= j < t.members@.len() && (#[trigger] out@[k]).0@ == t.members@[j].0@ && has_tag(
                *t.members@[j].1,
                tag@,
            ) && vview(out@[k].2) == tag_value(*t.members@[j].1, tag@)) by {
            assert(out@[k].0@ == t.members@[src_of[k]].0@);
        }
        assert forall|j: int|
            0 <= j < t.members@.len() && has_tag(*(#[trigger] t.members@[j].1), tag@) implies (
        exists|k: int| 0 <= k < out@.len() && out@[k].0@ == t.members@[j].0@) by {
            assert(out@[out_of[j]].0@ == t.members@[j].0@);
        }
    }
    out
}

/// All members carrying the given metadata tag with exactly the given value.
/// The returned witness sequences tie the result to the mapping: the first
/// names, for each returned pair, the member position it came from; the
/// second names, for each member position, where a tagged-and-matching
/// member was returned.
#[verifier::rlimit(100)]
#[verifier::spinoff_prover]
pub fn get_members_by_tag_and_value(
    t: &AtorsType,
    tag: &String,
    value: &Value,
) -> (r: (Vec<(String, Rc<Member>)>, Ghost<Seq<int>>, Ghost<Seq<int>>))
    ensures
        ({
            let (out, src, back) = r;
            &&& src@.len() == out@.len()
            &&& back@.len() == t.members@.len()
            &&& forall|k: int|
                0 <= k < out@.len() ==> 0 <= #[trigger] src@[k] < t.members@.len() && out@[k].0@
                    == t.members@[src@[k]].0@ && has_tag(*t.members@[src@[k]].1, tag@) && tag_value(
                    *t.members@[src@[k]].1,
                    tag@,
                ) == vview(*value)
            &&& forall|j: int|
                0 <= j < t.members@.len() && has_tag(*(#[trigger] t.members@[j].1), tag@)
                    && tag_value(*t.members@[j].1, tag@) == vview(*value) ==> 0 <= back@[j]
                    < out@.len() && out@[back@[j]].0@ == t.members@[j].0@
        }),
{
    let mut out: Vec<(String, Rc<Member>)> = Vec::new();
    let ghost mut src_of: Seq<int> = Seq::empty();
    let ghost mut out_of: Seq<int> = Seq::empty();
    let mut i: usize = 0;
    while i < t.members.len()
        invariant
            i <= t.members@.len(),
            src_of.len() == out@.len(),
            out_of.len() == i,
            forall|k: int|
                0 <= k < out@.len() ==> 0 <= #[trigger] src_of[k] < t.members@.len() && out@[k].0@
                    == t.members@[src_of[k]].0@ && has_tag(*t.members@[src_of[k]].1, tag@)
                    && tag_value(*t.members@[src_of[k]].1, tag@) == vview(*value),
            forall|j: int|
                0 <= j < i && has_tag(*(#[trigger] t.members@[j].1), tag@) && tag_value(
                    *t.members@[j].1,
                    tag@,
                ) == vview(*value) ==> 0 <= out_of[j] < out@.len() && out@[out_of[j]].0@
                    == t.members@[j].0@,
        decreases t.members@.len() - i,
    {
        let m = &t.members[i].1;
        match m.metadata() {
            Some(md) => match crate::validators::find_attr(md, tag) {
                Some(v) => {
                    if value_eq(&v, value) {
                        let nm = t.members[i].0.clone();
                        let rc = t.members[i].1.clone();
                        out.push((nm, rc));
                        proof {
                            src_of = src_of.push(i as int);
                            out_of = out_of.push(out@.len() - 1);
                            assert(out@.last().0@ == t.members@[i as int].0@);
                        }
                    } else {
                        proof {
                            out_of = out_of.push(0);
                            assert(tag_value(*t.members@[i as int].1, tag@) != vview(*value));
                        }
                    }
                },
                None => {
                    proof {
                        out_of = out_of.push(0);
                        assert(!has_tag(*t.members@[i as int].1, tag@));
                    }
                },
            },
            None => {
                proof {
                    out_of = out_of.push(0);
                }
            },
        }
        i = i + 1;
    }
    (out, Ghost(src_of), Ghost(out_of))
}

/// What initialization returns and how it changes the slots, for
/// initialization arguments whose members' write paths are pure: each value
/// in order is written through ordinary assignment; when that fails and the
/// member has an initialization-time coercer, the coerced value is written
/// instead; the first failure aborts the rest, and an argument naming no
/// member rejects initialization.
pub open spec fn init_spec(
    ms: Seq<(String, Rc<Member>)>,
    kwargs: Seq<(String, Value)>,
    frozen: bool,
    slots: Seq<Option<ValueV>>,
    owner: Seq<char>,
    i: int,
) -> (Result<(), ErrorV>, Seq<Option<ValueV>>)
    decreases kwargs.len() - i,
{
    if i < 0 || i >= kwargs.len() {
        (Ok(()), slots)
    } else if !has_member(ms, kwargs[i].0@) {
        (Err(ErrorV::UnknownMember { name: kwargs[i].0@ }), slots)
    } else {
        let m = lookup_member(ms, kwargs[i].0@);
        let (w, slots2) = crate::member::write_spec(*m, frozen, slots, owner, vview(kwargs[i].1));
        match w {
            Ok(u) => init_spec(ms, kwargs, frozen, slots2, owner, i + 1),
            Err(e) => match m.validator.init_coercer {
                None => (Err(e), slots),
                Some(c) => match crate::validators::coerce_spec(
                    crate::validators::co_view(c),
                    crate::validators::ty_view(m.validator.type_validator),
                    true,
                    vview(kwargs[i].1),
                    Some(crate::errors::ErrCtxV { member: m.name@, owner }),
                ) {
                    Err(e2) => (Err(e2), slots),
                    Ok(cv) => {
                        let (w2, slots3) = crate::member::write_spec(*m, frozen, slots, owner, cv);
                        match w2 {
                            Ok(u) => init_spec(ms, kwargs, frozen, slots3, owner, i + 1),
                            Err(e2) => (Err(e2), slots),
                        }
                    },
                },
            },
        }
    }
}

/// Whether every member an argument list names has a pure write path.
pub open spec fn init_pure(ms: Seq<(String, Rc<Member>)>, kwargs: Seq<(String, Value)>) -> bool {
    forall|k: int|
        0 <= k < kwargs.len() && has_member(ms, (#[trigger] kwargs[k]).0@)
            ==> crate::member::write_pure(*lookup_member(ms, kwargs[k].0@))
}

/// Initialize an instance from keyword arguments: each value is written
/// through its member's ordinary assignment path; when that fails and the
/// member has an initialization-time coercer, the coerced value is written
/// instead.  An argument naming no member rejects initialization, and the
/// first failing argument aborts the rest.
pub fn init_ators<H: crate::host::HostCalls>(
    t: &AtorsType,
    obj: &mut AtorsBase,
    kwargs: &Vec<(String, Value)>,
    host: &mut H,
) -> (r: Result<(), Error>)
    requires
        forall|k: int|
            0 <= k < t.members@.len() ==> ((#[trigger] t.members@[k].1.slot_index) as int) < old(
                obj,
            ).slots@.len(),
    ensures
        final(obj).frozen == old(obj).frozen,
        final(obj).owner_name@ == old(obj).owner_name@,
        final(obj).slots@.len() == old(obj).slots@.len(),
        r is Ok ==> forall|k: int|
            0 <= k < kwargs@.len() ==> has_member(t.members@, (#[trigger] kwargs@[k].0@)),
        init_pure(t.members@, kwargs@) ==> ({
            let (res, ns) = init_spec(
                t.members@,
                kwargs@,
                old(obj).frozen,
                slots_view(old(obj).slots@),
                old(obj).owner_name@,
                0,
            );
            crate::validators::unit_res_view(r) == res && slots_view(final(obj).slots@) == ns
        }),
{
    let ghost ms = t.members@;
    let ghost kw = kwargs@;
    let ghost frozen0 = old(obj).frozen;
    let ghost owner0 = old(obj).owner_name@;
    let mut i: usize = 0;
    while i < kwargs.len()
        invariant
            i <= kw.len(),
            ms == t.members@,
            kw == kwargs@,
            obj.frozen == frozen0,
            obj.owner_name@ == owner0,
            obj.slots@.len() == old(obj).slots@.len(),
            frozen0 == old(obj).frozen,
            owner0 == old(obj).owner_name@,
            forall|k: int|
                0 <= k < t.members@.len() ==> ((#[trigger] t.members@[k].1.slot_index) as int)
                    < obj.slots@.len(),
            forall|k: int| 0 <= k < i ==> has_member(ms, (#[trigger] kw[k].0@)),
            init_pure(ms, kw) ==> init_spec(
                ms,
                kw,
                frozen0,
                slots_view(old(obj).slots@),
                owner0,
                0,
            ) == init_spec(ms, kw, frozen0, slots_view(obj.slots@), owner0, i as int),
        decreases kw.len() - i,
    {
        let m = match get_member(t, &kwargs[i].0) {
            Ok(m) => m,
            Err(e) => {
                proof {
                    if init_pure(ms, kw) {
                        assert(init_spec(ms, kw, frozen0, slots_view(obj.slots@), owner0, i as int)
                            == (
                            (
                                Err::<(), ErrorV>(ErrorV::UnknownMember { name: kw[i as int].0@ }),
                                slots_view(obj.slots@),
                            )
                        ));
                    }
                }
                return Err(e);
            },
        };
        let mr: &Member = &*m;
        proof {
            lemma_lookup_is_element(ms, kw[i as int].0@);
            assert((mr.slot_index as int) < obj.slots@.len());
        }
        let first = mr.write(obj, kwargs[i].1.clone(), host);
        match first {
            Ok(u) => {},
            Err(e) => {
                match crate::member::member_coerce_init(mr, &obj.owner_name.clone(), &kwargs[i].1, host) {
                    None => {
                        return Err(e);
                    },
                    Some(Ok(cv)) => {
                        match mr.write(obj, cv, host) {
                            Ok(u) => {},
                            Err(e2) => {
                                return Err(e2);
                            },
                        }
                    },
                    Some(Err(e2)) => {
                        return Err(e2);
                    },
                }
            },
        }
        i = i + 1;
    }
    Ok(())
}
} // verus!
