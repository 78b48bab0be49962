//! Server failover: which candidate to try next, and which to rest.
//!
//! The coordinator keeps candidate order and health state only. A failed
//! candidate rests until its cooldown has passed; selection walks the
//! candidates cyclically from a cursor, so no candidate is picked twice in
//! one pass.
use vstd::prelude::*;

use crate::servers::{ServerCatalog, ServerProfile};
use crate::time::{Duration, Instant, max_duration_nanos};

verus! {

broadcast use crate::time::lemma_duration_bounded;

/// The health of one candidate.
#[derive(Debug, Clone, Copy, Default, PartialEq, Eq, Structural)]
struct CandidateState {
    failures: u32,
    cooldown_until: Option<Instant>,
}

/// The abstract health of a candidate: its failure count and, while it
/// rests, the monotonic time (in nanoseconds) at which it may be tried again.
pub type StateModel = (nat, Option<nat>);

spec fn state_model(s: CandidateState) -> StateModel {
    (
        s.failures as nat,
        match s.cooldown_until {
            Some(i) => Some(i@),
            None => None,
        },
    )
}

/// The states after every cooldown that ended at or before `now` is cleared.
pub open spec fn expire(states: Seq<StateModel>, now: nat) -> Seq<StateModel> {
    states.map_values(
        |s: StateModel|
            match s.1 {
                Some(until) => if until <= now {
                    (s.0, None)
                } else {
                    s
                },
                None => s,
            },
    )
}

/// The first candidate without a cooldown among the offsets `j..len` from
/// `start`, walking cyclically.
pub open spec fn pick_from(states: Seq<StateModel>, start: int, j: int) -> Option<int>
    decreases states.len() - j,
{
    if j < 0 || j >= states.len() {
        None
    } else if states[(start + j) % (states.len() as int)].1 is None {
        Some((start + j) % (states.len() as int))
    } else {
        pick_from(states, start, j + 1)
    }
}

/// The first index of a candidate equal to `p`.
pub open spec fn position_of(candidates: Seq<ServerProfile>, p: ServerProfile) -> Option<int>
    decreases candidates.len(),
{
    if candidates.len() == 0 {
        None
    } else if candidates[0]@ == p@ {
        Some(0)
    } else {
        match position_of(candidates.drop_first(), p) {
            Some(i) => Some(i + 1),
            None => None,
        }
    }
}

pub proof fn lemma_position_of(candidates: Seq<ServerProfile>, p: ServerProfile)
    ensures
        position_of(candidates, p) matches Some(k) ==> 0 <= k < candidates.len()
            && candidates[k]@ == p@ && forall|j: int| 0 <= j < k ==> candidates[j]@ != p@,
        position_of(candidates, p) is None ==> forall|j: int|
            0 <= j < candidates.len() ==> candidates[j]@ != p@,
    decreases candidates.len(),
{
    if candidates.len() > 0 && candidates[0]@ != p@ {
        lemma_position_of(candidates.drop_first(), p);
        assert forall|j: int| 0 < j < candidates.len() implies candidates[j] == candidates.drop_first()[j - 1] by {}
    }
}

pub proof fn lemma_pick_from(states: Seq<StateModel>, start: int, j: int)
    requires
        states.len() > 0,
    ensures
        pick_from(states, start, j) matches Some(k) ==> 0 <= k < states.len() && states[k].1 is None,
    decreases states.len() - j,
{
    if 0 <= j < states.len() && states[(start + j) % (states.len() as int)].1 is Some {
        lemma_pick_from(states, start, j + 1);
    }
}

fn replaced(states: &Vec<CandidateState>, index: usize, value: CandidateState) -> (r: Vec<
    CandidateState,
>)
    requires
        index < states@.len(),
    ensures
        r@ == states@.update(index as int, value),
{
    let mut r: Vec<CandidateState> = Vec::new();
    let mut i: usize = 0;
    while i < states.len()
        invariant
            i <= states@.len(),
            index < states@.len(),
            r@ == states@.update(index as int, value).take(i as int),
        decreases states@.len() - i,
    {
        if i == index {
            r.push(value);
        } else {
            r.push(states[i]);
        }
        proof {
            assert(states@.update(index as int, value).take(i + 1) =~= states@.update(
                index as int,
                value,
            ).take(i as int).push(r@[i as int]));
        }
        i += 1;
    }
    assert(states@.update(index as int, value).take(states@.len() as int) =~= states@.update(
        index as int,
        value,
    ));
    r
}

/// `i` steps on from `start`, around a ring of `len` places.
fn ring_step(start: usize, i: usize, len: usize) -> (r: usize)
    requires
        start < len,
        i < len,
    ensures
        r == (start + i) % (len as int),
        r < len,
{
    if i < len - start {
        proof {
            vstd::arithmetic::div_mod::lemma_small_mod((start + i) as nat, len as nat);
        }
        start + i
    } else {
        proof {
            vstd::arithmetic::div_mod::lemma_fundamental_div_mod_converse(
                start + i,
                len as int,
                1,
                start + i - len,
            );
        }
        i - (len - start)
    }
}

/// The abstract value of a [`FailoverCoordinator`].
pub struct FailoverModel {
    pub candidates: Seq<ServerProfile>,
    pub states: Seq<StateModel>,
    pub next_index: nat,
    pub cooldown: nat,
}

/// The coordinator `m` after a failed attempt on `profile` at `now`: the
/// candidate's failure count goes up (saturating) and it rests until `now`
/// plus the cooldown; an unknown profile changes nothing.
pub open spec fn after_failure(m: FailoverModel, profile: ServerProfile, now: nat) -> FailoverModel {
    match position_of(m.candidates, profile) {
        None => m,
        Some(k) => FailoverModel {
            states: m.states.update(
                k,
                (
                    if m.states[k].0 < u32::MAX {
                        m.states[k].0 + 1
                    } else {
                        m.states[k].0
                    },
                    Some(now + m.cooldown),
                ),
            ),
            ..m
        },
    }
}

/// The candidate that selection at `now` picks from `m`, if any.
pub open spec fn picked(m: FailoverModel, now: nat) -> Option<int> {
    pick_from(expire(m.states, now), m.next_index as int, 0)
}

/// The coordinator `m` after selecting at `now`: expired cooldowns are
/// cleared, and the cursor moves just past the picked candidate.
pub open spec fn advanced(m: FailoverModel, now: nat) -> FailoverModel {
    FailoverModel {
        states: expire(m.states, now),
        next_index: match picked(m, now) {
            Some(k) => ((k + 1) % (m.candidates.len() as int)) as nat,
            None => m.next_index,
        },
        ..m
    }
}

/// Selects servers in a stable order and temporarily rests failed servers.
#[derive(Debug)]
pub struct FailoverCoordinator {
    candidates: Vec<ServerProfile>,
    states: Vec<CandidateState>,
    next_index: usize,
    cooldown: Duration,
}

impl FailoverCoordinator {
    #[verifier::type_invariant]
    closed spec fn inv(self) -> bool {
        &&& self.states.len() == self.candidates.len()
        &&& (self.candidates.len() > 0 ==> self.next_index < self.candidates.len())
        &&& (self.candidates.len() == 0 ==> self.next_index == 0)
    }

    pub closed spec fn model(&self) -> FailoverModel {
        FailoverModel {
            candidates: self.candidates@,
            states: self.states@.map_values(|s: CandidateState| state_model(s)),
            next_index: self.next_index as nat,
            cooldown: self.cooldown@,
        }
    }

    /// A coordinator over `candidates` in the given order, none failed.
    pub fn new(candidates: Vec<ServerProfile>, cooldown: Duration) -> (c: FailoverCoordinator)
        ensures
            c.model().candidates == candidates@,
            c.model().states == Seq::new(candidates@.len(), |i: int| (0nat, None::<nat>)),
            c.model().next_index == 0,
            c.model().cooldown == cooldown@,
    {
        let mut states: Vec<CandidateState> = Vec::new();
        let mut i: usize = 0;
        while i < candidates.len()
            invariant
                i <= candidates@.len(),
                states@.len() == i,
                forall|j: int| 0 <= j < i ==> #[trigger] states@[j] == (CandidateState { failures: 0, cooldown_until: None }),
            decreases candidates@.len() - i,
        {
            states.push(CandidateState { failures: 0, cooldown_until: None });
            i += 1;
        }
        let c = FailoverCoordinator { candidates, states, next_index: 0, cooldown };
        assert(c.model().states =~= Seq::new(c.candidates@.len(), |i: int| (0nat, None::<nat>)));
        c
    }

    /// A coordinator over the catalog's profiles, in catalog order.
    pub fn from_catalog(catalog: &ServerCatalog, cooldown: Duration) -> (c: FailoverCoordinator)
        ensures
            c.model().candidates.len() == catalog.spec_entries().len(),
            forall|i: int|
                0 <= i < c.model().candidates.len() ==> (#[trigger] c.model().candidates[i])@
                    == catalog.spec_entries()[i].spec_profile()@,
            c.model().states == Seq::new(catalog.spec_entries().len(), |i: int| (0nat, None::<nat>)),
            c.model().next_index == 0,
            c.model().cooldown == cooldown@,
    {
        let entries = catalog.entries();
        let mut profiles: Vec<ServerProfile> = Vec::new();
        let mut i: usize = 0;
        while i < entries.len()
            invariant
                i <= entries@.len(),
                entries@ == catalog.spec_entries(),
                profiles@.len() == i,
                forall|j: int|
                    0 <= j < i ==> (#[trigger] profiles@[j])@ == entries@[j].spec_profile()@,
            decreases entries@.len() - i,
        {
            profiles.push(entries[i].profile().clone());
            i += 1;
        }
        FailoverCoordinator::new(profiles, cooldown)
    }

    pub fn candidates(&self) -> (c: &[ServerProfile])
        ensures
            c@ == self.model().candidates,
    {
        self.candidates.as_slice()
    }

    fn index_of(&self, profile: &ServerProfile) -> (r: Option<usize>)
        ensures
            r matches Some(i) ==> position_of(self.model().candidates, *profile) == Some(i as int),
            r is None ==> position_of(self.model().candidates, *profile) is None,
            r matches Some(i) ==> i < self.model().candidates.len() && i < self.states@.len(),
    {
        proof {
            lemma_position_of(self.candidates@, *profile);
            use_type_invariant(self);
        }
        let mut i: usize = 0;
        while i < self.candidates.len()
            invariant
                i <= self.candidates@.len(),
                self.states@.len() == self.candidates@.len(),
                forall|j: int| 0 <= j < i ==> self.candidates@[j]@ != profile@,
                position_of(self.candidates@, *profile) matches Some(k) ==> i <= k && k
                    < self.candidates@.len() && self.candidates@[k]@ == profile@ && forall|j: int|
                    0 <= j < k ==> self.candidates@[j]@ != profile@,
                position_of(self.candidates@, *profile) is None ==> forall|j: int|
                    0 <= j < self.candidates@.len() ==> self.candidates@[j]@ != profile@,
            decreases self.candidates@.len() - i,
        {
            if self.candidates[i].same_as(profile) {
                return Some(i);
            }
            i += 1;
        }
        None
    }

    /// Clears every cooldown that ended at or before `now`, then returns the
    /// first candidate without a cooldown, walking cyclically from the
    /// cursor; the cursor moves just past it. With none available the
    /// result is `None` and the cursor is where it was.
    pub fn next_candidate(&mut self, now: Instant) -> (r: Option<&ServerProfile>)
        ensures
            ({
                let m = old(self).model();
                let states = expire(m.states, now@);
                &&& final(self).model().candidates == m.candidates
                &&& final(self).model().cooldown == m.cooldown
                &&& final(self).model().states == states
                &&& m.states.len() == m.candidates.len()
                &&& final(self).model() == advanced(m, now@)
                &&& match pick_from(states, m.next_index as int, 0) {
                    Some(k) => r matches Some(p) && *p == m.candidates[k] && 0 <= k
                        < m.candidates.len() && final(self).model().next_index == (k + 1) % (
                        m.candidates.len() as int),
                    None => r is None && final(self).model().next_index == m.next_index,
                }
            }),
    {
        proof {
            use_type_invariant(&*self);
        }
        let ghost m0 = self.model();
        self.expire_cooldowns(now);
        let len = self.candidates.len();
        if len == 0 {
            return None;
        }
        let ghost states = self.model().states;
        let start = self.next_index;
        let mut j: usize = 0;
        while j < len
            invariant
                len == self.candidates@.len(),
                len == states.len(),
                start < len,
                start == m0.next_index,
                m0 == old(self).model(),
                self.model() == (FailoverModel { states: expire(m0.states, now@), ..m0 }),
                states == expire(m0.states, now@),
                states == self.states@.map_values(|s: CandidateState| state_model(s)),
                pick_from(states, start as int, 0) == pick_from(states, start as int, j as int),
            decreases len - j,
        {
            let index = ring_step(start, j, len);
            if self.states[index].cooldown_until.is_none() {
                proof {
                    use_type_invariant(&*self);
                    lemma_pick_from(states, start as int, 0);
                }
                let following = if index + 1 == len {
                    0
                } else {
                    index + 1
                };
                proof {
                    if index + 1 == len {
                        vstd::arithmetic::div_mod::lemma_mod_self_0(len as int);
                    } else {
                        vstd::arithmetic::div_mod::lemma_small_mod((index + 1) as nat, len as nat);
                    }
                }
                self.set_next_index(following);
                return Some(&self.candidates[index]);
            }
            j += 1;
        }
        None
    }

    fn set_next_index(&mut self, i: usize)
        requires
            old(self).candidates@.len() > 0,
            i < old(self).candidates@.len(),
        ensures
            final(self).model() == (FailoverModel { next_index: i as nat, ..old(self).model() }),
            final(self).candidates@ == old(self).candidates@,
            final(self).states@ == old(self).states@,
    {
        proof {
            use_type_invariant(&*self);
        }
        self.next_index = i;
    }

    fn expire_cooldowns(&mut self, now: Instant)
        ensures
            final(self).model() == (FailoverModel {
                states: expire(old(self).model().states, now@),
                ..old(self).model()
            }),
    {
        proof {
            use_type_invariant(&*self);
        }
        let ghost before = self.states@.map_values(|s: CandidateState| state_model(s));
        let mut states: Vec<CandidateState> = Vec::new();
        let mut i: usize = 0;
        while i < self.states.len()
            invariant
                i <= self.states@.len(),
                before == self.states@.map_values(|s: CandidateState| state_model(s)),
                states@.len() == i,
                forall|j: int|
                    0 <= j < i ==> state_model(#[trigger] states@[j]) == expire(before, now@)[j],
            decreases self.states@.len() - i,
        {
            let s = self.states[i];
            let kept = match s.cooldown_until {
                Some(until) => if now.lt(&until) {
                    s
                } else {
                    CandidateState { failures: s.failures, cooldown_until: None }
                },
                None => s,
            };
            states.push(kept);
            i += 1;
        }
        proof {
            assert(states@.map_values(|s: CandidateState| state_model(s)) =~= expire(
                before,
                now@,
            ));
        }
        self.states = states;
    }

    /// Counts a failed attempt on `profile` and rests it until `now` plus the
    /// cooldown; an unknown profile changes nothing.
    pub fn record_failure(&mut self, profile: &ServerProfile, now: Instant)
        requires
            now@ + old(self).model().cooldown <= max_duration_nanos(),
        ensures
            final(self).model() == after_failure(old(self).model(), *profile, now@),
    {
        proof {
            use_type_invariant(&*self);
        }
        let index = match self.index_of(profile) {
            Some(i) => i,
            None => { return },
        };
        let until = match now.checked_add(self.cooldown) {
            Some(u) => u,
            None => { return },
        };
        let ghost before = self.states@;
        let s = self.states[index];
        let states = replaced(
            &self.states,
            index,
            CandidateState { failures: s.failures.saturating_add(1), cooldown_until: Some(until) },
        );
        proof {
            assert(states@.map_values(|s: CandidateState| state_model(s)) =~= before.map_values(
                |s: CandidateState| state_model(s),
            ).update(
                index as int,
                (
                    if state_model(s).0 < u32::MAX {
                        state_model(s).0 + 1
                    } else {
                        state_model(s).0
                    },
                    Some(now@ + self.cooldown@),
                ),
            ));
        }
        self.states = states;
    }

    /// Clears the failure count and cooldown of `profile` and makes it the
    /// next candidate to consider; an unknown profile changes nothing.
    pub fn record_success(&mut self, profile: &ServerProfile)
        ensures
            ({
                let m = old(self).model();
                match position_of(m.candidates, *profile) {
                    None => final(self).model() == m,
                    Some(k) => final(self).model() == (FailoverModel {
                        states: m.states.update(k, (0nat, None::<nat>)),
                        next_index: k as nat,
                        ..m
                    }),
                }
            }),
    {
        proof {
            use_type_invariant(&*self);
        }
        let index = match self.index_of(profile) {
            Some(i) => i,
            None => { return },
        };
        let ghost before = self.states@;
        let states = replaced(&self.states, index, CandidateState { failures: 0, cooldown_until: None });
        proof {
            assert(states@.map_values(|s: CandidateState| state_model(s)) =~= before.map_values(
                |s: CandidateState| state_model(s),
            ).update(index as int, (0nat, None::<nat>)));
        }
        self.states = states;
        self.next_index = index;
    }

    /// The number of failed attempts recorded for `profile`, if it is a
    /// candidate.
    pub fn failure_count(&self, profile: &ServerProfile) -> (r: Option<u32>)
        ensures
            match position_of(self.model().candidates, *profile) {
                Some(k) => r matches Some(n) && n == self.model().states[k].0,
                None => r is None,
            },
    {
        proof {
            use_type_invariant(self);
            lemma_position_of(self.candidates@, *profile);
        }
        match self.index_of(profile) {
            Some(i) => Some(self.states[i].failures),
            None => None,
        }
    }

    /// Whether `profile` is resting at `now`, if it is a candidate.
    pub fn is_on_cooldown(&self, profile: &ServerProfile, now: Instant) -> (r: Option<bool>)
        ensures
            match position_of(self.model().candidates, *profile) {
                Some(k) => r matches Some(b) && b == (self.model().states[k].1 matches Some(
                    until,
                ) && until > now@),
                None => r is None,
            },
    {
        proof {
            use_type_invariant(self);
            lemma_position_of(self.candidates@, *profile);
        }
        match self.index_of(profile) {
            Some(i) => match self.states[i].cooldown_until {
                Some(until) => Some(now.lt(&until)),
                None => Some(false),
            },
            None => None,
        }
    }
}

impl Clone for FailoverCoordinator {
    fn clone(&self) -> (c: Self)
        ensures
            c.model().states == self.model().states,
            c.model().next_index == self.model().next_index,
            c.model().cooldown == self.model().cooldown,
            c.model().candidates.len() == self.model().candidates.len(),
            forall|i: int|
                0 <= i < c.model().candidates.len() ==> (#[trigger] c.model().candidates[i])@
                    == self.model().candidates[i]@,
    {
        proof {
            use_type_invariant(self);
        }
        let mut candidates: Vec<ServerProfile> = Vec::new();
        let mut states: Vec<CandidateState> = Vec::new();
        let mut i: usize = 0;
        while i < self.candidates.len()
            invariant
                i <= self.candidates@.len(),
                self.states@.len() == self.candidates@.len(),
                candidates@.len() == i,
                states@ == self.states@.take(i as int),
                forall|j: int|
                    0 <= j < i ==> (#[trigger] candidates@[j])@ == self.candidates@[j]@,
            decreases self.candidates@.len() - i,
        {
            candidates.push(self.candidates[i].clone());
            states.push(self.states[i]);
            proof {
                assert(self.states@.take(i + 1) =~= self.states@.take(i as int).push(
                    self.states@[i as int],
                ));
            }
            i += 1;
        }
        assert(self.states@.take(self.states@.len() as int) =~= self.states@);
        FailoverCoordinator { candidates, states, next_index: self.next_index, cooldown: self.cooldown }
    }
}

/// After a success, the profile is the very next candidate: its cooldown
/// is cleared and the cursor points at it, so whatever the time, selection
/// picks it first.
pub proof fn lemma_success_is_picked_next(m: FailoverModel, p: ServerProfile, now: nat)
    requires
        m.states.len() == m.candidates.len(),
        position_of(m.candidates, p) is Some,
    ensures
        ({
            let k = position_of(m.candidates, p)->0;
            let states = expire(m.states.update(k, (0nat, None::<nat>)), now);
            pick_from(states, k, 0) == Some(k)
        }),
{
    lemma_position_of(m.candidates, p);
    let k = position_of(m.candidates, p)->0;
    let states = expire(m.states.update(k, (0nat, None::<nat>)), now);
    assert(states[k].1 is None);
    assert((k + 0) % (states.len() as int) == k) by {
        vstd::arithmetic::div_mod::lemma_small_mod(k as nat, states.len());
    }
}

/// A candidate resting beyond `now` is never picked at `now`.
pub proof fn lemma_resting_is_skipped(states: Seq<StateModel>, start: int, now: nat, k: int)
    requires
        0 <= k < states.len(),
        states[k].1 matches Some(until) && until > now,
    ensures
        pick_from(expire(states, now), start, 0) != Some(k),
{
    let e = expire(states, now);
    lemma_pick_from(e, start, 0);
}

} // verus!
