//! Who takes part in consensus, and who leads each view.

use vstd::prelude::*;

use vstd::relations::{antisymmetric, reflexive, sorted_by, strongly_connected, total_ordering, transitive};
use vstd::seq_lib::{group_to_multiset_ensures, lemma_sorted_unique};

use crate::types::PublicKey;

verus! {

/// `i` is the first place at which the two byte strings differ.
pub open spec fn first_differ_at(a: Seq<u8>, b: Seq<u8>, i: int) -> bool {
    &&& 0 <= i < a.len()
    &&& i < b.len()
    &&& a[i] != b[i]
    &&& forall|j: int| 0 <= j < i ==> a[j] == b[j]
}

/// The order of public keys: that of their bytes, compared from the left.
pub open spec fn keys_ordered(a: PublicKey, b: PublicKey) -> bool {
    a == b || exists|i: int| #[trigger] first_differ_at(a.0@, b.0@, i) && a.0@[i] < b.0@[i]
}

/// The order of public keys as a relation.
pub open spec fn key_order() -> spec_fn(PublicKey, PublicKey) -> bool {
    |a: PublicKey, b: PublicKey| keys_ordered(a, b)
}

/// The place in the list of participants whose turn it is to lead a view.
pub open spec fn turn_of(participants: Seq<PublicKey>, view: u64) -> int {
    (view as usize) as int % participants.len() as int
}

/// The participant that leads a view.
pub open spec fn leader_of(participants: Seq<PublicKey>, view: u64) -> PublicKey {
    participants[turn_of(participants, view)]
}

/// The number of a participant: the last place at which its key stands, as a 32-bit number.
pub open spec fn number_of(participants: Seq<PublicKey>, key: PublicKey) -> Option<u32> {
    match participants.index_of_last(key) {
        Some(place) => Some((place % 0x1_0000_0000) as u32),
        None => None,
    }
}

/// The participants of consensus, in the order of their keys.
pub struct Supervisor {
    participants: Vec<PublicKey>,
}

impl View for Supervisor {
    type V = Seq<PublicKey>;

    closed spec fn view(&self) -> Seq<PublicKey> {
        self.participants@
    }
}

/// Two keys differ first at some place, or they are the same.
proof fn lemma_first_difference(a: PublicKey, b: PublicKey, from: int)
    requires
        0 <= from <= 48,
        forall|j: int| 0 <= j < from ==> a.0@[j] == b.0@[j],
    ensures
        a == b || exists|i: int| first_differ_at(a.0@, b.0@, i),
    decreases 48 - from,
{
    assert(a.0@.len() == 48 && b.0@.len() == 48);
    if from == 48 {
        assert(a.0@ =~= b.0@);
        assert(a.0 =~= b.0);
    } else if a.0@[from] != b.0@[from] {
        assert(first_differ_at(a.0@, b.0@, from));
    } else {
        lemma_first_difference(a, b, from + 1);
    }
}

/// The order of public keys is total.
pub proof fn lemma_key_order_is_total()
    ensures
        total_ordering(key_order()),
{
    let leq = key_order();
    assert(reflexive(leq));
    assert(antisymmetric(leq)) by {
        assert forall|a: PublicKey, b: PublicKey| #[trigger] leq(a, b) && #[trigger] leq(b, a) implies a == b by {
            if a != b {
                let i = choose|i: int| first_differ_at(a.0@, b.0@, i) && a.0@[i] < b.0@[i];
                let j = choose|j: int| first_differ_at(b.0@, a.0@, j) && b.0@[j] < a.0@[j];
                assert(i == j);
            }
        }
    }
    assert(transitive(leq)) by {
        assert forall|a: PublicKey, b: PublicKey, c: PublicKey| #[trigger] leq(a, b) && #[trigger] leq(b, c) implies leq(a, c) by {
            if a != b && b != c {
                let i = choose|i: int| first_differ_at(a.0@, b.0@, i) && a.0@[i] < b.0@[i];
                let j = choose|j: int| first_differ_at(b.0@, c.0@, j) && b.0@[j] < c.0@[j];
                let k = if i < j { i } else { j };
                assert(first_differ_at(a.0@, c.0@, k));
            }
        }
    }
    assert(strongly_connected(leq)) by {
        assert forall|a: PublicKey, b: PublicKey| #[trigger] leq(a, b) || #[trigger] leq(b, a) by {
            lemma_first_difference(a, b, 0);
            if a != b {
                let i = choose|i: int| first_differ_at(a.0@, b.0@, i);
                assert(first_differ_at(b.0@, a.0@, i));
            }
        }
    }
}

/// Tells whether two keys stand in the order of public keys.
fn in_key_order(a: &PublicKey, b: &PublicKey) -> (r: bool)
    ensures
        r == keys_ordered(*a, *b),
{
    let mut i: usize = 0;
    while i < 48
        invariant
            i <= 48,
            forall|j: int| 0 <= j < i ==> a.0@[j] == b.0@[j],
        decreases 48 - i,
    {
        if a.0[i] != b.0[i] {
            assert(first_differ_at(a.0@, b.0@, i as int));
            return a.0[i] < b.0[i];
        }
        i = i + 1;
    }
    assert(a.0@ =~= b.0@);
    assert(a.0 =~= b.0);
    true
}

impl Clone for Supervisor {
    fn clone(&self) -> (copy: Self)
        ensures
            copy@ == self@,
    {
        proof {
            use_type_invariant(self);
        }
        let participants = self.participants.clone();
        assert(participants@ =~= self.participants@);
        Supervisor { participants }
    }
}

impl Supervisor {
    #[verifier::type_invariant]
    spec fn in_order(self) -> bool {
        sorted_by(self.participants@, key_order())
    }

    /// Takes in the participants and puts them in the order of their keys.
    pub fn new(participants: Vec<PublicKey>) -> (supervisor: Self)
        ensures
            sorted_by(supervisor@, key_order()),
            supervisor@.to_multiset() == participants@.to_multiset(),
    {
        let mut sorted: Vec<PublicKey> = Vec::new();
        let mut taken: usize = 0;
        proof {
            lemma_key_order_is_total();
            assert(participants@.take(0) =~= Seq::<PublicKey>::empty());
            assert(sorted@ =~= participants@.take(0));
        }
        while taken < participants.len()
            invariant
                taken <= participants@.len(),
                total_ordering(key_order()),
                sorted_by(sorted@, key_order()),
                sorted@.to_multiset() == participants@.take(taken as int).to_multiset(),
            decreases participants@.len() - taken,
        {
            let key = participants[taken];
            insert_in_order(&mut sorted, key);
            proof {
                broadcast use group_to_multiset_ensures;

                assert(participants@.take(taken + 1) =~= participants@.take(taken as int).push(key));
            }
            taken = taken + 1;
        }
        proof {
            assert(participants@.take(taken as int) =~= participants@);
        }
        Supervisor { participants: sorted }
    }

    /// The leader of a view.
    pub fn leader(&self, index: u64) -> (leader: Option<PublicKey>)
        requires
            self@.len() > 0,
        ensures
            leader == Some(leader_of(self@, index)),
    {
        let place: usize = index as usize % self.participants.len();
        Some(self.participants[place])
    }

    /// The participants of a view: the same in every view.
    pub fn participants(&self, _index: u64) -> (participants: Option<&Vec<PublicKey>>)
        ensures
            participants is Some,
            participants->0@ == self@,
    {
        Some(&self.participants)
    }

    /// The number of a candidate among the participants of a view, if it is one of them.
    pub fn is_participant(&self, _index: u64, candidate: &PublicKey) -> (number: Option<u32>)
        ensures
            number == number_of(self@, *candidate),
    {
        proof {
            use_type_invariant(self);
            lemma_key_order_is_total();
            self@.index_of_last_ensures(*candidate);
        }
        // Everything before `low` is at most the candidate, and everything from `high` on is above it.
        let mut low: usize = 0;
        let mut high: usize = self.participants.len();
        while low < high
            invariant
                low <= high <= self.participants@.len(),
                total_ordering(key_order()),
                sorted_by(self.participants@, key_order()),
                forall|i: int| 0 <= i < low ==> keys_ordered(#[trigger] self.participants@[i], *candidate),
                forall|i: int| high <= i < self.participants@.len() ==> !keys_ordered(#[trigger] self.participants@[i], *candidate),
            decreases high - low,
        {
            let middle: usize = low + (high - low) / 2;
            let ghost key = self.participants@[middle as int];
            if in_key_order(&self.participants[middle], candidate) {
                assert forall|i: int| 0 <= i < middle + 1 implies keys_ordered(#[trigger] self.participants@[i], *candidate) by {
                    assert(key_order()(self.participants@[i], key));
                    assert(key_order()(key, *candidate));
                    assert(key_order()(self.participants@[i], *candidate));
                }
                low = middle + 1;
            } else {
                assert forall|i: int| middle <= i < self.participants@.len() implies !keys_ordered(#[trigger] self.participants@[i], *candidate) by {
                    if keys_ordered(self.participants@[i], *candidate) {
                        assert(key_order()(key, self.participants@[i]));
                        assert(key_order()(self.participants@[i], *candidate));
                        assert(key_order()(key, *candidate));
                    }
                }
                high = middle;
            }
        }
        if low > 0 && self.participants[low - 1].equals(candidate) {
            let place: usize = low - 1;
            let wide: u64 = place as u64;
            let number: u32 = #[verifier::truncate] (wide as u32);
            proof {
                let last = self@.index_of_last(*candidate)->0;
                assert(self@[place as int] == *candidate);
                assert(self@.contains(*candidate));
                assert(last == place);
                assert(wide as u32 == wide % 0x1_0000_0000) by (bit_vector);
            }
            Some(number)
        } else {
            proof {
                assert forall|i: int| 0 <= i < self@.len() implies self@[i] != *candidate by {
                    if i < low && self@[i] == *candidate {
                        let last = self@[low - 1];
                        assert(key_order()(self@[i], last));
                        assert(key_order()(last, *candidate));
                        assert(last == *candidate);
                    }
                }
            }
            None
        }
    }
}

/// Puts a key at its place in a list that is in order.
fn insert_in_order(sorted: &mut Vec<PublicKey>, key: PublicKey)
    requires
        sorted_by(old(sorted)@, key_order()),
    ensures
        sorted_by(final(sorted)@, key_order()),
        final(sorted)@.to_multiset() == old(sorted)@.to_multiset().insert(key),
{
    proof {
        lemma_key_order_is_total();
    }
    let ghost before = sorted@;
    let mut place: usize = sorted.len();
    while place > 0 && !in_key_order(&sorted[place - 1], &key)
        invariant
            sorted@ == before,
            place <= before.len(),
            total_ordering(key_order()),
            sorted_by(before, key_order()),
            forall|i: int| place <= i < before.len() ==> keys_ordered(key, #[trigger] before[i]),
        decreases place,
    {
        proof {
            assert(key_order()(key, before[place - 1]) || key_order()(before[place - 1], key));
        }
        place = place - 1;
    }
    sorted.insert(place, key);
    proof {
        broadcast use group_to_multiset_ensures;

        let leq = key_order();
        let after = sorted@;
        assert forall|i: int, j: int| 0 <= i < j < after.len() implies #[trigger] leq(after[i], after[j]) by {
            let p = place as int;
            if j < p {
                assert(leq(before[i], before[j]));
            } else if j == p {
                assert(leq(before[i], before[p - 1]) || i == p - 1);
                assert(leq(before[p - 1], key));
                assert(leq(before[i], key));
            } else if i < p {
                assert(leq(before[i], before[j - 1]));
            } else if i == p {
                assert(leq(key, before[j - 1]));
            } else {
                assert(leq(before[i - 1], before[j - 1]));
            }
        }
        assert(after =~= before.insert(place as int, key));
    }
}

/// The participants stand in the same order whatever order they were listed in, so that every
/// node that knows the same committee names the same leader for a view and gives each
/// participant the same number.
pub proof fn law_committee_order_is_shared(first: Seq<PublicKey>, second: Seq<PublicKey>)
    requires
        sorted_by(first, key_order()),
        sorted_by(second, key_order()),
        first.to_multiset() == second.to_multiset(),
    ensures
        first == second,
        forall|view: u64| leader_of(first, view) == leader_of(second, view),
        forall|key: PublicKey| number_of(first, key) == number_of(second, key),
{
    lemma_key_order_is_total();
    lemma_sorted_unique(first, second, key_order());
}

/// The leader of every view is a participant, and so has a number.
pub proof fn law_leader_is_a_participant(participants: Seq<PublicKey>, view: u64)
    requires
        participants.len() > 0,
    ensures
        participants.contains(leader_of(participants, view)),
        number_of(participants, leader_of(participants, view)) is Some,
{
    let key = leader_of(participants, view);
    participants.index_of_last_ensures(key);
    assert(participants[turn_of(participants, view)] == key);
}

/// Leadership goes round: in as many views as there are participants, starting at any view, each
/// place in the list leads once, and the view after them starts over with the first leader.
pub proof fn law_leaders_take_turns(participants: Seq<PublicKey>, start: u64, place: int)
    requires
        0 <= place < participants.len(),
        start + participants.len() <= u64::MAX,
        start + participants.len() <= usize::MAX,
    ensures
        leader_of(participants, (start + participants.len()) as u64) == leader_of(participants, start),
        exists|view: u64|
            start <= view < start + participants.len() && #[trigger] turn_of(participants, view)
                == place,
        forall|first: u64, second: u64|
            start <= first < second < start + participants.len() ==> #[trigger] turn_of(
                participants,
                first,
            ) != #[trigger] turn_of(participants, second),
{
    let n = participants.len() as int;
    let turn = start as int % n;
    let view = if turn <= place { start + place - turn } else { start + n + place - turn };
    assert(view % n == place) by (nonlinear_arith)
        requires
            n > 0,
            0 <= place < n,
            turn == start as int % n,
            view == (if turn <= place { start + place - turn } else { start + n + place - turn }),
    {
        let rounds = start as int / n;
        assert(start as int == rounds * n + turn);
        if turn <= place {
            assert(view == rounds * n + place);
            vstd::arithmetic::div_mod::lemma_fundamental_div_mod_converse(view, n, rounds, place);
        } else {
            assert(view == (rounds + 1) * n + place);
            vstd::arithmetic::div_mod::lemma_fundamental_div_mod_converse(view, n, rounds + 1, place);
        }
    }
    assert(turn_of(participants, view as u64) == place);
    vstd::arithmetic::div_mod::lemma_mod_add_multiples_vanish(start as int, n);
    assert forall|first: u64, second: u64| start <= first < second < start + n implies #[trigger] turn_of(
        participants,
        first,
    ) != #[trigger] turn_of(participants, second) by {
        if first as int % n == second as int % n {
            vstd::arithmetic::div_mod::lemma_fundamental_div_mod(first as int, n);
            vstd::arithmetic::div_mod::lemma_fundamental_div_mod(second as int, n);
            let gap = second as int / n - first as int / n;
            assert(second - first == n * gap) by (nonlinear_arith)
                requires
                    first as int == n * (first as int / n) + first as int % n,
                    second as int == n * (second as int / n) + second as int % n,
                    first as int % n == second as int % n,
                    gap == second as int / n - first as int / n,
            ;
            assert(false) by (nonlinear_arith)
                requires
                    0 < second - first < n,
                    second - first == n * gap,
            ;
        }
    }
}

/// Where no key is listed twice, numbers and places are the same thing: the participant at a
/// place has that place as its number.
pub proof fn law_numbers_are_places(participants: Seq<PublicKey>, place: int)
    requires
        participants.no_duplicates(),
        0 <= place < participants.len(),
        participants.len() <= 0x1_0000_0000,
    ensures
        number_of(participants, participants[place]) == Some(place as u32),
        number_of(participants, participants[place])->0 as int == place,
{
    let key = participants[place];
    participants.index_of_last_ensures(key);
    assert(participants.contains(key));
    assert(participants.index_of_last(key)->0 == place);
}

/// The leader of a view is the participant whose turn it is: counting round the list from its
/// first participant at view zero, the one that the count ends at.
pub proof fn law_leader_stands_at_the_view(participants: Seq<PublicKey>, view: u64)
    requires
        participants.len() > 0,
        view <= usize::MAX,
    ensures
        leader_of(participants, view) == participants[view as int % participants.len() as int],
        view < participants.len() ==> leader_of(participants, view) == participants[view as int],
{
    if view < participants.len() {
        vstd::arithmetic::div_mod::lemma_small_mod(view as nat, participants.len());
    }
}

/// Where no key is listed twice, the number of the leader of a view is the view modulo the size of
/// the committee.
pub proof fn law_leader_has_the_number_of_the_view(participants: Seq<PublicKey>, view: u64)
    requires
        participants.no_duplicates(),
        0 < participants.len() <= 0x1_0000_0000,
        view <= usize::MAX,
    ensures
        number_of(participants, leader_of(participants, view)) matches Some(number) && number as int
            == view as int % participants.len() as int,
{
    let n = participants.len() as int;
    vstd::arithmetic::div_mod::lemma_mod_bound(view as int, n);
    law_leader_stands_at_the_view(participants, view);
    law_numbers_are_places(participants, view as int % n);
}

/// Where no key is listed twice, each participant leads exactly one of as many successive views as
/// there are participants: the leaders of two of these views are different participants, and every
/// participant leads one of them.
pub proof fn law_each_participant_leads_once(participants: Seq<PublicKey>, start: u64)
    requires
        participants.no_duplicates(),
        participants.len() > 0,
        start + participants.len() <= u64::MAX,
        start + participants.len() <= usize::MAX,
    ensures
        forall|first: u64, second: u64|
            start <= first < second < start + participants.len() ==> #[trigger] leader_of(
                participants,
                first,
            ) != #[trigger] leader_of(participants, second),
        forall|key: PublicKey| #[trigger]
            participants.contains(key) ==> exists|view: u64|
                start <= view < start + participants.len() && #[trigger] leader_of(participants, view)
                    == key,
{
    let n = participants.len() as int;
    assert forall|first: u64, second: u64| start <= first < second < start + n implies #[trigger] leader_of(
        participants,
        first,
    ) != #[trigger] leader_of(participants, second) by {
        law_leaders_take_turns(participants, start, 0);
        law_leader_stands_at_the_view(participants, first);
        law_leader_stands_at_the_view(participants, second);
        vstd::arithmetic::div_mod::lemma_mod_bound(first as int, n);
        vstd::arithmetic::div_mod::lemma_mod_bound(second as int, n);
        assert(turn_of(participants, first) != turn_of(participants, second));
    }
    assert forall|key: PublicKey| #[trigger] participants.contains(key) implies exists|view: u64|
        start <= view < start + n && #[trigger] leader_of(participants, view) == key by {
        let place = choose|place: int| 0 <= place < n && participants[place] == key;
        law_leaders_take_turns(participants, start, place);
        let view = choose|view: u64|
            start <= view < start + n && #[trigger] turn_of(participants, view) == place;
        law_leader_stands_at_the_view(participants, view);
        assert(leader_of(participants, view) == key);
    }
}

/// Keys are compared from the left: where two keys agree up to a byte, the one with the smaller
/// byte there comes first, and the other does not.
pub proof fn law_first_difference_decides(a: PublicKey, b: PublicKey, place: int)
    requires
        0 <= place < 48,
        forall|j: int| 0 <= j < place ==> a.0@[j] == b.0@[j],
        a.0@[place] < b.0@[place],
    ensures
        key_order()(a, b),
        !key_order()(b, a),
{
    assert(a.0@.len() == 48 && b.0@.len() == 48);
    assert(first_differ_at(a.0@, b.0@, place));
    assert forall|i: int| #[trigger] first_differ_at(b.0@, a.0@, i) implies i == place by {}
    assert(a != b);
}

/// A key has a number if and only if it is listed, and then its number is the last place at which
/// it is listed.
pub proof fn law_numbers_are_last_places(participants: Seq<PublicKey>, key: PublicKey)
    requires
        participants.len() <= 0x1_0000_0000,
    ensures
        number_of(participants, key) is Some <==> exists|i: int|
            0 <= i < participants.len() && participants[i] == key,
        number_of(participants, key) matches Some(number) ==> number < participants.len()
            && participants[number as int] == key && forall|later: int|
            number < later < participants.len() ==> participants[later] != key,
{
    participants.index_of_last_ensures(key);
    if exists|i: int| 0 <= i < participants.len() && participants[i] == key {
        assert(participants.contains(key));
    }
}

} // verus!
