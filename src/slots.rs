//! The bitmask model of the slot table and the pure steps that the
//! allocator performs on it: claiming the lowest free slot and releasing one.
use vstd::prelude::*;

verus! {

/// Number of bits in the table word, and so the largest pool capacity.
pub const TABLE_BITS: usize = 64;

/// Slot `i` is marked as taken in `table`.
pub open spec fn occupied(table: u64, i: int) -> bool {
    0 <= i < 64 && (table >> (i as u64)) & 1u64 == 1u64
}

/// Every slot below `capacity` is taken.
pub open spec fn full(table: u64, capacity: int) -> bool {
    forall|i: int| 0 <= i < capacity ==> #[trigger] occupied(table, i)
}

/// The padding bits, those at and above `capacity`, are all set.
pub open spec fn padded(table: u64, capacity: int) -> bool {
    forall|i: int| capacity <= i < 64 ==> #[trigger] occupied(table, i)
}

/// The table word of a fresh pool of `capacity` slots: no slot is taken and
/// every padding bit is set.
pub open spec fn initial_table_of(capacity: int) -> u64 {
    if capacity >= 64 {
        0u64
    } else {
        0xffff_ffff_ffff_ffffu64 << (capacity as u64)
    }
}

/// `table` with bit `i` set.
pub open spec fn with_slot(table: u64, i: int) -> u64 {
    table | (1u64 << (i as u64))
}

/// `table` with bit `i` cleared.
pub open spec fn without_slot(table: u64, i: int) -> u64 {
    table & !(1u64 << (i as u64))
}

/// The lowest clear bit of `table` (64 when every bit is set).
pub open spec fn lowest_free(table: u64) -> int {
    table.trailing_ones() as int
}

/// One allocation step on an observed table word: the lowest free slot, if it
/// lies below `capacity`, together with the word that marks it taken.
pub open spec fn claim_of(table: u64, capacity: int) -> Option<(int, u64)> {
    if lowest_free(table) < capacity {
        Some((lowest_free(table), with_slot(table, lowest_free(table))))
    } else {
        None
    }
}

/// The slots below `capacity` that `table` marks as taken.
pub open spec fn taken(table: u64, capacity: int) -> Set<int> {
    Set::new(|i: int| 0 <= i < capacity && occupied(table, i))
}

pub proof fn lemma_lowest_free(table: u64)
    ensures
        0 <= lowest_free(table) <= 64,
        lowest_free(table) == 64 <==> table == 0xffff_ffff_ffff_ffffu64,
        lowest_free(table) < 64 ==> !occupied(table, lowest_free(table)),
        forall|j: int| 0 <= j < lowest_free(table) ==> #[trigger] occupied(table, j),
{
    vstd::std_specs::bits::axiom_u64_trailing_ones(table);
    let t = table.trailing_ones();
    assert forall|j: int| 0 <= j < lowest_free(table) implies #[trigger] occupied(table, j) by {
        let jj = j as u64;
        assert((table >> jj) & 1u64 == 1u64);
    }
    if t < 64 {
        assert((table >> (t as u64)) & 1u64 == 0u64);
    }
}

proof fn lemma_bit_set(table: u64, i: u64, j: u64)
    requires
        i < 64,
        j < 64,
    ensures
        ((with_slot(table, i as int) >> j) & 1u64 == 1u64) == (j == i || (table >> j) & 1u64
            == 1u64),
        ((without_slot(table, i as int) >> j) & 1u64 == 1u64) == (j != i && (table >> j) & 1u64
            == 1u64),
{
    assert(((table | (1u64 << i)) >> j) & 1u64 == 1u64 <==> (j == i || (table >> j) & 1u64
        == 1u64)) by (bit_vector)
        requires
            i < 64,
            j < 64,
    ;
    assert(((table & !(1u64 << i)) >> j) & 1u64 == 1u64 <==> (j != i && (table >> j) & 1u64
        == 1u64)) by (bit_vector)
        requires
            i < 64,
            j < 64,
    ;
}

/// Setting bit `i` takes slot `i` and leaves every other slot as it was;
/// clearing it frees slot `i` and leaves every other slot as it was.
pub proof fn lemma_slot_update(table: u64, i: int)
    requires
        0 <= i < 64,
    ensures
        forall|j: int| #[trigger]
            occupied(with_slot(table, i), j) == (0 <= j < 64 && (j == i || occupied(table, j))),
        forall|j: int| #[trigger]
            occupied(without_slot(table, i), j) == (0 <= j < 64 && j != i && occupied(table, j)),
{
    assert forall|j: int| #[trigger]
        occupied(with_slot(table, i), j) == (0 <= j < 64 && (j == i || occupied(table, j))) by {
        if 0 <= j < 64 {
            lemma_bit_set(table, i as u64, j as u64);
        }
    }
    assert forall|j: int| #[trigger]
        occupied(without_slot(table, i), j) == (0 <= j < 64 && j != i && occupied(table, j)) by {
        if 0 <= j < 64 {
            lemma_bit_set(table, i as u64, j as u64);
        }
    }
}

/// A fresh table of `capacity` slots takes no slot and sets every padding bit.
pub proof fn lemma_initial_table(capacity: int)
    requires
        0 <= capacity <= 64,
    ensures
        forall|i: int| #[trigger]
            occupied(initial_table_of(capacity), i) == (capacity <= i < 64),
{
    assert forall|i: int| #[trigger]
        occupied(initial_table_of(capacity), i) == (capacity <= i < 64) by {
        if 0 <= i < 64 {
            let ii = i as u64;
            if capacity < 64 {
                let c = capacity as u64;
                assert(((0xffff_ffff_ffff_ffffu64 << c) >> ii) & 1u64 == 1u64 <==> ii >= c)
                    by (bit_vector)
                    requires
                        c < 64,
                        ii < 64,
                ;
            } else {
                assert((0u64 >> ii) & 1u64 == 0u64) by (bit_vector);
            }
        }
    }
}

/// The table word of a fresh pool of `space` slots, or `None` when `space`
/// exceeds the width of the word.
pub fn initial_table(space: usize) -> (r: Option<u64>)
    ensures
        r is None <==> space > TABLE_BITS,
        r matches Some(t) ==> t == initial_table_of(space as int),
{
    if space > TABLE_BITS {
        return None;
    }
    if space != TABLE_BITS {
        Some(u64::MAX << space)
    } else {
        Some(0)
    }
}

/// The lowest clear bit of `prev` and the mask that selects it, or `None`
/// when every bit is set.
pub fn next_in_sequence(prev: u64) -> (r: Option<(usize, u64)>)
    ensures
        r is None <==> prev == u64::MAX,
        r matches Some((index, mask)) ==> index as int == lowest_free(prev) && index < 64
            && mask == 1u64 << index,
{
    proof {
        lemma_lowest_free(prev);
    }
    let trailing = prev.trailing_ones();
    if trailing == 64 {
        return None;
    }
    let mask = 1u64 << trailing;
    Some((trailing as usize, mask))
}

/// One allocation step on an observed table word: picks the lowest free slot
/// and computes the word that marks it taken, or reports that every slot below
/// `capacity` is taken.
pub fn claim(table: u64, capacity: usize) -> (r: Option<(usize, u64)>)
    requires
        capacity <= TABLE_BITS,
    ensures
        r matches Some((i, next)) ==> claim_of(table, capacity as int) == Some((i as int, next)),
        r is None ==> claim_of(table, capacity as int) is None,
        r is None <==> full(table, capacity as int),
        r matches Some((i, next)) ==> i < capacity && next == with_slot(table, i as int)
            && !occupied(table, i as int) && forall|j: int|
            0 <= j < i ==> #[trigger] occupied(table, j),
{
    proof {
        lemma_lowest_free(table);
    }
    match next_in_sequence(table) {
        Some((index, mask)) => {
            if index < capacity {
                proof {
                    lemma_slot_update(table, index as int);
                }
                Some((index, table | mask))
            } else {
                None
            }
        },
        None => None,
    }
}

/// The table word after slot `index` is released.
pub fn release(table: u64, index: usize) -> (r: u64)
    requires
        index < TABLE_BITS,
    ensures
        r == without_slot(table, index as int),
        forall|j: int| #[trigger] occupied(r, j) == (occupied(table, j) && j != index),
{
    proof {
        lemma_slot_update(table, index as int);
    }
    table & !(1u64 << index)
}

/// How many of `rounds` successive allocation attempts succeed, starting
/// from `table`, when no slot is released in between.
pub open spec fn successes(table: u64, capacity: int, rounds: nat) -> nat
    decreases rounds,
{
    if rounds == 0 {
        0
    } else {
        match claim_of(table, capacity) {
            Some((_, next)) => 1 + successes(next, capacity, (rounds - 1) as nat),
            None => successes(table, capacity, (rounds - 1) as nat),
        }
    }
}

/// Mutual exclusion: a claimed slot was free before the claim, is taken after
/// it, and the next claim hands out a different slot.
pub proof fn lemma_claim_exclusive(table: u64, capacity: int)
    requires
        0 <= capacity <= 64,
    ensures
        claim_of(table, capacity) matches Some((i, next)) ==> !occupied(table, i) && occupied(
            next,
            i,
        ) && (claim_of(next, capacity) matches Some((j, _)) ==> j != i),
{
    lemma_lowest_free(table);
    if let Some((i, next)) = claim_of(table, capacity) {
        lemma_slot_update(table, i);
        lemma_lowest_free(next);
    }
}

/// A slot that is held, by a guard or because its guard was forgotten, is
/// never handed out by a claim, and stays taken across every claim and
/// across the release of any other slot.
pub proof fn lemma_held_slot_stays_held(table: u64, capacity: int, i: int)
    requires
        0 <= capacity <= 64,
        occupied(table, i),
    ensures
        claim_of(table, capacity) matches Some((j, next)) ==> j != i && occupied(next, i),
        forall|k: int| 0 <= k < 64 && k != i ==> occupied(#[trigger] without_slot(table, k), i),
{
    lemma_lowest_free(table);
    if let Some((j, next)) = claim_of(table, capacity) {
        lemma_slot_update(table, j);
    }
    assert forall|k: int| 0 <= k < 64 && k != i implies occupied(
        #[trigger] without_slot(table, k),
        i,
    ) by {
        lemma_slot_update(table, k);
    }
}

/// Releasing the slot that a claim just took gives back the table word as it
/// was before the claim; in particular a fresh pool returns to its initial word.
pub proof fn lemma_round_trip(table: u64, capacity: int)
    requires
        0 <= capacity <= 64,
    ensures
        claim_of(table, capacity) matches Some((i, next)) ==> without_slot(next, i) == table,
{
    lemma_lowest_free(table);
    if let Some((i, next)) = claim_of(table, capacity) {
        let ii = i as u64;
        assert((table >> ii) & 1u64 == 0u64 ==> (table | (1u64 << ii)) & !(1u64 << ii) == table)
            by (bit_vector)
            requires
                ii < 64,
        ;
    }
}

/// Capacity conservation: on a table whose padding bits are set, at most
/// `capacity` slots are taken, a claim adds exactly one slot below `capacity`,
/// and neither claims nor releases below `capacity` clear a padding bit.
pub proof fn lemma_capacity_conserved(table: u64, capacity: int)
    requires
        0 <= capacity <= 64,
        padded(table, capacity),
    ensures
        taken(table, capacity).len() <= capacity,
        claim_of(table, capacity) matches Some((i, next)) ==> 0 <= i < capacity && padded(
            next,
            capacity,
        ) && !taken(table, capacity).contains(i) && taken(next, capacity) == taken(
            table,
            capacity,
        ).insert(i),
        forall|k: int| 0 <= k < capacity ==> padded(#[trigger] without_slot(table, k), capacity),
{
    let range = vstd::set_lib::set_int_range(0, capacity);
    vstd::set_lib::lemma_int_range(0, capacity);
    assert(taken(table, capacity).subset_of(range));
    vstd::set_lib::lemma_len_subset(taken(table, capacity), range);
    lemma_lowest_free(table);
    if let Some((i, next)) = claim_of(table, capacity) {
        lemma_slot_update(table, i);
        assert(taken(next, capacity) =~= taken(table, capacity).insert(i));
    }
    assert forall|k: int| 0 <= k < capacity implies padded(
        #[trigger] without_slot(table, k),
        capacity,
    ) by {
        lemma_slot_update(table, k);
    }
}

proof fn lemma_successes_from_prefix(table: u64, capacity: int, k: int, rounds: nat)
    requires
        0 <= k <= capacity <= 64,
        forall|i: int| 0 <= i < 64 ==> #[trigger] occupied(table, i) == (i < k || capacity <= i),
    ensures
        successes(table, capacity, rounds) == if capacity - k < rounds {
            capacity - k
        } else {
            rounds as int
        },
    decreases rounds,
{
    if rounds > 0 {
        lemma_lowest_free(table);
        if k < capacity {
            assert(lowest_free(table) == k) by {
                if lowest_free(table) < k {
                    assert(occupied(table, lowest_free(table)));
                } else if lowest_free(table) > k {
                    assert(occupied(table, k));
                }
            }
            let next = with_slot(table, k);
            lemma_slot_update(table, k);
            lemma_successes_from_prefix(next, capacity, k + 1, (rounds - 1) as nat);
        } else {
            if lowest_free(table) < 64 {
                assert(occupied(table, lowest_free(table)));
            }
            lemma_successes_from_prefix(table, capacity, k, (rounds - 1) as nat);
        }
    }
}

/// No lost allocation: of `rounds` successive allocation attempts on a fresh
/// pool of `capacity` slots, exactly the smaller of `capacity` and `rounds`
/// succeed.
pub proof fn lemma_no_lost_claim(capacity: int, rounds: nat)
    requires
        0 <= capacity <= 64,
    ensures
        successes(initial_table_of(capacity), capacity, rounds) == if capacity < rounds {
            capacity
        } else {
            rounds as int
        },
{
    lemma_initial_table(capacity);
    lemma_successes_from_prefix(initial_table_of(capacity), capacity, 0, rounds);
}

} // verus!
