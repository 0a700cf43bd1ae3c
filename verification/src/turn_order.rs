use vstd::prelude::*;
use crate::slot_set::SlotSet;

verus! {

/// A seat can act when it has neither folded nor gone all-in.
pub open spec fn seat_active(folded: SlotSet, all_in: SlotSet, seat: int) -> bool {
    !folded@.contains(seat) && !all_in@.contains(seat)
}

/// The seats among the first `count` that can act.
pub open spec fn active_seats(folded: SlotSet, all_in: SlotSet, count: int) -> Set<int> {
    Set::new(|s: int| 0 <= s < count && seat_active(folded, all_in, s))
}

/// The seat reached from `start` after `steps` steps round a table of
/// `count` seats.
pub open spec fn seat_after(start: int, steps: int, count: int) -> int {
    (start + steps) % count
}

/// The first seat that can act among `start + skipped`, `start + skipped + 1`,
/// and so on round the table up to the seat just before `start`; `None` where
/// none of them can.
pub open spec fn scan_active(
    folded: SlotSet,
    all_in: SlotSet,
    count: int,
    start: int,
    skipped: int,
) -> Option<int>
    decreases count - skipped,
{
    if skipped >= count || count <= 0 {
        None
    } else if seat_active(folded, all_in, seat_after(start, skipped, count)) {
        Some(seat_after(start, skipped, count))
    } else {
        scan_active(folded, all_in, count, start, skipped + 1)
    }
}

/// The first seat that can act, going round a table of `count` seats from
/// `start` (which is itself the first candidate); `None` where no seat can.
pub open spec fn first_active_from(folded: SlotSet, all_in: SlotSet, count: int, start: int) -> Option<int> {
    scan_active(folded, all_in, count, start, 0)
}

/// Where the action goes when the search starts at `start`: to the first
/// seat that can act, and to `start` itself where no seat can.
pub open spec fn action_seat_from(folded: SlotSet, all_in: SlotSet, count: int, start: int) -> int {
    match first_active_from(folded, all_in, count, start) {
        Some(s) => s,
        None => start,
    }
}

/// What the scan finds is a seat that can act, reached after the fewest
/// steps: every seat passed over before it cannot act. Where it finds
/// nothing, none of the remaining seats can act.
pub proof fn lemma_scan_active(folded: SlotSet, all_in: SlotSet, count: int, start: int, skipped: int)
    requires
        0 < count,
        0 <= start < count,
        0 <= skipped <= count,
    ensures
        match scan_active(folded, all_in, count, start, skipped) {
            Some(s) => exists|k: int|
                skipped <= k < count && s == #[trigger] seat_after(start, k, count) && seat_active(
                    folded,
                    all_in,
                    s,
                ) && (forall|j: int|
                    skipped <= j < k ==> !seat_active(
                        folded,
                        all_in,
                        #[trigger] seat_after(start, j, count),
                    )),
            None => forall|j: int|
                skipped <= j < count ==> !seat_active(
                    folded,
                    all_in,
                    #[trigger] seat_after(start, j, count),
                ),
        },
    decreases count - skipped,
{
    if skipped >= count {
    } else if seat_active(folded, all_in, seat_after(start, skipped, count)) {
        assert(seat_after(start, skipped, count) == seat_after(start, skipped, count));
    } else {
        lemma_scan_active(folded, all_in, count, start, skipped + 1);
    }
}

/// Going round the table from `start` passes every seat: seat `s` is reached
/// after `(s - start) mod count` steps.
pub proof fn lemma_round_reaches(count: int, start: int, s: int)
    requires
        0 < count,
        0 <= start < count,
        0 <= s < count,
    ensures
        0 <= (s - start + count) % count < count,
        seat_after(start, (s - start + count) % count, count) == s,
{
    if s >= start {
        assert((s - start + count) % count == s - start) by {
            vstd::arithmetic::div_mod::lemma_mod_add_multiples_vanish(s - start, count);
            vstd::arithmetic::div_mod::lemma_small_mod((s - start) as nat, count as nat);
        }
        vstd::arithmetic::div_mod::lemma_small_mod(s as nat, count as nat);
    } else {
        vstd::arithmetic::div_mod::lemma_small_mod((s - start + count) as nat, count as nat);
        assert(start + (s - start + count) == s + count);
        vstd::arithmetic::div_mod::lemma_mod_add_multiples_vanish(s, count);
        vstd::arithmetic::div_mod::lemma_small_mod(s as nat, count as nat);
    }
}

/// The search finds a seat exactly when some seat at the table can act, and
/// what it finds is a seat of the table that can act.
pub proof fn lemma_first_active(folded: SlotSet, all_in: SlotSet, count: int, start: int)
    requires
        0 < count,
        0 <= start < count,
    ensures
        first_active_from(folded, all_in, count, start) is None <==> active_seats(
            folded,
            all_in,
            count,
        ) =~= Set::<int>::empty(),
        first_active_from(folded, all_in, count, start) matches Some(s) ==> 0 <= s < count
            && seat_active(folded, all_in, s),
        0 <= action_seat_from(folded, all_in, count, start) < count,
{
    lemma_scan_active(folded, all_in, count, start, 0);
    let found = first_active_from(folded, all_in, count, start);
    match found {
        Some(s) => {
            assert(0 <= s < count);
            assert(active_seats(folded, all_in, count).contains(s));
        },
        None => {
            assert forall|s: int| !active_seats(folded, all_in, count).contains(s) by {
                if 0 <= s < count && seat_active(folded, all_in, s) {
                    lemma_round_reaches(count, start, s);
                    let k = (s - start + count) % count;
                    assert(!seat_active(folded, all_in, seat_after(start, k, count)));
                }
            }
        },
    }
}

/// Finds the next seat that can act, going round a table of `count` seats
/// from `start`, which is itself the first candidate. Looks at each seat at
/// most once, and returns `None` where no seat can act.
pub fn next_active(start: u8, folded: &SlotSet, all_in: &SlotSet, count: u8) -> (r: Option<u8>)
    requires
        0 < count <= 16,
        start < count,
    ensures
        match r {
            Some(s) => first_active_from(*folded, *all_in, count as int, start as int) == Some(
                s as int,
            ),
            None => first_active_from(*folded, *all_in, count as int, start as int) is None,
        },
        r matches Some(s) ==> s < count && seat_active(*folded, *all_in, s as int),
        r is None <==> active_seats(*folded, *all_in, count as int) =~= Set::<int>::empty(),
{
    let mut seat: u8 = start;
    let mut checked: u8 = 0;
    proof {
        vstd::arithmetic::div_mod::lemma_small_mod(start as nat, count as nat);
    }
    while checked < count
        invariant
            0 < count <= 16,
            start < count,
            checked <= count,
            seat < count,
            checked < count ==> seat == seat_after(start as int, checked as int, count as int),
            scan_active(*folded, *all_in, count as int, start as int, checked as int)
                == first_active_from(*folded, *all_in, count as int, start as int),
        decreases count - checked,
    {
        if !folded.contains(seat) && !all_in.contains(seat) {
            assert(active_seats(*folded, *all_in, count as int).contains(seat as int));
            return Some(seat);
        }
        proof {
            lemma_step_round(start as int, checked as int, count as int);
        }
        seat = (seat + 1) % count;
        checked += 1;
    }
    proof {
        lemma_first_active(*folded, *all_in, count as int, start as int);
    }
    None
}

/// One more step round the table leads to the neighbouring seat.
pub proof fn lemma_step_round(start: int, steps: int, count: int)
    requires
        0 < count,
        0 <= start,
        0 <= steps,
    ensures
        seat_after(start, steps + 1, count) == (seat_after(start, steps, count) + 1) % count,
{
    vstd::arithmetic::div_mod::lemma_add_mod_noop(start + steps, 1, count);
    vstd::arithmetic::div_mod::lemma_mod_twice(start + steps, count);
    vstd::arithmetic::div_mod::lemma_add_mod_noop((start + steps) % count, 1, count);
}

} // verus!
