use vstd::prelude::*;
use crate::slot_set::SlotSet;
use crate::state::poker_table::{MAX_PLAYERS, MIN_PLAYERS};
use crate::state::{GameStage, Handle};
use crate::turn_order::{action_seat_from, active_seats, next_active, seat_active};

verus! {

/// Cards in the pool: ten hole cards and five community cards.
pub const POOL_SIZE: u8 = 15;

/// Pool slots that hold hole cards: slots `0..10`, two for each seat.
pub const HOLE_SLOTS: u8 = 10;

/// Cards that one batch of the commit and blinding phases handles.
pub const BATCH_SIZE: u8 = 5;

/// Batches that make up the pool.
pub const BATCH_COUNT: u8 = 3;

/// Value of `offset_batch` once every batch has been blinded.
pub const OFFSET_COMPLETE: u8 = 255;

/// One hand of poker: the stage, the round's counters, the status of each
/// seat and the pool of encrypted cards with the progress of the dealing
/// protocol.
#[derive(Clone, Copy, Debug, PartialEq, Eq)]
pub struct PokerGame {
    pub game_id: u64,
    pub stage: GameStage,
    /// Chips bet in the hand so far.
    pub pot: u64,
    /// Highest bet of the current betting round.
    pub current_bet: u64,
    pub dealer_position: u8,
    /// Seat whose turn it is.
    pub action_on: u8,
    /// Seats that have not folded.
    pub players_remaining: u8,
    /// Actions taken since the last bet or raise.
    pub players_acted: u8,
    pub player_count: u8,
    /// Seats that have folded.
    pub folded_mask: SlotSet,
    /// Seats that are all-in.
    pub all_in_mask: SlotSet,
    /// Seats that have posted a blind in this hand.
    pub blinds_posted: SlotSet,
    pub last_raiser: u8,
    /// Size of the last raise of the round, 0 where there was none.
    pub last_raise_amount: u64,
    /// Slots `0..10` hold hole cards, slots `10..15` community cards.
    pub card_pool: [Handle; 15],
    /// The offset with which every card of the pool is blinded.
    pub encrypted_offset: Handle,
    /// Blinding progress: the number of the next batch, or
    /// `OFFSET_COMPLETE`.
    pub offset_batch: u8,
    /// Pool slots that have been blinded.
    pub cards_offset_mask: SlotSet,
    /// Batches of cards that have been committed.
    pub submitted_batches: SlotSet,
    /// Rotation of the hole cards round their ten slots, a number in
    /// `0..10`; `None` while it has not been drawn.
    pub position_offset: Option<u8>,
    pub cards_submitted: bool,
    pub offset_applied: bool,
    /// Seats that have received their hole cards.
    pub cards_dealt_count: u8,
    /// Community cards that are visible, by their number `0..5`.
    pub community_revealed: SlotSet,
    pub winner_seat: Option<u8>,
}

impl PokerGame {
    /// The invariant of a hand. The hand has between two and five seats;
    /// dealer, turn and last raiser are seats of the hand, and so is every
    /// seat recorded as folded, all-in or blind poster; the seats that
    /// remain are those that have not folded; the dealing protocol is in a
    /// consistent state; the hand has left `Waiting` only with every seat
    /// dealt; and up to the river the visible community cards are the first
    /// three, four or five, as the stage says.
    pub open spec fn wf(self) -> bool {
        &&& MIN_PLAYERS <= self.player_count <= MAX_PLAYERS
        &&& self.dealer_position < self.player_count
        &&& self.action_on < self.player_count
        &&& self.last_raiser < self.player_count
        &&& self.folded_mask.within(self.player_count as int)
        &&& self.all_in_mask.within(self.player_count as int)
        &&& self.blinds_posted.within(self.player_count as int)
        &&& self.players_remaining + self.folded_mask@.len() == self.player_count
        &&& self.cards_dealt_count <= self.player_count
        &&& self.dealing_wf()
        &&& !(self.stage is Waiting) ==> self.cards_dealt_count == self.player_count
            && self.position_offset is Some
        &&& !(self.stage is Showdown || self.stage is Finished) ==> self.community_revealed@
            =~= Set::new(|i: int| 0 <= i < self.stage.community_count())
    }

    /// The part of the invariant that concerns the dealing protocol. The
    /// cards count as submitted exactly when all three batches are in; only
    /// pool slots are marked as blinded; the progress marker is 0, 1, 2 or
    /// complete, and the batches before it are blinded; the blinding is
    /// complete exactly when the marker says so, and then all fifteen slots
    /// are blinded; the position offset is below ten and is set only after
    /// commitment and blinding are complete.
    pub open spec fn dealing_wf(self) -> bool {
        &&& self.submitted_batches.within(BATCH_COUNT as int)
        &&& self.cards_submitted <==> self.submitted_batches.covers(BATCH_COUNT as int)
        &&& self.cards_offset_mask.within(POOL_SIZE as int)
        &&& self.community_revealed.within(5)
        &&& self.offset_batch == 0 || self.offset_batch == 1 || self.offset_batch == 2
            || self.offset_batch == OFFSET_COMPLETE
        &&& self.offset_batch == 1 ==> self.cards_offset_mask.covers(5)
        &&& self.offset_batch == 2 ==> self.cards_offset_mask.covers(10)
        &&& self.offset_applied <==> self.offset_batch == OFFSET_COMPLETE
        &&& self.offset_applied ==> self.cards_offset_mask.covers(POOL_SIZE as int)
        &&& self.offset_batch != 0 ==> self.cards_submitted
        &&& self.position_offset matches Some(offset) ==> offset < HOLE_SLOTS
            && self.cards_submitted && self.offset_applied
    }

    /// Whether `seat` can act: it has neither folded nor gone all-in.
    pub open spec fn seat_can_act(self, seat: int) -> bool {
        seat_active(self.folded_mask, self.all_in_mask, seat)
    }

    /// The seats of the hand that can act.
    pub open spec fn acting_seats(self) -> Set<int> {
        active_seats(self.folded_mask, self.all_in_mask, self.player_count as int)
    }

    /// Whether the betting round is over: no seat can act any more, or as
    /// many actions were taken since the last raise as seats can act.
    pub open spec fn round_complete(self) -> bool {
        self.acting_seats().len() == 0 || self.players_acted >= self.acting_seats().len()
    }

    /// The seat that the action goes to when the search starts at `start`:
    /// the first seat from there that can act, or `start` where none can.
    pub open spec fn action_from(self, start: int) -> int {
        action_seat_from(self.folded_mask, self.all_in_mask, self.player_count as int, start)
    }

    /// The seat to the left of `seat`, round the table.
    pub open spec fn seat_left_of(self, seat: int) -> int {
        (seat + 1) % (self.player_count as int)
    }

    /// Tests the invariant of the hand.
    pub fn is_well_formed(&self) -> (r: bool)
        ensures
            r == self.wf(),
    {
        let n: u8 = self.player_count;
        if n < MIN_PLAYERS || n > MAX_PLAYERS {
            return false;
        }
        let seats_ok = self.dealer_position < n && self.action_on < n && self.last_raiser < n
            && self.folded_mask.fits_within(n) && self.all_in_mask.fits_within(n)
            && self.blinds_posted.fits_within(n) && self.players_remaining <= n
            && self.folded_mask.count() == n - self.players_remaining && self.cards_dealt_count
            <= n;
        let stage_ok = match self.stage {
            GameStage::Waiting => self.community_revealed.is_first_n(0),
            GameStage::PreFlop => self.cards_dealt_count == n && self.position_offset.is_some()
                && self.community_revealed.is_first_n(0),
            GameStage::Flop => self.cards_dealt_count == n && self.position_offset.is_some()
                && self.community_revealed.is_first_n(3),
            GameStage::Turn => self.cards_dealt_count == n && self.position_offset.is_some()
                && self.community_revealed.is_first_n(4),
            GameStage::River => self.cards_dealt_count == n && self.position_offset.is_some()
                && self.community_revealed.is_first_n(5),
            _ => self.cards_dealt_count == n && self.position_offset.is_some(),
        };
        let dealing_ok = self.dealing_is_well_formed();
        seats_ok && stage_ok && dealing_ok
    }

    /// Tests the part of the invariant that concerns the dealing protocol.
    pub fn dealing_is_well_formed(&self) -> (r: bool)
        ensures
            r == self.dealing_wf(),
    {
        let batch: u8 = self.offset_batch;
        let mask = &self.cards_offset_mask;
        self.submitted_batches.fits_within(BATCH_COUNT) && self.cards_submitted
            == self.submitted_batches.contains_first_n(BATCH_COUNT) && mask.fits_within(POOL_SIZE)
            && self.community_revealed.fits_within(5) && (batch == 0 || batch == 1 || batch == 2
            || batch == OFFSET_COMPLETE) && (batch != 1 || mask.contains_first_n(5)) && (batch != 2
            || mask.contains_first_n(10)) && self.offset_applied == (batch == OFFSET_COMPLETE) && (
        !self.offset_applied || mask.contains_first_n(POOL_SIZE)) && (batch == 0
            || self.cards_submitted) && match self.position_offset {
            Some(offset) => offset < HOLE_SLOTS && self.cards_submitted && self.offset_applied,
            None => true,
        }
    }

    /// Whether `seat` has folded.
    pub fn is_folded(&self, seat: u8) -> (r: bool)
        ensures
            r == self.folded_mask@.contains(seat as int),
    {
        self.folded_mask.contains(seat)
    }

    /// Whether `seat` is all-in.
    pub fn is_all_in(&self, seat: u8) -> (r: bool)
        ensures
            r == self.all_in_mask@.contains(seat as int),
    {
        self.all_in_mask.contains(seat)
    }

    /// Whether `seat` can act: it has neither folded nor gone all-in.
    pub fn is_active(&self, seat: u8) -> (r: bool)
        ensures
            r == self.seat_can_act(seat as int),
    {
        !self.is_folded(seat) && !self.is_all_in(seat)
    }

    /// The number of seats of the hand that can act.
    pub fn active_player_count(&self) -> (n: u8)
        ensures
            n == self.acting_seats().len(),
            self.acting_seats().finite(),
            n <= self.player_count,
    {
        let mut n: u8 = 0;
        let mut i: u8 = 0;
        let ghost folded = self.folded_mask;
        let ghost all_in = self.all_in_mask;
        proof {
            assert(active_seats(folded, all_in, 0) =~= Set::<int>::empty());
        }
        while i < self.player_count
            invariant
                i <= self.player_count,
                n <= i,
                folded == self.folded_mask,
                all_in == self.all_in_mask,
                active_seats(folded, all_in, i as int).finite(),
                n == active_seats(folded, all_in, i as int).len(),
            decreases self.player_count - i,
        {
            proof {
                if seat_active(folded, all_in, i as int) {
                    assert(active_seats(folded, all_in, i + 1) =~= active_seats(
                        folded,
                        all_in,
                        i as int,
                    ).insert(i as int));
                } else {
                    assert(active_seats(folded, all_in, i + 1) =~= active_seats(
                        folded,
                        all_in,
                        i as int,
                    ));
                }
            }
            if self.is_active(i) {
                n += 1;
            }
            i += 1;
        }
        n
    }

    /// Tells the caller that the betting round is over and the stage can be
    /// advanced: no seat can act any more, or every seat that can act has
    /// acted since the last raise.
    pub fn betting_round_complete(&self) -> (r: bool)
        ensures
            r == self.round_complete(),
    {
        let active: u8 = self.active_player_count();
        active == 0 || self.players_acted >= active
    }

    /// The seat that the action goes to when the search starts at `start`.
    pub fn action_seat(&self, start: u8) -> (seat: u8)
        requires
            0 < self.player_count <= 16,
            start < self.player_count,
        ensures
            seat == self.action_from(start as int),
            seat < self.player_count,
    {
        proof {
            crate::turn_order::lemma_first_active(
                self.folded_mask,
                self.all_in_mask,
                self.player_count as int,
                start as int,
            );
        }
        match next_active(start, &self.folded_mask, &self.all_in_mask, self.player_count) {
            Some(seat) => seat,
            None => start,
        }
    }

    /// Whether the card in pool slot `card_index` has been blinded.
    pub fn is_card_offset(&self, card_index: u8) -> (r: bool)
        ensures
            r == self.cards_offset_mask@.contains(card_index as int),
    {
        self.cards_offset_mask.contains(card_index)
    }

    /// Records that the card in pool slot `card_index` has been blinded.
    pub fn mark_card_offset(&mut self, card_index: u8)
        requires
            card_index < POOL_SIZE,
        ensures
            final(self).cards_offset_mask@ == old(self).cards_offset_mask@.insert(
                card_index as int,
            ),
            *final(self) == (PokerGame {
                cards_offset_mask: old(self).cards_offset_mask.with(card_index as int),
                ..*old(self)
            }),
            old(self).wf() ==> final(self).wf(),
    {
        self.cards_offset_mask.insert(card_index);
    }

    /// Whether every card of the pool has been blinded.
    pub fn all_cards_offset(&self) -> (r: bool)
        ensures
            r == self.cards_offset_mask.covers(POOL_SIZE as int),
    {
        self.cards_offset_mask.contains_first_n(POOL_SIZE)
    }
}

} // verus!
