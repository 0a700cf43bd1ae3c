use vstd::prelude::*;
use crate::state::Handle;

verus! {

/// One player's record for one hand: the stack, the two hole cards and the
/// money put in so far.
#[derive(Clone, Copy, Debug, PartialEq, Eq)]
pub struct PlayerSeat {
    pub seat_index: u8,
    /// Chips not yet bet.
    pub chips: u64,
    pub hole_card_1: Handle,
    pub hole_card_2: Handle,
    /// Chips bet in the current betting round.
    pub current_bet: u64,
    /// Chips bet in the whole hand.
    pub total_bet: u64,
    pub is_folded: bool,
    pub is_all_in: bool,
    /// Whether the seat has acted in the current betting round.
    pub has_acted: bool,
    pub hand_rank: u64,
}

impl PlayerSeat {
    /// A seat is well formed when this round's bet is part of the hand's
    /// bet, and stack and bet together (what the player brought) are
    /// representable.
    pub open spec fn wf(self) -> bool {
        &&& self.current_bet <= self.total_bet
        &&& self.chips + self.total_bet <= u64::MAX
    }

    /// What the player brought to the hand: the stack plus what was bet.
    pub open spec fn stake(self) -> int {
        self.chips + self.total_bet
    }

    /// The seat as it is right after the deal.
    pub open spec fn dealt(seat_index: u8, chips: u64, card_1: Handle, card_2: Handle) -> PlayerSeat {
        PlayerSeat {
            seat_index,
            chips,
            hole_card_1: card_1,
            hole_card_2: card_2,
            current_bet: 0,
            total_bet: 0,
            is_folded: false,
            is_all_in: false,
            has_acted: false,
            hand_rank: 0,
        }
    }

    /// The seat at the start of a betting round: nothing bet in the round
    /// and not yet acted.
    pub open spec fn round_reset(self) -> PlayerSeat {
        PlayerSeat { current_bet: 0, has_acted: false, ..self }
    }

    /// The seat after `amount` chips have moved from the stack into the bet.
    pub open spec fn after_bet(self, amount: u64) -> PlayerSeat {
        PlayerSeat {
            chips: (self.chips - amount) as u64,
            current_bet: (self.current_bet + amount) as u64,
            total_bet: (self.total_bet + amount) as u64,
            ..self
        }
    }

    /// What a seat posts for a blind of `required`: the blind, or the whole
    /// stack where the stack is shorter.
    pub open spec fn blind_amount(self, required: u64) -> u64 {
        if required <= self.chips {
            required
        } else {
            self.chips
        }
    }

    /// Tests the invariant of the seat.
    pub fn is_well_formed(&self) -> (r: bool)
        ensures
            r == self.wf(),
    {
        self.current_bet <= self.total_bet && self.chips <= u64::MAX - self.total_bet
    }

    /// A fresh seat with its hole cards and stack.
    pub fn new(seat_index: u8, chips: u64, card_1: Handle, card_2: Handle) -> (seat: PlayerSeat)
        ensures
            seat == PlayerSeat::dealt(seat_index, chips, card_1, card_2),
            seat.wf(),
    {
        PlayerSeat {
            seat_index,
            chips,
            hole_card_1: card_1,
            hole_card_2: card_2,
            current_bet: 0,
            total_bet: 0,
            is_folded: false,
            is_all_in: false,
            has_acted: false,
            hand_rank: 0,
        }
    }

    /// Prepares the seat for a new betting round.
    pub fn reset_for_new_round(&mut self)
        ensures
            *final(self) == old(self).round_reset(),
            old(self).wf() ==> final(self).wf(),
    {
        self.current_bet = 0;
        self.has_acted = false;
    }

    /// Moves `amount` chips from the stack into the bet.
    pub fn place_bet(&mut self, amount: u64)
        requires
            old(self).wf(),
            amount <= old(self).chips,
        ensures
            *final(self) == old(self).after_bet(amount),
            final(self).wf(),
            final(self).stake() == old(self).stake(),
    {
        self.chips = self.chips - amount;
        self.current_bet = self.current_bet + amount;
        self.total_bet = self.total_bet + amount;
    }

    /// Posts a blind of `required` chips, or the whole stack where the
    /// stack is shorter, and returns what was posted.
    pub fn post_blind(&mut self, required: u64) -> (amount: u64)
        requires
            old(self).wf(),
        ensures
            amount == old(self).blind_amount(required),
            *final(self) == old(self).after_bet(amount),
            final(self).wf(),
    {
        let amount: u64 = if required <= self.chips {
            required
        } else {
            self.chips
        };
        self.place_bet(amount);
        amount
    }
}

} // verus!
