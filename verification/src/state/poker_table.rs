use vstd::prelude::*;

verus! {

/// Most seats a hand can have: the card pool holds two hole cards for each.
pub const MAX_PLAYERS: u8 = 5;

/// Fewest seated players with which a hand can start.
pub const MIN_PLAYERS: u8 = 2;

/// What a hand needs to know of the table it is played at.
#[derive(Clone, Copy, Debug, PartialEq, Eq)]
pub struct PokerTable {
    pub table_id: u64,
    /// Seats the table offers.
    pub max_players: u8,
    /// Smallest and largest stack a player may bring.
    pub buy_in_min: u64,
    pub buy_in_max: u64,
    /// The small blind; the big blind is twice as much.
    pub small_blind: u64,
    /// Players seated now.
    pub player_count: u8,
    /// The hand in progress, by its id, if there is one.
    pub current_game: Option<u64>,
}

impl PokerTable {
    /// A table is well formed when it seats no more players than it offers
    /// seats, offers no more seats than a hand can have, and its big blind
    /// is representable.
    pub open spec fn wf(self) -> bool {
        &&& self.player_count <= self.max_players
        &&& self.max_players <= MAX_PLAYERS
        &&& 2 * self.small_blind <= u64::MAX
    }

    /// Tests the invariant of the table.
    pub fn is_well_formed(&self) -> (r: bool)
        ensures
            r == self.wf(),
    {
        self.player_count <= self.max_players && self.max_players <= MAX_PLAYERS
            && self.small_blind <= u64::MAX / 2
    }

    /// Whether a stack of `buy_in` is within the table's limits.
    pub open spec fn accepts_buy_in(self, buy_in: u64) -> bool {
        self.buy_in_min <= buy_in <= self.buy_in_max
    }
}

} // verus!
