use vstd::prelude::*;
use crate::error::PokerError;
use crate::state::poker_game::{PokerGame, BATCH_COUNT, BATCH_SIZE};
use crate::state::{GameStage, Handle};

verus! {

/// Whether pool slot `slot` belongs to batch `batch`: batch 0 holds slots
/// `0..5`, batch 1 slots `5..10`, batch 2 slots `10..15`.
pub open spec fn in_batch(slot: int, batch: int) -> bool {
    5 * batch <= slot < 5 * batch + 5
}

/// Why the batch cannot be committed, or `None` where it can. The
/// conditions are tested in the order given here.
pub open spec fn refusal(game: PokerGame, batch_index: u8) -> Option<PokerError> {
    if !(game.stage is Waiting) {
        Some(PokerError::InvalidGameStage)
    } else if batch_index >= BATCH_COUNT {
        Some(PokerError::InvalidBatchIndex)
    } else if game.submitted_batches@.contains(batch_index as int) {
        Some(PokerError::CardsAlreadySubmitted)
    } else {
        None
    }
}

/// The pool after `cards` have been stored as batch `batch`: the batch's
/// five slots hold the cards in their order, every other slot is as it was.
pub open spec fn pool_after(pool: Seq<Handle>, batch: int, cards: Seq<Handle>) -> Seq<Handle> {
    Seq::new(
        15,
        |i: int|
            if in_batch(i, batch) {
                cards[i - 5 * batch]
            } else {
                pool[i]
            },
    )
}

/// Whether `post` is the hand `pre` after `cards` were committed as batch
/// `batch_index`: the pool holds them, the batch is recorded, and the cards
/// count as submitted once all three batches are in.
pub open spec fn committed(pre: PokerGame, post: PokerGame, batch_index: u8, cards: [Handle; 5]) -> bool {
    let batches = pre.submitted_batches.with(batch_index as int);
    &&& post.card_pool@ == pool_after(pre.card_pool@, batch_index as int, cards@)
    &&& post == (PokerGame {
        card_pool: post.card_pool,
        submitted_batches: batches,
        cards_submitted: batches.covers(BATCH_COUNT as int),
        ..pre
    })
}

/// Tells whether batch `batch_index` can be committed now, before the
/// ciphertexts are ingested.
pub fn check(game: &PokerGame, batch_index: u8) -> (r: Result<(), PokerError>)
    ensures
        match refusal(*game, batch_index) {
            Some(e) => r == Err::<(), PokerError>(e),
            None => r is Ok,
        },
{
    match game.stage {
        GameStage::Waiting => {},
        _ => {
            return Err(PokerError::InvalidGameStage);
        },
    }
    if batch_index >= BATCH_COUNT {
        return Err(PokerError::InvalidBatchIndex);
    }
    if game.submitted_batches.contains(batch_index) {
        return Err(PokerError::CardsAlreadySubmitted);
    }
    Ok(())
}

/// Commits one batch of five ingested cards to the pool.
///
/// Refused, and nothing changes, unless the hand is `Waiting`, the batch
/// index is 0, 1 or 2, and that batch has not been committed before.
/// Otherwise the five handles fill the batch's pool slots in their order
/// and the batch is recorded; the third batch to land completes the
/// commitment.
pub fn handler(game: &mut PokerGame, batch_index: u8, cards: [Handle; 5]) -> (r: Result<
    (),
    PokerError,
>)
    requires
        old(game).wf(),
    ensures
        match refusal(*old(game), batch_index) {
            Some(e) => r == Err::<(), PokerError>(e) && *final(game) == *old(game),
            None => r is Ok && committed(*old(game), *final(game), batch_index, cards),
        },
        final(game).wf(),
        final(game).stage == old(game).stage,
        final(game).pot == old(game).pot,
{
    match check(game, batch_index) {
        Err(e) => {
            return Err(e);
        },
        Ok(_) => {},
    }
    let start: usize = (batch_index as usize) * (BATCH_SIZE as usize);
    let mut j: usize = 0;
    while j < 5
        invariant
            j <= 5,
            start == 5 * batch_index,
            batch_index < 3,
            *game == (PokerGame { card_pool: game.card_pool, ..*old(game) }),
            forall|i: int|
                0 <= i < 15 ==> game.card_pool[i] == if start <= i < start + j {
                    cards[i - start]
                } else {
                    old(game).card_pool[i]
                },
        decreases 5 - j,
    {
        game.card_pool[start + j] = cards[j];
        j += 1;
    }
    game.submitted_batches.insert(batch_index);
    game.cards_submitted = game.submitted_batches.contains_first_n(BATCH_COUNT);
    proof {
        assert(game.card_pool@ =~= pool_after(old(game).card_pool@, batch_index as int, cards@));
    }
    Ok(())
}

} // verus!
