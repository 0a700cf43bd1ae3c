use vstd::prelude::*;
use crate::error::PokerError;
use crate::state::poker_game::{PokerGame, BATCH_COUNT, BATCH_SIZE, OFFSET_COMPLETE, POOL_SIZE};
use crate::state::{GameStage, Handle};
use crate::submit_cards::in_batch;

verus! {

/// The work that one blinding batch asks for.
#[derive(Clone, Copy, Debug, PartialEq, Eq)]
pub struct BlindPlan {
    /// The offset to combine the cards with: the hand's stored offset, or
    /// `None` where a fresh one has to be drawn first and used.
    pub offset: Option<Handle>,
    /// The cards in the batch's five slots, in the order of the slots.
    pub cards: [Handle; 5],
    /// For each of the five cards, whether it still has to be combined
    /// with the offset.
    pub pending: [bool; 5],
}

/// Why the batch cannot be blinded, or `None` where it can. The conditions
/// are tested in the order given here. Batch 1 needs batch 0 done before
/// it, batch 2 needs batch 1.
pub open spec fn refusal(game: PokerGame, batch_index: u8) -> Option<PokerError> {
    if !game.cards_submitted {
        Some(PokerError::CardsNotSubmitted)
    } else if game.offset_applied {
        Some(PokerError::OffsetAlreadyApplied)
    } else if !(game.stage is Waiting) {
        Some(PokerError::InvalidGameStage)
    } else if batch_index >= BATCH_COUNT {
        Some(PokerError::InvalidBatchIndex)
    } else if game.offset_batch < batch_index {
        Some(PokerError::BatchOutOfOrder)
    } else {
        None
    }
}

/// Whether this call is the first of the blinding phase, the one that draws
/// the offset.
pub open spec fn draws_offset(game: PokerGame, batch_index: u8) -> bool {
    batch_index == 0 && game.offset_batch == 0
}

/// Whether the card in `slot` has yet to be blinded.
pub open spec fn pending(game: PokerGame, slot: int) -> bool {
    !game.cards_offset_mask@.contains(slot)
}

/// The pool after batch `batch` has been blinded: each slot of the batch
/// that was not blinded before holds its blinded card, every other slot is
/// as it was.
pub open spec fn pool_after(
    pool: Seq<Handle>,
    done: Set<int>,
    batch: int,
    blinded: Seq<Handle>,
) -> Seq<Handle> {
    Seq::new(
        15,
        |i: int|
            if in_batch(i, batch) && !done.contains(i) {
                blinded[i - 5 * batch]
            } else {
                pool[i]
            },
    )
}

/// The blinded slots after batch `batch`: those before, and the batch's.
pub open spec fn mask_after(done: Set<int>, batch: int) -> Set<int> {
    done.union(Set::new(|i: int| in_batch(i, batch)))
}

/// The progress marker after batch `batch_index` has been blinded: complete
/// where `complete` says so; else the number of the next batch, unless the
/// marker was beyond that already, in which case it stays. It never moves
/// back.
pub open spec fn marker_after(marker: u8, batch_index: u8, complete: bool) -> u8 {
    if complete {
        OFFSET_COMPLETE
    } else if marker > batch_index + 1 {
        marker
    } else {
        (batch_index + 1) as u8
    }
}

/// Whether `post` is the hand `pre` after batch `batch_index` was blinded
/// with the handles `blinded`, and `fresh_offset` where the offset was
/// drawn in this call. The progress marker names the next batch that has
/// not been done; after the last batch, with all fifteen slots blinded, the
/// phase is complete.
pub open spec fn blinded_batch(
    pre: PokerGame,
    post: PokerGame,
    batch_index: u8,
    fresh_offset: Handle,
    blinded: [Handle; 5],
) -> bool {
    let complete = batch_index == 2 && post.cards_offset_mask.covers(POOL_SIZE as int);
    &&& post.card_pool@ == pool_after(
        pre.card_pool@,
        pre.cards_offset_mask@,
        batch_index as int,
        blinded@,
    )
    &&& post.cards_offset_mask@ == mask_after(pre.cards_offset_mask@, batch_index as int)
    &&& post == (PokerGame {
        card_pool: post.card_pool,
        cards_offset_mask: post.cards_offset_mask,
        encrypted_offset: if draws_offset(pre, batch_index) {
            fresh_offset
        } else {
            pre.encrypted_offset
        },
        offset_batch: marker_after(pre.offset_batch, batch_index, complete),
        offset_applied: complete,
        ..pre
    })
}

/// Tells whether batch `batch_index` can be blinded now.
pub fn check(game: &PokerGame, batch_index: u8) -> (r: Result<(), PokerError>)
    ensures
        match refusal(*game, batch_index) {
            Some(e) => r == Err::<(), PokerError>(e),
            None => r is Ok,
        },
{
    if !game.cards_submitted {
        return Err(PokerError::CardsNotSubmitted);
    }
    if game.offset_applied {
        return Err(PokerError::OffsetAlreadyApplied);
    }
    match game.stage {
        GameStage::Waiting => {},
        _ => {
            return Err(PokerError::InvalidGameStage);
        },
    }
    if batch_index >= BATCH_COUNT {
        return Err(PokerError::InvalidBatchIndex);
    }
    if game.offset_batch < batch_index {
        return Err(PokerError::BatchOutOfOrder);
    }
    Ok(())
}

/// Whether `plan` is the work that blinding batch `batch_index` of `game`
/// asks for: the stored offset unless this call is the one that draws it,
/// the cards of the batch's five slots, and for each whether it has yet to
/// be blinded.
pub open spec fn is_plan_for(plan: BlindPlan, game: PokerGame, batch_index: u8) -> bool {
    &&& plan.offset == if draws_offset(game, batch_index) {
        None
    } else {
        Some(game.encrypted_offset)
    }
    &&& forall|j: int| 0 <= j < 5 ==> plan.cards[j] == game.card_pool[5 * batch_index + j]
    &&& forall|j: int| 0 <= j < 5 ==> plan.pending[j] == pending(game, 5 * batch_index + j)
}

/// Says what has to be done outside to blind batch `batch_index`: which
/// offset to use, or that one has to be drawn, and which cards to combine
/// with it. A card that was blinded before is never asked for again, and
/// the offset is drawn only in the first call of the phase.
pub fn plan(game: &PokerGame, batch_index: u8) -> (r: Result<BlindPlan, PokerError>)
    ensures
        match refusal(*game, batch_index) {
            Some(e) => r == Err::<BlindPlan, PokerError>(e),
            None => r matches Ok(p) && is_plan_for(p, *game, batch_index),
        },
{
    match check(game, batch_index) {
        Err(e) => {
            return Err(e);
        },
        Ok(_) => {},
    }
    let start: u8 = batch_index * BATCH_SIZE;
    let mut todo: [bool; 5] = [false;5];
    let mut cards: [Handle; 5] = [game.encrypted_offset;5];
    let mut j: u8 = 0;
    while j < 5
        invariant
            j <= 5,
            start == 5 * batch_index,
            batch_index < 3,
            forall|k: int| 0 <= k < j ==> todo[k] == pending(*game, start + k),
            forall|k: int| 0 <= k < j ==> cards[k] == game.card_pool[start + k],
        decreases 5 - j,
    {
        todo[j as usize] = !game.is_card_offset(start + j);
        cards[j as usize] = game.card_pool[(start + j) as usize];
        j += 1;
    }
    let offset = if batch_index == 0 && game.offset_batch == 0 {
        None
    } else {
        Some(game.encrypted_offset)
    };
    Ok(BlindPlan { offset, cards, pending: todo })
}

/// Records the outcome of blinding batch `batch_index`.
///
/// `blinded[j]` is the card of the batch's slot `j` combined with the
/// offset, and is read only where that slot had yet to be blinded;
/// `fresh_offset` is the newly drawn offset, and is read only in the first
/// call of the phase. Refused, and nothing changes, unless the cards are
/// committed, the blinding is not complete, the hand is `Waiting`, the
/// batch index is 0, 1 or 2 and the batch before it is done. Otherwise the
/// pending slots of the batch take their blinded cards and are marked, and
/// the progress marker moves on to the next batch unless it was beyond it
/// already: a second call for a batch changes nothing at all.
pub fn handler(game: &mut PokerGame, batch_index: u8, fresh_offset: Handle, blinded: [Handle; 5]) -> (r:
    Result<(), PokerError>)
    requires
        old(game).wf(),
    ensures
        match refusal(*old(game), batch_index) {
            Some(e) => r == Err::<(), PokerError>(e) && *final(game) == *old(game),
            None => r is Ok && blinded_batch(
                *old(game),
                *final(game),
                batch_index,
                fresh_offset,
                blinded,
            ),
        },
        final(game).wf(),
        final(game).offset_batch >= old(game).offset_batch,
        final(game).stage == old(game).stage,
        final(game).pot == old(game).pot,
{
    match check(game, batch_index) {
        Err(e) => {
            return Err(e);
        },
        Ok(_) => {},
    }
    if batch_index == 0 && game.offset_batch == 0 {
        game.encrypted_offset = fresh_offset;
    }
    let ghost offset_set = *game;
    let start: u8 = batch_index * BATCH_SIZE;
    let mut j: u8 = 0;
    while j < 5
        invariant
            j <= 5,
            start == 5 * batch_index,
            batch_index < 3,
            old(game).wf(),
            *game == (PokerGame {
                card_pool: game.card_pool,
                cards_offset_mask: game.cards_offset_mask,
                ..offset_set
            }),
            game.cards_offset_mask@ =~= old(game).cards_offset_mask@.union(
                Set::new(|i: int| start <= i < start + j),
            ),
            forall|i: int|
                0 <= i < 15 ==> (#[trigger] game.card_pool[i]) == if start <= i < start + j
                    && pending(*old(game), i) {
                    blinded[i - start]
                } else {
                    old(game).card_pool[i]
                },
        decreases 5 - j,
    {
        let slot: u8 = start + j;
        if !game.is_card_offset(slot) {
            game.card_pool[slot as usize] = blinded[j as usize];
            game.mark_card_offset(slot);
        }
        j += 1;
    }
    if game.offset_batch <= batch_index {
        game.offset_batch = batch_index + 1;
    }
    if batch_index == 2 && game.all_cards_offset() {
        game.offset_batch = OFFSET_COMPLETE;
        game.offset_applied = true;
    }
    proof {
        assert(game.card_pool@ =~= pool_after(
            old(game).card_pool@,
            old(game).cards_offset_mask@,
            batch_index as int,
            blinded@,
        ));
        assert(game.cards_offset_mask@ =~= mask_after(
            old(game).cards_offset_mask@,
            batch_index as int,
        ));
    }
    Ok(())
}

} // verus!
