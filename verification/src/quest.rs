use vstd::prelude::*;

verus! {

/// Quests are numbered; a quest mask holds one bit per quest below 64.
pub open spec fn has_quest(mask: u64, quest_id: u8) -> bool {
    quest_id < 64 && mask & (1u64 << quest_id) != 0
}

/// The mask with quest `quest_id` marked; quests from 64 on cannot be marked.
pub open spec fn with_quest(mask: u64, quest_id: u8) -> u64 {
    if quest_id < 64 {
        mask | (1u64 << quest_id)
    } else {
        mask
    }
}

/// Every quest marked in `old` is marked in `new`.
pub open spec fn quests_kept(old: u64, new: u64) -> bool {
    forall|q: u8| #[trigger] has_quest(old, q) ==> has_quest(new, q)
}

/// Reads the bit of quest `quest_id` in `mask`.
pub fn mask_has_quest(mask: u64, quest_id: u8) -> (b: bool)
    ensures
        b == has_quest(mask, quest_id),
{
    if quest_id < 64 {
        (mask & (1u64 << quest_id)) != 0
    } else {
        false
    }
}

/// Marks quest `quest_id` in `mask`.
pub fn mask_with_quest(mask: u64, quest_id: u8) -> (m: u64)
    ensures
        m == with_quest(mask, quest_id),
{
    if quest_id < 64 {
        mask | (1u64 << quest_id)
    } else {
        mask
    }
}

/// Marking a quest marks that quest and leaves every other quest as it was.
pub proof fn lemma_with_quest(mask: u64, quest_id: u8, other: u8)
    ensures
        has_quest(with_quest(mask, quest_id), other) == (has_quest(mask, other) || (other
            == quest_id && quest_id < 64)),
{
    if quest_id < 64 && other < 64 {
        let q = quest_id as u64;
        let o = other as u64;
        assert((mask | (1u64 << q)) & (1u64 << o) != 0 <==> (mask & (1u64 << o) != 0 || o
            == q)) by (bit_vector)
            requires
                q < 64,
                o < 64,
        ;
        assert(1u64 << quest_id == 1u64 << q);
        assert(1u64 << other == 1u64 << o);
    }
}

/// Marking a quest never unmarks one.
pub proof fn lemma_with_quest_keeps(mask: u64, quest_id: u8)
    ensures
        quests_kept(mask, with_quest(mask, quest_id)),
{
    assert forall|q: u8| #[trigger] has_quest(mask, q) implies has_quest(
        with_quest(mask, quest_id),
        q,
    ) by {
        lemma_with_quest(mask, quest_id, q);
    }
}

} // verus!
