//! Usage records and the ledger that consumes each commitment at most once.

use vstd::prelude::*;
use crate::errors::ForgeError;
use crate::keys::keys_equal;

verus! {

/// Marker that a commitment digest has been consumed for a recipe.
#[derive(Clone, Copy, Debug)]
pub struct RecipeUse {
    /// Recipe the digest was consumed for.
    pub recipe: [u8; 32],
    /// The consumed commitment digest.
    pub input_hash: [u8; 32],
    /// Unix time of the forge.
    pub forged_at: i64,
    /// Bump seed of the record's address.
    pub bump: u8,
}

impl RecipeUse {
    /// Number of bytes of a stored usage record.
    pub const SIZE: usize = 8 + 32 + 32 + 8 + 1 + 7;
}

/// The (recipe, digest) pair a record consumes.
pub open spec fn use_key(u: RecipeUse) -> (Seq<u8>, Seq<u8>) {
    (u.recipe@, u.input_hash@)
}

/// The consumed (recipe, digest) pairs; records are only ever added.
pub struct UsageLedger {
    records: Vec<RecipeUse>,
}

impl View for UsageLedger {
    type V = Set<(Seq<u8>, Seq<u8>)>;

    closed spec fn view(&self) -> Set<(Seq<u8>, Seq<u8>)> {
        Set::new(
            |k: (Seq<u8>, Seq<u8>)|
                exists|i: int| 0 <= i < self.records@.len() && use_key(self.records@[i]) == k,
        )
    }
}

impl UsageLedger {
    /// A ledger in which nothing has been consumed.
    pub fn new() -> (r: Self)
        ensures
            r@ == Set::<(Seq<u8>, Seq<u8>)>::empty(),
    {
        let r = UsageLedger { records: Vec::new() };
        assert(r@ =~= Set::<(Seq<u8>, Seq<u8>)>::empty());
        r
    }

    /// Whether `input_hash` has been consumed for `recipe`.
    pub fn contains(&self, recipe: &[u8; 32], input_hash: &[u8; 32]) -> (r: bool)
        ensures
            r == self@.contains((recipe@, input_hash@)),
    {
        let mut i: usize = 0;
        while i < self.records.len()
            invariant
                0 <= i <= self.records@.len(),
                forall|j: int|
                    0 <= j < i ==> use_key(#[trigger] self.records@[j]) != (recipe@, input_hash@),
            decreases self.records@.len() - i,
        {
            let u = &self.records[i];
            if keys_equal(&u.recipe, recipe) && keys_equal(&u.input_hash, input_hash) {
                assert(use_key(self.records@[i as int]) == (recipe@, input_hash@));
                return true;
            }
            i += 1;
        }
        false
    }

    /// Consumes `input_hash` for `recipe`, once: the record is created if the
    /// pair is new, and the request is refused as a replay otherwise.
    pub fn reserve(&mut self, recipe: [u8; 32], input_hash: [u8; 32], forged_at: i64, bump: u8) -> (r:
        Result<RecipeUse, ForgeError>)
        ensures
            old(self)@.contains((recipe@, input_hash@)) ==> r == Err::<RecipeUse, ForgeError>(
                ForgeError::DuplicateRecipeUse,
            ) && *final(self) == *old(self),
            !old(self)@.contains((recipe@, input_hash@)) ==> r == Ok::<RecipeUse, ForgeError>(
                RecipeUse { recipe, input_hash, forged_at, bump },
            ) && final(self)@ == old(self)@.insert((recipe@, input_hash@)),
    {
        if self.contains(&recipe, &input_hash) {
            return Err(ForgeError::DuplicateRecipeUse);
        }
        let record = RecipeUse { recipe, input_hash, forged_at, bump };
        let ghost before = self.records@;
        self.records.push(record);
        assert(self@ =~= old(self)@.insert((recipe@, input_hash@))) by {
            assert forall|k: (Seq<u8>, Seq<u8>)| #[trigger] self@.contains(k) implies old(
                self,
            )@.insert((recipe@, input_hash@)).contains(k) by {
                let i = choose|i: int|
                    0 <= i < self.records@.len() && use_key(self.records@[i]) == k;
                if i < before.len() {
                    assert(use_key(before[i]) == k);
                }
            }
            assert forall|k: (Seq<u8>, Seq<u8>)| #[trigger] old(self)@.insert(
                (recipe@, input_hash@),
            ).contains(k) implies self@.contains(k) by {
                if k == (recipe@, input_hash@) {
                    assert(use_key(self.records@[before.len() as int]) == k);
                } else {
                    let i = choose|i: int| 0 <= i < before.len() && use_key(before[i]) == k;
                    assert(use_key(self.records@[i]) == k);
                }
            }
        }
        Ok(record)
    }
}

} // verus!
