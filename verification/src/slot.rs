//! The one place where the latest proof artefact is kept.

use vstd::prelude::*;
use crate::artifact::ProofOutput;

verus! {

/// Why nothing could be retrieved.
#[derive(Clone, Copy, Debug, PartialEq, Eq, Structural)]
pub enum SlotError {
    /// Nothing has been stored yet.
    NotFound,
}

/// A slot for one artefact in transport form. It starts empty; each
/// store replaces what was there, whole.
#[derive(Debug)]
pub struct ProofSlot {
    current: Option<ProofOutput>,
}

/// What a slot holds after a run of stores into it: the last of them,
/// or what it held before where there were none.
pub open spec fn after_stores(before: Option<ProofOutput>, stores: Seq<ProofOutput>) -> Option<
    ProofOutput,
>
    decreases stores.len(),
{
    if stores.len() == 0 {
        before
    } else {
        after_stores(Some(stores.first()), stores.drop_first())
    }
}

impl ProofSlot {
    /// What the slot holds, if anything.
    pub closed spec fn held(&self) -> Option<ProofOutput> {
        self.current
    }

    /// An empty slot.
    pub fn new() -> (slot: ProofSlot)
        ensures
            slot.held() is None,
    {
        ProofSlot { current: None }
    }

    /// Whether nothing has been stored yet.
    pub fn is_empty(&self) -> (empty: bool)
        ensures
            empty == self.held() is None,
    {
        self.current.is_none()
    }

    /// Puts an artefact in the slot in place of whatever it held.
    pub fn store(&mut self, output: ProofOutput)
        ensures
            final(self).held() == Some(output),
    {
        self.current = Some(output);
    }

    /// A copy of the artefact stored last. An empty slot gives
    /// `NotFound`, never an artefact made up for the occasion.
    pub fn retrieve(&self) -> (found: Result<ProofOutput, SlotError>)
        ensures
            match self.held() {
                Some(stored) => found == Ok::<ProofOutput, SlotError>(stored),
                None => found == Err::<ProofOutput, SlotError>(SlotError::NotFound),
            },
    {
        match &self.current {
            Some(stored) => Ok(
                ProofOutput {
                    proof: stored.proof.clone(),
                    pub_inputs: stored.pub_inputs.clone(),
                    image_id: stored.image_id.clone(),
                },
            ),
            None => Err(SlotError::NotFound),
        }
    }
}

/// After any run of stores, in whatever order they were made, the slot
/// holds exactly one of the stored artefacts, the last, and no mixture
/// of several.
pub proof fn lemma_last_store_wins(before: Option<ProofOutput>, stores: Seq<ProofOutput>)
    requires
        stores.len() > 0,
    ensures
        after_stores(before, stores) == Some(stores.last()),
        exists|i: int| 0 <= i < stores.len() && after_stores(before, stores) == Some(stores[i]),
    decreases stores.len(),
{
    let rest = stores.drop_first();
    if rest.len() == 0 {
        assert(after_stores(Some(stores.first()), rest) == Some(stores.first()));
        assert(stores.first() == stores.last());
    } else {
        lemma_last_store_wins(Some(stores.first()), rest);
        assert(rest.last() == stores.last());
    }
    assert(after_stores(before, stores) == Some(stores[stores.len() - 1]));
}

} // verus!
