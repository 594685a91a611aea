//! Linking plants to pots.
//!
//! A link is made between a plant and a pot that both belong to the user who
//! asks, and only while neither of them is linked already. The checks and the
//! insert run in one transaction of the store, whose uniqueness constraints on
//! the link table are the last word: an insert that they refuse is reported
//! as `AlreadyLinked`, never as an internal error.
use vstd::prelude::*;
use crate::store::{
    links_exclusive, links_without, owns_plant, owns_pot, plant_linked, plants_wf, pot_linked,
    Assignment, StoreError, Store,
};
use crate::entities::{PlantDb, PotDb};

verus! {

/// Why a link or unlink was refused.
#[derive(Clone, Copy, Debug, PartialEq, Eq, Structural)]
pub enum LinkError {
    /// The plant or the pot does not exist or belongs to someone else.
    NotFound,
    /// The pot or the plant is linked already.
    AlreadyLinked,
    /// The store failed.
    InternalError,
}

/// The link rules over the four facts that a link request reads.
pub open spec fn link_rule(plant_owned: bool, pot_owned: bool, pot_taken: bool, plant_taken: bool) -> Result<(), LinkError> {
    if !plant_owned || !pot_owned {
        Err(LinkError::NotFound)
    } else if pot_taken || plant_taken {
        Err(LinkError::AlreadyLinked)
    } else {
        Ok(())
    }
}

/// Applies the link rules to the facts read inside a link transaction:
/// whether the requester owns the plant and the pot, and whether the pot or
/// the plant is linked already.
pub fn link_decision(plant_owned: bool, pot_owned: bool, pot_taken: bool, plant_taken: bool) -> (r: Result<(), LinkError>)
    ensures
        r == link_rule(plant_owned, pot_owned, pot_taken, plant_taken),
{
    if !plant_owned || !pot_owned {
        Err(LinkError::NotFound)
    } else if pot_taken || plant_taken {
        Err(LinkError::AlreadyLinked)
    } else {
        Ok(())
    }
}

/// The error that a failed insert of a link is reported as.
pub fn link_error_of(e: StoreError) -> (r: LinkError)
    ensures
        r == (match e {
            StoreError::UniqueViolation => LinkError::AlreadyLinked,
            StoreError::Other => LinkError::InternalError,
        }),
{
    match e {
        StoreError::UniqueViolation => LinkError::AlreadyLinked,
        StoreError::Other => LinkError::InternalError,
    }
}

/// What `link_plant_to_pot` answers on a store with these tables.
pub open spec fn link_outcome(
    plants: Seq<PlantDb>,
    pots: Seq<PotDb>,
    links: Seq<Assignment>,
    user_id: i32,
    plant_id: i32,
    pot_id: i32,
) -> Result<(), LinkError> {
    link_rule(
        owns_plant(plants, plant_id, user_id),
        owns_pot(pots, pot_id, user_id),
        pot_linked(links, pot_id),
        plant_linked(links, plant_id),
    )
}

/// The links after a link request with outcome `outcome`.
pub open spec fn links_after(links: Seq<Assignment>, outcome: Result<(), LinkError>, link: Assignment) -> Seq<Assignment> {
    if outcome is Ok {
        links.push(link)
    } else {
        links
    }
}

/// Links `plant_id` to `pot_id` on behalf of `user_id`, in one transaction.
pub fn link_plant_to_pot(store: &mut Store, user_id: i32, plant_id: i32, pot_id: i32) -> (r: Result<(), LinkError>)
    requires
        old(store).wf(),
    ensures
        final(store).wf(),
        final(store).user_rows() == old(store).user_rows(),
        final(store).plant_rows() == old(store).plant_rows(),
        final(store).pot_rows() == old(store).pot_rows(),
        r == link_outcome(
            old(store).plant_rows(),
            old(store).pot_rows(),
            old(store).links(),
            user_id,
            plant_id,
            pot_id,
        ),
        final(store).links() == links_after(
            old(store).links(),
            r,
            Assignment { plant_id, pot_id },
        ),
{
    let plant_owned = store.plant_owned_by(plant_id, user_id);
    let pot_owned = store.pot_owned_by(pot_id, user_id);
    let pot_taken = store.is_pot_linked(pot_id);
    let plant_taken = store.is_plant_linked(plant_id);
    match link_decision(plant_owned, pot_owned, pot_taken, plant_taken) {
        Ok(()) => match store.insert_assignment(Assignment { plant_id, pot_id }) {
            Ok(()) => Ok(()),
            Err(e) => Err(link_error_of(e)),
        },
        Err(e) => Err(e),
    }
}

/// Removes the link of `plant_id` with `pot_id` if the pot belongs to
/// `user_id`. Removing a link that is not there is no error.
pub fn unlink_plant_from_pot(store: &mut Store, user_id: i32, plant_id: i32, pot_id: i32) -> (r: Result<(), LinkError>)
    requires
        old(store).wf(),
    ensures
        final(store).wf(),
        final(store).user_rows() == old(store).user_rows(),
        final(store).plant_rows() == old(store).plant_rows(),
        final(store).pot_rows() == old(store).pot_rows(),
        r is Ok,
        final(store).links() == links_without(
            old(store).links(),
            old(store).pot_rows(),
            user_id,
            Assignment { plant_id, pot_id },
        ),
{
    store.delete_assignment(user_id, plant_id, pot_id);
    Ok(())
}

/// Once a pot has been linked, every further request of its owner to link
/// it, with any plant of theirs, fails with `AlreadyLinked`.
pub proof fn lemma_pot_links_once(
    plants: Seq<PlantDb>,
    pots: Seq<PotDb>,
    links: Seq<Assignment>,
    user_id: i32,
    plant_id: i32,
    pot_id: i32,
    other_plant_id: i32,
)
    requires
        link_outcome(plants, pots, links, user_id, plant_id, pot_id) is Ok,
        owns_plant(plants, other_plant_id, user_id),
    ensures
        link_outcome(
            plants,
            pots,
            links_after(links, Ok(()), Assignment { plant_id, pot_id }),
            user_id,
            other_plant_id,
            pot_id,
        ) == Err::<(), LinkError>(LinkError::AlreadyLinked),
{
    let after = links.push(Assignment { plant_id, pot_id });
    assert(after[links.len() as int].pot_id == pot_id);
}

/// Unlinking is idempotent: a second unlink of the same pair leaves the
/// links as the first one left them.
pub proof fn lemma_unlink_idempotent(links: Seq<Assignment>, pots: Seq<PotDb>, user_id: i32, link: Assignment)
    requires
        links_exclusive(links),
    ensures
        links_without(links_without(links, pots, user_id, link), pots, user_id, link) == links_without(
            links,
            pots,
            user_id,
            link,
        ),
{
    if owns_pot(pots, link.pot_id, user_id) && links.contains(link) {
        let k = crate::store::link_position(links, link);
        let rest = links.remove(k);
        assert(!rest.contains(link)) by {
            if rest.contains(link) {
                let j = choose|j: int| 0 <= j < rest.len() && rest[j] == link;
                let oj = if j < k { j } else { j + 1 };
                assert(links[oj] == rest[j]);
                assert((#[trigger] links[oj]).pot_id != (#[trigger] links[k]).pot_id);
            }
        }
    }
}

/// Two requests that race to link one pot, each valid on its own, are
/// serialized by the store: whichever runs first succeeds, the other fails
/// with `AlreadyLinked`, and afterwards exactly one link holds the pot.
pub proof fn lemma_racing_links(
    plants: Seq<PlantDb>,
    pots: Seq<PotDb>,
    links: Seq<Assignment>,
    user_id: i32,
    first_plant_id: i32,
    second_plant_id: i32,
    pot_id: i32,
)
    requires
        links_exclusive(links),
        link_outcome(plants, pots, links, user_id, first_plant_id, pot_id) is Ok,
        link_outcome(plants, pots, links, user_id, second_plant_id, pot_id) is Ok,
    ensures
        ({
            let after = links_after(links, Ok(()), Assignment { plant_id: first_plant_id, pot_id });
            &&& link_outcome(plants, pots, after, user_id, second_plant_id, pot_id) == Err::<
                (),
                LinkError,
            >(LinkError::AlreadyLinked)
            &&& links_exclusive(after)
            &&& exists|i: int|
                0 <= i < after.len() && (#[trigger] after[i]).pot_id == pot_id && forall|j: int|
                    0 <= j < after.len() && (#[trigger] after[j]).pot_id == pot_id ==> j == i
        }),
{
    let link = Assignment { plant_id: first_plant_id, pot_id };
    let after = links.push(link);
    let n = links.len() as int;
    assert(after[n].pot_id == pot_id);
    assert forall|i: int, j: int|
        0 <= i < after.len() && 0 <= j < after.len() && i != j implies (#[trigger] after[i]).plant_id
            != (#[trigger] after[j]).plant_id && after[i].pot_id != after[j].pot_id by {
        if i == n {
            assert(links[j] == after[j]);
        } else if j == n {
            assert(links[i] == after[i]);
        } else {
            assert(links[i] == after[i] && links[j] == after[j]);
        }
    }
    assert forall|j: int| 0 <= j < after.len() && (#[trigger] after[j]).pot_id == pot_id implies j == n by {
        if j != n {
            assert(links[j] == after[j]);
        }
    }
}

/// A user cannot link a plant that belongs to someone else, whatever pot
/// they name.
pub proof fn lemma_foreign_plant_not_found(
    plants: Seq<PlantDb>,
    pots: Seq<PotDb>,
    links: Seq<Assignment>,
    owner_id: i32,
    user_id: i32,
    plant_id: i32,
    pot_id: i32,
)
    requires
        plants_wf(plants),
        owns_plant(plants, plant_id, owner_id),
        user_id != owner_id,
    ensures
        link_outcome(plants, pots, links, user_id, plant_id, pot_id) == Err::<(), LinkError>(
            LinkError::NotFound,
        ),
{
    if owns_plant(plants, plant_id, user_id) {
        let i = choose|i: int| 0 <= i < plants.len() && (#[trigger] plants[i]).id == plant_id && plants[i].owner_id == owner_id;
        let j = choose|j: int| 0 <= j < plants.len() && (#[trigger] plants[j]).id == plant_id && plants[j].owner_id == user_id;
        assert(plants[i].id == i + 1 && plants[j].id == j + 1);
    }
}

} // verus!
