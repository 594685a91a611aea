//! The transactional store that credentials, plants, pots and links live in.
//!
//! Every method takes the whole store, by shared or exclusive reference, so
//! each call is one serializable transaction. Ids are assigned by the store:
//! the n-th row of a table gets id n. The uniqueness constraints of the
//! credential table (on `email`) and of the link table (on `plant_id` and on
//! `pot_id`, each on its own) are checked at insert time, whatever the caller
//! checked before.
use vstd::prelude::*;
use crate::entities::{Plant, PlantDb, Pot, PotDb, User, UserDb};

verus! {

/// A link between a plant and a pot.
#[derive(Clone, Copy, Debug, PartialEq, Eq, Structural)]
pub struct Assignment {
    pub plant_id: i32,
    pub pot_id: i32,
}

/// How a write to the store failed.
#[derive(Clone, Copy, Debug, PartialEq, Eq, Structural)]
pub enum StoreError {
    /// The row would break a uniqueness constraint.
    UniqueViolation,
    /// Any other failure of the store.
    Other,
}

/// Reads a database error code: SQLSTATE `23505` is a unique violation,
/// anything else (or no code) another failure.
pub fn classify_db_code(code: Option<&str>) -> (r: StoreError)
    ensures
        r == (if code matches Some(c) && c@ == "23505"@ {
            StoreError::UniqueViolation
        } else {
            StoreError::Other
        }),
{
    match code {
        Some(c) => {
            let unique = "23505".to_owned();
            if c.to_owned() == unique {
                StoreError::UniqueViolation
            } else {
                StoreError::Other
            }
        },
        None => StoreError::Other,
    }
}

/// Some credential row holds `email`.
pub open spec fn email_taken(users: Seq<UserDb>, email: Seq<char>) -> bool {
    exists|i: int| 0 <= i < users.len() && (#[trigger] users[i]).email@ == email
}

/// `new` is `old` with one more credential row, for `email` and `hash`.
pub open spec fn user_added(old: Seq<UserDb>, new: Seq<UserDb>, email: Seq<char>, hash: Seq<char>) -> bool {
    &&& new.len() == old.len() + 1
    &&& new.drop_last() == old
    &&& new.last().id == old.len() + 1
    &&& new.last().email@ == email
    &&& new.last().password_hash@ == hash
}

/// The plant `plant_id` exists and belongs to `user_id`.
pub open spec fn owns_plant(plants: Seq<PlantDb>, plant_id: i32, user_id: i32) -> bool {
    exists|i: int| 0 <= i < plants.len() && (#[trigger] plants[i]).id == plant_id && plants[i].owner_id == user_id
}

/// The pot `pot_id` exists and belongs to `user_id`.
pub open spec fn owns_pot(pots: Seq<PotDb>, pot_id: i32, user_id: i32) -> bool {
    exists|i: int| 0 <= i < pots.len() && (#[trigger] pots[i]).id == pot_id && pots[i].owner_id == user_id
}

/// Some link holds the pot `pot_id`.
pub open spec fn pot_linked(links: Seq<Assignment>, pot_id: i32) -> bool {
    exists|i: int| 0 <= i < links.len() && (#[trigger] links[i]).pot_id == pot_id
}

/// Some link holds the plant `plant_id`.
pub open spec fn plant_linked(links: Seq<Assignment>, plant_id: i32) -> bool {
    exists|i: int| 0 <= i < links.len() && (#[trigger] links[i]).plant_id == plant_id
}

/// No plant and no pot takes part in two links.
pub open spec fn links_exclusive(links: Seq<Assignment>) -> bool {
    forall|i: int, j: int|
        0 <= i < links.len() && 0 <= j < links.len() && i != j ==> (#[trigger] links[i]).plant_id
            != (#[trigger] links[j]).plant_id && links[i].pot_id != links[j].pot_id
}

/// Credential rows: ids in order of insertion, emails unique.
pub open spec fn users_wf(users: Seq<UserDb>) -> bool {
    &&& users.len() <= i32::MAX
    &&& forall|i: int| 0 <= i < users.len() ==> (#[trigger] users[i]).id == i + 1
    &&& forall|i: int, j: int|
        0 <= i < users.len() && 0 <= j < users.len() && i != j ==> (#[trigger] users[i]).email@
            != (#[trigger] users[j]).email@
}

/// Plant rows: ids in order of insertion.
pub open spec fn plants_wf(plants: Seq<PlantDb>) -> bool {
    &&& plants.len() <= i32::MAX
    &&& forall|i: int| 0 <= i < plants.len() ==> (#[trigger] plants[i]).id == i + 1
}

/// Pot rows: ids in order of insertion.
pub open spec fn pots_wf(pots: Seq<PotDb>) -> bool {
    &&& pots.len() <= i32::MAX
    &&& forall|i: int| 0 <= i < pots.len() ==> (#[trigger] pots[i]).id == i + 1
}

/// The store's tables.
pub struct Store {
    users: Vec<UserDb>,
    plants: Vec<PlantDb>,
    pots: Vec<PotDb>,
    assignments: Vec<Assignment>,
}

impl Store {
    /// The credential table.
    pub closed spec fn user_rows(&self) -> Seq<UserDb> {
        self.users@
    }

    /// The plant table.
    pub closed spec fn plant_rows(&self) -> Seq<PlantDb> {
        self.plants@
    }

    /// The pot table.
    pub closed spec fn pot_rows(&self) -> Seq<PotDb> {
        self.pots@
    }

    /// The link table.
    pub closed spec fn links(&self) -> Seq<Assignment> {
        self.assignments@
    }

    /// The credential rows, in order of insertion.
    pub fn users(&self) -> (r: &Vec<UserDb>)
        ensures
            r@ == self.user_rows(),
    {
        &self.users
    }

    /// The plant rows, in order of insertion.
    pub fn plants(&self) -> (r: &Vec<PlantDb>)
        ensures
            r@ == self.plant_rows(),
    {
        &self.plants
    }

    /// The pot rows, in order of insertion.
    pub fn pots(&self) -> (r: &Vec<PotDb>)
        ensures
            r@ == self.pot_rows(),
    {
        &self.pots
    }

    /// The links, in order of insertion.
    pub fn assignments(&self) -> (r: &Vec<Assignment>)
        ensures
            r@ == self.links(),
    {
        &self.assignments
    }

    /// The constraints that every transaction preserves.
    pub open spec fn wf(&self) -> bool {
        &&& users_wf(self.user_rows())
        &&& plants_wf(self.plant_rows())
        &&& pots_wf(self.pot_rows())
        &&& links_exclusive(self.links())
    }

    /// An empty store.
    pub fn new() -> (r: Store)
        ensures
            r.wf(),
            r.user_rows().len() == 0,
            r.plant_rows().len() == 0,
            r.pot_rows().len() == 0,
            r.links().len() == 0,
    {
        Store { users: Vec::new(), plants: Vec::new(), pots: Vec::new(), assignments: Vec::new() }
    }

    /// The position of the credential row for `email`.
    fn find_user(&self, email: &str) -> (r: Option<usize>)
        ensures
            match r {
                Some(i) => i < self.user_rows().len() && self.user_rows()[i as int].email@ == email@,
                None => !email_taken(self.user_rows(), email@),
            },
    {
        let wanted = email.to_owned();
        let mut i: usize = 0;
        while i < self.users.len()
            invariant
                i <= self.user_rows().len(),
                wanted@ == email@,
                forall|j: int| 0 <= j < i ==> (#[trigger] self.user_rows()[j]).email@ != email@,
            decreases self.user_rows().len() - i,
        {
            if self.users[i].email == wanted {
                return Some(i);
            }
            i += 1;
        }
        None
    }

    /// The user registered under `email`.
    pub fn get_user_by_email(&self, email: &str) -> (r: Option<User>)
        requires
            self.wf(),
        ensures
            !email_taken(self.user_rows(), email@) ==> r is None,
            forall|i: int|
                0 <= i < self.user_rows().len() && (#[trigger] self.user_rows()[i]).email@ == email@ ==> (r matches Some(u)
                    && u.id == self.user_rows()[i].id && u.email@ == email@),
    {
        match self.find_user(email) {
            Some(i) => Some(User { id: self.users[i].id, email: self.users[i].email.clone() }),
            None => None,
        }
    }

    /// The stored password hash of the user registered under `email`.
    pub fn password_hash_of(&self, email: &str) -> (r: Option<&String>)
        requires
            self.wf(),
        ensures
            !email_taken(self.user_rows(), email@) ==> r is None,
            forall|i: int|
                0 <= i < self.user_rows().len() && (#[trigger] self.user_rows()[i]).email@ == email@ ==> (r matches Some(h)
                    && h@ == self.user_rows()[i].password_hash@),
    {
        match self.find_user(email) {
            Some(i) => Some(&self.users[i].password_hash),
            None => None,
        }
    }

    /// Inserts a credential row; the email must not be taken.
    pub fn insert_user(&mut self, email: &str, password_hash: String) -> (r: Result<i32, StoreError>)
        requires
            old(self).wf(),
        ensures
            final(self).wf(),
            final(self).plant_rows() == old(self).plant_rows(),
            final(self).pot_rows() == old(self).pot_rows(),
            final(self).links() == old(self).links(),
            email_taken(old(self).user_rows(), email@) ==> r == Err::<i32, StoreError>(StoreError::UniqueViolation),
            !email_taken(old(self).user_rows(), email@) && old(self).user_rows().len() >= i32::MAX ==> r == Err::<
                i32,
                StoreError,
            >(StoreError::Other),
            !email_taken(old(self).user_rows(), email@) && old(self).user_rows().len() < i32::MAX ==> r is Ok,
            match r {
                Ok(id) => id == old(self).user_rows().len() + 1 && user_added(
                    old(self).user_rows(),
                    final(self).user_rows(),
                    email@,
                    password_hash@,
                ),
                Err(_) => final(self).user_rows() == old(self).user_rows(),
            },
    {
        if self.find_user(email).is_some() {
            return Err(StoreError::UniqueViolation);
        }
        if self.users.len() >= i32::MAX as usize {
            return Err(StoreError::Other);
        }
        let id: i32 = (self.users.len() + 1) as i32;
        let row = UserDb { id, email: email.to_owned(), password_hash };
        self.users.push(row);
        proof {
            let old_users = old(self).user_rows();
            let users = self.user_rows();
            assert(users.drop_last() =~= old_users);
            assert forall|i: int, j: int|
                0 <= i < users.len() && 0 <= j < users.len() && i != j implies (#[trigger] users[i]).email@
                    != (#[trigger] users[j]).email@ by {
                if i == old_users.len() {
                    assert(old_users[j] == users[j]);
                } else if j == old_users.len() {
                    assert(old_users[i] == users[i]);
                }
            }
        }
        Ok(id)
    }
    /// Inserts a plant owned by `owner_id`.
    pub fn create_plant(&mut self, name: &str, owner_id: i32) -> (r: Result<Plant, StoreError>)
        requires
            old(self).wf(),
        ensures
            final(self).wf(),
            final(self).user_rows() == old(self).user_rows(),
            final(self).pot_rows() == old(self).pot_rows(),
            final(self).links() == old(self).links(),
            old(self).plant_rows().len() < i32::MAX <==> r is Ok,
            match r {
                Ok(p) => {
                    &&& p.id == old(self).plant_rows().len() + 1
                    &&& p.name@ == name@
                    &&& p.owner_id == owner_id
                    &&& final(self).plant_rows().len() == old(self).plant_rows().len() + 1
                    &&& final(self).plant_rows().drop_last() == old(self).plant_rows()
                    &&& final(self).plant_rows().last().id == p.id
                    &&& final(self).plant_rows().last().name@ == name@
                    &&& final(self).plant_rows().last().owner_id == owner_id
                },
                Err(e) => e == StoreError::Other && final(self).plant_rows() == old(self).plant_rows(),
            },
    {
        if self.plants.len() >= i32::MAX as usize {
            return Err(StoreError::Other);
        }
        let id: i32 = (self.plants.len() + 1) as i32;
        self.plants.push(PlantDb { id, name: name.to_owned(), owner_id });
        proof {
            assert(self.plant_rows().drop_last() =~= old(self).plant_rows());
        }
        Ok(Plant { id, name: name.to_owned(), owner_id })
    }

    /// The plant with id `plant_id`.
    pub fn find_plant_by_id(&self, plant_id: i32) -> (r: Option<Plant>)
        requires
            self.wf(),
        ensures
            match r {
                Some(p) => 1 <= plant_id <= self.plant_rows().len() && p.id == plant_id
                    && p.name@ == self.plant_rows()[plant_id - 1].name@
                    && p.owner_id == self.plant_rows()[plant_id - 1].owner_id,
                None => !(1 <= plant_id <= self.plant_rows().len()),
            },
    {
        if plant_id < 1 || plant_id as usize > self.plants.len() {
            return None;
        }
        let row = &self.plants[(plant_id - 1) as usize];
        Some(Plant { id: row.id, name: row.name.clone(), owner_id: row.owner_id })
    }

    /// Renames the plant `plant_id`; its id and owner stay as they are.
    pub fn update_plant(&mut self, plant_id: i32, name: &str) -> (r: Option<Plant>)
        requires
            old(self).wf(),
        ensures
            final(self).wf(),
            final(self).user_rows() == old(self).user_rows(),
            final(self).pot_rows() == old(self).pot_rows(),
            final(self).links() == old(self).links(),
            final(self).plant_rows().len() == old(self).plant_rows().len(),
            forall|i: int|
                0 <= i < old(self).plant_rows().len() && i != plant_id - 1 ==> final(self).plant_rows()[i]
                    == old(self).plant_rows()[i],
            match r {
                Some(p) => {
                    &&& 1 <= plant_id <= old(self).plant_rows().len()
                    &&& p.id == plant_id
                    &&& p.name@ == name@
                    &&& p.owner_id == old(self).plant_rows()[plant_id - 1].owner_id
                    &&& final(self).plant_rows()[plant_id - 1].id == plant_id
                    &&& final(self).plant_rows()[plant_id - 1].name@ == name@
                    &&& final(self).plant_rows()[plant_id - 1].owner_id == p.owner_id
                },
                None => !(1 <= plant_id <= old(self).plant_rows().len()) && final(self).plant_rows() == old(
                    self,
                ).plant_rows(),
            },
    {
        if plant_id < 1 || plant_id as usize > self.plants.len() {
            return None;
        }
        let i = (plant_id - 1) as usize;
        let owner_id = self.plants[i].owner_id;
        self.plants[i] = PlantDb { id: plant_id, name: name.to_owned(), owner_id };
        Some(Plant { id: plant_id, name: name.to_owned(), owner_id })
    }

    /// Whether the plant `plant_id` exists and belongs to `user_id`.
    pub fn plant_owned_by(&self, plant_id: i32, user_id: i32) -> (r: bool)
        requires
            self.wf(),
        ensures
            r == owns_plant(self.plant_rows(), plant_id, user_id),
    {
        if plant_id < 1 || plant_id as usize > self.plants.len() {
            return false;
        }
        let owned = self.plants[(plant_id - 1) as usize].owner_id == user_id;
        proof {
            if owned {
                assert(self.plant_rows()[plant_id - 1].id == plant_id);
            }
        }
        owned
    }

    /// Inserts a pot owned by `owner_id`.
    pub fn create_pot(&mut self, owner_id: i32) -> (r: Result<Pot, StoreError>)
        requires
            old(self).wf(),
        ensures
            final(self).wf(),
            final(self).user_rows() == old(self).user_rows(),
            final(self).plant_rows() == old(self).plant_rows(),
            final(self).links() == old(self).links(),
            old(self).pot_rows().len() < i32::MAX <==> r is Ok,
            match r {
                Ok(p) => {
                    &&& p.id == old(self).pot_rows().len() + 1
                    &&& final(self).pot_rows() == old(self).pot_rows().push(PotDb { id: p.id, owner_id })
                },
                Err(e) => e == StoreError::Other && final(self).pot_rows() == old(self).pot_rows(),
            },
    {
        if self.pots.len() >= i32::MAX as usize {
            return Err(StoreError::Other);
        }
        let id: i32 = (self.pots.len() + 1) as i32;
        self.pots.push(PotDb { id, owner_id });
        Ok(Pot { id })
    }

    /// The pot `pot_id`, if it belongs to `user_id`.
    pub fn get_pot(&self, user_id: i32, pot_id: i32) -> (r: Option<Pot>)
        requires
            self.wf(),
        ensures
            match r {
                Some(p) => p.id == pot_id && owns_pot(self.pot_rows(), pot_id, user_id),
                None => !owns_pot(self.pot_rows(), pot_id, user_id),
            },
    {
        if self.pot_owned_by(pot_id, user_id) {
            Some(Pot { id: pot_id })
        } else {
            None
        }
    }

    /// All plants, in order of creation.
    pub fn get_plants(&self) -> (r: Vec<Plant>)
        ensures
            r@.len() == self.plant_rows().len(),
            forall|i: int|
                0 <= i < r@.len() ==> (#[trigger] r@[i]).id == self.plant_rows()[i].id && r@[i].name@
                    == self.plant_rows()[i].name@ && r@[i].owner_id == self.plant_rows()[i].owner_id,
    {
        let mut out: Vec<Plant> = Vec::new();
        let mut i: usize = 0;
        while i < self.plants.len()
            invariant
                i <= self.plant_rows().len(),
                out@.len() == i,
                forall|j: int|
                    0 <= j < i ==> (#[trigger] out@[j]).id == self.plant_rows()[j].id && out@[j].name@
                        == self.plant_rows()[j].name@ && out@[j].owner_id == self.plant_rows()[j].owner_id,
            decreases self.plant_rows().len() - i,
        {
            let row = &self.plants[i];
            out.push(Plant { id: row.id, name: row.name.clone(), owner_id: row.owner_id });
            i += 1;
        }
        out
    }

    /// The pots of `user_id`, in order of creation.
    pub fn get_all_pots(&self, user_id: i32) -> (r: Vec<Pot>)
        ensures
            r@ == pots_of(self.pot_rows(), user_id),
    {
        let mut out: Vec<Pot> = Vec::new();
        let mut i: usize = 0;
        while i < self.pots.len()
            invariant
                i <= self.pot_rows().len(),
                out@ == pots_of(self.pot_rows().take(i as int), user_id),
            decreases self.pot_rows().len() - i,
        {
            let row = self.pots[i];
            proof {
                let t = self.pot_rows().take(i + 1);
                assert(t.drop_last() =~= self.pot_rows().take(i as int));
                assert(t.last() == row);
            }
            if row.owner_id == user_id {
                out.push(Pot { id: row.id });
            }
            i += 1;
        }
        proof {
            assert(self.pot_rows().take(i as int) =~= self.pot_rows());
        }
        out
    }

    /// Whether the pot `pot_id` exists and belongs to `user_id`.
    pub fn pot_owned_by(&self, pot_id: i32, user_id: i32) -> (r: bool)
        requires
            self.wf(),
        ensures
            r == owns_pot(self.pot_rows(), pot_id, user_id),
    {
        if pot_id < 1 || pot_id as usize > self.pots.len() {
            return false;
        }
        let owned = self.pots[(pot_id - 1) as usize].owner_id == user_id;
        proof {
            if owned {
                assert(self.pot_rows()[pot_id - 1].id == pot_id);
            }
        }
        owned
    }

    /// Whether some link holds the pot `pot_id`.
    pub fn is_pot_linked(&self, pot_id: i32) -> (r: bool)
        ensures
            r == pot_linked(self.links(), pot_id),
    {
        let mut i: usize = 0;
        while i < self.assignments.len()
            invariant
                i <= self.links().len(),
                forall|j: int| 0 <= j < i ==> (#[trigger] self.links()[j]).pot_id != pot_id,
            decreases self.links().len() - i,
        {
            if self.assignments[i].pot_id == pot_id {
                return true;
            }
            i += 1;
        }
        false
    }

    /// Whether some link holds the plant `plant_id`.
    pub fn is_plant_linked(&self, plant_id: i32) -> (r: bool)
        ensures
            r == plant_linked(self.links(), plant_id),
    {
        let mut i: usize = 0;
        while i < self.assignments.len()
            invariant
                i <= self.links().len(),
                forall|j: int| 0 <= j < i ==> (#[trigger] self.links()[j]).plant_id != plant_id,
            decreases self.links().len() - i,
        {
            if self.assignments[i].plant_id == plant_id {
                return true;
            }
            i += 1;
        }
        false
    }

    /// Inserts a link; neither its plant nor its pot may be linked already.
    pub fn insert_assignment(&mut self, link: Assignment) -> (r: Result<(), StoreError>)
        requires
            old(self).wf(),
        ensures
            final(self).wf(),
            final(self).user_rows() == old(self).user_rows(),
            final(self).plant_rows() == old(self).plant_rows(),
            final(self).pot_rows() == old(self).pot_rows(),
            if pot_linked(old(self).links(), link.pot_id) || plant_linked(
                old(self).links(),
                link.plant_id,
            ) {
                r == Err::<(), StoreError>(StoreError::UniqueViolation) && final(self).links()
                    == old(self).links()
            } else {
                r is Ok && final(self).links() == old(self).links().push(link)
            },
    {
        if self.is_pot_linked(link.pot_id) || self.is_plant_linked(link.plant_id) {
            return Err(StoreError::UniqueViolation);
        }
        self.assignments.push(link);
        proof {
            let a = self.links();
            let o = old(self).links();
            assert forall|i: int, j: int|
                0 <= i < a.len() && 0 <= j < a.len() && i != j implies (#[trigger] a[i]).plant_id
                    != (#[trigger] a[j]).plant_id && a[i].pot_id != a[j].pot_id by {
                if i == o.len() {
                    assert(o[j] == a[j]);
                } else if j == o.len() {
                    assert(o[i] == a[i]);
                }
            }
        }
        Ok(())
    }

    /// Deletes the link of `plant_id` with `pot_id` if the pot belongs to
    /// `user_id`; otherwise leaves the links as they are.
    pub fn delete_assignment(&mut self, user_id: i32, plant_id: i32, pot_id: i32)
        requires
            old(self).wf(),
        ensures
            final(self).wf(),
            final(self).user_rows() == old(self).user_rows(),
            final(self).plant_rows() == old(self).plant_rows(),
            final(self).pot_rows() == old(self).pot_rows(),
            final(self).links() == links_without(
                old(self).links(),
                old(self).pot_rows(),
                user_id,
                Assignment { plant_id, pot_id },
            ),
    {
        let target = Assignment { plant_id, pot_id };
        if !self.pot_owned_by(pot_id, user_id) {
            return;
        }
        let mut i: usize = 0;
        while i < self.assignments.len()
            invariant
                i <= self.links().len(),
                forall|j: int| 0 <= j < i ==> self.links()[j] != target,
                self.wf(),
                self.user_rows() == old(self).user_rows(),
                self.plant_rows() == old(self).plant_rows(),
                self.pot_rows() == old(self).pot_rows(),
                self.links() == old(self).links(),
                owns_pot(self.pot_rows(), pot_id, user_id),
                target == (Assignment { plant_id, pot_id }),
            decreases self.links().len() - i,
        {
            if self.assignments[i] == target {
                let ghost o = self.links();
                proof {
                    let k = link_position(o, target);
                    assert(o.contains(target)) by {
                        assert(o[i as int] == target);
                    }
                    assert(o[k] == target);
                    if k != i {
                        assert((#[trigger] o[k]).pot_id != (#[trigger] o[i as int]).pot_id);
                    }
                    assert(k == i);
                    assert(owns_pot(old(self).pot_rows(), target.pot_id, user_id));
                }
                self.assignments.remove(i);
                proof {
                    let a = self.links();
                    assert forall|x: int, y: int|
                        0 <= x < a.len() && 0 <= y < a.len() && x != y implies (#[trigger] a[x]).plant_id
                            != (#[trigger] a[y]).plant_id && a[x].pot_id != a[y].pot_id by {
                        let ox = if x < i { x } else { x + 1 };
                        let oy = if y < i { y } else { y + 1 };
                        assert(a[x] == o[ox]);
                        assert(a[y] == o[oy]);
                    }
                    assert(o == old(self).links());
                    assert(links_without(o, old(self).pot_rows(), user_id, target) == o.remove(i as int));
                }
                return;
            }
            i += 1;
        }
        proof {
            assert(!self.links().contains(target));
        }
    }
}

/// The pots among `pots` that belong to `user_id`, in the same order.
pub open spec fn pots_of(pots: Seq<PotDb>, user_id: i32) -> Seq<Pot>
    decreases pots.len(),
{
    if pots.len() == 0 {
        Seq::empty()
    } else {
        let rest = pots_of(pots.drop_last(), user_id);
        if pots.last().owner_id == user_id {
            rest.push(Pot { id: pots.last().id })
        } else {
            rest
        }
    }
}

/// The position of `link` in `links`, when it is there.
pub open spec fn link_position(links: Seq<Assignment>, link: Assignment) -> int {
    choose|i: int| 0 <= i < links.len() && links[i] == link
}

/// The links after deleting `link` on behalf of `user_id`: it is removed when
/// it is present and its pot belongs to `user_id`.
pub open spec fn links_without(links: Seq<Assignment>, pots: Seq<PotDb>, user_id: i32, link: Assignment) -> Seq<Assignment> {
    if owns_pot(pots, link.pot_id, user_id) && links.contains(link) {
        links.remove(link_position(links, link))
    } else {
        links
    }
}

} // verus!
