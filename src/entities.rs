//! Rows of the relational store and the values handed to callers.
use vstd::prelude::*;

verus! {

/// A user as seen by the rest of the service: the password hash is left out.
#[derive(Clone, Debug)]
pub struct User {
    pub id: i32,
    pub email: String,
}

/// A user row as the credential store holds it.
#[derive(Clone, Debug)]
pub struct UserDb {
    pub id: i32,
    pub email: String,
    pub password_hash: String,
}

impl From<UserDb> for User {
    fn from(db: UserDb) -> (r: User)
        ensures
            r.id == db.id,
            r.email@ == db.email@,
    {
        User { id: db.id, email: db.email }
    }
}

impl vstd::std_specs::convert::FromSpecImpl<UserDb> for User {
    open spec fn obeys_from_spec() -> bool {
        true
    }

    open spec fn from_spec(db: UserDb) -> User {
        User { id: db.id, email: db.email }
    }
}

/// A plant and its owner.
#[derive(Clone, Debug)]
pub struct Plant {
    pub id: i32,
    pub name: String,
    pub owner_id: i32,
}

/// A plant row as the ownership store holds it.
#[derive(Clone, Debug)]
pub struct PlantDb {
    pub id: i32,
    pub name: String,
    pub owner_id: i32,
}

impl From<PlantDb> for Plant {
    fn from(db: PlantDb) -> (r: Plant)
        ensures
            r.id == db.id,
            r.name@ == db.name@,
            r.owner_id == db.owner_id,
    {
        Plant { id: db.id, name: db.name, owner_id: db.owner_id }
    }
}

impl vstd::std_specs::convert::FromSpecImpl<PlantDb> for Plant {
    open spec fn obeys_from_spec() -> bool {
        true
    }

    open spec fn from_spec(db: PlantDb) -> Plant {
        Plant { id: db.id, name: db.name, owner_id: db.owner_id }
    }
}

/// A pot as seen by callers: only its identity.
#[derive(Clone, Copy, Debug, PartialEq, Eq)]
pub struct Pot {
    pub id: i32,
}

/// A pot row as the ownership store holds it.
#[derive(Clone, Copy, Debug, PartialEq, Eq)]
pub struct PotDb {
    pub id: i32,
    pub owner_id: i32,
}

impl From<PotDb> for Pot {
    fn from(db: PotDb) -> (r: Pot)
        ensures
            r.id == db.id,
    {
        Pot { id: db.id }
    }
}

impl vstd::std_specs::convert::FromSpecImpl<PotDb> for Pot {
    open spec fn obeys_from_spec() -> bool {
        true
    }

    open spec fn from_spec(db: PotDb) -> Pot {
        Pot { id: db.id }
    }
}

/// A care task.
#[derive(Clone, Debug)]
pub struct Task {
    pub id: i32,
    pub name: String,
}

/// A care task row.
#[derive(Clone, Debug)]
pub struct TaskDb {
    pub id: i32,
    pub name: String,
}

impl From<TaskDb> for Task {
    fn from(db: TaskDb) -> (r: Task)
        ensures
            r.id == db.id,
            r.name@ == db.name@,
    {
        Task { id: db.id, name: db.name }
    }
}

impl vstd::std_specs::convert::FromSpecImpl<TaskDb> for Task {
    open spec fn obeys_from_spec() -> bool {
        true
    }

    open spec fn from_spec(db: TaskDb) -> Task {
        Task { id: db.id, name: db.name }
    }
}

} // verus!
