//! The values exchanged with HTTP clients. Their JSON forms live with the
//! server; here they are plain values.
use vstd::prelude::*;
use crate::entities::{Plant, Pot, User};

verus! {

/// The token handed back by registration and login.
#[derive(Clone, Debug)]
pub struct JwtResponse {
    pub token: String,
}

/// The body of a registration request.
#[derive(Clone, Debug)]
pub struct RegisterPayload {
    pub email: String,
    pub password: String,
}

/// The body of a login request.
#[derive(Clone, Debug)]
pub struct LoginPayload {
    pub email: String,
    pub password: String,
}

/// The body of a link or unlink request.
#[derive(Clone, Copy, Debug, PartialEq, Eq, Structural)]
pub struct LinkPlantToPotRequest {
    pub plant_id: i32,
    pub pot_id: i32,
}

/// A plant as shown to its owner.
#[derive(Clone, Debug)]
pub struct PlantResponse {
    pub id: i32,
    pub name: String,
    pub owner_email: String,
}

impl PlantResponse {
    /// Shows `plant`, owned by `owner`.
    pub fn from(plant: Plant, owner: User) -> (r: PlantResponse)
        ensures
            r.id == plant.id,
            r.name@ == plant.name@,
            r.owner_email@ == owner.email@,
    {
        PlantResponse { id: plant.id, name: plant.name, owner_email: owner.email }
    }
}

/// The body of a request that creates or renames a plant.
#[derive(Clone, Debug)]
pub struct CreatePlantPayload {
    pub name: String,
}

/// A pot, with the name of the plant in it if there is one.
#[derive(Clone, Debug)]
pub struct PotResponse {
    pub pot_id: i32,
    pub plant_name: Option<String>,
}

impl PotResponse {
    /// Shows `pot`, holding `plant` if there is one.
    pub fn from(pot: Pot, plant: Option<Plant>) -> (r: PotResponse)
        ensures
            r.pot_id == pot.id,
            match plant {
                Some(p) => r.plant_name matches Some(n) && n@ == p.name@,
                None => r.plant_name is None,
            },
    {
        let plant_name = match plant {
            Some(p) => Some(p.name),
            None => None,
        };
        PotResponse { pot_id: pot.id, plant_name }
    }
}

/// A user as shown to clients: their id and the name they log in with.
#[derive(Clone, Debug)]
pub struct UserResponse {
    pub id: i32,
    pub name: String,
}

impl From<User> for UserResponse {
    fn from(user: User) -> (r: UserResponse)
        ensures
            r.id == user.id,
            r.name@ == user.email@,
    {
        UserResponse { id: user.id, name: user.email }
    }
}

impl vstd::std_specs::convert::FromSpecImpl<User> for UserResponse {
    open spec fn obeys_from_spec() -> bool {
        true
    }

    open spec fn from_spec(user: User) -> UserResponse {
        UserResponse { id: user.id, name: user.email }
    }
}

/// The body of a request that creates a user.
#[derive(Clone, Debug)]
pub struct CreateUserPayload {
    pub name: String,
}

} // verus!
