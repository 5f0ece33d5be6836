//! The plain data carried by the identity subsystem: the local user
//! record as it is inserted on first use, the profile fetched from the
//! identity provider, and the small field enums of the schema.

use vstd::prelude::*;

verus! {

#[derive(Clone, Copy, Debug, PartialEq, Eq, Structural)]
pub enum UserType {
    User,
    Trainer,
    Client,
}

#[derive(Clone, Copy, Debug, PartialEq, Eq, Structural)]
pub enum IntensityChoices {
    Low,
    Medium,
    High,
}

/// A calendar date as plain values; the identity subsystem only carries
/// it, never computes with it.
#[derive(Clone, Copy, Debug, PartialEq, Eq, Structural)]
pub struct BirthDate {
    pub year: i32,
    pub month: u8,
    pub day: u8,
}

/// The profile the external identity provider returns for a subject. All
/// five fields are required; a payload missing any of them is a hard
/// construction error, not a soft default.
#[derive(Clone, Debug)]
pub struct Profile {
    pub given_name: String,
    pub family_name: String,
    pub email: String,
    pub picture: String,
    pub user_id: String,
}

pub ghost struct ProfileView {
    pub given_name: Seq<char>,
    pub family_name: Seq<char>,
    pub email: Seq<char>,
    pub picture: Seq<char>,
    pub user_id: Seq<char>,
}

impl View for Profile {
    type V = ProfileView;

    open spec fn view(&self) -> ProfileView {
        ProfileView {
            given_name: self.given_name@,
            family_name: self.family_name@,
            email: self.email@,
            picture: self.picture@,
            user_id: self.user_id@,
        }
    }
}

/// A local user record as it is first inserted: profile fields from the
/// provider, everything else at its creation-time default.
#[derive(Clone, Debug)]
pub struct NewUser {
    pub user_type: UserType,
    pub is_admin: bool,
    pub onboarding_completed: bool,
    pub first_name: String,
    pub last_name: String,
    pub user_name: String,
    pub email: String,
    pub phone_number: String,
    pub image: String,
    pub birthday: Option<BirthDate>,
    pub provider_id: String,
    pub bio: String,
    pub gender: String,
    pub beta_access: bool,
    pub training_approach: String,
    pub training_years: i32,
    pub training_specializations: String,
    pub goals: String,
    pub weight: i32,
}

} // verus!
