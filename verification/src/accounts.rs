//! The account record the persistence store keeps for a host: who they
//! are and the refresh token stored for them. Membership of the waiting
//! list is not persisted and never touches this record.

use vstd::prelude::*;

verus! {

/// One stored account row.
pub struct User {
    email: String,
    username: String,
    refresh_token: Option<String>,
    id: i32,
}

/// The mathematical value of a [`User`].
pub ghost struct UserModel {
    pub email: Seq<char>,
    pub username: Seq<char>,
    pub refresh_token: Option<Seq<char>>,
    pub id: i32,
}

impl View for User {
    type V = UserModel;

    closed spec fn view(&self) -> UserModel {
        UserModel {
            email: self.email@,
            username: self.username@,
            refresh_token: self.refresh_token.deep_view(),
            id: self.id,
        }
    }
}

impl User {
    pub fn new(email: String, username: String, refresh_token: Option<String>, id: i32) -> (u:
        Self)
        ensures
            u@ == (UserModel {
                email: email@,
                username: username@,
                refresh_token: refresh_token.deep_view(),
                id: id,
            }),
    {
        User { email, username, refresh_token, id }
    }

    pub fn id(&self) -> (r: i32)
        ensures
            r == self@.id,
    {
        self.id
    }

    pub fn username(&self) -> (r: &String)
        ensures
            r@ == self@.username,
    {
        &self.username
    }

    pub fn email(&self) -> (r: &String)
        ensures
            r@ == self@.email,
    {
        &self.email
    }

    pub fn refresh_token(&self) -> (r: &Option<String>)
        ensures
            r.deep_view() == self@.refresh_token,
    {
        &self.refresh_token
    }
}

} // verus!
