//! Users.

use vstd::prelude::*;
use vstd::string::StringExecFns;
use crate::digest::{is_digest_text, sha3_256, sha3_256_hex};
use crate::models::graphql::{CreateUserInput, CreateUserInputView};

verus! {

/// A user. The password is kept as a digest from which it cannot be had back.
#[derive(Clone, Debug, PartialEq, Eq)]
pub struct User {
    pub uuid: u128,
    pub username: String,
    pub password_hash: String,
    pub nickname: String,
}

/// A `User` as specifications see it.
pub struct UserView {
    pub uuid: u128,
    pub username: Seq<char>,
    pub password_hash: Seq<char>,
    pub nickname: Seq<char>,
}

impl View for User {
    type V = UserView;

    open spec fn view(&self) -> UserView {
        UserView {
            uuid: self.uuid,
            username: self.username@,
            password_hash: self.password_hash@,
            nickname: self.nickname@,
        }
    }
}

impl UserView {
    /// The digest under which a password is kept: that of the password
    /// followed by the service's salt.
    pub open spec fn password_digest(password: Seq<char>, hash_salt: Seq<char>) -> Seq<char> {
        sha3_256_hex(password + hash_salt)
    }

    /// The user that an input describes.
    pub open spec fn created(input: CreateUserInputView, uuid: u128, hash_salt: Seq<char>) -> UserView {
        UserView {
            uuid,
            username: input.username,
            password_hash: UserView::password_digest(input.password, hash_salt),
            nickname: input.nickname,
        }
    }
}

impl User {
    /// The user that the input describes, under the identifier `uuid`. The
    /// password is kept as the SHA3-256 digest of the password followed by
    /// `hash_salt`, sixty-four hexadecimal digits in lower case; neither the
    /// password nor the salt is kept.
    pub fn from_create_user_input(input: CreateUserInput, uuid: u128, hash_salt: &str) -> (user: User)
        ensures
            user@ == UserView::created(input@, uuid, hash_salt@),
            is_digest_text(user@.password_hash),
    {
        let salted_password = input.password.concat(hash_salt);
        let password_hash = sha3_256(salted_password.as_str());
        User { uuid, username: input.username, password_hash, nickname: input.nickname }
    }
}

} // verus!
