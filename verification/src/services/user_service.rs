//! Users: creating one, and looking users up.

use vstd::prelude::*;
use crate::constants::USER_NOT_CREATED_ERROR_MESSAGE;
use crate::errors::EntityKind;
use crate::identifiers::{is_random_uuid, random_uuid};
use crate::models::database::{UserRow, UserRowView};
use crate::models::graphql::{CreateUserInput, CreateUserInputView};
use crate::models::user::{User, UserView};
use crate::services::operation::{Operation, OperationView, Outcome, Question};
use crate::services::protocol::{
    internal_error,
    internal_failure,
    Turn,
    TurnView,
    WriteRow,
    WriteRowView,
    UNEXPECTED_REPLY_MESSAGE,
};
use crate::store::{Row, RowView, StoreReply, StoreReplyView};
use crate::text::owned;

verus! {

/// The creation of a user: the user's row is written and read back. Users
/// refer to nothing, so nothing is checked before.
#[derive(Debug)]
pub struct CreateUser {
    pub inner: WriteRow,
}

/// A `CreateUser` as specifications see it.
pub struct CreateUserView {
    pub inner: WriteRowView,
}

impl View for CreateUser {
    type V = CreateUserView;

    open spec fn view(&self) -> CreateUserView {
        CreateUserView { inner: self.inner@ }
    }
}

impl CreateUserView {
    /// The number of requests that are still open.
    pub open spec fn steps_left(self) -> nat {
        self.inner.steps_left()
    }

    /// What follows from a turn of the writing.
    pub open spec fn after_writing(turn: TurnView<WriteRowView, RowView>) -> TurnView<
        CreateUserView,
        UserRowView,
    > {
        match turn {
            TurnView::Ask { state, request } => TurnView::Ask {
                state: CreateUserView { inner: state },
                request,
            },
            TurnView::Done { result: Ok(RowView::User(row)) } => TurnView::Done { result: Ok(row) },
            TurnView::Done { result: Ok(_) } => TurnView::Done {
                result: Err(internal_failure(UNEXPECTED_REPLY_MESSAGE@)),
            },
            TurnView::Done { result: Err(err) } => TurnView::Done {
                result: Err(err.under(USER_NOT_CREATED_ERROR_MESSAGE@)),
            },
        }
    }

    /// The creation of the user that the input describes.
    pub open spec fn begin(input: CreateUserInputView, uuid: u128, hash_salt: Seq<char>) -> TurnView<
        CreateUserView,
        UserRowView,
    > {
        CreateUserView::after_writing(
            WriteRowView::begin(RowView::User(UserRowView::of(UserView::created(input, uuid, hash_salt)))),
        )
    }

    /// How the creation goes on after an answer.
    pub open spec fn resume(self, reply: StoreReplyView) -> TurnView<CreateUserView, UserRowView> {
        CreateUserView::after_writing(self.inner.resume(reply))
    }

    /// A creation that goes on has fewer requests open than before.
    pub proof fn lemma_progress(self, reply: StoreReplyView)
        ensures
            self.resume(reply) matches TurnView::Ask { state, .. } ==> state.steps_left()
                < self.steps_left(),
    {
        self.inner.lemma_progress(reply);
    }
}

impl CreateUser {
    fn after_writing(turn: Turn<WriteRow, Row>) -> (next: Turn<CreateUser, UserRow>)
        ensures
            next@ == CreateUserView::after_writing(turn@),
    {
        match turn {
            Turn::Ask { state, request } => Turn::Ask { state: CreateUser { inner: state }, request },
            Turn::Done { result: Ok(Row::User(row)) } => Turn::Done { result: Ok(row) },
            Turn::Done { result: Ok(_) } => Turn::Done {
                result: Err(internal_error(owned(UNEXPECTED_REPLY_MESSAGE))),
            },
            Turn::Done { result: Err(err) } => Turn::Done {
                result: Err(err.under(USER_NOT_CREATED_ERROR_MESSAGE)),
            },
        }
    }

    /// Begins the creation of the user that the input describes, under the
    /// identifier `uuid`; the password is kept as its digest with `hash_salt`.
    pub fn begin(input: CreateUserInput, uuid: u128, hash_salt: &str) -> (turn: Turn<
        CreateUser,
        UserRow,
    >)
        ensures
            turn@ == CreateUserView::begin(input@, uuid, hash_salt@),
    {
        let new_user = User::from_create_user_input(input, uuid, hash_salt);
        let new_user_row = UserRow::from_user(new_user);
        CreateUser::after_writing(WriteRow::begin(Row::User(new_user_row)))
    }

    /// Goes on after the store's answer.
    pub fn resume(self, reply: StoreReply) -> (turn: Turn<CreateUser, UserRow>)
        ensures
            turn@ == self@.resume(reply@),
    {
        CreateUser::after_writing(self.inner.resume(reply))
    }
}

/// The service for users. It holds the salt with which passwords are
/// digested; the salt is never stored with a user and never handed out.
pub struct UserService {
    password_hash_salt: String,
}

impl UserService {
    /// The salt with which the service digests passwords.
    pub closed spec fn salt(&self) -> Seq<char> {
        self.password_hash_salt@
    }

    /// The service that digests passwords with the given salt.
    pub fn new(password_hash_salt: String) -> (service: UserService)
        ensures
            service.salt() == password_hash_salt@,
    {
        UserService { password_hash_salt }
    }

    /// Asks for all users.
    pub fn all_users(&self) -> (turn: Turn<Operation, Outcome>)
        ensures
            turn@ == OperationView::all(EntityKind::User),
    {
        Question::all(EntityKind::User)
    }

    /// Creates the user that the input describes, under a fresh identifier.
    /// The result is the user's row as the store holds it. What the creation
    /// comes to against a store is `outcomes::create_user_outcome`.
    pub fn create_user(&self, create_user_input: CreateUserInput) -> (turn: Turn<Operation, Outcome>)
        ensures
            exists|uuid: u128|
                is_random_uuid(uuid) && turn@ == OperationView::create_user(
                    CreateUserView::begin(create_user_input@, uuid, self.salt()),
                ),
    {
        let uuid = random_uuid();
        Operation::create_user(
            CreateUser::begin(create_user_input, uuid, self.password_hash_salt.as_str()),
        )
    }

    /// Looks for the user with the identifier. A user that the store does
    /// not hold is no failure: the result is then that there is none.
    pub fn get_user_by_uuid(&self, uuid: &String) -> (turn: Turn<Operation, Outcome>)
        ensures
            turn@ == OperationView::find(EntityKind::User, uuid@),
    {
        Question::find(EntityKind::User, uuid)
    }

    /// Asks whether a user has the identifier.
    pub fn user_exists(&self, uuid: &String) -> (turn: Turn<Operation, Outcome>)
        ensures
            turn@ == OperationView::existence(EntityKind::User, uuid@),
    {
        Question::existence(EntityKind::User, uuid)
    }
}

} // verus!
