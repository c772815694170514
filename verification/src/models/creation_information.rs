//! The audit record of a list or a task: who created it and when, who edited
//! it last and when.

use vstd::prelude::*;
use crate::models::database::{CreationInformationRow, CreationInformationRowView};
use crate::models::graphql::CreateCreationInformationInput;
use crate::models::utilities::{parse_uuid, uuid_reading};
use crate::timestamps::Timestamp;

verus! {

/// An audit record. Every list and every task owns exactly one.
#[derive(Clone, Copy, Debug, PartialEq, Eq)]
pub struct CreationInformation {
    pub uuid: u128,
    pub creator_user_uuid: u128,
    pub creation_time: Timestamp,
    pub last_updated_by_user_uuid: u128,
    pub last_updated_time: Timestamp,
}

impl CreationInformation {
    /// The last edit is no earlier than the creation.
    pub open spec fn is_consistent(self) -> bool {
        self.creation_time.is_at_or_before(self.last_updated_time)
    }

    /// The record of an entity that the user named by `creator` creates at
    /// `now`.
    pub open spec fn created(creator: Seq<char>, uuid: u128, now: Timestamp) -> Result<
        CreationInformation,
        Seq<char>,
    > {
        match uuid_reading(creator) {
            Ok(creator_user_uuid) => Ok(
                CreationInformation {
                    uuid,
                    creator_user_uuid,
                    creation_time: now,
                    last_updated_by_user_uuid: creator_user_uuid,
                    last_updated_time: now,
                },
            ),
            Err(message) => Err(message),
        }
    }

    /// The record after an edit by `editor` at `now`: who created the entity
    /// and when stays as it was. The time of the last edit is `now`, unless the
    /// clock has gone back and shows a time before the creation: the time of
    /// the last edit is then the time of the creation, so that it is never
    /// earlier.
    pub open spec fn updated(self, editor: u128, now: Timestamp) -> CreationInformation {
        CreationInformation {
            uuid: self.uuid,
            creator_user_uuid: self.creator_user_uuid,
            creation_time: self.creation_time,
            last_updated_by_user_uuid: editor,
            last_updated_time: self.creation_time.later(now),
        }
    }

    /// The record after an edit at `now` by the user that `editor` names.
    pub open spec fn edited_by(self, editor: Seq<char>, now: Timestamp) -> Result<
        CreationInformation,
        Seq<char>,
    > {
        match uuid_reading(editor) {
            Ok(editor_uuid) => Ok(self.updated(editor_uuid, now)),
            Err(message) => Err(message),
        }
    }

    /// The record that a row stands for. The columns are read in the order
    /// in which the row holds them, and the first that cannot be read is
    /// refused with the reader's words.
    pub open spec fn of_row(row: CreationInformationRowView) -> Result<
        CreationInformation,
        Seq<char>,
    > {
        match uuid_reading(row.uuid) {
            Err(message) => Err(message),
            Ok(uuid) => match uuid_reading(row.creator_user_uuid) {
                Err(message) => Err(message),
                Ok(creator_user_uuid) => match Timestamp::of_text(row.creation_time) {
                    Err(message) => Err(message),
                    Ok(creation_time) => match uuid_reading(row.last_updated_by_user_uuid) {
                        Err(message) => Err(message),
                        Ok(last_updated_by_user_uuid) => match Timestamp::of_text(
                            row.last_updated_time,
                        ) {
                            Err(message) => Err(message),
                            Ok(last_updated_time) => Ok(
                                CreationInformation {
                                    uuid,
                                    creator_user_uuid,
                                    creation_time,
                                    last_updated_by_user_uuid,
                                    last_updated_time,
                                },
                            ),
                        },
                    },
                },
            },
        }
    }

    /// Whether the texts of both times are read back as the times.
    pub open spec fn reads_back(self) -> bool {
        self.creation_time.reads_back() && self.last_updated_time.reads_back()
    }

    /// The row of a record is read back as the record, where the texts of its
    /// times are.
    pub proof fn lemma_row_reads_back(self)
        requires
            self.reads_back(),
        ensures
            CreationInformation::of_row(CreationInformationRowView::of(self)) == Ok::<
                CreationInformation,
                Seq<char>,
            >(self),
    {
        crate::identifiers::lemma_canonical_uuid_text(self.uuid);
        crate::identifiers::lemma_canonical_uuid_text(self.creator_user_uuid);
        crate::identifiers::lemma_canonical_uuid_text(self.last_updated_by_user_uuid);
    }

    /// Reads a row. See `of_row`.
    pub fn from_creation_information_row(creation_information_row: CreationInformationRow) -> (made:
        Result<CreationInformation, String>)
        ensures
            match made {
                Ok(information) => CreationInformation::of_row(creation_information_row@) == Ok::<
                    CreationInformation,
                    Seq<char>,
                >(information),
                Err(message) => CreationInformation::of_row(creation_information_row@) == Err::<
                    CreationInformation,
                    Seq<char>,
                >(message@),
            },
    {
        let uuid = match parse_uuid(&creation_information_row.uuid) {
            Ok(res) => res,
            Err(err) => {
                return Err(err);
            },
        };
        let creator_user_uuid = match parse_uuid(&creation_information_row.creator_user_uuid) {
            Ok(res) => res,
            Err(err) => {
                return Err(err);
            },
        };
        let creation_time = match Timestamp::parse_from_rfc3339(
            creation_information_row.creation_time.as_str(),
        ) {
            Ok(res) => res,
            Err(err) => {
                return Err(err);
            },
        };
        let last_updated_by_user_uuid = match parse_uuid(
            &creation_information_row.last_updated_by_user_uuid,
        ) {
            Ok(res) => res,
            Err(err) => {
                return Err(err);
            },
        };
        let last_updated_time = match Timestamp::parse_from_rfc3339(
            creation_information_row.last_updated_time.as_str(),
        ) {
            Ok(res) => res,
            Err(err) => {
                return Err(err);
            },
        };
        Ok(
            CreationInformation {
                uuid,
                creator_user_uuid,
                creation_time,
                last_updated_by_user_uuid,
                last_updated_time,
            },
        )
    }

    /// The record of an entity that the user named by `creator` creates at
    /// `now`, under the identifier `uuid`.
    pub fn from_creation_text(creator: &String, uuid: u128, now: Timestamp) -> (made: Result<
        CreationInformation,
        String,
    >)
        ensures
            match made {
                Ok(information) => CreationInformation::created(creator@, uuid, now) == Ok::<
                    CreationInformation,
                    Seq<char>,
                >(information),
                Err(message) => CreationInformation::created(creator@, uuid, now) == Err::<
                    CreationInformation,
                    Seq<char>,
                >(message@),
            },
    {
        match parse_uuid(creator) {
            Ok(creator_user_uuid) => Ok(
                CreationInformation {
                    uuid,
                    creator_user_uuid,
                    creation_time: now,
                    last_updated_by_user_uuid: creator_user_uuid,
                    last_updated_time: now,
                },
            ),
            Err(err) => Err(err),
        }
    }

    /// The record of an entity that the input's user creates at `now`, under
    /// the identifier `uuid`: the creator is also the last editor, and both
    /// times are `now`. Fails where the creator's text stands for no
    /// identifier.
    pub fn from_create_creation_information_input(
        input: CreateCreationInformationInput,
        uuid: u128,
        now: Timestamp,
    ) -> (made: Result<CreationInformation, String>)
        ensures
            match made {
                Ok(information) => CreationInformation::created(input@, uuid, now) == Ok::<
                    CreationInformation,
                    Seq<char>,
                >(information),
                Err(message) => CreationInformation::created(input@, uuid, now) == Err::<
                    CreationInformation,
                    Seq<char>,
                >(message@),
            },
            made matches Ok(information) ==> information.is_consistent(),
    {
        CreationInformation::from_creation_text(&input.creator_user_uuid, uuid, now)
    }

    /// Records an edit by `updated_by_user_uuid` at `now`. Who created the
    /// entity and when stays as it was. The time of the last edit is `now`,
    /// or the time of the creation where `now` is earlier than that: the
    /// record is consistent afterwards, whatever it was before.
    pub fn set_last_updated(&mut self, updated_by_user_uuid: u128, now: Timestamp)
        ensures
            *final(self) == old(self).updated(updated_by_user_uuid, now),
            final(self).is_consistent(),
            old(self).creation_time.is_at_or_before(now) ==> final(self).last_updated_time == now,
    {
        self.last_updated_by_user_uuid = updated_by_user_uuid;
        self.last_updated_time = self.creation_time.later_of(&now);
    }
}

} // verus!
