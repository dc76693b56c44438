//! Developer collectives: named groups under which tools are published.

use crate::hash::LinkableHash;
use crate::outcome::{
    guest, invalid, valid, GuestError, Reason, ValidateCallbackResult, ValidationError,
    ValidationResult,
};
use crate::record::{CreateLink, Delete, DeleteLink, EntryCreationAction, Record, Update};
use crate::store::{fetch_linked, Anchors, ContentStore};
use vstd::prelude::*;

verus! {

/// What a collective says of itself. The collective belongs to the principal
/// that made its first revision.
#[derive(Clone, Debug, PartialEq, Eq)]
pub struct DeveloperCollective {
    pub name: String,
    pub description: Option<String>,
    pub website: Option<String>,
    pub contact: Option<String>,
    pub icon: String,
    pub meta_data: Option<String>,
}

/// The most characters that the name of a collective can have.
pub const NAME_MAX_LENGTH: usize = 50;

/// The most characters that the description of a collective can have.
pub const DESCRIPTION_MAX_LENGTH: usize = 1200;

/// The most characters that the website of a collective can have.
pub const WEBSITE_MAX_LENGTH: usize = 500;

/// The most characters that the contact information of a collective can have.
pub const CONTACT_MAX_LENGTH: usize = 300;

/// The most characters that the icon of a collective can have.
pub const ICON_MAX_LENGTH: usize = 1_000_000;

/// The most characters that the metadata of a collective can have.
pub const META_DATA_MAX_LENGTH: usize = 5_000_000;

/// Whether a field that may be left out is, where it is there, at most `max`
/// characters long.
pub open spec fn fits(field: Option<String>, max: usize) -> bool {
    match field {
        Some(text) => text@.len() <= max,
        None => true,
    }
}

fn check_fits(field: &Option<String>, max: usize) -> (within: bool)
    ensures
        within == fits(*field, max),
{
    match field {
        Some(text) => text.as_str().unicode_len() <= max,
        None => true,
    }
}

/// The verdict on the sizes of the fields of a collective: the first field
/// that is too long gives the reason.
pub open spec fn size_verdict(developer_collective: DeveloperCollective) -> ValidateCallbackResult {
    if developer_collective.name@.len() > NAME_MAX_LENGTH {
        ValidateCallbackResult::Invalid(Reason::NameTooLong)
    } else if developer_collective.icon@.len() > ICON_MAX_LENGTH {
        ValidateCallbackResult::Invalid(Reason::IconTooLarge)
    } else if !fits(developer_collective.description, DESCRIPTION_MAX_LENGTH) {
        ValidateCallbackResult::Invalid(Reason::DescriptionTooLong)
    } else if !fits(developer_collective.website, WEBSITE_MAX_LENGTH) {
        ValidateCallbackResult::Invalid(Reason::WebsiteTooLong)
    } else if !fits(developer_collective.contact, CONTACT_MAX_LENGTH) {
        ValidateCallbackResult::Invalid(Reason::ContactTooLong)
    } else if !fits(developer_collective.meta_data, META_DATA_MAX_LENGTH) {
        ValidateCallbackResult::Invalid(Reason::MetaDataTooLong)
    } else {
        ValidateCallbackResult::Valid
    }
}

/// Whether every field of a collective is within its size.
pub open spec fn within_sizes(developer_collective: DeveloperCollective) -> bool {
    &&& developer_collective.name@.len() <= NAME_MAX_LENGTH
    &&& developer_collective.icon@.len() <= ICON_MAX_LENGTH
    &&& fits(developer_collective.description, DESCRIPTION_MAX_LENGTH)
    &&& fits(developer_collective.website, WEBSITE_MAX_LENGTH)
    &&& fits(developer_collective.contact, CONTACT_MAX_LENGTH)
    &&& fits(developer_collective.meta_data, META_DATA_MAX_LENGTH)
}

fn check_sizes(developer_collective: &DeveloperCollective) -> (verdict: ValidateCallbackResult)
    ensures
        verdict == size_verdict(*developer_collective),
        verdict == ValidateCallbackResult::Valid <==> within_sizes(*developer_collective),
{
    if developer_collective.name.as_str().unicode_len() > NAME_MAX_LENGTH {
        return ValidateCallbackResult::Invalid(Reason::NameTooLong);
    }
    if developer_collective.icon.as_str().unicode_len() > ICON_MAX_LENGTH {
        return ValidateCallbackResult::Invalid(Reason::IconTooLarge);
    }
    if !check_fits(&developer_collective.description, DESCRIPTION_MAX_LENGTH) {
        return ValidateCallbackResult::Invalid(Reason::DescriptionTooLong);
    }
    if !check_fits(&developer_collective.website, WEBSITE_MAX_LENGTH) {
        return ValidateCallbackResult::Invalid(Reason::WebsiteTooLong);
    }
    if !check_fits(&developer_collective.contact, CONTACT_MAX_LENGTH) {
        return ValidateCallbackResult::Invalid(Reason::ContactTooLong);
    }
    if !check_fits(&developer_collective.meta_data, META_DATA_MAX_LENGTH) {
        return ValidateCallbackResult::Invalid(Reason::MetaDataTooLong);
    }
    ValidateCallbackResult::Valid
}

/// Anyone can create a collective whose fields are within their sizes.
pub fn validate_create_developer_collective(
    _action: &EntryCreationAction,
    developer_collective: &DeveloperCollective,
) -> (answer: ValidationResult)
    ensures
        answer == Ok::<ValidateCallbackResult, ValidationError>(
            size_verdict(*developer_collective),
        ),
        answer == valid() <==> within_sizes(*developer_collective),
{
    Ok(check_sizes(developer_collective))
}

/// The answer on the update of a collective.
pub open spec fn update_developer_collective_answer(
    action: Update,
    developer_collective: DeveloperCollective,
    original_action: EntryCreationAction,
) -> ValidationResult {
    if action.author != original_action.spec_author() {
        invalid(Reason::CollectiveUpdateByOther)
    } else {
        Ok(size_verdict(developer_collective))
    }
}

/// A collective can be updated by the principal that created it, to fields
/// that are within their sizes.
pub fn validate_update_developer_collective(
    action: &Update,
    developer_collective: &DeveloperCollective,
    original_action: &EntryCreationAction,
    _original_developer_collective: &DeveloperCollective,
) -> (answer: ValidationResult)
    ensures
        answer == update_developer_collective_answer(
            *action,
            *developer_collective,
            *original_action,
        ),
        answer == valid() <==> action.author == original_action.spec_author() && within_sizes(
            *developer_collective,
        ),
{
    if action.author != original_action.author() {
        return Ok(ValidateCallbackResult::Invalid(Reason::CollectiveUpdateByOther));
    }
    Ok(check_sizes(developer_collective))
}

/// A collective can be deleted by the principal that created it.
pub fn validate_delete_developer_collective(
    action: &Delete,
    original_action: &EntryCreationAction,
    _original_developer_collective: &DeveloperCollective,
) -> (answer: ValidationResult)
    ensures
        answer == if action.author != original_action.spec_author() {
            invalid(Reason::CollectiveDeleteByOther)
        } else {
            valid()
        },
{
    if action.author != original_action.author() {
        return Ok(ValidateCallbackResult::Invalid(Reason::CollectiveDeleteByOther));
    }
    Ok(ValidateCallbackResult::Valid)
}

/// The answer on a new update edge of a collective.
pub open spec fn create_link_developer_collective_updates_answer(
    records: Seq<Record>,
    action: CreateLink,
    base_address: LinkableHash,
    target_address: LinkableHash,
) -> ValidationResult {
    match fetch_linked(records, base_address) {
        Err(e) => Err(e),
        Ok(collective_record) => if collective_record.spec_author() != action.author {
            invalid(Reason::CollectiveUpdateLinkByOther)
        } else {
            match collective_record.spec_developer_collective(GuestError::CollectiveBaseNoEntry) {
                Err(e) => Err(e),
                Ok(_) => match fetch_linked(records, target_address) {
                    Err(e) => Err(e),
                    Ok(update_record) => match update_record.spec_developer_collective(
                        GuestError::CollectiveTargetNoEntry,
                    ) {
                        Err(e) => Err(e),
                        Ok(_) => valid(),
                    },
                },
            }
        },
    }
}

/// An update edge of a collective leads from a collective to a collective
/// and is made by the principal that created the collective it starts from.
pub fn validate_create_link_developer_collective_updates(
    store: &ContentStore,
    action: &CreateLink,
    base_address: LinkableHash,
    target_address: LinkableHash,
    _tag: &Vec<u8>,
) -> (answer: ValidationResult)
    ensures
        answer == create_link_developer_collective_updates_answer(
            store@,
            *action,
            base_address,
            target_address,
        ),
{
    let collective_record = store.must_get_linked_record(base_address)?;
    if collective_record.author() != action.author {
        return Ok(ValidateCallbackResult::Invalid(Reason::CollectiveUpdateLinkByOther));
    }
    let _developer_collective = collective_record.developer_collective(
        GuestError::CollectiveBaseNoEntry,
    )?;
    let collective_update_record = store.must_get_linked_record(target_address)?;
    let _developer_collective_update = collective_update_record.developer_collective(
        GuestError::CollectiveTargetNoEntry,
    )?;
    Ok(ValidateCallbackResult::Valid)
}

/// An update edge of a collective is never removed.
pub fn validate_delete_link_developer_collective_updates(
    _store: &ContentStore,
    _action: &DeleteLink,
    _original_action: &CreateLink,
    _base: LinkableHash,
    _target: LinkableHash,
    _tag: &Vec<u8>,
) -> (answer: ValidationResult)
    ensures
        answer == invalid(Reason::CollectiveUpdatesLinkDeleted),
{
    Ok(ValidateCallbackResult::Invalid(Reason::CollectiveUpdatesLinkDeleted))
}

/// The answer on a new edge of the list of all collectives.
pub open spec fn create_link_all_developer_collectives_answer(
    records: Seq<Record>,
    anchors: Anchors,
    action: CreateLink,
    base_address: LinkableHash,
    target_address: LinkableHash,
) -> ValidationResult {
    match base_address.spec_into_entry_hash() {
        None => guest(GuestError::BaseNotEntryHash),
        Some(base) => if anchors.all_developer_collectives != base {
            invalid(Reason::NotFromAllCollectivesAnchor)
        } else {
            match fetch_linked(records, target_address) {
                Err(e) => Err(e),
                Ok(record) => match record.spec_developer_collective(
                    GuestError::NoCollectiveEntry,
                ) {
                    Err(e) => Err(e),
                    Ok(_) => if action.author != record.spec_author() {
                        invalid(Reason::AllCollectivesLinkByOther)
                    } else {
                        valid()
                    },
                },
            }
        },
    }
}

/// An edge of the list of all collectives starts at the anchor of that list,
/// points to a collective, and is made by the principal that created the
/// collective.
pub fn validate_create_link_all_developer_collectives(
    store: &ContentStore,
    action: &CreateLink,
    base_address: LinkableHash,
    target_address: LinkableHash,
    _tag: &Vec<u8>,
) -> (answer: ValidationResult)
    ensures
        answer == create_link_all_developer_collectives_answer(
            store@,
            store.spec_anchors(),
            *action,
            base_address,
            target_address,
        ),
{
    let base_address_entry_hash = match base_address.into_entry_hash() {
        Some(hash) => hash,
        None => {
            return Err(ValidationError::Guest(GuestError::BaseNotEntryHash));
        },
    };
    if store.anchors().all_developer_collectives != base_address_entry_hash {
        return Ok(ValidateCallbackResult::Invalid(Reason::NotFromAllCollectivesAnchor));
    }
    let record = store.must_get_linked_record(target_address)?;
    let _developer_collective = record.developer_collective(GuestError::NoCollectiveEntry)?;
    if action.author != record.author() {
        return Ok(ValidateCallbackResult::Invalid(Reason::AllCollectivesLinkByOther));
    }
    Ok(ValidateCallbackResult::Valid)
}

/// An edge of the list of all collectives can be removed by the principal
/// that made it.
pub fn validate_delete_link_all_developer_collectives(
    _store: &ContentStore,
    action: &DeleteLink,
    original_action: &CreateLink,
    _base: LinkableHash,
    _target: LinkableHash,
    _tag: &Vec<u8>,
) -> (answer: ValidationResult)
    ensures
        answer == if action.author != original_action.author {
            invalid(Reason::AllCollectivesLinkDeleteByOther)
        } else {
            valid()
        },
{
    if action.author != original_action.author {
        return Ok(ValidateCallbackResult::Invalid(Reason::AllCollectivesLinkDeleteByOther));
    }
    Ok(ValidateCallbackResult::Valid)
}

} // verus!
