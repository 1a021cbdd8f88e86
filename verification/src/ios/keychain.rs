//! What the keychain's answers mean.

use vstd::prelude::*;

verus! {

/// Status codes of the keychain.
pub const ERR_SEC_SUCCESS: i32 = 0;

pub const ERR_SEC_USER_CANCELED: i32 = -128;

pub const ERR_SEC_ITEM_NOT_FOUND: i32 = -25300;

pub const ERR_SEC_MISSING_ENTITLEMENT: i32 = -34018;

/// Why the keychain did not do what it was asked.
#[derive(Clone, Copy, Debug, PartialEq, Eq, Structural)]
pub enum KeychainError {
    /// The application is not signed with keychain entitlements, so it has no keychain.
    UpdatingWithoutEntitlement,
    CreatingWithoutEntitlement,
    Updating(i32),
    Creating(i32),
    Reading(i32),
    Deleting(i32),
}

/// What follows an update of a stored password.
#[derive(Clone, Copy, Debug, PartialEq, Eq)]
pub enum WriteStep {
    /// There is no such item: one is added.
    Add,
    Done(Result<(), KeychainError>),
}

/// What follows the update.
pub fn after_update(status: i32) -> (step: WriteStep)
    ensures
        step == if status == ERR_SEC_ITEM_NOT_FOUND {
            WriteStep::Add
        } else if status == ERR_SEC_MISSING_ENTITLEMENT {
            WriteStep::Done(Err(KeychainError::UpdatingWithoutEntitlement))
        } else if status == ERR_SEC_SUCCESS {
            WriteStep::Done(Ok(()))
        } else {
            WriteStep::Done(Err(KeychainError::Updating(status)))
        },
        status == -25300 ==> step is Add,
        status == -34018 ==> step == WriteStep::Done(
            Err(KeychainError::UpdatingWithoutEntitlement),
        ),
        status == 0 ==> step == WriteStep::Done(Ok(())),
        status != -25300 && status != -34018 && status != 0 ==> step == WriteStep::Done(
            Err(KeychainError::Updating(status)),
        ),
{
    if status == ERR_SEC_ITEM_NOT_FOUND {
        WriteStep::Add
    } else if status == ERR_SEC_MISSING_ENTITLEMENT {
        WriteStep::Done(Err(KeychainError::UpdatingWithoutEntitlement))
    } else if status == ERR_SEC_SUCCESS {
        WriteStep::Done(Ok(()))
    } else {
        WriteStep::Done(Err(KeychainError::Updating(status)))
    }
}

/// What an addition has come to.
pub fn after_add(status: i32) -> (result: Result<(), KeychainError>)
    ensures
        result == if status == ERR_SEC_MISSING_ENTITLEMENT {
            Err::<(), KeychainError>(KeychainError::CreatingWithoutEntitlement)
        } else if status == ERR_SEC_SUCCESS {
            Ok(())
        } else {
            Err(KeychainError::Creating(status))
        },
        status == -34018 ==> result == Err::<(), KeychainError>(
            KeychainError::CreatingWithoutEntitlement,
        ),
        status == 0 ==> result is Ok,
        status != -34018 && status != 0 ==> result == Err::<(), KeychainError>(
            KeychainError::Creating(status),
        ),
{
    if status == ERR_SEC_MISSING_ENTITLEMENT {
        Err(KeychainError::CreatingWithoutEntitlement)
    } else if status == ERR_SEC_SUCCESS {
        Ok(())
    } else {
        Err(KeychainError::Creating(status))
    }
}

/// Whether a read found an item. No item, a user who declined and an application without a
/// keychain all mean that nothing is stored.
pub fn after_read(status: i32) -> (found: Result<bool, KeychainError>)
    ensures
        found == if status == ERR_SEC_SUCCESS {
            Ok::<bool, KeychainError>(true)
        } else if status == ERR_SEC_ITEM_NOT_FOUND || status == ERR_SEC_USER_CANCELED || status
            == ERR_SEC_MISSING_ENTITLEMENT {
            Ok(false)
        } else {
            Err(KeychainError::Reading(status))
        },
        status == 0 ==> found == Ok::<bool, KeychainError>(true),
        status == -25300 || status == -128 || status == -34018 ==> found == Ok::<
            bool,
            KeychainError,
        >(false),
        status != 0 && status != -25300 && status != -128 && status != -34018 ==> found == Err::<
            bool,
            KeychainError,
        >(KeychainError::Reading(status)),
{
    if status == ERR_SEC_SUCCESS {
        Ok(true)
    } else if status == ERR_SEC_ITEM_NOT_FOUND || status == ERR_SEC_USER_CANCELED || status
        == ERR_SEC_MISSING_ENTITLEMENT {
        Ok(false)
    } else {
        Err(KeychainError::Reading(status))
    }
}

/// What a deletion has come to; there being nothing to delete is no failure.
pub fn after_delete(status: i32) -> (result: Result<(), KeychainError>)
    ensures
        result == if status == ERR_SEC_ITEM_NOT_FOUND || status == ERR_SEC_MISSING_ENTITLEMENT
            || status == ERR_SEC_SUCCESS {
            Ok::<(), KeychainError>(())
        } else {
            Err(KeychainError::Deleting(status))
        },
        status == 0 || status == -25300 || status == -34018 ==> result is Ok,
        status != 0 && status != -25300 && status != -34018 ==> result == Err::<
            (),
            KeychainError,
        >(KeychainError::Deleting(status)),
{
    if status == ERR_SEC_ITEM_NOT_FOUND || status == ERR_SEC_MISSING_ENTITLEMENT || status
        == ERR_SEC_SUCCESS {
        Ok(())
    } else {
        Err(KeychainError::Deleting(status))
    }
}

} // verus!
