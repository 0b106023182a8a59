use vstd::prelude::*;

use crate::types::{Metadata, UpdateMetadata};
use crate::utils::canister::controller_check;
use crate::utils::errors::{CassandraError, UtilsError};

verus! {

/// Applies a configuration update on behalf of a caller: a controller's
/// update is applied, anyone else's is refused with `NotAController` and
/// leaves the configuration as it was.
pub fn update_metadata(controller: bool, metadata: &mut Metadata, update: UpdateMetadata) -> (res:
    Result<(), CassandraError>)
    ensures
        controller ==> res is Ok && *final(metadata) == old(metadata).updated_with(update),
        !controller ==> res == Err::<(), CassandraError>(
            CassandraError::UtilsError(UtilsError::NotAController),
        ) && *final(metadata) == *old(metadata),
{
    match controller_check(controller) {
        Err(err) => Err(CassandraError::UtilsError(err)),
        Ok(()) => {
            metadata.update(update);
            Ok(())
        },
    }
}

} // verus!
