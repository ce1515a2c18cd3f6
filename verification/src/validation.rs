use crate::error::AgistryError;
use vstd::prelude::*;
use vstd::utf8::encode_utf8;

verus! {

/// Longest metadata hash, in bytes, that an adapter may carry.
pub const MAX_METADATA_HASH_LENGTH: usize = 70;

/// Longest schema version, in bytes, that the registry may carry.
pub const MAX_SCHEMA_VERSION_LENGTH: usize = 20;

/// Number of bytes that a string occupies, which is what `String::len` counts.
pub open spec fn byte_len(s: Seq<char>) -> nat {
    encode_utf8(s).len()
}

/// Number of bytes that `s` occupies.
pub(crate) fn string_byte_len(s: &String) -> (len: usize)
    ensures
        len == byte_len(s@),
{
    s.as_str().as_bytes().len()
}

/// What is wrong with a metadata hash, if anything: it is empty or it is
/// longer than `MAX_METADATA_HASH_LENGTH` bytes.
pub open spec fn metadata_hash_error(hash: Seq<char>) -> Option<AgistryError> {
    if byte_len(hash) == 0 {
        Some(AgistryError::MetadataHashEmpty)
    } else if byte_len(hash) > MAX_METADATA_HASH_LENGTH {
        Some(AgistryError::MetadataHashTooLong)
    } else {
        None
    }
}

/// Checks the length of a metadata hash.
pub fn check_metadata_hash(hash: &String) -> (result: Result<(), AgistryError>)
    ensures
        match result {
            Ok(_) => metadata_hash_error(hash@) is None,
            Err(error) => metadata_hash_error(hash@) == Some(error),
        },
{
    let len = string_byte_len(hash);
    if len == 0 {
        Err(AgistryError::MetadataHashEmpty)
    } else if len > MAX_METADATA_HASH_LENGTH {
        Err(AgistryError::MetadataHashTooLong)
    } else {
        Ok(())
    }
}

/// What is wrong with a schema version, if anything: it is longer than
/// `MAX_SCHEMA_VERSION_LENGTH` bytes.
pub open spec fn schema_version_error(version: Seq<char>) -> Option<AgistryError> {
    if byte_len(version) > MAX_SCHEMA_VERSION_LENGTH {
        Some(AgistryError::SchemaVersionTooLong)
    } else {
        None
    }
}

/// Checks the length of a schema version.
pub fn check_schema_version(version: &String) -> (result: Result<(), AgistryError>)
    ensures
        match result {
            Ok(_) => schema_version_error(version@) is None,
            Err(error) => schema_version_error(version@) == Some(error),
        },
{
    if string_byte_len(version) > MAX_SCHEMA_VERSION_LENGTH {
        Err(AgistryError::SchemaVersionTooLong)
    } else {
        Ok(())
    }
}

} // verus!
