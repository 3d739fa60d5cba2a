//! The values of other crates that this library carries without looking
//! inside them: identifiers and structured payloads.

use vstd::prelude::*;

verus! {

/// `uuid::Uuid`, a 128-bit identifier. The library copies and compares such
/// values in specifications and never reads their bits.
#[verifier::external_type_specification]
#[verifier::external_body]
pub struct ExUuid(uuid::Uuid);

/// `serde_json::Value`, a structured document. Tool parameters and tool
/// results are carried as such documents, unread.
#[verifier::external_type_specification]
#[verifier::external_body]
pub struct ExValue(serde_json::Value);

/// `Clone` for `uuid::Uuid` is derived on a `Copy` type: the clone is the
/// identifier itself.
pub assume_specification[ <uuid::Uuid as Clone>::clone ](id: &uuid::Uuid) -> (copy: uuid::Uuid)
    ensures
        copy == *id,
;

/// `Clone` for `serde_json::Value` is derived: the clone is a document equal
/// to the one it was made from.
pub assume_specification[ <serde_json::Value as Clone>::clone ](
    document: &serde_json::Value,
) -> (copy: serde_json::Value)
    ensures
        copy == *document,
;

/// Draws a fresh random identifier with `uuid::Uuid::new_v4`. Nothing is
/// claimed of the identifier drawn. `uuid` panics where the operating system
/// gives it no random bytes.
#[verifier::external_body]
pub(crate) fn fresh_id() -> uuid::Uuid {
    uuid::Uuid::new_v4()
}

} // verus!
