//! What the machine gives: identifiers that are drawn at random, and the
//! time of the clock as a text.

use uuid::Uuid;
use vstd::prelude::*;

verus! {

/// An identifier drawn at random, `uuid::Uuid`.
#[verifier::external_type_specification]
#[verifier::external_body]
pub struct ExUuid(uuid::Uuid);

/// A new identifier, as `uuid::Uuid::new_v4` draws it. The result is
/// random: nothing is claimed of it.
#[verifier::external_body]
pub(crate) fn new_uuid() -> (r: Uuid) {
    Uuid::new_v4()
}

/// An identifier in groups of digits with hyphens between them, as
/// `uuid::Uuid::to_hyphenated` writes it. Nothing is claimed of the text.
#[verifier::external_body]
pub(crate) fn hyphenated_of(id: &Uuid) -> (r: String) {
    id.to_hyphenated().to_string()
}

/// An identifier as digits alone, as `uuid::Uuid::to_simple` writes it.
/// Nothing is claimed of the text.
#[verifier::external_body]
pub(crate) fn simple_of(id: &Uuid) -> (r: String) {
    id.to_simple().to_string()
}

/// An identifier as a URN, as `uuid::Uuid::to_urn` writes it. Nothing is
/// claimed of the text.
#[verifier::external_body]
pub(crate) fn urn_of(id: &Uuid) -> (r: String) {
    id.to_urn().to_string()
}

/// The time of the clock, as `time::now_utc` reads it and `time::strftime`
/// writes it in `format`; the empty text where the format is refused. The
/// result depends on the clock: nothing is claimed of it.
#[verifier::external_body]
pub(crate) fn time_text(format: &str) -> (r: String) {
    time::strftime(format, &time::now_utc()).unwrap_or_default()
}

} // verus!
