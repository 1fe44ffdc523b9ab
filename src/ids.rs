use vstd::prelude::*;

verus! {

/// Relies on uuid::Uuid::new_v4 and its `Display`: a random version 4 uuid in
/// text form. Nothing is promised of its value.
#[verifier::external_body]
pub(crate) fn new_uuid_text() -> (r: String) {
    uuid::Uuid::new_v4().to_string()
}

} // verus!
