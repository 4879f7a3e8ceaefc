use vstd::prelude::*;

verus! {

/// Mints a fresh session identifier by calling `uuid::Uuid::new_v4` and
/// rendering the result with its `Display` impl. The value is random, so
/// nothing is claimed of it but its shape: the hyphenated form that
/// `Display` writes is always 36 characters long.
#[verifier::external_body]
pub(crate) fn generate_session_id() -> (id: String)
    ensures
        id@.len() == 36,
{
    uuid::Uuid::new_v4().to_string()
}

} // verus!
