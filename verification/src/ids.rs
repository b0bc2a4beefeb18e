use vstd::prelude::*;

verus! {

/// How many characters a message id has: 32 hexadecimal digits in five
/// groups, with a hyphen between two groups.
pub const MESSAGE_ID_CHARS: usize = 36;

/// A new random id for a chat message: `uuid::Uuid::new_v4()`, written out
/// by its `Display` impl, which gives the hyphenated lower-case form. The
/// id comes from the operating system's random numbers, so two calls may
/// give any two ids; all that is claimed here is the length of the text.
#[verifier::external_body]
pub(crate) fn fresh_message_id() -> (id: String)
    ensures
        id@.len() == MESSAGE_ID_CHARS,
{
    uuid::Uuid::new_v4().to_string()
}

} // verus!
