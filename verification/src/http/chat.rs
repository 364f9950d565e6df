use vstd::prelude::*;

verus! {

/// Announces that `username` joined the chat: `<username> joined.`
pub fn joined_message(username: &str) -> (r: String)
    ensures
        r@ == username@ + " joined."@,
{
    username.to_owned().concat(" joined.")
}

/// Announces that `username` left the chat: `<username> left.`
pub fn left_message(username: &str) -> (r: String)
    ensures
        r@ == username@ + " left."@,
{
    username.to_owned().concat(" left.")
}

/// A chat line of `username`: `<username>: <text>`.
pub fn chat_line(username: &str, text: &str) -> (r: String)
    ensures
        r@ == username@ + ": "@ + text@,
{
    username.to_owned().concat(": ").concat(text)
}

} // verus!
