//! Messages of the `error` area.
use vstd::prelude::*;

verus! {

/// The text of [`message_is_encrypted`].
pub open spec fn message_is_encrypted_text() -> Seq<char> {
    "This message is encrypted and could not be decrypted."@
}

/// The reply to a message that could not be decrypted.
pub fn message_is_encrypted() -> (r: String)
    ensures
        r@ == message_is_encrypted_text(),
{
    "This message is encrypted and could not be decrypted.".to_owned()
}

/// The text of [`first_message_in_thread_is_encrypted`].
pub open spec fn first_message_in_thread_is_encrypted_text() -> Seq<char> {
    "The first message of this thread is encrypted and could not be decrypted."@
}

/// The reply in a thread whose first message could not be decrypted.
pub fn first_message_in_thread_is_encrypted() -> (r: String)
    ensures
        r@ == first_message_in_thread_is_encrypted_text(),
{
    "The first message of this thread is encrypted and could not be decrypted.".to_owned()
}

/// The text of [`not_a_valid_yaml_hashmap`].
pub open spec fn not_a_valid_yaml_hashmap_text() -> Seq<char> {
    "Not a valid YAML hashmap"@
}

/// The reason given when a configuration parses as YAML but is not a mapping.
pub fn not_a_valid_yaml_hashmap() -> (r: String)
    ensures
        r@ == not_a_valid_yaml_hashmap_text(),
{
    "Not a valid YAML hashmap".to_owned()
}

/// The text of [`unknown_command_see_help`].
pub open spec fn unknown_command_see_help_text(command_prefix: Seq<char>) -> Seq<char> {
    "Unknown command. Send `"@ + command_prefix + " help` to see what is available."@
}

/// The reply to a command that is not known.
pub fn unknown_command_see_help(command_prefix: &str) -> (r: String)
    ensures
        r@ == unknown_command_see_help_text(command_prefix@),
{
    let mut r = "Unknown command. Send `".to_owned();
    r.append(command_prefix);
    r.append(" help` to see what is available.");
    r
}

} // verus!
