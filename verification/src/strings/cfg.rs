//! Messages of the `cfg` area.
use vstd::prelude::*;

verus! {

/// The text of [`error_config_type_not_replaced`].
pub open spec fn error_config_type_not_replaced_text() -> Seq<char> {
    "Replace `CONFIG_TYPE` in the command with `room` or `global`."@
}

/// The reply to a configuration command pasted from the help text without filling it in.
pub fn error_config_type_not_replaced() -> (r: String)
    ensures
        r@ == error_config_type_not_replaced_text(),
{
    "Replace `CONFIG_TYPE` in the command with `room` or `global`.".to_owned()
}

/// The text of [`configuration_invocation_incorrect_more_values_expected`].
pub open spec fn configuration_invocation_incorrect_more_values_expected_text() -> Seq<char> {
    "Incorrect invocation: more values were expected."@
}

/// The reply to a configuration command that lacks a value.
pub fn configuration_invocation_incorrect_more_values_expected() -> (r: String)
    ensures
        r@ == configuration_invocation_incorrect_more_values_expected_text(),
{
    "Incorrect invocation: more values were expected.".to_owned()
}

/// The text of [`configuration_getter_used_with_extra_text`].
pub open spec fn configuration_getter_used_with_extra_text_text(setting_name: Seq<char>, extra_text: Seq<char>) -> Seq<char> {
    "The `"@ + setting_name + "` setting is shown without any value, but `"@ + extra_text + "` was given. To change it, use `set-"@ + setting_name + "`."@
}

/// The reply to a setting getter that was given a value.
pub fn configuration_getter_used_with_extra_text(setting_name: &str, extra_text: &str) -> (r: String)
    ensures
        r@ == configuration_getter_used_with_extra_text_text(setting_name@, extra_text@),
{
    let mut r = "The `".to_owned();
    r.append(setting_name);
    r.append("` setting is shown without any value, but `");
    r.append(extra_text);
    r.append("` was given. To change it, use `set-");
    r.append(setting_name);
    r.append("`.");
    r
}

/// The text of [`configuration_value_unrecognized`].
pub open spec fn configuration_value_unrecognized_text(value: Seq<char>) -> Seq<char> {
    "The value `"@ + value + "` is not recognized."@
}

/// The reply to a setting value that is not one of the setting's choices.
pub fn configuration_value_unrecognized(value: &str) -> (r: String)
    ensures
        r@ == configuration_value_unrecognized_text(value@),
{
    let mut r = "The value `".to_owned();
    r.append(value);
    r.append("` is not recognized.");
    r
}

/// The text of [`configuration_value_not_f32`].
pub open spec fn configuration_value_not_f32_text(value: Seq<char>) -> Seq<char> {
    "The value `"@ + value + "` is not a number."@
}

/// The reply to a numeric setting value that is not a number.
pub fn configuration_value_not_f32(value: &str) -> (r: String)
    ensures
        r@ == configuration_value_not_f32_text(value@),
{
    let mut r = "The value `".to_owned();
    r.append(value);
    r.append("` is not a number.");
    r
}

} // verus!
