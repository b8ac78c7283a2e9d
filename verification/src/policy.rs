//! The rule's identity and its fixed policy: which property names are banned
//! and how a finding is worded.

use crate::text::str_eq;
use vstd::prelude::*;
use vstd::string::*;

verus! {

/// The stable identifier of the rule.
pub const CODE: &'static str = "no-prototype-builtins";

/// The property names that must not be called directly on a target object.
///
/// The third name is spelled `propertyIsEnumberable`. The builtin is spelled
/// `propertyIsEnumerable`, so a direct call of the builtin itself is not
/// matched. The spelling is kept: to correct it would change which calls the
/// rule reports.
pub const BANNED_PROPERTIES: [&'static str; 3] = [
    "hasOwnProperty",
    "isPrototypeOf",
    "propertyIsEnumberable",
];

/// The banned property names as texts, in their fixed order.
pub open spec fn banned_properties() -> Seq<Seq<char>> {
    BANNED_PROPERTIES@.map_values(|name: &'static str| name@)
}

/// Whether `name` is, letter for letter, one of the banned property names.
///
/// To rule a name out, its length is often enough: see
/// [`lemma_banned_name_lengths`].
pub open spec fn is_banned(name: Seq<char>) -> bool {
    name == "hasOwnProperty"@ || name == "isPrototypeOf"@ || name == "propertyIsEnumberable"@
}

/// The banned names are those of [`BANNED_PROPERTIES`], and no other.
pub proof fn lemma_banned_properties(name: Seq<char>)
    ensures
        is_banned(name) <==> banned_properties().contains(name),
        banned_properties() == seq![
            "hasOwnProperty"@,
            "isPrototypeOf"@,
            "propertyIsEnumberable"@,
        ],
{
    let banned = banned_properties();
    assert(banned[0] == "hasOwnProperty"@);
    assert(banned[1] == "isPrototypeOf"@);
    assert(banned[2] == "propertyIsEnumberable"@);
    assert(banned =~= seq!["hasOwnProperty"@, "isPrototypeOf"@, "propertyIsEnumberable"@]);
}

/// A banned name has 13, 14 or 21 characters: a name of any other length is
/// not banned.
pub proof fn lemma_banned_name_lengths(name: Seq<char>)
    ensures
        is_banned(name) ==> name.len() == 13 || name.len() == 14 || name.len() == 21,
{
    reveal_strlit("hasOwnProperty");
    reveal_strlit("isPrototypeOf");
    reveal_strlit("propertyIsEnumberable");
    assert("hasOwnProperty"@.len() == 14);
    assert("isPrototypeOf"@.len() == 13);
    assert("propertyIsEnumberable"@.len() == 21);
}

/// Decides whether `name` is a banned property name.
pub fn is_banned_property(name: &str) -> (banned: bool)
    ensures
        banned == is_banned(name@),
{
    let mut i: usize = 0;
    while i < BANNED_PROPERTIES.len()
        invariant
            i <= BANNED_PROPERTIES.len(),
            forall|k: int| 0 <= k < i ==> banned_properties()[k] != name@,
        decreases BANNED_PROPERTIES.len() - i,
    {
        if str_eq(BANNED_PROPERTIES[i], name) {
            proof {
                assert(banned_properties()[i as int] == name@);
                lemma_banned_properties(name@);
            }
            return true;
        }
        i += 1;
    }
    proof {
        lemma_banned_properties(name@);
    }
    false
}

/// The wording of a finding about the property `prop`.
pub open spec fn message_text(prop: Seq<char>) -> Seq<char> {
    "Access to Object.prototype."@ + prop + " is not allowed from target object"@
}

/// Builds the message of a finding about the property `prop`.
pub fn get_message(prop: &str) -> (message: String)
    ensures
        message@ == message_text(prop@),
{
    let mut message = String::from_str("Access to Object.prototype.");
    message.append(prop);
    message.append(" is not allowed from target object");
    message
}

} // verus!
