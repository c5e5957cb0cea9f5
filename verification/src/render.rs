//! Text for diagnostics. The layout of each line is fixed here; how a payload
//! or a label is written is left to its own `Debug`, and so is whether it
//! can be written at all.

use vstd::prelude::*;
use std::fmt::{Debug, Write};
use vstd::string::StringExecFns;

verus! {

/// Writes `value` into a fresh `String` with the `{:?}` of `write!`. What
/// comes out is up to the `Debug` of `T`, so nothing is said of the text;
/// where that `Debug` reports an error there is no text.
#[verifier::external_body]
pub(crate) fn debug_text<T: Debug>(value: &T) -> (text: Option<String>) {
    let mut text = String::new();
    match write!(text, "{:?}", value) {
        Ok(()) => Some(text),
        Err(_) => None,
    }
}

/// How a flag is written.
pub open spec fn flag_text(flag: bool) -> Seq<char> {
    if flag {
        "true"@
    } else {
        "false"@
    }
}

/// The line for a hook with the identifier `id`.
pub open spec fn event_text(id: Seq<char>) -> Seq<char> {
    "Event("@ + id + ")"@
}

/// The line for a traced value, from the texts of its parts.
pub open spec fn traced_text(
    payload: Seq<char>,
    suspended: bool,
    on_cloning: Seq<char>,
    on_cloned: Seq<char>,
) -> Seq<char> {
    "Tr("@ + payload + ", <suspended: "@ + flag_text(suspended) + ">, <on_cloning: "@ + on_cloning
        + ">, <on_cloned: "@ + on_cloned + ">)"@
}

/// The line for a tagged value, from the texts of its parts.
pub open spec fn tagged_text(value: Seq<char>, tag: Seq<char>) -> Seq<char> {
    "Tag("@ + value + ", "@ + tag + ")"@
}

/// Writes a flag as `true` or `false`.
pub fn write_flag(flag: bool) -> (text: &'static str)
    ensures
        text@ == flag_text(flag),
{
    if flag {
        "true"
    } else {
        "false"
    }
}

/// Writes the line for a hook with the identifier `id`.
pub fn write_event(id: &str) -> (text: String)
    ensures
        text@ == event_text(id@),
{
    let mut text = String::new();
    text.append("Event(");
    text.append(id);
    text.append(")");
    assert(text@ =~= event_text(id@));
    text
}

/// Writes the line for a traced value from the texts of its parts.
pub fn write_traced(payload: &str, suspended: bool, on_cloning: &str, on_cloned: &str) -> (text:
    String)
    ensures
        text@ == traced_text(payload@, suspended, on_cloning@, on_cloned@),
{
    let mut text = String::new();
    text.append("Tr(");
    text.append(payload);
    text.append(", <suspended: ");
    text.append(write_flag(suspended));
    text.append(">, <on_cloning: ");
    text.append(on_cloning);
    text.append(">, <on_cloned: ");
    text.append(on_cloned);
    text.append(">)");
    assert(text@ =~= traced_text(payload@, suspended, on_cloning@, on_cloned@));
    text
}

/// Writes the line for a tagged value from the texts of its parts.
pub fn write_tagged(value: &str, tag: &str) -> (text: String)
    ensures
        text@ == tagged_text(value@, tag@),
{
    let mut text = String::new();
    text.append("Tag(");
    text.append(value);
    text.append(", ");
    text.append(tag);
    text.append(")");
    assert(text@ =~= tagged_text(value@, tag@));
    text
}

} // verus!
