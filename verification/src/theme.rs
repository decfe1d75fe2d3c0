//! Trusted access to the host's theme table.
//!
//! The theme is a JSON value owned by the host: an `icons` object mapping
//! icon identifiers to glyph strings, and per-state pairs of color strings
//! under keys such as `idle_bg` / `idle_fg`. The widget only looks values
//! up in it. A lookup is a function of the opaque JSON value and the key
//! alone, so its result is named: `icon_table` and `color_table` stand for
//! the string entries the theme holds, and the two lookup functions are
//! pinned to them.

use vstd::prelude::*;

verus! {

#[verifier::external_type_specification]
#[verifier::external_body]
pub struct ExValue(serde_json::Value);

/// The theme's icon table: the map holding, under each icon identifier,
/// the glyph `theme["icons"][identifier]`, exactly for the identifiers
/// where that entry is a string.
pub uninterp spec fn icon_table(theme: serde_json::Value) -> Map<Seq<char>, Seq<char>>;

/// The theme's own string entries: the map holding, under each key, the
/// text `theme[key]`, exactly for the keys where that entry is a string.
pub uninterp spec fn color_table(theme: serde_json::Value) -> Map<Seq<char>, Seq<char>>;

/// The color the theme holds under `key`, or `None` when it has no string
/// entry there.
pub open spec fn color_of(theme: serde_json::Value, key: Seq<char>) -> Option<Seq<char>> {
    if color_table(theme).contains_key(key) {
        Some(color_table(theme)[key])
    } else {
        None
    }
}

/// Relies on serde_json's `Index` impl for `Value` (indexing a non-object
/// or a missing key yields `Value::Null`, never a panic) and on
/// `Value::as_str` (the text exactly when the value is a string): the
/// entry of the icon table under `name`, and `None` exactly when the table
/// has none. The lookup depends on the theme value and the name alone.
#[verifier::external_body]
pub(crate) fn theme_icon(theme: &serde_json::Value, name: &str) -> (r: Option<String>)
    ensures
        match r {
            Some(g) => icon_table(*theme).contains_key(name@) && g@ == icon_table(*theme)[name@],
            None => !icon_table(*theme).contains_key(name@),
        },
{
    match theme["icons"][name].as_str() {
        Some(s) => Some(s.to_string()),
        None => None,
    }
}

/// Relies on serde_json's `Index` impl for `Value` and on `Value::as_str`,
/// as `theme_icon` does: the theme's string entry under `key`, and `None`
/// exactly when there is none. The lookup depends on the theme value and
/// the key alone.
#[verifier::external_body]
pub(crate) fn theme_color(theme: &serde_json::Value, key: &str) -> (r: Option<String>)
    ensures
        match r {
            Some(c) => color_table(*theme).contains_key(key@) && c@ == color_table(*theme)[key@],
            None => !color_table(*theme).contains_key(key@),
        },
{
    match theme[key].as_str() {
        Some(s) => Some(s.to_string()),
        None => None,
    }
}

} // verus!
