//! System settings: boolean coercion rules, key lookup fallback and bulk
//! update items.
use vstd::prelude::*;
use vstd::string::*;

use crate::text::{chars_of, eq_chars, lower_chars, lower_of, str_is, trim, trim_chars, is_ws, trim_start, trim_end};

verus! {

/// One update of a bulk settings update.
#[derive(Debug, Clone)]
pub struct BulkUpdateItem {
    /// The setting key to update.
    pub key: String,
    /// The new value (`None` sets NULL).
    pub value: Option<String>,
    /// Optional type override (`None` keeps the existing type).
    pub type_hint: Option<String>,
}

/// A value that reads as true.
pub open spec fn truthy(s: Seq<char>) -> bool {
    s == "true"@ || s == "1"@ || s == "yes"@ || s == "on"@
}

/// Whether a value reads as true once trimmed and lowercased.
pub open spec fn canonical_bool(value: Seq<char>) -> bool {
    truthy(lower_of(trim(value)))
}

/// The stored form of a value of the given type (see `coerce_setting_value`).
pub open spec fn coerced_value(value: Seq<char>, type_hint: Seq<char>) -> Seq<char> {
    if type_hint == "boolean"@ {
        if canonical_bool(value) { "true"@ } else { "false"@ }
    } else {
        value
    }
}

/// The boolean read from a stored value (see `parse_bool_setting`).
pub open spec fn parsed_bool(value: Option<Seq<char>>, type_hint: Seq<char>) -> Option<bool> {
    if type_hint != "boolean"@ {
        None
    } else {
        match value {
            Some(v) => Some(canonical_bool(v)),
            None => None,
        }
    }
}

fn canonical_bool_exec(value: &str) -> (r: bool)
    ensures
        r == canonical_bool(value@),
{
    let v = chars_of(value);
    let t = trim_chars(v.as_slice());
    let l = lower_chars(t.as_slice());
    eq_chars(l.as_slice(), chars_of("true").as_slice()) || eq_chars(l.as_slice(), chars_of("1").as_slice())
        || eq_chars(l.as_slice(), chars_of("yes").as_slice()) || eq_chars(l.as_slice(), chars_of("on").as_slice())
}

/// Coerce a raw value by the setting's type: for `"boolean"`, "true", "1",
/// "yes" and "on" (after trimming, any case) become `"true"` and everything
/// else `"false"`; other types pass the value through unchanged.
pub fn coerce_setting_value(value: &str, type_hint: &str) -> (r: String)
    ensures
        r@ == coerced_value(value@, type_hint@),
{
    if str_is(type_hint, "boolean") {
        if canonical_bool_exec(value) {
            String::from_str("true")
        } else {
            String::from_str("false")
        }
    } else {
        String::from_str(value)
    }
}

/// Parse a boolean setting: `None` for a NULL value or a non-boolean type;
/// otherwise `Some(true)` for "true", "1", "yes", "on" (trimmed, any case)
/// and `Some(false)` for everything else.
pub fn parse_bool_setting(value: Option<&str>, type_hint: &str) -> (r: Option<bool>)
    ensures
        r == parsed_bool(
            match value {
                Some(v) => Some(v@),
                None => None,
            },
            type_hint@,
        ),
{
    if !str_is(type_hint, "boolean") {
        return None;
    }
    match value {
        Some(v) => Some(canonical_bool_exec(v)),
        None => None,
    }
}

/// The value a key lookup yields: the stored value (possibly NULL) when the
/// key exists, otherwise the caller's default.
pub fn setting_or_default(row: Option<Option<String>>, default: Option<&str>) -> (r: Option<String>)
    ensures
        match row {
            Some(v) => r == v,
            None => match default {
                Some(d) => r is Some && r->0@ == d@,
                None => r is None,
            },
        },
{
    match row {
        Some(v) => v,
        None => match default {
            Some(d) => Some(String::from_str(d)),
            None => None,
        },
    }
}

/// A value with no whitespace at either end trims to itself.
proof fn lemma_trim_unchanged(s: Seq<char>)
    requires
        s.len() > 0,
        !is_ws(s[0]),
        !is_ws(s.last()),
    ensures
        trim(s) == s,
{
    assert(trim_start(s) == s);
    assert(trim_end(s) == s);
}

/// A boolean stored by coercion reads back as the boolean it was coerced
/// from, and coercing it again leaves it unchanged.
pub proof fn lemma_coerced_boolean_round_trips(value: Seq<char>)
    ensures
        parsed_bool(Some(coerced_value(value, "boolean"@)), "boolean"@) == Some(canonical_bool(value)),
        coerced_value(coerced_value(value, "boolean"@), "boolean"@) == coerced_value(value, "boolean"@),
{
    reveal_strlit("true");
    reveal_strlit("false");
    reveal_strlit("1");
    reveal_strlit("yes");
    reveal_strlit("on");
    reveal_strlit("boolean");
    let t = "true"@;
    let f = "false"@;
    lemma_trim_unchanged(t);
    lemma_trim_unchanged(f);
    assert(lower_of(t) =~= t);
    assert(lower_of(f) =~= f);
    assert(!truthy(f)) by {
        assert(f.len() != "1"@.len() && f.len() != "on"@.len() && f.len() != "yes"@.len());
        assert(f[0] != t[0]);
    }
}

} // verus!
