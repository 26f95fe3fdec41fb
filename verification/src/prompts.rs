//! The directive texts the pipeline sends, as an immutable catalog built
//! once at startup and passed into every component that needs it.

use vstd::prelude::*;

verus! {

/// The stable key-to-text mapping of directive strings. One field per
/// required key; the texts themselves are configuration, not validated
/// here.
pub struct PromptCatalog {
    pub json_verify_system: String,
    pub json_verify_user: String,
    pub interpreter_system: String,
    pub interpreter_user: String,
    pub assistant_user: String,
}

/// The text under a key, or nothing for a key the catalog does not hold.
pub open spec fn spec_lookup(catalog: PromptCatalog, key: Seq<char>) -> Option<Seq<char>> {
    if key == "json_verify_system"@ {
        Some(catalog.json_verify_system@)
    } else if key == "json_verify_user"@ {
        Some(catalog.json_verify_user@)
    } else if key == "interpreter_system"@ {
        Some(catalog.interpreter_system@)
    } else if key == "interpreter_user"@ {
        Some(catalog.interpreter_user@)
    } else if key == "assistant_user"@ {
        Some(catalog.assistant_user@)
    } else {
        None
    }
}

/// The directive under a key, or nothing for an unknown key.
pub fn get_prompt<'a>(catalog: &'a PromptCatalog, key: &str) -> (r: Option<&'a String>)
    ensures
        (match r {
            Option::Some(text) => spec_lookup(*catalog, key@) == Some(text@),
            Option::None => spec_lookup(*catalog, key@) is None,
        }),
{
    if crate::text::str_eq(key, "json_verify_system") {
        Some(&catalog.json_verify_system)
    } else if crate::text::str_eq(key, "json_verify_user") {
        Some(&catalog.json_verify_user)
    } else if crate::text::str_eq(key, "interpreter_system") {
        Some(&catalog.interpreter_system)
    } else if crate::text::str_eq(key, "interpreter_user") {
        Some(&catalog.interpreter_user)
    } else if crate::text::str_eq(key, "assistant_user") {
        Some(&catalog.assistant_user)
    } else {
        None
    }
}

} // verus!
