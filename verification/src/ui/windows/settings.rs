use vstd::prelude::*;

use crate::text::string_of;

verus! {

/// The settings page that the preferences action opens: the one it names, else the
/// application page.
pub fn requested_page(parameter: Option<String>) -> (r: String)
    ensures
        match parameter {
            Some(p) => r == p,
            None => r@ == "application"@,
        },
{
    match parameter {
        Some(p) => p,
        None => string_of("application"),
    }
}

/// Whether a sidebar entry with the given page name is the one that shows `page`; the
/// settings window activates the first entry for which it holds.
pub fn is_page(name: &String, page: &str) -> (r: bool)
    ensures
        r == (name@ == page@),
{
    let wanted = string_of(page);
    *name == wanted
}

} // verus!
