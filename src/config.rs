use vstd::prelude::*;
use vstd::string::*;

verus! {

/// The store address used when none is configured.
pub open spec fn default_store_url() -> Seq<char> {
    "redis://127.0.0.1/"@
}

/// The admin secret used when none is configured. It is public knowledge:
/// a deployment must configure its own.
pub open spec fn default_admin_pin() -> Seq<char> {
    "0000"@
}

/// The store address: the primary setting, else the fallback setting, else
/// the local default.
pub fn resolve_store_url(primary: Option<String>, fallback: Option<String>) -> (r: String)
    ensures
        primary matches Some(p) ==> r@ == p@,
        (primary is None && fallback is Some) ==> r@ == fallback->Some_0@,
        primary is None && fallback is None ==> r@ == default_store_url(),
{
    match primary {
        Some(p) => p,
        None => match fallback {
            Some(f) => f,
            None => String::from_str("redis://127.0.0.1/"),
        },
    }
}

/// The admin secret: the configured one, else the default.
pub fn resolve_admin_pin(configured: Option<String>) -> (r: String)
    ensures
        configured matches Some(p) ==> r@ == p@,
        configured is None ==> r@ == default_admin_pin(),
{
    match configured {
        Some(p) => p,
        None => String::from_str("0000"),
    }
}

} // verus!
