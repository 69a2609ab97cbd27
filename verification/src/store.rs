//! What the app says to the page about the store it sells through, the same
//! whichever store that is: what the products cost, proof of what was
//! bought, and how a press ended without proof.

use std::collections::BTreeMap;

use vstd::prelude::*;

use crate::json::{json_list, json_object, json_string, json_string_or_null};

verus! {

/// `serde_json::to_string` of a string: the string as JSON, quoted and
/// escaped, so it cannot close its own quotes to run as script.
#[verifier::external_body]
pub fn quoted(value: &str) -> (q: String)
    ensures
        q@ == json_string(value@),
{
    serde_json::to_string(value).unwrap_or_default()
}

/// `serde_json::to_string` of a list of strings: a JSON array of them.
#[verifier::external_body]
pub(crate) fn quoted_list(values: &[&str]) -> (q: String)
    ensures
        q@ == json_list(values@.map_values(|v: &str| v@)),
{
    serde_json::to_string(values).unwrap_or_default()
}

/// `serde_json::to_string` of a map of strings: a JSON object, its members
/// in the map's order of keys.
#[verifier::external_body]
pub(crate) fn quoted_map(values: &BTreeMap<String, String>) -> (q: String)
    ensures
        q@ == json_object(values.deep_view()),
{
    serde_json::to_string(values).unwrap_or_default()
}

/// `serde_json::to_string` of an optional string: the string as JSON, or
/// `null`.
#[verifier::external_body]
pub(crate) fn quoted_or_null(value: Option<&str>) -> (q: String)
    ensures
        q@ == json_string_or_null(
            match value {
                Some(v) => Some(v@),
                None => None,
            },
        ),
{
    serde_json::to_string(&value).unwrap_or_default()
}

/// The call that answers the page's `prices`, before its argument.
pub const PRICES_CALL: &'static str =
    "window.oeeeApp && window.oeeeApp.store && window.oeeeApp.store.prices && window.oeeeApp.store.prices(";

/// The call that hands the page proof of a purchase, before its argument.
pub const PURCHASED_CALL: &'static str =
    "window.oeeeApp && window.oeeeApp.store && window.oeeeApp.store.purchased(";

/// The call that tells the page how a press ended, before its argument.
pub const ENDED_CALL: &'static str =
    "window.oeeeApp && window.oeeeApp.store && window.oeeeApp.store.ended && window.oeeeApp.store.ended(";

/// The end of every call: its closing bracket and the statement's end.
pub const CALL_END: &'static str = ");";

/// `call`, its argument `argument`, and the call's end.
pub fn call_with(call: &str, argument: &str) -> (script: String)
    ensures
        script@ == call@ + argument@ + CALL_END@,
{
    let mut script = String::new();
    script.append(call);
    script.append(argument);
    script.append(CALL_END);
    script
}

/// Answers the page's `prices` with what each product costs, formatted by
/// the store in the player's currency. A product the store gave no price
/// for is left out, and the page shows its button without one. Guarded, as
/// every call into the page is: a page that has gone since it asked has no
/// `oeeeApp.store` to answer.
pub fn prices_script(prices: &BTreeMap<String, String>) -> (script: String)
    ensures
        script@ == PRICES_CALL@ + json_object(prices.deep_view()) + CALL_END@,
{
    let argument = quoted_map(prices);
    call_with(PRICES_CALL, argument.as_str())
}

/// Hands the page proof of what was bought: a Steam ticket, or a Microsoft
/// Store ID key. The page posts each to the site, which asks the store
/// itself.
pub fn purchased_script(proofs: &[&str]) -> (script: String)
    ensures
        script@ == PURCHASED_CALL@ + json_list(proofs@.map_values(|p: &str| p@)) + CALL_END@,
{
    let argument = quoted_list(proofs);
    call_with(PURCHASED_CALL, argument.as_str())
}

/// How a press ended that hands the page no proof, for the page to say
/// under its buttons: the player closed the store's dialog, or the store
/// could not sell.
#[derive(Clone, Copy, Debug, PartialEq, Eq)]
pub enum Ending {
    Cancelled,
    Failed,
}

impl Ending {
    /// The contract's word for the ending.
    pub open spec fn word(self) -> Seq<char> {
        match self {
            Ending::Cancelled => "cancelled"@,
            Ending::Failed => "failed"@,
        }
    }

    pub fn outcome(self) -> (word: &'static str)
        ensures
            word@ == self.word(),
    {
        match self {
            Ending::Cancelled => "cancelled",
            Ending::Failed => "failed",
        }
    }
}

/// Tells the page how the press ended, when it ended without proof.
pub fn ended_script(ending: Ending) -> (script: String)
    ensures
        script@ == ENDED_CALL@ + json_string(ending.word()) + CALL_END@,
{
    let argument = quoted(ending.outcome());
    call_with(ENDED_CALL, argument.as_str())
}

} // verus!
