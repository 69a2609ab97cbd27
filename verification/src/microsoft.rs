//! The Microsoft Store, in its build: the Supporter Pack sold as a durable
//! add-on, the way every app's page sells.
//!
//! The Store says who owns what only to a server that can name the
//! customer, by a Microsoft Store ID key, and a key is made on the player's
//! machine from a ticket the site's server made. So once the player owns an
//! add-on the app asks the page for `oeeeApp.store.ticket()` -- a token for
//! the Store's collections service and the site's own id for the player --
//! hands those to the Store for a key, and hands the key to the page. Tauri's
//! `eval` cannot bring a value back out of the page, so the app asks by a
//! script that awaits the page's answer and emits it as the app's own
//! `oeee-store-ticket` event, carrying the number the app asked with.
//!
//! The page is handed proof only once the player owns the add-on -- bought
//! just now, or already -- and only a key the Store gave with something in
//! it. Prices are answered as the Store formats them, and a product it does
//! not know is left out.

use vstd::prelude::*;

use crate::json::json_string;
use crate::json::json_list;
use crate::store::{purchased_script, quoted, CALL_END, PURCHASED_CALL};
use crate::text::push_char;

verus! {

/// The event `ticket_script` answers in.
pub const TICKET_EVENT: &'static str = "oeee-store-ticket";

/// How long, in seconds, the page gets to give a ticket. It asks the site
/// for one, so it answers as quickly as a page loads; longer than this, and
/// the site is not answering.
pub const TICKET_TIMEOUT_SECONDS: u64 = 30;

/// The product kind the Supporter Pack is in Partner Center: a durable
/// add-on, bought once and kept.
pub const DURABLE: &'static str = "Durable";

/// What `oeeeApp.store.ticket()` resolves to: a token the site made for the
/// Store's collections service, and the site's own name for the player,
/// which the Store writes into the key so the site can tell it was made for
/// them.
#[derive(Debug, PartialEq, Eq)]
pub struct Ticket {
    pub ticket: String,
    pub user: String,
}

/// A ticket, if the page gave one that is whole: an answer with no token or
/// no player is no ticket.
pub fn whole_ticket(ticket: String, user: String) -> (whole: Option<Ticket>)
    ensures
        match whole {
            Some(t) => t.ticket == ticket && t.user == user,
            None => ticket@.len() == 0 || user@.len() == 0,
        },
        whole is Some <==> ticket@.len() > 0 && user@.len() > 0,
{
    if ticket.as_str().is_empty() || user.as_str().is_empty() {
        None
    } else {
        Some(Ticket { ticket, user })
    }
}

/// The decimal digits of `n`.
pub open spec fn decimal_text(n: nat) -> Seq<char>
    decreases n,
{
    if n < 10 {
        seq![((48 + n) as u8) as char]
    } else {
        decimal_text(n / 10) + seq![((48 + n % 10) as u8) as char]
    }
}

/// `n` in decimal, as `{}` writes it.
pub fn decimal(n: u64) -> (text: String)
    ensures
        text@ == decimal_text(n as nat),
    decreases n,
{
    let mut text = if n < 10 {
        String::new()
    } else {
        decimal(n / 10)
    };
    push_char(&mut text, (48 + (n % 10) as u8) as char);
    proof {
        if n < 10 {
            assert(text@ =~= decimal_text(n as nat));
        }
    }
    text
}

/// The ticket script before the event's name.
pub const TICKET_START: &'static str =
    "(function () {\n  var reply = function (answer) {\n    if (!window.__TAURI_INTERNALS__) return;\n    window.__TAURI_INTERNALS__\n      .invoke(\"plugin:event|emit\", { event: ";

/// The ticket script between the event's name and the request's number.
pub const TICKET_MIDDLE: &'static str = ", payload: { id: ";

/// The ticket script after the request's number.
pub const TICKET_END: &'static str =
    ", answer: answer || null } })\n      .catch(function () {});\n  };\n  var store = window.oeeeApp && window.oeeeApp.store;\n  if (!store || typeof store.ticket !== \"function\") return reply(null);\n  Promise.resolve()\n    .then(function () { return store.ticket(); })\n    .then(reply, function () { reply(null); });\n})();";

/// Asks the page for a ticket and emits whatever it answers, as
/// `{id, answer}`, in `TICKET_EVENT`: the ticket, or null when the page has
/// no `ticket()` -- an older page, or the loader -- or it failed. The call
/// goes by `__TAURI_INTERNALS__` because that is the only way out of the
/// page.
pub fn ticket_script(id: u64) -> (script: String)
    ensures
        script@ == TICKET_START@ + json_string(TICKET_EVENT@) + TICKET_MIDDLE@ + decimal_text(
            id as nat,
        ) + TICKET_END@,
{
    let mut script = String::new();
    script.append(TICKET_START);
    script.append(quoted(TICKET_EVENT).as_str());
    script.append(TICKET_MIDDLE);
    script.append(decimal(id).as_str());
    script.append(TICKET_END);
    script
}

/// How the Store's purchase dialog ended, as it says: the add-on bought, or
/// owned already, or not bought; or the Store failed, with its number for
/// why.
#[derive(Clone, Copy, Debug, PartialEq, Eq, Structural)]
pub enum PurchaseStatus {
    Succeeded,
    AlreadyPurchased,
    NotPurchased,
    Failed(i32),
}

/// What comes after the Store's purchase dialog: proof for the page, once
/// the player owns the add-on -- just now, or already; nothing, for a player
/// who closed the dialog and bought nothing; or the Store's failure, for
/// the log, leaving the site's own recheck to find what was bought.
#[derive(Clone, Copy, Debug, PartialEq, Eq, Structural)]
pub enum AfterPurchase {
    Prove,
    Nothing,
    Failed(i32),
}

pub fn after_purchase(status: PurchaseStatus) -> (next: AfterPurchase)
    ensures
        next == match status {
            PurchaseStatus::Succeeded | PurchaseStatus::AlreadyPurchased => AfterPurchase::Prove,
            PurchaseStatus::NotPurchased => AfterPurchase::Nothing,
            PurchaseStatus::Failed(code) => AfterPurchase::Failed(code),
        },
{
    match status {
        PurchaseStatus::Succeeded | PurchaseStatus::AlreadyPurchased => AfterPurchase::Prove,
        PurchaseStatus::NotPurchased => AfterPurchase::Nothing,
        PurchaseStatus::Failed(code) => AfterPurchase::Failed(code),
    }
}

/// The script that hands the page the Store's key as proof of a purchase,
/// or none for an empty key, which proves nothing.
pub fn proof_script(key: &str) -> (script: Option<String>)
    ensures
        match script {
            Some(s) => key@.len() > 0 && s@ == PURCHASED_CALL@ + json_list(seq![key@]) + CALL_END@,
            None => key@.len() == 0,
        },
{
    if key.is_empty() {
        return None;
    }
    let keys: Vec<&str> = vec![key];
    let script = purchased_script(keys.as_slice());
    proof {
        assert(keys@.map_values(|p: &str| p@) =~= seq![key@]);
    }
    Some(script)
}

/// The products the Store priced, with their prices, in the order asked:
/// `prices[i]` is what the Store formatted for `products[i]`, if it knows
/// the product; one it does not know, or priced with nothing, is left out,
/// and the page shows its button without a price.
pub open spec fn priced_pairs(products: Seq<String>, prices: Seq<Option<String>>) -> Seq<(String, String)>
    decreases products.len(),
{
    if products.len() == 0 || prices.len() == 0 {
        Seq::empty()
    } else {
        let rest = priced_pairs(products.drop_last(), prices.drop_last());
        match prices.last() {
            Some(price) => if price@.len() > 0 {
                rest.push((products.last(), price))
            } else {
                rest
            },
            None => rest,
        }
    }
}

/// The prices to hand the page, from the Store's answer for each product
/// asked about, in the same order.
pub fn priced(products: Vec<String>, prices: Vec<Option<String>>) -> (found: Vec<(String, String)>)
    requires
        products@.len() == prices@.len(),
    ensures
        found@ == priced_pairs(products@, prices@),
{
    let mut found: Vec<(String, String)> = Vec::new();
    let mut products = products;
    let mut prices = prices;
    let ghost all_products = products@;
    let ghost all_prices = prices@;
    let mut rest_products: Vec<String> = Vec::new();
    let mut rest_prices: Vec<Option<String>> = Vec::new();
    // Taken from the end, and put back in order.
    while products.len() > 0
        invariant
            products@.len() == prices@.len(),
            rest_products@.len() == rest_prices@.len(),
            all_products == products@ + rest_products@.reverse(),
            all_prices == prices@ + rest_prices@.reverse(),
        decreases products@.len(),
    {
        let product = products.pop().unwrap();
        let price = prices.pop().unwrap();
        rest_products.push(product);
        rest_prices.push(price);
        proof {
            assert(all_products =~= products@ + rest_products@.reverse());
            assert(all_prices =~= prices@ + rest_prices@.reverse());
        }
    }
    let ghost n = all_products.len();
    while rest_products.len() > 0
        invariant
            rest_products@.len() == rest_prices@.len(),
            rest_products@.len() <= n,
            all_products.len() == n,
            all_prices.len() == n,
            all_products.subrange((n - rest_products@.len()) as int, n as int) == rest_products@.reverse(),
            all_prices.subrange((n - rest_prices@.len()) as int, n as int) == rest_prices@.reverse(),
            found@ == priced_pairs(
                all_products.subrange(0, (n - rest_products@.len()) as int),
                all_prices.subrange(0, (n - rest_prices@.len()) as int),
            ),
        decreases rest_products@.len(),
    {
        let ghost done = (n - rest_products@.len()) as int;
        let product = rest_products.pop().unwrap();
        let price = rest_prices.pop().unwrap();
        proof {
            assert(all_products[done] == product) by {
                assert(all_products.subrange(done, n as int)[0] == all_products[done]);
            }
            assert(all_prices[done] == price) by {
                assert(all_prices.subrange(done, n as int)[0] == all_prices[done]);
            }
            assert(all_products.subrange(done + 1, n as int) =~= rest_products@.reverse()) by {
                assert forall|k: int| 0 <= k < n - done - 1 implies all_products.subrange(done + 1, n as int)[k]
                    == rest_products@.reverse()[k] by {
                    assert(all_products.subrange(done, n as int)[k + 1] == all_products[done + 1 + k]);
                }
            }
            assert(all_prices.subrange(done + 1, n as int) =~= rest_prices@.reverse()) by {
                assert forall|k: int| 0 <= k < n - done - 1 implies all_prices.subrange(done + 1, n as int)[k]
                    == rest_prices@.reverse()[k] by {
                    assert(all_prices.subrange(done, n as int)[k + 1] == all_prices[done + 1 + k]);
                }
            }
            let next_products = all_products.subrange(0, done + 1);
            let next_prices = all_prices.subrange(0, done + 1);
            assert(next_products.drop_last() =~= all_products.subrange(0, done));
            assert(next_prices.drop_last() =~= all_prices.subrange(0, done));
        }
        match price {
            Some(p) => {
                if !p.as_str().is_empty() {
                    found.push((product, p));
                }
            },
            None => {},
        }
    }
    proof {
        assert(all_products.subrange(0, n as int) =~= all_products);
        assert(all_prices.subrange(0, n as int) =~= all_prices);
    }
    found
}

} // verus!
