//! The two calls every app makes around leaving a page, word for word as
//! the site's contract gives them.
//!
//! Both are guarded to the member, so a page without it -- the loader, or a
//! page of the site from before it -- answers as having nothing to lose, and
//! shows nothing.

use vstd::prelude::*;

verus! {

/// Whether leaving now would lose something, as the page's own
/// `beforeunload` handlers answer it; evaluated for its answer before the
/// window is closed.
pub const WOULD_LOSE_WORK: &'static str =
    "window.oeeeApp && window.oeeeApp.wouldLoseWork ? window.oeeeApp.wouldLoseWork() : false";

/// The player said Leave in the app's own dialog, and the next page is on
/// its way: the page puts its loading bar up.
pub const LEAVING: &'static str =
    "window.oeeeApp && window.oeeeApp.leaving ? window.oeeeApp.leaving() : null";

} // verus!
