//! Fallback assets for the documentation pages. None is compiled in: the
//! pages are served from files, and a caller that finds no file reports the
//! asset as missing.

use vstd::prelude::*;

verus! {

/// The compiled-in stylesheet of the documentation page, if there is one.
pub fn swagger_css() -> (r: Option<&'static [u8]>)
    ensures
        r is None,
{
    None
}

/// The compiled-in script bundle of the documentation page, if there is one.
pub fn swagger_js() -> (r: Option<&'static [u8]>)
    ensures
        r is None,
{
    None
}

} // verus!
