//! The forum profile whose post count drives growth.
use vstd::prelude::*;

verus! {

/// The address of the profile page and the CSS selector of its post count.
#[derive(Clone, Debug)]
pub struct Profile {
    pub url: String,
    pub post_count_query: String,
}

} // verus!
