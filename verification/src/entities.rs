//! The watchlist entry: a title to watch and an optional price ceiling.

use vstd::prelude::*;

verus! {

/// One user-configured watchlist entry.
///
/// `acceptable_price` is a ceiling in minor currency units (cents).  When it
/// is present, a catalog record for this title is acceptable iff its
/// effective price is at or below the ceiling; when it is absent, a record is
/// acceptable iff the catalog marks it as discounted.
#[derive(Debug)]
pub struct WatchedGame {
    pub title: String,
    pub acceptable_price: Option<u64>,
}

impl WatchedGame {
    pub fn new(title: &str) -> (r: Self)
        ensures
            r.title@ == title@,
            r.acceptable_price is None,
    {
        Self { title: title.to_owned(), acceptable_price: None }
    }

    pub fn with_acceptable_price(self, price: u64) -> (r: Self)
        ensures
            r.title@ == self.title@,
            r.acceptable_price == Some(price),
    {
        Self { title: self.title, acceptable_price: Some(price) }
    }

    pub fn title(&self) -> (r: String)
        ensures
            r@ == self.title@,
    {
        self.title.clone()
    }

    pub fn acceptable_price(&self) -> (r: Option<u64>)
        ensures
            r == self.acceptable_price,
    {
        self.acceptable_price
    }
}

impl Clone for WatchedGame {
    fn clone(&self) -> (r: Self)
        ensures
            r == *self,
    {
        Self { title: self.title.clone(), acceptable_price: self.acceptable_price }
    }
}

} // verus!
