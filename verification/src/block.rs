use vstd::prelude::*;

use crate::card::Card;
use crate::util::{icon_url, icon_url_spec};

verus! {

/// One digest section: a header, an icon, an optional CSS filter tag, and
/// the metric's cards — `None` while no card survives for the metric.
pub struct Block {
    pub header: String,
    pub icon: String,
    pub filter: String,
    pub cards: Option<Vec<Card>>,
}

impl Default for Block {
    /// The placeholder block: warning decor, no filter tag, no cards.
    fn default() -> (r: Block)
        ensures
            r.header@ == "UNDEFINED"@,
            r.icon@ == icon_url_spec("\u{26a0}\u{fe0f}"@),
            r.filter@ == ""@,
            r.cards is None,
    {
        Block {
            header: "UNDEFINED".to_owned(),
            icon: icon_url("\u{26a0}\u{fe0f}"),
            filter: "".to_owned(),
            cards: None,
        }
    }
}

} // verus!
