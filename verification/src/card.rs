use vstd::prelude::*;

use crate::action::ActionType;
use crate::post::Post;
use crate::util::{icon_url, icon_url_spec};

verus! {

/// One rendered post entry: its id, its count for the metric it stands for,
/// and the presentation decor of its block or card slot.
pub struct Card {
    pub id: i32,
    pub count: Option<i32>,
    pub header: String,
    pub icon: String,
    pub filter: String,
}

/// The placeholder decor a freshly built card carries before a block or a
/// cards-context overrides it.
pub open spec fn default_decor(c: Card) -> bool {
    &&& c.header@ == "UNDEFINED"@
    &&& c.icon@ == icon_url_spec("\u{26a0}\u{fe0f}"@)
    &&& c.filter@ == ""@
}

/// The subsequence of `s` whose posts carry a count for the metric, in
/// their original order.
pub open spec fn kept(s: Seq<Post>, act: ActionType) -> Seq<Post>
    decreases s.len(),
{
    if s.len() == 0 {
        Seq::empty()
    } else {
        let rest = kept(s.drop_last(), act);
        if s.last().count_spec(act) is Some {
            rest.push(s.last())
        } else {
            rest
        }
    }
}

/// Every post `kept` retains carries a count for the metric.
pub proof fn lemma_kept_all_some(s: Seq<Post>, act: ActionType)
    ensures
        forall|i: int| 0 <= i < kept(s, act).len() ==> kept(s, act)[i].count_spec(act) is Some,
        kept(s, act).len() <= s.len(),
    decreases s.len(),
{
    if s.len() > 0 {
        lemma_kept_all_some(s.drop_last(), act);
    }
}

/// One card matches one post for a metric: same id, that metric's count,
/// and untouched placeholder decor.
pub open spec fn card_entry_matches(c: Card, p: Post, act: ActionType) -> bool {
    &&& c.id == p.id
    &&& c.count == p.count_spec(act)
    &&& default_decor(c)
}

/// A card sequence renders a post sequence one to one for a metric.
pub open spec fn cards_match(cs: Seq<Card>, ps: Seq<Post>, act: ActionType) -> bool {
    &&& cs.len() == ps.len()
    &&& forall|i: int| 0 <= i < ps.len() ==> card_entry_matches(cs[i], ps[i], act)
}

impl Default for Card {
    /// The sentinel card: no post selected, no count, placeholder decor.
    fn default() -> (r: Card)
        ensures
            r.id == -1,
            r.count is None,
            default_decor(r),
    {
        Card {
            id: -1,
            count: None,
            header: "UNDEFINED".to_owned(),
            icon: icon_url("\u{26a0}\u{fe0f}"),
            filter: "".to_owned(),
        }
    }
}

impl Card {
    /// A card for one post and one metric, or the sentinel card when no
    /// post is given. The decor stays the placeholder either way.
    pub fn create_card(post: Option<&Post>, action: ActionType) -> (r: Card)
        ensures
            default_decor(r),
            post matches Some(p) ==> r.id == p.id && r.count == p.count_spec(action),
            post is None ==> r.id == -1 && r.count is None,
    {
        match post {
            None => Card::default(),
            Some(post) => Card { id: post.id, count: post.count(action), ..Card::default() },
        }
    }

    /// Cards for every post of the slice that carries a count for the
    /// metric, in order; `None` when no post does, so that an empty card
    /// list never renders.
    pub fn create_cards(posts: &[Post], action: ActionType) -> (r: Option<Vec<Card>>)
        ensures
            r is Some <==> kept(posts@, action).len() > 0,
            r matches Some(cs) ==> cards_match(cs@, kept(posts@, action), action),
            r matches Some(cs) ==> cs@.len() > 0 && forall|i: int|
                0 <= i < cs@.len() ==> cs@[i].count is Some,
    {
        let n = posts.len();
        let mut cards: Vec<Card> = Vec::new();
        let mut i: usize = 0;
        while i < n
            invariant
                i <= n,
                n == posts@.len(),
                cards_match(cards@, kept(posts@.subrange(0, i as int), action), action),
            decreases n - i,
        {
            let card = Card::create_card(Some(&posts[i]), action);
            let keep = card.count.is_some();
            if keep {
                cards.push(card);
            }
            proof {
                let pre = posts@.subrange(0, i as int);
                let cur = posts@.subrange(0, i + 1 as int);
                assert(cur.drop_last() =~= pre);
                assert(cur.last() == posts@[i as int]);
            }
            i = i + 1;
        }
        proof {
            assert(posts@.subrange(0, n as int) =~= posts@);
            lemma_kept_all_some(posts@, action);
        }
        if cards.is_empty() {
            None
        } else {
            Some(cards)
        }
    }
}

} // verus!
