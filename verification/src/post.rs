use vstd::prelude::*;

use crate::action::ActionType;
use crate::rank::{is_top_k, select_top, sorted_by_rank};

verus! {

/// One channel post, reduced to what ranking and display need.
///
/// Each of the four counts is `None` when the metric is not observable for
/// this post (for example, reactions disabled on the channel), which is
/// distinct from `Some(0)`, an observed count of zero. Ranking never mutates
/// a post; it only reorders and copies records.
pub struct Post {
    pub date: i64,
    pub id: i32,
    pub views: Option<i32>,
    pub forwards: Option<i32>,
    pub replies: Option<i32>,
    pub reactions: Option<i32>,
    pub message: Option<String>,
    pub image: Option<i64>,
}

impl Post {
    /// The count this post has for the given metric.
    pub open spec fn count_spec(&self, index: ActionType) -> Option<i32> {
        match index {
            ActionType::Replies => self.replies,
            ActionType::Reactions => self.reactions,
            ActionType::Forwards => self.forwards,
            ActionType::Views => self.views,
        }
    }

    /// The count this post has for the given metric.
    #[verifier::when_used_as_spec(count_spec)]
    pub fn count(&self, index: ActionType) -> (r: Option<i32>)
        ensures
            r == self.count_spec(index),
    {
        match index {
            ActionType::Replies => self.replies,
            ActionType::Reactions => self.reactions,
            ActionType::Forwards => self.forwards,
            ActionType::Views => self.views,
        }
    }
}

impl Clone for Post {
    fn clone(&self) -> (r: Self)
        ensures
            r == *self,
    {
        Post {
            date: self.date,
            id: self.id,
            views: self.views,
            forwards: self.forwards,
            replies: self.replies,
            reactions: self.reactions,
            message: match &self.message {
                Some(m) => Some(m.clone()),
                None => None,
            },
            image: self.image,
        }
    }
}

/// What the ingestion loop does with one fetched message while it walks a
/// channel's history newest first.
#[derive(Copy, Clone, PartialEq, Eq, Structural, Debug)]
pub enum FetchStep {
    /// The message falls inside the window: keep it.
    Take,
    /// The message is at or past the window's end: pass over it and go on.
    Skip,
    /// The message is older than the window: the walk is done.
    Stop,
}

/// Decide what to do with a message of the given date while collecting the
/// half-open window `[from_date, to_date)` from a newest-first walk: a
/// message dated exactly `to_date` already belongs to the next window and is
/// passed over.
pub fn fetch_step(date: i64, from_date: i64, to_date: i64) -> (r: FetchStep)
    ensures
        r is Skip <==> date >= to_date,
        r is Stop <==> (date < to_date && date < from_date),
        r is Take <==> (from_date <= date < to_date),
{
    if date >= to_date {
        FetchStep::Skip
    } else if date < from_date {
        FetchStep::Stop
    } else {
        FetchStep::Take
    }
}

/// The outcome of ranking one batch of posts: for each of the four metrics,
/// the `effective_k` best posts of the batch, best first.
///
/// `effective_k` is the requested size clamped to the batch size; all four
/// rankings run over the same full batch, so it is uniform across metrics.
pub struct TopPost {
    pub requested_k: usize,
    pub effective_k: usize,
    pub replies: Vec<Post>,
    pub reactions: Vec<Post>,
    pub forwards: Vec<Post>,
    pub views: Vec<Post>,
}

impl TopPost {
    /// The ranking this digest holds for the given metric.
    pub open spec fn ranking_spec(&self, index: ActionType) -> Seq<Post> {
        match index {
            ActionType::Replies => self.replies@,
            ActionType::Reactions => self.reactions@,
            ActionType::Forwards => self.forwards@,
            ActionType::Views => self.views@,
        }
    }

    /// Shape every constructed digest has: four rankings of `effective_k`
    /// posts each, every one laid out from best to worst for its metric, and
    /// `effective_k` never above the requested size.
    pub open spec fn wf(&self) -> bool {
        &&& self.effective_k <= self.requested_k
        &&& self.replies@.len() == self.effective_k
        &&& self.reactions@.len() == self.effective_k
        &&& self.forwards@.len() == self.effective_k
        &&& self.views@.len() == self.effective_k
        &&& sorted_by_rank(ActionType::Replies, self.replies@)
        &&& sorted_by_rank(ActionType::Reactions, self.reactions@)
        &&& sorted_by_rank(ActionType::Forwards, self.forwards@)
        &&& sorted_by_rank(ActionType::Views, self.views@)
    }

    /// The `top_count` best posts of the batch for one metric, best first,
    /// clamped to the batch size. The batch itself is only reordered.
    pub fn get_top_by(top_count: usize, posts: &mut Vec<Post>, action: ActionType) -> (r: Vec<
        Post,
    >)
        ensures
            final(posts)@.len() == old(posts)@.len(),
            final(posts)@.to_multiset() == old(posts)@.to_multiset(),
            is_top_k(action, old(posts)@.to_multiset(), r@, top_count as int),
            r@.len() == vstd::math::min(top_count as int, old(posts)@.len() as int),
    {
        select_top(posts, top_count, action)
    }

    /// Rank the batch by all four metrics at once.
    ///
    /// The effective size is `top_count` clamped to the batch size; a batch
    /// smaller than the request is not an error. The batch is reordered but
    /// keeps its contents, and each returned ranking is a top-`top_count`
    /// ranking of the original batch for its metric.
    pub fn get_top(top_count: usize, posts: &mut Vec<Post>) -> (r: TopPost)
        ensures
            r.wf(),
            r.requested_k == top_count,
            r.effective_k == vstd::math::min(top_count as int, old(posts)@.len() as int),
            final(posts)@.len() == old(posts)@.len(),
            final(posts)@.to_multiset() == old(posts)@.to_multiset(),
            is_top_k(ActionType::Replies, old(posts)@.to_multiset(), r.replies@, top_count as int),
            is_top_k(
                ActionType::Reactions,
                old(posts)@.to_multiset(),
                r.reactions@,
                top_count as int,
            ),
            is_top_k(
                ActionType::Forwards,
                old(posts)@.to_multiset(),
                r.forwards@,
                top_count as int,
            ),
            is_top_k(ActionType::Views, old(posts)@.to_multiset(), r.views@, top_count as int),
    {
        let effective_k = if posts.len() < top_count {
            posts.len()
        } else {
            top_count
        };
        let replies = Self::get_top_by(top_count, posts, ActionType::Replies);
        let reactions = Self::get_top_by(top_count, posts, ActionType::Reactions);
        let forwards = Self::get_top_by(top_count, posts, ActionType::Forwards);
        let views = Self::get_top_by(top_count, posts, ActionType::Views);
        TopPost { requested_k: top_count, effective_k, replies, reactions, forwards, views }
    }

    /// The ranking held for the given metric.
    pub fn index(&self, index: ActionType) -> (r: &Vec<Post>)
        ensures
            r@ == self.ranking_spec(index),
    {
        match index {
            ActionType::Replies => &self.replies,
            ActionType::Reactions => &self.reactions,
            ActionType::Forwards => &self.forwards,
            ActionType::Views => &self.views,
        }
    }
}

} // verus!
