use vstd::prelude::*;

use crate::action::ActionType;
use crate::card::Card;
use crate::digest::{metric_emoji, metric_filter};
use crate::post::{Post, TopPost};
use crate::task::{Commands, Task};
use crate::util::{dec_digits, icon_url, icon_url_spec, push_dec_digits};

verus! {

/// Why a cards request was rejected.
#[derive(Debug)]
pub enum ContextError {
    /// A provided rank index lies outside `[1, limit]`, where `limit` is the
    /// achieved ranking size. The index names a user-chosen rank, so it is
    /// rejected rather than clamped.
    IndexOutOfRange { limit: usize },
    /// Every metric ended up without a card; a cards context with no cards
    /// is not a valid outcome.
    NothingSelected,
}

impl ContextError {
    /// The user-facing description of this rejection.
    pub open spec fn message_spec(&self) -> Seq<char> {
        match self {
            ContextError::IndexOutOfRange { limit } =>
                "Index of replies/reactions/forwards/views out of range [1;"@ + dec_digits(
                *limit as int,
            ) + "]"@,
            ContextError::NothingSelected =>
                "Set at least one index of replies/reactions/forwards/views/editor_choice"@,
        }
    }

    /// The user-facing description of this rejection.
    pub fn message(&self) -> (r: String)
        ensures
            r@ == self.message_spec(),
    {
        match self {
            ContextError::IndexOutOfRange { limit } => {
                let mut s = "Index of replies/reactions/forwards/views out of range [1;"
                    .to_owned();
                push_dec_digits(&mut s, *limit as u64);
                s.append("]");
                proof {
                    assert(s@ =~= self.message_spec());
                }
                s
            },
            ContextError::NothingSelected => {
                "Set at least one index of replies/reactions/forwards/views/editor_choice"
                    .to_owned()
            },
        }
    }
}

/// The rank index a cards command provides for one metric.
pub open spec fn cards_index(cmd: Commands, m: ActionType) -> Option<usize> {
    match cmd {
        Commands::Cards { replies, reactions, forwards, views } => match m {
            ActionType::Replies => replies,
            ActionType::Reactions => reactions,
            ActionType::Forwards => forwards,
            ActionType::Views => views,
        },
        _ => None,
    }
}

/// A provided index lies in `[1, effective_k]`; an absent one is fine.
pub open spec fn index_ok(t: TopPost, cmd: Commands, m: ActionType) -> bool {
    match cards_index(cmd, m) {
        Some(v) => 1 <= v <= t.effective_k,
        None => true,
    }
}

/// All four provided indices are in range.
pub open spec fn all_indices_ok(t: TopPost, cmd: Commands) -> bool {
    &&& index_ok(t, cmd, ActionType::Replies)
    &&& index_ok(t, cmd, ActionType::Reactions)
    &&& index_ok(t, cmd, ActionType::Forwards)
    &&& index_ok(t, cmd, ActionType::Views)
}

/// The post a cards command selects for one metric: the index-th best, with
/// ranks counted from 1.
pub open spec fn selected(t: TopPost, cmd: Commands, m: ActionType) -> Option<Post> {
    match cards_index(cmd, m) {
        Some(v) => Some(t.ranking_spec(m)[v - 1]),
        None => None,
    }
}

/// Whether a card is emitted for the metric: an index was provided and the
/// selected post carries the metric's count.
pub open spec fn emitted(t: TopPost, cmd: Commands, m: ActionType) -> bool {
    selected(t, cmd, m) matches Some(p) && p.count_spec(m) is Some
}

/// The metrics that yield a card, in the fixed display order.
pub open spec fn emitted_metrics(t: TopPost, cmd: Commands) -> Seq<ActionType> {
    (if emitted(t, cmd, ActionType::Replies) {
        seq![ActionType::Replies]
    } else {
        Seq::<ActionType>::empty()
    }) + (if emitted(t, cmd, ActionType::Reactions) {
        seq![ActionType::Reactions]
    } else {
        Seq::<ActionType>::empty()
    }) + (if emitted(t, cmd, ActionType::Forwards) {
        seq![ActionType::Forwards]
    } else {
        Seq::<ActionType>::empty()
    }) + (if emitted(t, cmd, ActionType::Views) {
        seq![ActionType::Views]
    } else {
        Seq::<ActionType>::empty()
    })
}

/// The fixed "best of" header of one metric's card.
pub open spec fn best_header(m: ActionType) -> Seq<char> {
    match m {
        ActionType::Replies => "Лучший по комментариям"@,
        ActionType::Reactions => "Лучший по реакциям"@,
        ActionType::Forwards => "Лучший по репостам"@,
        ActionType::Views => "Лучший по просмотрам"@,
    }
}

/// One emitted card carries the selected post's id and count and the
/// metric's "best of" decor.
pub open spec fn best_card_matches(c: Card, m: ActionType, t: TopPost, cmd: Commands) -> bool {
    &&& selected(t, cmd, m) matches Some(p) && c.id == p.id && c.count == p.count_spec(m)
    &&& c.header@ == best_header(m)
    &&& c.icon@ == icon_url_spec(metric_emoji(m))
    &&& c.filter@ == metric_filter(m)
}

/// The cards rendering context: at most one card per metric in display
/// order, and the task's editor choice id and channel name.
pub struct CardsContext {
    pub cards: Vec<Card>,
    pub editor_choice_id: i32,
    pub channel_name: String,
}

fn bad_index(idx: Option<usize>, k: usize) -> (r: bool)
    ensures
        r == match idx {
            Some(v) => !(1 <= v <= k),
            None => false,
        },
{
    match idx {
        Some(v) => v < 1 || v > k,
        None => false,
    }
}

/// Assemble the cards context for a ranked batch.
///
/// Every provided index must name a rank in `[1, effective_k]`; one outside
/// is a hard input error, never clamped, and is reported before any card is
/// built. A metric without an index, or whose selected post lacks the
/// metric, yields no card; a request whose card list comes out empty is
/// rejected. Calling this with anything but a cards command is a caller
/// bug, excluded by contract.
pub fn create_context(post_top: TopPost, task: Task) -> (r: Result<CardsContext, ContextError>)
    requires
        task.command is Cards,
        post_top.wf(),
    ensures
        !all_indices_ok(post_top, task.command) <==> r == Result::<
            CardsContext,
            ContextError,
        >::Err(ContextError::IndexOutOfRange { limit: post_top.effective_k }),
        (all_indices_ok(post_top, task.command) && emitted_metrics(post_top, task.command).len()
            == 0) <==> r == Result::<CardsContext, ContextError>::Err(
            ContextError::NothingSelected,
        ),
        r is Ok <==> (all_indices_ok(post_top, task.command) && emitted_metrics(
            post_top,
            task.command,
        ).len() > 0),
        r matches Ok(ctx) ==> {
            &&& ctx.editor_choice_id == task.editor_choice_post_id
            &&& ctx.channel_name == task.channel_name
            &&& ctx.cards@.len() == emitted_metrics(post_top, task.command).len()
            &&& ctx.cards@.len() > 0
            &&& forall|j: int|
                0 <= j < ctx.cards@.len() ==> best_card_matches(
                    ctx.cards@[j],
                    emitted_metrics(post_top, task.command)[j],
                    post_top,
                    task.command,
                )
        },
{
    let (idx_replies, idx_reactions, idx_forwards, idx_views) = match task.command {
        Commands::Cards { replies, reactions, forwards, views } => (
            replies,
            reactions,
            forwards,
            views,
        ),
        _ => {
            proof {
                assert(false);
            }
            (None, None, None, None)
        },
    };
    let k = post_top.effective_k;
    if bad_index(idx_replies, k) || bad_index(idx_reactions, k) || bad_index(idx_forwards, k)
        || bad_index(idx_views, k) {
        return Err(ContextError::IndexOutOfRange { limit: k });
    }

    let mut cards: Vec<Card> = Vec::new();

    if let Some(v) = idx_replies {
        let p = &post_top.replies[v - 1];
        if let Some(c) = p.count(ActionType::Replies) {
            cards.push(Card {
                id: p.id,
                count: Some(c),
                header: "Лучший по комментариям".to_owned(),
                icon: icon_url("\u{1f4ac}"),
                filter: "".to_owned(),
            });
        }
    }

    if let Some(v) = idx_reactions {
        let p = &post_top.reactions[v - 1];
        if let Some(c) = p.count(ActionType::Reactions) {
            cards.push(Card {
                id: p.id,
                count: Some(c),
                header: "Лучший по реакциям".to_owned(),
                icon: icon_url("\u{1f44f}"),
                filter: "".to_owned(),
            });
        }
    }

    if let Some(v) = idx_forwards {
        let p = &post_top.forwards[v - 1];
        if let Some(c) = p.count(ActionType::Forwards) {
            cards.push(Card {
                id: p.id,
                count: Some(c),
                header: "Лучший по репостам".to_owned(),
                icon: icon_url("\u{1f501}"),
                filter: "filter-blue".to_owned(),
            });
        }
    }

    if let Some(v) = idx_views {
        let p = &post_top.views[v - 1];
        if let Some(c) = p.count(ActionType::Views) {
            cards.push(Card {
                id: p.id,
                count: Some(c),
                header: "Лучший по просмотрам".to_owned(),
                icon: icon_url("\u{1f441}\u{fe0f}"),
                filter: "filter-blue".to_owned(),
            });
        }
    }

    if cards.is_empty() {
        return Err(ContextError::NothingSelected);
    }
    Ok(CardsContext {
        cards,
        editor_choice_id: task.editor_choice_post_id,
        channel_name: task.channel_name,
    })
}

/// The single-post rendering context: every field of the post plus the
/// channel name, carried through unchanged.
pub struct PostContext {
    pub id: i32,
    pub date: i64,
    pub message: Option<String>,
    pub image: Option<i64>,
    pub replies: Option<i32>,
    pub reactions: Option<i32>,
    pub forwards: Option<i32>,
    pub views: Option<i32>,
    pub channel_name: String,
}

/// Assemble the context that renders a single post.
pub fn create_post_context(post: Post, task: Task) -> (r: PostContext)
    ensures
        r.id == post.id,
        r.date == post.date,
        r.message == post.message,
        r.image == post.image,
        r.replies == post.replies,
        r.reactions == post.reactions,
        r.forwards == post.forwards,
        r.views == post.views,
        r.channel_name == task.channel_name,
{
    PostContext {
        id: post.id,
        date: post.date,
        message: post.message,
        image: post.image,
        replies: post.replies,
        reactions: post.reactions,
        forwards: post.forwards,
        views: post.views,
        channel_name: task.channel_name,
    }
}

} // verus!
