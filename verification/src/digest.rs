use vstd::prelude::*;

use crate::action::ActionType;
use crate::block::Block;
use crate::card::{cards_match, kept, Card};
use crate::post::TopPost;
use crate::task::Task;
use crate::util::{icon_url, icon_url_spec};

verus! {

/// The fixed header of one metric's digest block.
pub open spec fn digest_header(m: ActionType) -> Seq<char> {
    match m {
        ActionType::Replies => "По комментариям"@,
        ActionType::Reactions => "По реакциям"@,
        ActionType::Forwards => "По репостам"@,
        ActionType::Views => "По просмотрам"@,
    }
}

/// The icon string of one metric: speech balloon, clapping hands,
/// repeat arrows, eye.
pub open spec fn metric_emoji(m: ActionType) -> Seq<char> {
    match m {
        ActionType::Replies => "\u{1f4ac}"@,
        ActionType::Reactions => "\u{1f44f}"@,
        ActionType::Forwards => "\u{1f501}"@,
        ActionType::Views => "\u{1f441}\u{fe0f}"@,
    }
}

/// The CSS filter tag of one metric: forwards and views render with the
/// blue filter, replies and reactions with none. A presentation constant,
/// not derived data.
pub open spec fn metric_filter(m: ActionType) -> Seq<char> {
    match m {
        ActionType::Forwards => "filter-blue"@,
        ActionType::Views => "filter-blue"@,
        _ => ""@,
    }
}

/// Whether the metric keeps at least one card, so its block renders.
pub open spec fn survives(t: TopPost, m: ActionType) -> bool {
    kept(t.ranking_spec(m), m).len() > 0
}

/// The metrics whose blocks appear, in the fixed display order
/// [Replies, Reactions, Forwards, Views] minus the empty ones.
pub open spec fn present_metrics(t: TopPost) -> Seq<ActionType> {
    (if survives(t, ActionType::Replies) {
        seq![ActionType::Replies]
    } else {
        Seq::<ActionType>::empty()
    }) + (if survives(t, ActionType::Reactions) {
        seq![ActionType::Reactions]
    } else {
        Seq::<ActionType>::empty()
    }) + (if survives(t, ActionType::Forwards) {
        seq![ActionType::Forwards]
    } else {
        Seq::<ActionType>::empty()
    }) + (if survives(t, ActionType::Views) {
        seq![ActionType::Views]
    } else {
        Seq::<ActionType>::empty()
    })
}

/// One rendered block carries its metric's header, icon and filter, and
/// exactly the cards of the posts that have the metric, in ranking order.
pub open spec fn block_matches(b: Block, m: ActionType, t: TopPost) -> bool {
    &&& b.header@ == digest_header(m)
    &&& b.icon@ == icon_url_spec(metric_emoji(m))
    &&& b.filter@ == metric_filter(m)
    &&& b.cards matches Some(cs) && cards_match(cs@, kept(t.ranking_spec(m), m), m)
}

/// The digest rendering context: the surviving blocks in display order,
/// and the task's editor choice id and channel name, carried through.
pub struct DigestContext {
    pub blocks: Vec<Block>,
    pub editor_choice_id: i32,
    pub channel_name: String,
}

/// Assemble the digest context for a ranked batch.
///
/// Blocks keep the fixed metric order; a block appears only if at least one
/// of its posts carries the metric, and a card appears only with a count —
/// the omit-if-absent rule at both nesting levels.
pub fn create_context(post_top: TopPost, task: Task) -> (r: DigestContext)
    ensures
        r.editor_choice_id == task.editor_choice_post_id,
        r.channel_name == task.channel_name,
        r.blocks@.len() == present_metrics(post_top).len(),
        forall|j: int|
            0 <= j < r.blocks@.len() ==> block_matches(
                r.blocks@[j],
                present_metrics(post_top)[j],
                post_top,
            ),
        forall|j: int|
            0 <= j < r.blocks@.len() ==> (#[trigger] r.blocks@[j].cards matches Some(cs)
                && cs@.len() > 0 && forall|i: int| 0 <= i < cs@.len() ==> #[trigger] cs@[i].count is Some),
{
    let mut blocks: Vec<Block> = Vec::new();

    let cards = Card::create_cards(post_top.index(ActionType::Replies).as_slice(), ActionType::Replies);
    if cards.is_some() {
        blocks.push(Block {
            header: "По комментариям".to_owned(),
            icon: icon_url("\u{1f4ac}"),
            filter: "".to_owned(),
            cards,
        });
    }

    let cards = Card::create_cards(post_top.index(ActionType::Reactions).as_slice(), ActionType::Reactions);
    if cards.is_some() {
        blocks.push(Block {
            header: "По реакциям".to_owned(),
            icon: icon_url("\u{1f44f}"),
            filter: "".to_owned(),
            cards,
        });
    }

    let cards = Card::create_cards(post_top.index(ActionType::Forwards).as_slice(), ActionType::Forwards);
    if cards.is_some() {
        blocks.push(Block {
            header: "По репостам".to_owned(),
            icon: icon_url("\u{1f501}"),
            filter: "filter-blue".to_owned(),
            cards,
        });
    }

    let cards = Card::create_cards(post_top.index(ActionType::Views).as_slice(), ActionType::Views);
    if cards.is_some() {
        blocks.push(Block {
            header: "По просмотрам".to_owned(),
            icon: icon_url("\u{1f441}\u{fe0f}"),
            filter: "filter-blue".to_owned(),
            cards,
        });
    }

    DigestContext {
        blocks,
        editor_choice_id: task.editor_choice_post_id,
        channel_name: task.channel_name,
    }
}

} // verus!
