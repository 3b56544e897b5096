use tgdigest::action::ActionType;
use tgdigest::card::Card;
use tgdigest::cards;
use tgdigest::cards::ContextError;
use tgdigest::digest;
use tgdigest::post::{Post, TopPost};
use tgdigest::task::{Commands, Task};

fn post(id: i32, date: i64, replies: Option<i32>, reactions: Option<i32>) -> Post {
    Post {
        date,
        id,
        views: None,
        forwards: None,
        replies,
        reactions,
        message: None,
        image: None,
    }
}

fn task(command: Commands) -> Task {
    Task {
        command,
        channel_name: "ithueti".to_string(),
        top_count: 3,
        mode: "watermark".to_string(),
        editor_choice_post_id: 42,
        from_date: 0,
        to_date: 100,
        task_id: "t1".to_string(),
    }
}

fn cards_command(
    replies: Option<usize>,
    reactions: Option<usize>,
    forwards: Option<usize>,
    views: Option<usize>,
) -> Commands {
    Commands::Cards { replies, reactions, forwards, views }
}

#[test]
fn digest_context_groups_and_omits() {
    let mut posts = vec![post(10, 100, Some(1), None), post(20, 200, Some(2), Some(4))];
    let top = TopPost::get_top(2, &mut posts);
    let ctx = digest::create_context(top, task(Commands::Digest {}));

    assert_eq!(ctx.editor_choice_id, 42);
    assert_eq!(ctx.channel_name, "ithueti");
    // Forwards and views have no observed counts: their blocks are omitted.
    assert_eq!(ctx.blocks.len(), 2);

    let replies_block = &ctx.blocks[0];
    assert_eq!(replies_block.header, "По комментариям");
    assert_eq!(
        replies_block.icon,
        "https://raw.githubusercontent.com/googlefonts/noto-emoji/main/svg/emoji_u1f4ac.svg"
    );
    assert_eq!(replies_block.filter, "");
    let replies_cards = replies_block.cards.as_ref().unwrap();
    let ids: Vec<i32> = replies_cards.iter().map(|c| c.id).collect();
    assert_eq!(ids, vec![20, 10]);
    let counts: Vec<Option<i32>> = replies_cards.iter().map(|c| c.count).collect();
    assert_eq!(counts, vec![Some(2), Some(1)]);
    // Cards inside a block keep the placeholder decor.
    assert_eq!(replies_cards[0].header, "UNDEFINED");
    assert_eq!(
        replies_cards[0].icon,
        "https://raw.githubusercontent.com/googlefonts/noto-emoji/main/svg/emoji_u26a0.svg"
    );

    let reactions_block = &ctx.blocks[1];
    assert_eq!(reactions_block.header, "По реакциям");
    let reactions_cards = reactions_block.cards.as_ref().unwrap();
    assert_eq!(reactions_cards.len(), 1);
    assert_eq!(reactions_cards[0].id, 20);
    assert_eq!(reactions_cards[0].count, Some(4));
}

#[test]
fn digest_blocks_never_empty_and_cards_never_countless() {
    // A post lacking a metric must not surface in that metric's block, and
    // a metric nobody observed must not produce a block at all.
    let mut posts = vec![
        post(1, 10, Some(5), None),
        post(2, 20, None, None),
        post(3, 30, Some(1), None),
    ];
    let top = TopPost::get_top(3, &mut posts);
    let ctx = digest::create_context(top, task(Commands::Digest {}));
    assert_eq!(ctx.blocks.len(), 1);
    for block in &ctx.blocks {
        let cards = block.cards.as_ref().unwrap();
        assert!(!cards.is_empty());
        assert!(cards.iter().all(|c| c.count.is_some()));
    }
    // The replies block dropped the count-less post.
    assert_eq!(ctx.blocks[0].cards.as_ref().unwrap().len(), 2);
}

#[test]
fn digest_of_nothing_has_no_blocks() {
    let mut posts = vec![post(1, 10, None, None)];
    let top = TopPost::get_top(1, &mut posts);
    let ctx = digest::create_context(top, task(Commands::Digest {}));
    assert!(ctx.blocks.is_empty());
}

#[test]
fn digest_blue_filter_on_forwards_and_views() {
    let mut posts = vec![Post {
        date: 10,
        id: 1,
        views: Some(9),
        forwards: Some(8),
        replies: None,
        reactions: None,
        message: None,
        image: None,
    }];
    let top = TopPost::get_top(1, &mut posts);
    let ctx = digest::create_context(top, task(Commands::Digest {}));
    assert_eq!(ctx.blocks.len(), 2);
    assert_eq!(ctx.blocks[0].header, "По репостам");
    assert_eq!(ctx.blocks[0].filter, "filter-blue");
    assert_eq!(
        ctx.blocks[0].icon,
        "https://raw.githubusercontent.com/googlefonts/noto-emoji/main/svg/emoji_u1f501.svg"
    );
    assert_eq!(ctx.blocks[1].header, "По просмотрам");
    assert_eq!(ctx.blocks[1].filter, "filter-blue");
    assert_eq!(
        ctx.blocks[1].icon,
        "https://raw.githubusercontent.com/googlefonts/noto-emoji/main/svg/emoji_u1f441.svg"
    );
}

#[test]
fn scenario_e_out_of_range_index_rejects_the_request() {
    let mut posts = vec![
        post(1, 10, Some(1), Some(1)),
        post(2, 20, Some(2), Some(2)),
        post(3, 30, Some(3), Some(3)),
    ];
    let top = TopPost::get_top(3, &mut posts);
    assert_eq!(top.effective_k, 3);
    let cmd = cards_command(Some(1), None, Some(99), None);
    let err = cards::create_context(top, task(cmd)).err().unwrap();
    assert!(matches!(err, ContextError::IndexOutOfRange { limit: 3 }));
    assert_eq!(
        err.message(),
        "Index of replies/reactions/forwards/views out of range [1;3]"
    );
}

#[test]
fn card_index_zero_is_rejected_not_clamped() {
    let mut posts = vec![post(1, 10, Some(1), None), post(2, 20, Some(2), None)];
    let top = TopPost::get_top(2, &mut posts);
    let err = cards::create_context(top, task(cards_command(Some(0), None, None, None)))
        .err()
        .unwrap();
    assert!(matches!(err, ContextError::IndexOutOfRange { limit: 2 }));
}

#[test]
fn card_index_just_past_effective_k_is_rejected() {
    let mut posts = vec![post(1, 10, Some(1), None), post(2, 20, Some(2), None)];
    let top = TopPost::get_top(5, &mut posts);
    assert_eq!(top.effective_k, 2);
    let err = cards::create_context(top, task(cards_command(None, None, None, Some(3))))
        .err()
        .unwrap();
    assert!(matches!(err, ContextError::IndexOutOfRange { limit: 2 }));
}

#[test]
fn cards_context_picks_ranked_posts() {
    let mut posts = vec![post(10, 100, Some(1), Some(9)), post(20, 200, Some(2), None)];
    let top = TopPost::get_top(2, &mut posts);
    // Replies rank 1 is the post with the higher count; reactions rank 2 is
    // the post without a reactions count, so its card is dropped.
    let cmd = cards_command(Some(1), Some(2), None, None);
    let ctx = cards::create_context(top, task(cmd)).unwrap();
    assert_eq!(ctx.editor_choice_id, 42);
    assert_eq!(ctx.channel_name, "ithueti");
    assert_eq!(ctx.cards.len(), 1);
    let card = &ctx.cards[0];
    assert_eq!(card.id, 20);
    assert_eq!(card.count, Some(2));
    assert_eq!(card.header, "Лучший по комментариям");
    assert_eq!(
        card.icon,
        "https://raw.githubusercontent.com/googlefonts/noto-emoji/main/svg/emoji_u1f4ac.svg"
    );
    assert_eq!(card.filter, "");
}

#[test]
fn cards_context_blue_filter_and_order() {
    let mut posts = vec![Post {
        date: 10,
        id: 7,
        views: Some(100),
        forwards: Some(50),
        replies: Some(1),
        reactions: None,
        message: None,
        image: None,
    }];
    let top = TopPost::get_top(1, &mut posts);
    let cmd = cards_command(Some(1), None, Some(1), Some(1));
    let ctx = cards::create_context(top, task(cmd)).unwrap();
    assert_eq!(ctx.cards.len(), 3);
    assert_eq!(ctx.cards[0].header, "Лучший по комментариям");
    assert_eq!(ctx.cards[0].filter, "");
    assert_eq!(ctx.cards[1].header, "Лучший по репостам");
    assert_eq!(ctx.cards[1].filter, "filter-blue");
    assert_eq!(ctx.cards[2].header, "Лучший по просмотрам");
    assert_eq!(ctx.cards[2].filter, "filter-blue");
    assert_eq!(
        ctx.cards[2].icon,
        "https://raw.githubusercontent.com/googlefonts/noto-emoji/main/svg/emoji_u1f441.svg"
    );
}

#[test]
fn cards_context_with_nothing_selected_is_an_error() {
    let mut posts = vec![post(1, 10, Some(1), None), post(2, 20, Some(2), None)];
    let top = TopPost::get_top(2, &mut posts);
    let err = cards::create_context(top, task(cards_command(None, None, None, None)))
        .err()
        .unwrap();
    assert!(matches!(err, ContextError::NothingSelected));
    assert_eq!(
        err.message(),
        "Set at least one index of replies/reactions/forwards/views/editor_choice"
    );
    // A provided index whose post lacks the metric also selects nothing.
    let mut posts = vec![post(1, 10, Some(1), None)];
    let top = TopPost::get_top(1, &mut posts);
    let err = cards::create_context(top, task(cards_command(None, Some(1), None, None)))
        .err()
        .unwrap();
    assert!(matches!(err, ContextError::NothingSelected));
}

#[test]
fn create_card_copies_id_and_count() {
    let p = post(5, 10, Some(3), None);
    let c = Card::create_card(Some(&p), ActionType::Replies);
    assert_eq!(c.id, 5);
    assert_eq!(c.count, Some(3));
    assert_eq!(c.header, "UNDEFINED");
    let c = Card::create_card(Some(&p), ActionType::Reactions);
    assert_eq!(c.count, None);
    let c = Card::create_card(None, ActionType::Replies);
    assert_eq!(c.id, -1);
    assert_eq!(c.count, None);
}

#[test]
fn create_cards_drops_countless_posts_and_empty_lists() {
    let posts = vec![
        post(1, 10, Some(3), None),
        post(2, 20, None, None),
        post(3, 30, Some(0), None),
    ];
    let cards = Card::create_cards(&posts, ActionType::Replies).unwrap();
    let ids: Vec<i32> = cards.iter().map(|c| c.id).collect();
    assert_eq!(ids, vec![1, 3]);
    assert!(Card::create_cards(&posts, ActionType::Reactions).is_none());
    assert!(Card::create_cards(&[], ActionType::Replies).is_none());
}

#[test]
fn post_context_carries_every_field() {
    let p = Post {
        date: 123,
        id: 9,
        views: Some(4),
        forwards: None,
        replies: Some(2),
        reactions: Some(1),
        message: Some("hello".to_string()),
        image: Some(77),
    };
    let ctx = cards::create_post_context(p, task(Commands::Post {}));
    assert_eq!(ctx.id, 9);
    assert_eq!(ctx.date, 123);
    assert_eq!(ctx.message.as_deref(), Some("hello"));
    assert_eq!(ctx.image, Some(77));
    assert_eq!(ctx.replies, Some(2));
    assert_eq!(ctx.reactions, Some(1));
    assert_eq!(ctx.forwards, None);
    assert_eq!(ctx.views, Some(4));
    assert_eq!(ctx.channel_name, "ithueti");
}
