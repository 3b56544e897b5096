use vstd::prelude::*;

verus! {

/// The four engagement metrics a post can be ranked by.
///
/// The set is closed by design: every ranking and every rendering decision
/// matches exhaustively over these four variants.
#[derive(Copy, Clone, PartialEq, Eq, Structural)]
pub enum ActionType {
    Replies,
    Reactions,
    Forwards,
    Views,
}

impl ActionType {
    /// Position of this metric in the fixed display order
    /// [Replies, Reactions, Forwards, Views].
    pub open spec fn index_spec(self) -> int {
        match self {
            ActionType::Replies => 0,
            ActionType::Reactions => 1,
            ActionType::Forwards => 2,
            ActionType::Views => 3,
        }
    }

    /// The metric at a given position of the fixed display order.
    pub fn from(value: usize) -> (r: ActionType)
        requires
            value < 4,
        ensures
            r.index_spec() == value as int,
    {
        match value {
            0 => ActionType::Replies,
            1 => ActionType::Reactions,
            2 => ActionType::Forwards,
            _ => ActionType::Views,
        }
    }
}

} // verus!
