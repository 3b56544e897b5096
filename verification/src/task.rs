use vstd::prelude::*;

verus! {

/// What one request asks the engine to produce.
#[derive(Copy, Clone)]
pub enum Commands {
    /// One card per metric, each chosen by an optional 1-based rank index
    /// into that metric's ranking.
    Cards {
        replies: Option<usize>,
        reactions: Option<usize>,
        forwards: Option<usize>,
        views: Option<usize>,
    },
    /// The grouped digest of every metric's ranking.
    Digest {},
    /// A single post.
    Post {},
}

/// The parameters of one digest or cards request.
pub struct Task {
    pub command: Commands,
    /// t.me/<CHANNEL_NAME>
    pub channel_name: String,
    /// Count of posts in the digest.
    pub top_count: usize,
    /// Template name within the configured input directory.
    pub mode: String,
    /// The id of the post for the "Editor choice" block, carried through
    /// unchanged.
    pub editor_choice_post_id: i32,
    /// UTC timestamp, start of the window.
    pub from_date: i64,
    /// UTC timestamp, end of the window.
    pub to_date: i64,
    /// Unique task id.
    pub task_id: String,
}

impl Clone for Task {
    fn clone(&self) -> (r: Self)
        ensures
            r == *self,
    {
        Task {
            command: self.command,
            channel_name: self.channel_name.clone(),
            top_count: self.top_count,
            mode: self.mode.clone(),
            editor_choice_post_id: self.editor_choice_post_id,
            from_date: self.from_date,
            to_date: self.to_date,
            task_id: self.task_id.clone(),
        }
    }
}

} // verus!
