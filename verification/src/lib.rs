//! Ranking-and-assembly engine for channel digests.
//!
//! The engine ranks a channel's posts by four engagement metrics — replies,
//! reactions, forwards and views — over a calendar window, and assembles the
//! rankings into rendering-ready structures: grouped digest blocks, or one
//! "best post" card per metric. It is a pure, synchronous transformation
//! from fetched posts and task parameters to those structures; fetching,
//! template rendering and serving live outside it.
//!
//! The modules follow the data flow: [`post`] holds the post records and the
//! top-k digest, [`rank`] the ranking order and its laws, [`dates`] resolves
//! calendar coordinates to UTC windows, and [`digest`] and [`cards`]
//! assemble the two rendering contexts from [`card`] and [`block`] entries.

pub mod action;
pub mod block;
pub mod card;
pub mod cards;
pub mod dates;
pub mod digest;
pub mod post;
pub mod rank;
pub mod task;
pub mod util;
