//! Client-side logic of an item catalogue: the list query that the view state asks for,
//! the compressed pagination controls, and the transitions of the view state under user
//! actions and service answers. Each transition returns the request to make as an
//! [`state::Effect`]; the caller performs it and hands the answer back.

pub mod laws;
pub mod pagination;
pub mod query;
pub mod state;
pub mod text;
