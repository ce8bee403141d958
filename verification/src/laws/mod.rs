//! What the library promises, stated over calls of its functions and what they return.

pub mod answers;
pub mod callbacks;
pub mod drafts;
pub mod entry;
pub mod listings;
pub mod names;
pub mod recordings;
pub mod replays;
pub mod texts;
pub mod values;
