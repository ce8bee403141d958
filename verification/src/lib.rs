//! Recipes: parameterized, replayable desktop automations.
//!
//! A recipe is recorded once and replayed forever. The engine that records and replays lives
//! elsewhere; this library holds the rules of the surface in front of it: how a tool reply is
//! unwrapped, how captured actions become an editable draft, how installed recipes are listed,
//! what each request is answered, who is let in, and how Core is called back.

pub mod api;
pub mod callback;
pub mod catalog;
pub mod draft;
pub mod error;
pub mod guard;
pub mod host;
pub mod json;
pub mod laws;
pub mod recording;
pub mod replay;
pub mod slug;
pub mod sorting;
pub mod text;

pub use api::RecipesCtx;
pub use catalog::{list, Recipe, RecipeSummary};
pub use draft::draft_from_events;
pub use error::Error;
pub use host::set_global_host;
pub use json::{Json, JsonObject};
pub use recording::{
    record_start, record_status, record_stop, RecorderStarted, RecorderStatus, RecorderStopped,
};
pub use replay::{extract_mcp_json, run};
pub use slug::slugify_task;
