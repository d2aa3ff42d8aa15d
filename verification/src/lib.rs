//! Thread context pins: short texts that a client pins to a conversation thread so
//! that they reach the model as additional context.
//!
//! - `limits`, `pagination`: the rules that pin requests obey.
//! - `processor`: the steps of a pin request, as a state machine that the server
//!   drives through its outside work; `processor_laws` states what every step keeps.
//! - `model`, `api`, `store`: pins as the state database and the protocol hold them.
//! - `additional_context`, `context_store`, `pinned_context`: how pins become
//!   additional context, and which context is handed to the model again.
//! - `text`, `key_order`, `thread_id`, `time`, `error`: the values these rest on.

pub mod additional_context;
pub mod api;
pub mod context_store;
pub mod error;
pub mod key_order;
pub mod limits;
pub mod model;
pub mod pagination;
pub mod pinned_context;
pub mod processor;
pub mod processor_laws;
pub mod store;
pub mod text;
pub mod thread_id;
pub mod time;
