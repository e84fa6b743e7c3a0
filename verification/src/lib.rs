//! The core of a research assistant that works with Ollama Cloud and with local
//! Ollama servers.
//!
//! The library decides; a host acts. It says which model answers a question,
//! which requests are sent and with which key, what to search for, what of the
//! findings the model gets to see, how a streamed reply becomes an answer, and
//! how settings are encrypted. The host sends the requests, reads and writes
//! the files, and reports back. Contracts state what the functions return.

pub mod api;
pub mod chat;
pub mod errors;
pub mod images;
pub mod lists;
pub mod models;
pub mod records;
pub mod routing;
pub mod salt;
pub mod servers;
pub mod shell;
pub mod sources;
pub mod stream;
pub mod text;
pub mod turn;
pub mod vault;

pub use crate::errors::ResearchError;
pub use crate::images::sanitize_images;
pub use crate::models::{decode_model_id, encode_model_id, is_cloud_chat_model};
pub use crate::records::{
    AppSettings, CloudModel, EncodedSettings, Endpoint, HistoryEntry, ModelInfo, ModelResolution,
    ResearchResponse, SearchSource, StreamEvent,
};
pub use crate::routing::{
    choose_vision_model, resolve_turn_model, ResearchClient, ResolvedClient,
};
pub use crate::servers::{local_base_url, normalize_base, DEFAULT_LOCAL_BASE};
pub use crate::sources::build_context;
pub use crate::turn::{validate_research, Turn};
pub use crate::vault::{decrypt_settings, encrypt_settings};
