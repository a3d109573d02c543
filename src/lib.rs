//! Backend of a desktop text-rewriting tool: choosing a language-model
//! provider, building the chat-completion request, reading the reply, and
//! deciding where the provider's API key comes from.
use vstd::prelude::*;

pub mod chat;
pub mod credentials;
pub mod json;
pub mod log_record;
pub mod models;
pub mod provider;
pub mod text;

pub use chat::{
    build_chat_request, first_choice_text, ChatChoice, ChatCompletionRequest,
    ChatCompletionResponse, ChatMessage, MessageRole, TransformRequest,
};
pub use credentials::{
    after_read, api_key_status, credentials_document, first_lookup, loaded_key, stored_key,
    CredentialError, KeyLookup, KeySource, ResolvedKey,
};
pub use log_record::{RichLog, SimpleLog};
pub use models::model_ids;
pub use provider::{create_provider, provider_type_from_name, Provider, ProviderType};
pub use text::truncate;
