//! Short names for the event kinds a handler can accept.
pub use crate::handler::HandlerType::CallbackQuery as callback_query;
pub use crate::handler::HandlerType::InlineQuery as inline_query;
pub use crate::handler::HandlerType::Message as message;
pub use crate::handler::HandlerType::MessageDeleted as message_deleted;
pub use crate::handler::HandlerType::Raw as raw;
