//! The rules of a chat service and of the hub that tells connected users
//! about changes to their chats.

pub mod decode;
pub mod error;
pub mod files;
pub mod gateway;
pub mod json;
pub mod models;
pub mod notif;
pub mod password;
pub mod registry;
pub mod text;

pub use error::{AppError, ErrorOutput};
pub use models::{Chat, ChatPatch, ChatType, CreateChat, Message, Timestamp, UpdateChat};
pub use notif::{get_affected_chat_user_ids, AppEvent, Notification, TranslateError};
pub use registry::{Delivery, Polled, Registry, Report, Subscription};
