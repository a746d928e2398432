//! Watches chat activity of selected senders and relays rate-limited
//! notifications about it to a single owner.
mod clock;
pub mod command;
pub mod configure;
pub mod dispatch;
pub mod notify;
pub mod shutdown;
pub mod text;
pub mod update;
pub mod worker;

pub use command::NotificationCommand;
pub use configure::{Configure, DEFAULT_COOLDOWN_SECONDS};
pub use dispatch::{build_command, build_message_string, handle_update};
pub use notify::{send_message_url, SendMessageParameters};
pub use shutdown::{step, ShutdownAction, ShutdownEvent, ShutdownState};
pub use text::int_to_text;
pub use update::{ChatKind, IncomingMessage, MediaKind, MessageSender, Update};
pub use worker::{NotificationWorker, WorkerAction};
