//! Automation core of a chat assistant: finding the chat application's main
//! window, turning its message list into conversation records, pasting a reply
//! into its input box, keeping an overlay glued below its window, and the
//! configuration and reply handling around those steps.

pub mod conf;
pub mod follow;
pub mod history;
pub mod injector;
pub mod locator;
pub mod reply;

pub use conf::{ApiResponse, ApiResponseBase, AppConfig, ModelConfig, ReplyConstraints};
