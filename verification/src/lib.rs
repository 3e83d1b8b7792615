//! A small library for stepping through the numbered pages of a
//! teletext-style service: validated channel numbers, navigation-hint
//! resolution with an arithmetic fallback, page assembly from fetched
//! markup, and a controller that holds the current page.

pub mod channel;
pub mod controller;
pub mod digits;
pub mod document;
pub mod nav;
pub mod page;
pub mod prompt;

pub use channel::Channel;
pub use channel::PageDirection;
pub use channel::MAX_PAGE;
pub use channel::MIN_PAGE;
pub use controller::NavigationController;
pub use page::FetchError;
pub use page::TextTvPage;
pub use prompt::GotoPrompt;
