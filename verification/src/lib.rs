//! Core of a host-driven web-rendering surface: event-loop translation,
//! cross-thread dispatch bookkeeping with exactly-once reclamation of
//! dispatched work, an embedded virtual-content resolver, and the facade's
//! lifecycle state machine. The native rendering engine itself is an opaque
//! collaborator: its per-call outcomes enter the verified logic as plain
//! values, and every contract here holds for every outcome it may report.

pub mod dispatch;
pub mod driver;
pub mod error;
pub mod event;
pub mod resolver;
pub mod validate;
pub mod webview;

pub use dispatch::CallbackTable;
pub use dispatch::Command;
pub use driver::Step;
pub use driver::driver_step;
pub use driver::run_events;
pub use driver::webview;
pub use error::Error;
pub use error::ffi_result;
pub use event::Event;
pub use event::translate_event;
pub use resolver::ContentResolver;
pub use validate::contains_nul;
pub use webview::Content;
pub use webview::Dispatcher;
pub use webview::Lifecycle;
pub use webview::NativeCreate;
pub use webview::NativeReply;
pub use webview::NativeStatus;
pub use webview::WebView;
pub use webview::webview_dispatch_callback;
pub use webview::webview_get_content;
