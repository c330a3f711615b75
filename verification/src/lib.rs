//! A small retained-mode GUI toolkit: views describe the interface, widgets
//! hold its state, and the pieces in this crate decide how events, timing,
//! animations and render commands are handled.

pub mod alignment;
pub mod animation;
pub mod app;
pub mod command;
pub mod debug;
pub mod event;
pub mod id;
pub mod render;
pub mod view;
pub mod window;

pub use animation::Animation;
pub use animation::AnimationDirection;
pub use animation::EasingCurve;
pub use app::App;
pub use command::Command;
pub use debug::DebugLayer;
pub use id::AnimationId;
pub use id::Id;
pub use id::IdPath;
pub use id::WidgetId;
pub use id::WidgetIdPath;
pub use window::WindowId;
pub use window::WindowSize;
