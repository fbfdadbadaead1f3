//! A retained-mode widget toolkit core: geometry, spring animation,
//! widget identity, event bubbling, damage tracking and frame pacing.
//!
//! The OS window layer and the pixel rasterizer are external collaborators:
//! the core only issues drawing intents and consumes raw input events as
//! plain values, so everything here is ordinary data and arithmetic.

pub mod button;
pub mod color;
pub mod drawing;
pub mod events;
pub mod fixed;
pub mod geometry;
pub mod image;
pub mod input;
pub mod label;
pub mod pacing;
pub mod pod;
pub mod spring;
pub mod strext;
pub mod system;
pub mod template;
pub mod traits;
pub mod uid;
pub mod widget;
pub mod window;

pub use button::ButtonControl;
pub use color::concat_color;
pub use color::muldiv255;
pub use color::premultiply_color;
pub use color::split_color;
pub use drawing::DrawCommand;
pub use drawing::DrawCtx;
pub use drawing::TextAlign;
pub use events::EventCtx;
pub use events::EventResult;
pub use events::HitResult;
pub use events::UserEvent;
pub use events::WindowEvent;
pub use geometry::AreaBox;
pub use geometry::is_in_area;
pub use image::ImageControl;
pub use input::InputControl;
pub use label::TextLabelControl;
pub use pacing::FramePacer;
pub use pod::WidgetPod;
pub use spring::Spring;
pub use spring::Spring2D;
pub use strext::StrExt;
pub use strext::w_str;
pub use system::SystemDrawableWindow;
pub use template::TemplateControl;
pub use traits::TopWidget;
pub use traits::Widget;
pub use uid::UidGenerator;
pub use uid::WidgetUid;
pub use uid::gen_uid;
pub use widget::WidgetBox;
pub use window::WindowControl;
