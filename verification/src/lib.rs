//! Widget-state logic of a retained-mode GUI toolkit: identifiers, axis-aligned
//! transforms, event routing, focus traversal, tab transitions, list windowing,
//! the attribute graph, and the event decisions of its widgets (scroll bars,
//! steppers, switches, sliders, radio buttons, value text boxes, tooltips).
//!
//! Geometry and painting, which work on floating-point coordinates, are left to
//! the caller: the functions here take what the caller measured (whether the
//! pointer hits a bar, whether a knob passed its middle) and say what to do.

pub mod ids;
pub mod transform_box;
pub mod event;
pub mod tabs;
pub mod widget_pod;
pub mod widget_host;
pub mod contexts;
pub mod focus;
pub mod window;
pub mod tooltip;
pub mod virt_list;
pub mod graph;
pub mod widgets;
pub mod editable_text;
pub mod textbox;
pub mod value_textbox;
pub mod scroll;
pub mod scrollbar;
pub mod stepper;
pub mod switch;
pub mod slider;
pub mod shell_handler;
