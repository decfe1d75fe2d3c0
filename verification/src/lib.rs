//! A text-rotation display element for a status-bar rendering pipeline.
//!
//! Given a piece of text that may be wider than an allotted display column
//! count, the widget decides on every scheduler tick what slice of the text
//! to show, whether to begin, continue or stop a scrolling rotation, and
//! produces a renderable record (text plus color and state metadata) for a
//! bar-rendering host.

mod clock;
mod render;
mod state;
mod text;
mod theme;
mod widget;
mod window;

pub use render::NONEMPTY_MIN_WIDTH;
pub use render::RenderModel;
pub use render::Rendered;
pub use render::dec_rep;
pub use render::escape_char;
pub use render::json_bool;
pub use render::json_escape;
pub use render::json_of_record;
pub use render::json_opt_string;
pub use render::json_string;
pub use render::render_json;
pub use state::State;
pub use state::bg_key_of;
pub use state::fg_key_of;
pub use theme::color_of;
pub use theme::color_table;
pub use theme::icon_table;
pub use widget::Model;
pub use widget::RotatingTextWidget;
pub use widget::ThemeError;
pub use widget::advance_rel;
pub use widget::arrived_now;
pub use widget::core_inv;
pub use widget::lemma_cycle_closure;
pub use widget::lemma_static_text;
pub use widget::run_arrived;
pub use widget::full_text_of;
pub use widget::inv;
pub use widget::rendered_ok;
pub use widget::replace_text_rel;
pub use widget::same_except_render;
pub use widget::set_text_rel;
pub use widget::step_model;
pub use widget::step_renders;
pub use window::lemma_window_at_start;
pub use window::lemma_window_fits;
pub use window::lemma_window_width;
pub use window::visible_window;
pub use window::window_of;
