//! A small console logging helper: timestamped, severity-tagged, colorized
//! lines written to standard output, filtered by a configurable minimum
//! severity threshold.

mod logger;
mod render;
mod severity;

pub use logger::resolved_origin;
pub use logger::Logger;
pub use render::color_prefix;
pub use render::composed_line;
pub use render::compose_line;
pub use render::date_shape;
pub use render::esc_free;
pub use render::is_digit;
pub use render::lemma_empty_origin_omits_segment;
pub use render::lemma_message_passthrough;
pub use render::lemma_timestamp_prefix;
pub use render::opt_str_view;
pub use render::origin_segment;
pub use render::origin_style_prefix;
pub use render::rendered_line_ok;
pub use render::spaces;
pub use render::style_reset;
pub use render::styled_as;
pub use render::styled_label;
pub use render::styled_origin_ok;
pub use render::time_shape;
pub use severity::is_permitted;
pub use severity::kind_label;
pub use severity::kind_padding;
pub use severity::label_text;
pub use severity::lemma_full_permits;
pub use severity::lemma_noop_never_permitted;
pub use severity::lemma_off_silences;
pub use severity::lemma_strictest_threshold_effect;
pub use severity::padding_width;
pub use severity::permits;
pub use severity::LoggingLevel;
pub use severity::LoggingType;
