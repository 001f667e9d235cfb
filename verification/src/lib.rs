//! Style identifiers and themes for a terminal display.
//!
//! One fixed-width identifier type, [`Highlight`], carries either an index
//! into a theme's style table or an inline-encoded true-color RGB triple,
//! with one all-ones value reserved as an "absent" sentinel.

mod builtin;
mod highlight;
mod style;
mod theme;

pub use builtin::{
    builtin_highlights, builtin_scopes, default_theme, lemma_builtin_entries, lemma_builtin_is_16,
};
pub use highlight::{
    decode_rgb_spec, encode_rgb_spec, lemma_indexed_decodes_none, lemma_rgb_encode_injective,
    lemma_rgb_region_onto, lemma_rgb_region_size, lemma_rgb_round_trip, rgb_packed, Highlight,
    HIGHLIGHT_MAX, HIGHLIGHT_SENTINEL, RGB_START,
};
pub use style::{
    empty_style, fg_style, rgb_fg_style, style_is_16, Color, Modifier, Style, UnderlineStyle,
};
pub use theme::{
    find_exact_spec, first_match_from, last_dot_pos, lemma_first_match_from, lemma_last_dot_pos,
    lemma_index_name_symmetry, lemma_indexed_highlight_decodes_none, resolve_spec, Theme,
    ThemeBuilder,
};
