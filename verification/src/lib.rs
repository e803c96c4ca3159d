//! Core logic of a terminal directory navigator.
//!
//! The library builds the ordered list of selectable entries for a
//! directory, resolves a chosen list position into a navigation action,
//! and applies actions to the navigation session. All filesystem reads
//! and interactive terminal work live outside the library, which only
//! ever sees plain values.

mod header;
mod options;
mod resolver;
mod session;
mod text;

pub use header::{
    content_line, display_header, filler_line, spec_content_line, spec_filler_line,
    spec_header_lines, PADDING,
};
pub use options::{
    get_path_options, label_of, lemma_hidden_children_excluded, lemma_hidden_children_included,
    lemma_indexed_label_prefix, spec_child_names, spec_display_label, spec_indexed_label, spec_keep,
    spec_label, spec_labels, valid_path, DirChild, Entry, OptionList,
};
pub use resolver::{
    lemma_digit_run_exact, lemma_strip_indexed_label, resolve, resolve_confirmed,
    spec_digit_run, spec_has_index_prefix, spec_strip, strip_index_prefix, Resolution,
};
pub use session::{
    finalize_output, spec_joined, spec_path_text, AbsPath, NavigationAction, Session,
    SessionOutcome,
};
pub use text::{is_digit_char, spec_dec, spec_digit, spec_is_digit, spec_repeat, usize_to_string};
