//! Conditional diagnostic printing gated by two process-wide flags.
//!
//! The core is [`FlagStore`], a write-once holder of a "debug" and a
//! "verbose" boolean. Each flag is set at most once, early in a run, and is
//! read on every later print decision; an unset flag reads as `false`.
//! [`debug_line`] and [`verbose_line`] render a message from a template and
//! its arguments exactly when the governing flag is enabled, so that no
//! formatting work is spent on suppressed output.

mod flags;
mod message;

pub use flags::{
    FlagStore, FlagsView, InitError, is_debug, is_verbose, lemma_double_init_rejected,
    lemma_flags_independent, lemma_set_debug_then_read, lemma_set_verbose_then_read,
    lemma_unset_reads_false, set_debug, set_verbose, spec_is_debug, spec_is_verbose,
    spec_set_debug, spec_set_verbose, try_set_debug, try_set_verbose,
};
pub use message::{debug_line, render, spec_args, spec_render, verbose_line};
