//! Splits the regular files of one directory into numbered batches of a fixed
//! size and works out where each file of a batch is copied.
//!
//! The file system itself stays with the caller: it hands in what a directory
//! listing produced, and creates the directories and copies the files that
//! these functions name.

mod batch;
mod config;
mod copy;
mod listing;
mod report;
mod text;

pub use batch::{
    batch_at, batch_count, batch_paths, batches, batches_of, chunk_dir, lemma_batch_count_bounds,
    lemma_batch_count_unique, lemma_batch_sizes, lemma_batches_concat,
    lemma_batches_hold_only_files,
};
pub use config::{Config, ConfigError};
pub use copy::{
    dest_dir, dest_dir_of, dest_file, dir_label, dir_name, file_name_of, joined,
    lemma_dest_dir_shape, opt_text, parent_of, CopyError,
};
pub use listing::{files_of, find_files, lemma_files_of_are_files, paths_of, Listed};
pub use report::{progress_line, progress_lines, progress_text};
pub use text::{decimal, decimal_string, digit_char};
