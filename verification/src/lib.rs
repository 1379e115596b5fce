//! Bundling files into a gzip-compressed tar archive, unpacking such an
//! archive, and appending one more file to it.
//!
//! The library never touches the file system. It works on bytes held in
//! memory: a caller reads the files, hands their contents over, and writes
//! out what comes back.
//!
//! - [`cli`] decides, from the flags and values of a command line, which
//!   operation is to run and on what.
//! - [`archive`] holds the three operations: `compress_files`,
//!   `decompress_files` and `add_file_to_tar_gz`.
//! - [`container`] writes tar streams with the `tar` crate, and [`codec`]
//!   compresses and decompresses them with the `flate2` crate.
//! - [`report`] holds the lines that tell the user what was done, and
//!   [`failure`] says how an invocation ends.
//!
//! Three choices shape what the operations do.
//!
//! Adding a file does not rewrite the archive: a second compressed segment
//! is put behind the first. Decompressing therefore reads every gzip member
//! of its input, not the first alone.
//!
//! For adding, the value of `--input` is the archive and the value of
//! `--output` is the file to add, the other way round than for compressing.
//!
//! The report of a compression counts the paths that were asked for, not
//! those that were found.

pub mod archive;
pub mod cli;
pub mod codec;
pub mod container;
pub mod failure;
pub mod report;
