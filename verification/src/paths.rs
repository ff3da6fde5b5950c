//! The paths that a run derives from its two arguments.
//!
//! Paths are held as text. The platform's own path rules decide where a
//! file name begins and where an extension ends, so those three questions
//! are put to `std::path`, and what it answers is given a name here.

use crate::error::{text_or_error, CpyError, CpyErrorView};
use std::path::{Path, PathBuf};
use vstd::prelude::*;

verus! {

/// The path that `PathBuf::set_extension` turns `path` into when it is asked
/// for `extension`, by the path rules of the platform the crate is built for.
pub uninterp spec fn path_with_extension(path: Seq<char>, extension: Seq<char>) -> Seq<char>;

/// The final component of `path` as `Path::file_name` finds it, by the path
/// rules of the platform the crate is built for.
pub uninterp spec fn path_file_name(path: Seq<char>) -> Option<Seq<char>>;

/// The path that `PathBuf::push` makes of `base` when `tail` is pushed onto
/// it, by the path rules of the platform the crate is built for.
pub uninterp spec fn path_joined(base: Seq<char>, tail: Seq<char>) -> Seq<char>;

/// Whether `c` separates path components on some supported platform.
pub open spec fn is_separator(c: char) -> bool {
    c == '/' || c == '\\'
}

/// Whether `text` is free of path separators.
pub open spec fn has_no_separator(text: Seq<char>) -> bool {
    forall|i: int| 0 <= i < text.len() ==> !is_separator(#[trigger] text[i])
}

/// Calls `PathBuf::set_extension` on a copy of `path`. Not proved: that the
/// text of the resulting path is the one named [`path_with_extension`].
/// `set_extension` panics on an extension that holds a path separator, so
/// such an extension is not admitted.
#[verifier::external_body]
fn set_extension(path: &str, extension: &str) -> (changed: String)
    requires
        has_no_separator(extension@),
    ensures
        changed@ == path_with_extension(path@, extension@),
{
    let mut buffer = PathBuf::from(path);
    buffer.set_extension(extension);
    buffer.to_string_lossy().into_owned()
}

/// Calls `Path::file_name`. Not proved: that it finds a final component
/// exactly when [`path_file_name`] names one, and that the text of the
/// component is the one named.
#[verifier::external_body]
fn file_name(path: &str) -> (name: Option<String>)
    ensures
        (match name {
            Some(text) => path_file_name(path@) == Some(text@),
            None => path_file_name(path@) is None,
        }),
{
    match Path::new(path).file_name() {
        Some(component) => Some(component.to_string_lossy().into_owned()),
        None => None,
    }
}

/// Calls `PathBuf::push` on a copy of `base`. Not proved: that the text of
/// the resulting path is the one named [`path_joined`].
#[verifier::external_body]
fn push(base: &str, tail: &str) -> (joined: String)
    ensures
        joined@ == path_joined(base@, tail@),
{
    let mut buffer = PathBuf::from(base);
    buffer.push(tail);
    buffer.to_string_lossy().into_owned()
}

/// The extension that marks a raw binary image.
pub open spec fn binary_extension() -> Seq<char> {
    "bin"@
}

/// The derived binary path: `input` with its extension replaced by the
/// marker for a raw binary image.
pub open spec fn binary_path_of(input: Seq<char>) -> Seq<char> {
    path_with_extension(input, binary_extension())
}

/// Where the image goes, given the final component of the derived binary
/// path as `std::path` found it: inside `output` under that same name, or
/// nowhere if there is no such component.
pub open spec fn destination_for_name(output: Seq<char>, name: Option<Seq<char>>) -> Result<
    Seq<char>,
    CpyErrorView,
> {
    match name {
        Some(text) => Ok(path_joined(output, text)),
        None => Err(CpyErrorView::MissingFileName),
    }
}

/// Where the image at `binary` goes when `output` is the directory that
/// receives it.
pub open spec fn destination_of(output: Seq<char>, binary: Seq<char>) -> Result<
    Seq<char>,
    CpyErrorView,
> {
    destination_for_name(output, path_file_name(binary))
}

/// The value of an optional text.
pub open spec fn option_text(text: Option<String>) -> Option<Seq<char>> {
    match text {
        Some(text) => Some(text@),
        None => None,
    }
}

/// Derives the path of the raw binary image from the path of the
/// executable: the same path with the extension `bin`.
///
/// The image is written next to the executable and stays there after the
/// run: it is a build artifact, and nothing removes it.
pub fn binary_path(input: &str) -> (binary: String)
    ensures
        binary@ == binary_path_of(input@),
{
    proof {
        reveal_strlit("bin");
    }
    set_extension(input, "bin")
}

/// Decides where the image goes once the final component of its path is
/// known: `output` joined with that component. Without a component there is
/// nowhere to copy to, and the run fails.
pub fn destination_for(output: &str, name: Option<String>) -> (destination: Result<
    String,
    CpyError,
>)
    ensures
        text_or_error(destination) == destination_for_name(output@, option_text(name)),
{
    match name {
        Some(text) => Ok(push(output, text.as_str())),
        None => Err(CpyError::MissingFileName),
    }
}

/// Computes the path that the image at `binary` is copied to: inside the
/// directory `output`, under the file name of `binary`.
pub fn destination(output: &str, binary: &str) -> (destination: Result<String, CpyError>)
    ensures
        text_or_error(destination) == destination_of(output@, binary@),
{
    destination_for(output, file_name(binary))
}

} // verus!
