//! The conversion step: what the object-copy tool is asked to do, and how
//! its result is judged.

use crate::error::{CpyError, CpyErrorView};
use vstd::prelude::*;
use vstd::utf8::{decode_utf8, valid_utf8};

verus! {

/// The text with which `String::from_utf8` describes its failure on
/// `bytes`: the `Display` text of the error that it returns.
pub uninterp spec fn utf8_error_text(bytes: Seq<u8>) -> Seq<char>;

/// What decoding `bytes` as UTF-8 gives: the characters that they encode,
/// or the description of why they encode none.
pub open spec fn decoded_text(bytes: Seq<u8>) -> Result<Seq<char>, Seq<char>> {
    if valid_utf8(bytes) {
        Ok(decode_utf8(bytes))
    } else {
        Err(utf8_error_text(bytes))
    }
}

/// The value of a decoding result.
pub open spec fn decoding_view(decoded: Result<String, String>) -> Result<Seq<char>, Seq<char>> {
    match decoded {
        Ok(text) => Ok(text@),
        Err(cause) => Err(cause@),
    }
}

/// Calls `String::from_utf8` and, where it fails, takes the `Display` text
/// of its error. Not proved: that it succeeds exactly on valid UTF-8 and
/// then holds the characters that the bytes encode, and that on other bytes
/// the text of its error is the one named [`utf8_error_text`].
#[verifier::external_body]
fn decode(bytes: Vec<u8>) -> (decoded: Result<String, String>)
    ensures
        (match decoded {
            Ok(text) => valid_utf8(bytes@) && text@ == decode_utf8(bytes@),
            Err(cause) => !valid_utf8(bytes@) && cause@ == utf8_error_text(bytes@),
        }),
{
    match String::from_utf8(bytes) {
        Ok(text) => Ok(text),
        Err(error) => Err(error.to_string()),
    }
}

/// The command line of one run of the object-copy tool.
#[derive(Debug, PartialEq, Eq)]
pub struct ConverterCommand {
    /// The name of the tool, looked up on the search path.
    pub program: String,
    /// The arguments handed to the tool, in order.
    pub args: Vec<String>,
}

/// The mathematical value of a [`ConverterCommand`].
pub struct ConverterCommandView {
    pub program: Seq<char>,
    pub args: Seq<Seq<char>>,
}

impl View for ConverterCommand {
    type V = ConverterCommandView;

    open spec fn view(&self) -> ConverterCommandView {
        ConverterCommandView {
            program: self.program@,
            args: Seq::new(self.args@.len(), |i: int| self.args@[i]@),
        }
    }
}

/// The command that turns the executable at `input` into a raw binary image
/// at `binary`: the tool, the input, the flag that selects raw binary
/// output, and the place to write to.
pub open spec fn converter_command_of(
    input: Seq<char>,
    binary: Seq<char>,
) -> ConverterCommandView {
    ConverterCommandView {
        program: "rust-objcopy"@,
        args: seq![input, "-O"@, "binary"@, binary],
    }
}

/// How a finished run of the tool is judged once its error stream has been
/// decoded. An error stream that is not text fails the conversion whatever
/// the exit status; a failure status fails it with the text of the stream.
pub open spec fn conversion_verdict(
    success: bool,
    decoded: Result<Seq<char>, Seq<char>>,
) -> Result<(), CpyErrorView> {
    match decoded {
        Err(cause) => Err(CpyErrorView::StderrNotText { cause }),
        Ok(text) => if success {
            Ok(())
        } else {
            Err(CpyErrorView::ConversionFailed { stderr: text })
        },
    }
}

/// The value of a verdict.
pub open spec fn verdict_view(verdict: Result<(), CpyError>) -> Result<(), CpyErrorView> {
    match verdict {
        Ok(()) => Ok(()),
        Err(error) => Err(error@),
    }
}

/// Builds the command line for converting `input` into `binary`.
pub fn converter_command(input: &str, binary: &str) -> (command: ConverterCommand)
    ensures
        command@ == converter_command_of(input@, binary@),
{
    let mut args: Vec<String> = Vec::new();
    args.push(String::from_str(input));
    args.push(String::from_str("-O"));
    args.push(String::from_str("binary"));
    args.push(String::from_str(binary));
    let command = ConverterCommand { program: String::from_str("rust-objcopy"), args };
    assert(command@.args =~= converter_command_of(input@, binary@).args);
    command
}

/// Judges a finished run of the tool from its exit status and its decoded
/// error stream.
pub fn judge_conversion(success: bool, decoded: Result<String, String>) -> (verdict: Result<
    (),
    CpyError,
>)
    ensures
        verdict_view(verdict) == conversion_verdict(success, decoding_view(decoded)),
{
    match decoded {
        Err(cause) => Err(CpyError::StderrNotText { cause }),
        Ok(text) => {
            if success {
                Ok(())
            } else {
                Err(CpyError::ConversionFailed { stderr: text })
            }
        },
    }
}

/// Judges a finished run of the tool from its exit status and the bytes of
/// its error stream.
pub fn check_conversion(success: bool, stderr: Vec<u8>) -> (verdict: Result<(), CpyError>)
    ensures
        verdict_view(verdict) == conversion_verdict(success, decoded_text(stderr@)),
{
    judge_conversion(success, decode(stderr))
}

} // verus!
