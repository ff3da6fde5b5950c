//! The size report: the one line that a successful run prints.

use vstd::prelude::*;

verus! {

/// The text that `bytesize` prints for a size of `bytes` bytes in its IEC
/// style: binary units, as in `4.0 KiB`.
pub uninterp spec fn iec_size_text(bytes: u64) -> Seq<char>;

/// Formats a byte count with `bytesize`: `ByteSize::display`, set to
/// `Display::iec`, printed through its `Display` impl. Not proved: that the
/// text is the one named [`iec_size_text`].
#[verifier::external_body]
fn iec_size(bytes: u64) -> (text: String)
    ensures
        text@ == iec_size_text(bytes),
{
    bytesize::ByteSize(bytes).display().iec().to_string()
}

/// The report line for a size that is already written out.
pub open spec fn report_line(size: Seq<char>) -> Seq<char> {
    "Final binary size: "@ + size
}

/// The report line for an image of `len` bytes.
pub open spec fn size_report_of(len: u64) -> Seq<char> {
    report_line(iec_size_text(len))
}

/// Puts the label of the report before a size that is already written out.
pub fn label_size(size: &str) -> (line: String)
    ensures
        line@ == report_line(size@),
{
    let mut line = String::from_str("Final binary size: ");
    line.append(size);
    line
}

/// Writes the report line for an image of `len` bytes: the label, then the
/// size in binary units.
pub fn size_report(len: u64) -> (line: String)
    ensures
        line@ == size_report_of(len),
{
    let size = iec_size(len);
    label_size(size.as_str())
}

} // verus!
