//! The buffer that the text of a document is written into.

use html_builder::Buffer;
use std::fmt::Write;
use vstd::prelude::*;

verus! {

/// `html_builder::Buffer`, the buffer itself. What it holds is told by
/// [`buffer_text`].
#[verifier::external_type_specification]
#[verifier::external_body]
pub struct ExBuffer(html_builder::Buffer);

/// `core::fmt::Error`, the failure of a write. It tells nothing more.
#[verifier::external_type_specification]
#[verifier::external_body]
pub struct ExFmtError(core::fmt::Error);

/// The text that a buffer holds: the string that `Buffer::finish` gives back
/// for it, which is what was written into it and the closing of what tags
/// are still open.
pub uninterp spec fn buffer_text(buffer: Buffer) -> Seq<char>;

/// `Buffer::new`: the new buffer holds no text.
pub assume_specification[ Buffer::new ]() -> (buffer: Buffer)
    ensures
        buffer_text(buffer) == Seq::<char>::empty(),
;

/// `Buffer::finish`: gives back the text that the buffer holds.
pub assume_specification[ Buffer::finish ](buffer: Buffer) -> (text: String)
    ensures
        text@ == buffer_text(buffer),
;

/// `write_str`, of the `fmt::Write` that the root node of a buffer has.
///
/// That method closes what tags are open, as `Buffer::finish` would, and
/// then hands `text` unchanged to `write_str` of the `String` in which the
/// buffer keeps its text. So the text that the buffer holds grows by `text`
/// and by nothing else. The result is that of the `String`, and `fmt::Write`
/// for `String` never returns an error: so it is `Ok`.
#[verifier::external_body]
pub(crate) fn write_text(target: &mut Buffer, text: &str) -> (written: Result<(), core::fmt::Error>)
    ensures
        written is Ok,
        buffer_text(*final(target)) == buffer_text(*old(target)) + text@,
{
    target.write_str(text)
}

} // verus!
