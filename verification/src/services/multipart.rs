//! Building `multipart/mixed` bodies: one part per image, closed by a final
//! delimiter once at least one part was written.

use vstd::prelude::*;
use vstd::utf8::encode_utf8;
use crate::text::concat2;

verus! {

broadcast use vstd::string::group_string_axioms;

/// The bytes of one part: its delimiter line, its `Content-Type` and
/// `Content-Disposition` headers, a blank line, the data and a line break.
pub open spec fn part_bytes(boundary: Seq<char>, content_type: Seq<char>, filename: Seq<char>, data: Seq<u8>) -> Seq<u8> {
    encode_utf8("--"@ + boundary + "\r\n"@)
        + encode_utf8("Content-Type: "@ + content_type + "\r\n"@)
        + encode_utf8("Content-Disposition: attachment; filename=\""@ + filename + "\"\r\n\r\n"@)
        + data
        + encode_utf8("\r\n"@)
}

/// The closing delimiter line of a body.
pub open spec fn closing_bytes(boundary: Seq<char>) -> Seq<u8> {
    encode_utf8("--"@ + boundary + "--\r\n"@)
}

/// The parts `(content type, file name, data)` written one after another.
pub open spec fn parts_bytes(boundary: Seq<char>, parts: Seq<(Seq<char>, Seq<char>, Seq<u8>)>) -> Seq<u8>
    decreases parts.len(),
{
    if parts.len() == 0 {
        Seq::empty()
    } else {
        parts_bytes(boundary, parts.drop_last())
            + part_bytes(boundary, parts.last().0, parts.last().1, parts.last().2)
    }
}

/// What finishing a body that holds `buffer` gives: nothing is added to an
/// empty body, the closing delimiter to any other.
pub open spec fn finished(boundary: Seq<char>, buffer: Seq<u8>) -> Seq<u8> {
    if buffer.len() == 0 {
        buffer
    } else {
        buffer + closing_bytes(boundary)
    }
}

/// The abstract state of a builder: its boundary and the bytes written so far.
pub struct MultipartState {
    pub boundary: Seq<char>,
    pub buffer: Seq<u8>,
}

/// Accumulates the parts of a `multipart/mixed` body.
pub struct MultipartBuilder {
    boundary: String,
    buffer: Vec<u8>,
}

impl View for MultipartBuilder {
    type V = MultipartState;

    closed spec fn view(&self) -> MultipartState {
        MultipartState { boundary: self.boundary@, buffer: self.buffer@ }
    }
}

/// Appends the UTF-8 bytes of `s` to `buf`.
fn push_text(buf: &mut Vec<u8>, s: &str)
    ensures
        final(buf)@ == old(buf)@ + encode_utf8(s@),
{
    buf.extend_from_slice(s.as_bytes());
    assert(final(buf)@ =~= old(buf)@ + encode_utf8(s@));
}

/// Appends `data` to `buf`.
fn push_bytes(buf: &mut Vec<u8>, data: &[u8])
    ensures
        final(buf)@ == old(buf)@ + data@,
{
    buf.extend_from_slice(data);
    assert(final(buf)@ =~= old(buf)@ + data@);
}

/// `"--"`, `boundary` and `tail`, as one string.
fn delimiter_line(boundary: &str, tail: &str) -> (r: String)
    ensures
        r@ == "--"@ + boundary@ + tail@,
{
    let mut r = String::new();
    r.append("--");
    r.append(boundary);
    r.append(tail);
    proof {
        assert(r@ =~= "--"@ + boundary@ + tail@);
    }
    r
}

/// Appends the bytes of one part to `buf`.
pub fn write_part(buf: &mut Vec<u8>, boundary: &str, content_type: &str, filename: &str, data: &[u8])
    ensures
        final(buf)@ == old(buf)@ + part_bytes(boundary@, content_type@, filename@, data@),
{
    let line = delimiter_line(boundary, "\r\n");
    push_text(buf, line.as_str());
    let mut ct = concat2("Content-Type: ", content_type);
    ct.append("\r\n");
    push_text(buf, ct.as_str());
    let mut cd = concat2("Content-Disposition: attachment; filename=\"", filename);
    cd.append("\"\r\n\r\n");
    push_text(buf, cd.as_str());
    push_bytes(buf, data);
    push_text(buf, "\r\n");
    proof {
        assert(final(buf)@ =~= old(buf)@ + part_bytes(boundary@, content_type@, filename@, data@));
    }
}

impl MultipartBuilder {
    /// An empty body delimited by `boundary`.
    pub fn new(boundary: &str) -> (b: Self)
        ensures
            b@.boundary == boundary@,
            b@.buffer == Seq::<u8>::empty(),
    {
        let mut s = String::new();
        s.append(boundary);
        MultipartBuilder { boundary: s, buffer: Vec::new() }
    }

    /// Appends one part (one image) to the body.
    pub fn add_part(&mut self, filename: &str, content_type: &str, data: &[u8])
        ensures
            final(self)@.boundary == old(self)@.boundary,
            final(self)@.buffer == old(self)@.buffer
                + part_bytes(old(self)@.boundary, content_type@, filename@, data@),
    {
        write_part(&mut self.buffer, self.boundary.as_str(), content_type, filename, data);
    }

    /// The finished body: the parts followed by the closing delimiter, or
    /// nothing at all when no part was added.
    pub fn finish(self) -> (body: Vec<u8>)
        ensures
            body@ == finished(self@.boundary, self@.buffer),
    {
        let mut buffer = self.buffer;
        if buffer.len() != 0 {
            let line = delimiter_line(self.boundary.as_str(), "--\r\n");
            push_text(&mut buffer, line.as_str());
        }
        buffer
    }
}

/// Every character encodes to at least one byte, so a non-empty text has a
/// non-empty encoding.
pub proof fn lemma_encode_nonempty(s: Seq<char>)
    requires
        s.len() > 0,
    ensures
        encode_utf8(s).len() > 0,
{
    reveal_with_fuel(encode_utf8, 2);
    let c = s[0] as u32;
    assert(vstd::utf8::encode_scalar(c).len() > 0);
}

/// A part is never empty: it starts with its delimiter line.
pub proof fn lemma_part_nonempty(boundary: Seq<char>, content_type: Seq<char>, filename: Seq<char>, data: Seq<u8>)
    ensures
        part_bytes(boundary, content_type, filename, data).len() > 0,
{
    reveal_strlit("--");
    lemma_encode_nonempty("--"@ + boundary + "\r\n"@);
}

/// A body is empty exactly when no part was written to it.
pub proof fn lemma_parts_empty_iff(boundary: Seq<char>, parts: Seq<(Seq<char>, Seq<char>, Seq<u8>)>)
    ensures
        (parts_bytes(boundary, parts).len() == 0) <==> (parts.len() == 0),
    decreases parts.len(),
{
    if parts.len() > 0 {
        lemma_part_nonempty(boundary, parts.last().0, parts.last().1, parts.last().2);
    }
}

/// Finishing frames the parts: a body with parts ends with the closing
/// delimiter right after the last part, and a body without parts stays empty.
pub proof fn law_finish_frames_parts(boundary: Seq<char>, parts: Seq<(Seq<char>, Seq<char>, Seq<u8>)>)
    ensures
        parts.len() == 0 ==> finished(boundary, parts_bytes(boundary, parts)) == Seq::<u8>::empty(),
        parts.len() > 0 ==> finished(boundary, parts_bytes(boundary, parts))
            == parts_bytes(boundary, parts) + closing_bytes(boundary),
{
    lemma_parts_empty_iff(boundary, parts);
}

} // verus!
