//! Deciding a batch request and framing its streamed `multipart/mixed`
//! answer: each processed item becomes one part as soon as it is ready, and
//! the closing delimiter follows once at least one part was sent.

use vstd::prelude::*;
use vstd::utf8::encode_utf8;
use crate::controllers::resources::get::{
    MAX_WIDTH, Rejection, lemma_key_of_safe_path_is_safe, resource_key, resource_key_of, width_accepted,
};
use crate::models::resources::{
    category_named, prefix_of,
    BatchResourceItem, BatchResourceRequest, ResourceCategory, category_parse_result,
};
use crate::services::errors::{ImageProcessingError, ProcessingFault, processing_message};
use crate::services::multipart::{closing_bytes, finished, lemma_parts_empty_iff, part_bytes, parts_bytes};
use crate::services::storage::is_traversal;
use crate::text::{concat2, contains_str, lowercased, string_of};

verus! {

broadcast use vstd::string::group_string_axioms;

/// The most items one batch may hold.
pub const MAX_BATCH_ITEMS: usize = 50;

/// How a batch request is refused, if it is: too many items (400), a width
/// outside `1..=MAX_WIDTH` (400), or no items at all (404, empty body).
pub open spec fn batch_refusal(item_count: nat, width: u32) -> Option<(u16, Seq<char>)> {
    if item_count > MAX_BATCH_ITEMS {
        Some((400u16, "Batch limited to 50 items"@))
    } else if !width_accepted(width) {
        Some((400u16, "Width must be between 1 and 4000"@))
    } else if item_count == 0 {
        Some((404u16, Seq::<char>::empty()))
    } else {
        None
    }
}

/// The storage key of one batch item, or why the item is skipped.
pub open spec fn item_key_decision(category: Seq<char>, path: Seq<char>) -> Result<Seq<char>, Seq<char>> {
    match category_parse_result(lowercased(category), category) {
        Err(_) => Err("Invalid category: "@ + category),
        Ok(c) => if is_traversal(path) {
            Err("Invalid path"@)
        } else {
            Ok(resource_key_of(c, path))
        },
    }
}

/// The bytes of the part that carries the processed image `name`.
pub open spec fn chunk_bytes(name: Seq<char>, data: Seq<u8>, boundary: Seq<char>) -> Seq<u8> {
    encode_utf8("--"@ + boundary + "\r\n"@)
        + encode_utf8("Content-Type: image/webp\r\n"@)
        + encode_utf8("Content-Disposition: attachment; filename=\""@ + name + ".jpg\"\r\n\r\n"@)
        + data
        + encode_utf8("\r\n"@)
}

/// Checks a batch request before any item is processed.
pub fn validate_request(payload: &BatchResourceRequest) -> (r: Result<(), Rejection>)
    ensures
        match batch_refusal(payload.items@.len(), payload.config.width) {
            None => r is Ok,
            Some((status, message)) => r matches Err(j) && j.status == status && j.message@ == message,
        },
{
    if payload.items.len() > MAX_BATCH_ITEMS {
        return Err(Rejection { status: 400, message: string_of("Batch limited to 50 items") });
    }
    if payload.config.width == 0 || payload.config.width > MAX_WIDTH {
        return Err(Rejection { status: 400, message: string_of("Width must be between 1 and 4000") });
    }
    if payload.items.len() == 0 {
        return Err(Rejection { status: 404, message: String::new() });
    }
    Ok(())
}

/// The storage key of one batch item; an unknown category or a path that
/// climbs out of its directory makes the item skipped, with the reason.
pub fn batch_item_key(item: &BatchResourceItem) -> (r: Result<String, String>)
    ensures
        match r {
            Ok(k) => item_key_decision(item.category@, item.path@) == Ok::<Seq<char>, Seq<char>>(k@),
            Err(e) => item_key_decision(item.category@, item.path@) == Err::<Seq<char>, Seq<char>>(e@),
        },
{
    let category = match ResourceCategory::parse(item.category.as_str()) {
        Ok(c) => c,
        Err(_) => return Err(concat2("Invalid category: ", item.category.as_str())),
    };
    if contains_str(item.path.as_str(), "..") {
        return Err(string_of("Invalid path"));
    }
    Ok(resource_key(category, item.path.as_str()))
}

/// The part that carries the processed image `name` (sent as `name.jpg`).
pub fn build_multipart_chunk(name: &str, data: &[u8], boundary: &str) -> (chunk: Vec<u8>)
    ensures
        chunk@ == chunk_bytes(name@, data@, boundary@),
{
    let mut chunk: Vec<u8> = Vec::new();
    let mut line = concat2("--", boundary);
    line.append("\r\n");
    chunk.extend_from_slice(line.as_str().as_bytes());
    chunk.extend_from_slice("Content-Type: image/webp\r\n".as_bytes());
    let mut cd = concat2("Content-Disposition: attachment; filename=\"", name);
    cd.append(".jpg\"\r\n\r\n");
    chunk.extend_from_slice(cd.as_str().as_bytes());
    chunk.extend_from_slice(data);
    chunk.extend_from_slice("\r\n".as_bytes());
    proof {
        assert(chunk@ =~= chunk_bytes(name@, data@, boundary@));
    }
    chunk
}

/// What one batch item comes to once its image was fetched and processed:
/// the item's path with the image, or the message of the failure.
pub open spec fn item_outcome_of(path: Seq<char>, fetched: Result<Seq<u8>, ProcessingFault>) -> Result<(Seq<char>, Seq<u8>), Seq<char>> {
    match fetched {
        Ok(d) => Ok((path, d)),
        Err(f) => Err(processing_message(f)),
    }
}

/// Pairs a processed batch item with its path, or turns the failure into
/// the message the item is skipped with.
pub fn item_outcome(path: String, fetched: Result<Vec<u8>, ImageProcessingError>) -> (r: Result<(String, Vec<u8>), String>)
    ensures
        match fetched {
            Ok(d) => r matches Ok((p, o)) && item_outcome_of(path@, Ok(d@)) == Ok::<(Seq<char>, Seq<u8>), Seq<char>>((p@, o@)),
            Err(e) => r matches Err(m) && item_outcome_of(path@, Err(e@)) == Err::<(Seq<char>, Seq<u8>), Seq<char>>(m@),
        },
{
    match fetched {
        Ok(d) => Ok((path, d)),
        Err(e) => Err(e.message()),
    }
}

/// A batch answer being streamed: its boundary and whether a part was sent.
pub struct BulkStream {
    boundary: String,
    has_items: bool,
}

/// The abstract state of a [`BulkStream`].
pub struct StreamState {
    pub boundary: Seq<char>,
    pub has_items: bool,
}

impl View for BulkStream {
    type V = StreamState;

    closed spec fn view(&self) -> StreamState {
        StreamState { boundary: self.boundary@, has_items: self.has_items }
    }
}

/// One step of the stream: a processed item `Some((name, data))` is sent as a
/// part; a skipped item (`None`) sends nothing.
pub open spec fn stream_step(boundary: Seq<char>, has_items: bool, outcome: Option<(Seq<char>, Seq<u8>)>) -> (bool, Seq<u8>) {
    match outcome {
        Some((name, data)) => (true, chunk_bytes(name, data, boundary)),
        None => (has_items, Seq::<u8>::empty()),
    }
}

/// The closing bytes sent when the stream ends.
pub open spec fn stream_end(boundary: Seq<char>, has_items: bool) -> Seq<u8> {
    if has_items { closing_bytes(boundary) } else { Seq::<u8>::empty() }
}

/// Views an item outcome by its abstract values.
pub open spec fn outcome_view(o: Result<(String, Vec<u8>), String>) -> Option<(Seq<char>, Seq<u8>)> {
    match o {
        Ok((name, data)) => Some((name@, data@)),
        Err(_) => None,
    }
}

impl BulkStream {
    /// A stream delimited by `boundary` that has sent nothing yet.
    pub fn new(boundary: &str) -> (s: Self)
        ensures
            s@.boundary == boundary@,
            !s@.has_items,
    {
        BulkStream { boundary: string_of(boundary), has_items: false }
    }

    /// Handles the outcome of one item: the part to send for a processed
    /// item, nothing for a skipped one.
    pub fn on_item(&mut self, outcome: &Result<(String, Vec<u8>), String>) -> (sent: Option<Vec<u8>>)
        ensures
            final(self)@.boundary == old(self)@.boundary,
            final(self)@.has_items == stream_step(old(self)@.boundary, old(self)@.has_items, outcome_view(*outcome)).0,
            match sent {
                Some(c) => c@ == stream_step(old(self)@.boundary, old(self)@.has_items, outcome_view(*outcome)).1
                    && outcome is Ok,
                None => outcome is Err,
            },
    {
        match outcome {
            Ok((name, data)) => {
                self.has_items = true;
                Some(build_multipart_chunk(name.as_str(), data.as_slice(), self.boundary.as_str()))
            },
            Err(_) => None,
        }
    }

    /// The closing delimiter to send when all items are handled, if any part
    /// was sent.
    pub fn close(&self) -> (last: Option<Vec<u8>>)
        ensures
            match last {
                Some(c) => self@.has_items && c@ == stream_end(self@.boundary, true),
                None => !self@.has_items,
            },
    {
        if self.has_items {
            let mut line = concat2("--", self.boundary.as_str());
            line.append("--\r\n");
            let mut out: Vec<u8> = Vec::new();
            out.extend_from_slice(line.as_str().as_bytes());
            proof {
                assert(out@ =~= closing_bytes(self@.boundary));
            }
            Some(out)
        } else {
            None
        }
    }
}

/// The state and the bytes sent after handling `outcomes` in order.
pub open spec fn stream_run(boundary: Seq<char>, outcomes: Seq<Option<(Seq<char>, Seq<u8>)>>) -> (bool, Seq<u8>)
    decreases outcomes.len(),
{
    if outcomes.len() == 0 {
        (false, Seq::<u8>::empty())
    } else {
        let (has, sent) = stream_run(boundary, outcomes.drop_last());
        let (has2, chunk) = stream_step(boundary, has, outcomes.last());
        (has2, sent + chunk)
    }
}

/// Everything a stream sends for `outcomes`, closing delimiter included.
pub open spec fn stream_output(boundary: Seq<char>, outcomes: Seq<Option<(Seq<char>, Seq<u8>)>>) -> Seq<u8> {
    stream_run(boundary, outcomes).1 + stream_end(boundary, stream_run(boundary, outcomes).0)
}

/// The parts a builder would receive for the processed items of `outcomes`:
/// content type `image/webp`, file name `name.jpg`.
pub open spec fn delivered_parts(outcomes: Seq<Option<(Seq<char>, Seq<u8>)>>) -> Seq<(Seq<char>, Seq<char>, Seq<u8>)>
    decreases outcomes.len(),
{
    if outcomes.len() == 0 {
        Seq::empty()
    } else {
        match outcomes.last() {
            Some((name, data)) => delivered_parts(outcomes.drop_last()).push(("image/webp"@, name + ".jpg"@, data)),
            None => delivered_parts(outcomes.drop_last()),
        }
    }
}

/// A streamed part is the part a builder writes for the same image, sent as
/// `name.jpg` with content type `image/webp`.
pub proof fn law_chunk_is_part(name: Seq<char>, data: Seq<u8>, boundary: Seq<char>)
    ensures
        chunk_bytes(name, data, boundary) == part_bytes(boundary, "image/webp"@, name + ".jpg"@, data),
{
    reveal_strlit("Content-Type: ");
    reveal_strlit("image/webp");
    reveal_strlit("\r\n");
    reveal_strlit("Content-Type: image/webp\r\n");
    reveal_strlit(".jpg");
    reveal_strlit("\"\r\n\r\n");
    reveal_strlit(".jpg\"\r\n\r\n");
    assert("Content-Type: "@ + "image/webp"@ + "\r\n"@ =~= "Content-Type: image/webp\r\n"@);
    assert("Content-Disposition: attachment; filename=\""@ + (name + ".jpg"@) + "\"\r\n\r\n"@
        =~= "Content-Disposition: attachment; filename=\""@ + name + ".jpg\"\r\n\r\n"@);
}

proof fn lemma_stream_run(boundary: Seq<char>, outcomes: Seq<Option<(Seq<char>, Seq<u8>)>>)
    ensures
        stream_run(boundary, outcomes).0 == (delivered_parts(outcomes).len() > 0),
        stream_run(boundary, outcomes).1 == parts_bytes(boundary, delivered_parts(outcomes)),
    decreases outcomes.len(),
{
    if outcomes.len() > 0 {
        lemma_stream_run(boundary, outcomes.drop_last());
        let prev = delivered_parts(outcomes.drop_last());
        match outcomes.last() {
            Some((name, data)) => {
                law_chunk_is_part(name, data, boundary);
                let parts = prev.push(("image/webp"@, name + ".jpg"@, data));
                assert(parts.drop_last() =~= prev);
            },
            None => {
                assert(stream_run(boundary, outcomes).1 =~= stream_run(boundary, outcomes.drop_last()).1);
            },
        }
    }
}

/// Streaming a batch sends exactly the body a multipart builder produces for
/// its processed items, in the order they are handed to it: each as a part, then the
/// closing delimiter, or nothing at all when every item was skipped.
pub proof fn law_stream_matches_builder(boundary: Seq<char>, outcomes: Seq<Option<(Seq<char>, Seq<u8>)>>)
    ensures
        stream_output(boundary, outcomes) == finished(boundary, parts_bytes(boundary, delivered_parts(outcomes))),
{
    lemma_stream_run(boundary, outcomes);
    lemma_parts_empty_iff(boundary, delivered_parts(outcomes));
    if delivered_parts(outcomes).len() == 0 {
        assert(stream_output(boundary, outcomes) =~= Seq::<u8>::empty());
    }
}

/// A batch of more than `MAX_BATCH_ITEMS` items is refused with 400,
/// whatever else it holds.
pub proof fn law_batch_size_cap(item_count: nat, width: u32)
    requires
        item_count > MAX_BATCH_ITEMS,
    ensures
        batch_refusal(item_count, width) == Some((400u16, "Batch limited to 50 items"@)),
{
}

/// A batch within the size limit but with a width outside `1..=MAX_WIDTH`
/// is refused with 400.
pub proof fn law_batch_width_cap(item_count: nat, width: u32)
    requires
        item_count <= MAX_BATCH_ITEMS,
        !width_accepted(width),
    ensures
        batch_refusal(item_count, width) == Some((400u16, "Width must be between 1 and 4000"@)),
{
}

/// A batch item whose path climbs out of its directory is skipped, and every
/// key a batch item is fetched under passes the storage guard.
pub proof fn law_item_keys_pass_storage_guard(category: Seq<char>, path: Seq<char>)
    ensures
        is_traversal(path) ==> item_key_decision(category, path) is Err,
        item_key_decision(category, path) matches Ok(key) ==> !is_traversal(key),
{
    if let Ok(c) = category_parse_result(lowercased(category), category) {
        if !is_traversal(path) {
            lemma_key_of_safe_path_is_safe(c, path);
        }
    }
}


/// A batch item of a known category whose path does not climb out of its
/// directory is fetched under the category's prefix, `/`, then its path.
pub proof fn law_valid_item_fetched_under_its_key(category: Seq<char>, path: Seq<char>, c: ResourceCategory)
    requires
        category_named(lowercased(category)) == Some(c),
        !is_traversal(path),
    ensures
        item_key_decision(category, path) == Ok::<Seq<char>, Seq<char>>(prefix_of(c) + "/"@ + path),
{
}


/// A batch of 1 to `MAX_BATCH_ITEMS` items with a width in `1..=MAX_WIDTH`
/// is accepted, and an empty batch with such a width is answered 404 with
/// an empty body.
pub proof fn law_batch_acceptance(item_count: nat, width: u32)
    requires
        1 <= width <= 4000,
    ensures
        1 <= item_count <= 50 ==> batch_refusal(item_count, width) is None,
        item_count == 0 ==> batch_refusal(item_count, width) == Some((404u16, Seq::<char>::empty())),
{
}

} // verus!
