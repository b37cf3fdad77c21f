//! Small helpers: clock, task ids, chunking and truncation.

use vstd::prelude::*;
use vstd::slice::slice_subrange;
use vstd::string::StringSliceAdditionalSpecFns;
use vstd::utf8::{decode_utf8, encode_utf8, is_char_boundary};

verus! {

/// Reads the system clock through `std::time::SystemTime::now` and gives
/// the milliseconds since the Unix epoch, or 0 where the clock stands
/// before the epoch. Nothing is promised of the value.
#[verifier::external_body]
pub fn current_timestamp_ms() -> (now: u64) {
    std::time::SystemTime::now().duration_since(std::time::UNIX_EPOCH).map(
        |d| d.as_millis() as u64,
    ).unwrap_or(0)
}

/// The text that `chrono` writes for the moment `millis` milliseconds after
/// the Unix epoch, in UTC and as RFC 3339; none where `chrono` has no date
/// for the moment.
pub uninterp spec fn rfc3339_text(millis: i64) -> Option<Seq<char>>;

/// `text` has the frame of a time in UTC as RFC 3339 writes it: at least
/// the 25 characters of date, time and offset, the offset being `+00:00`.
pub open spec fn is_timestamp(text: Seq<char>) -> bool {
    text.len() >= 25 && "+00:00"@.is_suffix_of(text)
}

/// Makes the moment with `chrono::DateTime::from_timestamp_millis`, which
/// gives none for a moment out of its range, and writes it with
/// `DateTime::to_rfc3339`: year, month, day, `T`, hours, minutes, seconds,
/// a fraction where there is one, and the offset `+00:00`.
#[verifier::external_body]
fn rfc3339_of_millis(millis: i64) -> (text: Option<String>)
    ensures
        text is Some <==> rfc3339_text(millis) is Some,
        text is Some ==> text->0@ == rfc3339_text(millis)->0 && is_timestamp(text->0@),
{
    chrono::DateTime::from_timestamp_millis(millis).map(|moment| moment.to_rfc3339())
}

/// The time `millis` milliseconds after the Unix epoch as text; the epoch
/// itself for a moment that has no date.
pub open spec fn iso8601_text(millis: u64) -> Seq<char> {
    if millis <= i64::MAX && rfc3339_text(millis as i64) is Some {
        rfc3339_text(millis as i64)->0
    } else {
        "1970-01-01T00:00:00+00:00"@
    }
}

/// Writes the time `millis` milliseconds after the Unix epoch in ISO 8601
/// format.
pub fn iso8601_at(millis: u64) -> (text: String)
    ensures
        text@ == iso8601_text(millis),
        is_timestamp(text@),
{
    if millis <= 0x7fff_ffff_ffff_ffff {
        if let Some(text) = rfc3339_of_millis(millis as i64) {
            return text;
        }
    }
    let epoch = String::from_str("1970-01-01T00:00:00+00:00");
    proof {
        reveal_strlit("1970-01-01T00:00:00+00:00");
        reveal_strlit("+00:00");
        assert(epoch@.subrange(19, 25) =~= "+00:00"@);
    }
    epoch
}

/// Get current time string in ISO 8601 format.
pub fn current_iso8601() -> (now: String)
    ensures
        is_timestamp(now@),
        exists|millis: u64| now@ == #[trigger] iso8601_text(millis),
{
    iso8601_at(current_timestamp_ms())
}

/// `c` is one of `0`..`9`, `a`..`f`.
pub open spec fn is_lower_hex(c: char) -> bool {
    ('0' <= c && c <= '9') || ('a' <= c && c <= 'f')
}

/// `id` is `task-` followed by 32 lower-case hexadecimal digits.
pub open spec fn is_task_id(id: Seq<char>) -> bool {
    exists|hex: Seq<char>|
        #![trigger "task-"@ + hex]
        id == "task-"@ + hex && hex.len() == 32 && forall|i: int|
            0 <= i < 32 ==> is_lower_hex(#[trigger] hex[i])
}

/// The digits that `uuid` writes for the identifier made of 16 random
/// bytes.
pub uninterp spec fn uuid_simple_text(bytes: Seq<u8>) -> Seq<char>;

/// Makes a version 4 identifier of 16 random bytes with
/// `uuid::Builder::from_random_bytes` and writes it in the `Simple` format
/// of `uuid`: 32 lower-case hexadecimal digits without hyphens.
#[verifier::external_body]
fn uuid_simple(bytes: &[u8; 16]) -> (hex: String)
    ensures
        hex@ == uuid_simple_text(bytes@),
        hex@.len() == 32,
        forall|i: int| 0 <= i < 32 ==> is_lower_hex(#[trigger] hex@[i]),
{
    uuid::Builder::from_random_bytes(*bytes).into_uuid().simple().to_string()
}

/// The task id made of the given digits.
pub fn task_id_from(hex: &str) -> (id: String)
    ensures
        id@ == "task-"@ + hex@,
{
    String::from_str("task-").concat(hex)
}

/// The task id of the given digits, as a mathematical value.
pub open spec fn task_id_of(entropy: Seq<u8>) -> Seq<char> {
    "task-"@ + uuid_simple_text(entropy)
}

/// Generate a task ID from 16 random bytes: ids of different draws differ
/// with all but negligible probability.
pub fn generate_task_id(entropy: &[u8; 16]) -> (id: String)
    ensures
        id@ == task_id_of(entropy@),
        is_task_id(id@),
{
    let hex = uuid_simple(entropy);
    task_id_from(hex.as_str())
}

/// The `k`-th run of `size` items of `items`; the last run may be shorter.
pub open spec fn chunk_of<T>(items: Seq<T>, size: int, k: int) -> Seq<T> {
    items.subrange(
        k * size,
        if k * size + size <= items.len() {
            k * size + size
        } else {
            items.len() as int
        },
    )
}

/// Splits a slice into runs of `chunk_size` items, in order; the last run
/// holds what is left.
pub fn chunk_slice<T>(slice: &[T], chunk_size: usize) -> (chunks: Vec<&[T]>)
    requires
        chunk_size > 0,
    ensures
        slice@.len() == 0 ==> chunks@.len() == 0,
        slice@.len() > 0 ==> (chunks@.len() - 1) * chunk_size < slice@.len() <= chunks@.len()
            * chunk_size,
        forall|k: int|
            0 <= k < chunks@.len() ==> (#[trigger] chunks@[k])@ == chunk_of(
                slice@,
                chunk_size as int,
                k,
            ),
{
    let len = slice.len();
    let mut chunks: Vec<&[T]> = Vec::new();
    let mut start: usize = 0;
    proof {
        assert(0 * chunk_size == 0) by (nonlinear_arith);
    }
    while start < len
        invariant
            len == slice@.len(),
            chunk_size > 0,
            start <= len,
            start < len ==> start == chunks@.len() * chunk_size,
            start == len && len > 0 ==> (chunks@.len() - 1) * chunk_size < len <= chunks@.len()
                * chunk_size,
            len == 0 ==> chunks@.len() == 0,
            forall|k: int|
                0 <= k < chunks@.len() ==> (#[trigger] chunks@[k])@ == chunk_of(
                    slice@,
                    chunk_size as int,
                    k,
                ),
        decreases len - start,
    {
        let ghost k = chunks@.len() as int;
        let end: usize = if len - start < chunk_size {
            len
        } else {
            start + chunk_size
        };
        proof {
            assert((k + 1) * chunk_size == k * chunk_size + chunk_size) by (nonlinear_arith);
            assert((k + 1 - 1) * chunk_size == k * chunk_size) by (nonlinear_arith);
        }
        let piece = slice_subrange(slice, start, end);
        chunks.push(piece);
        start = end;
    }
    chunks
}

/// A run of `n` dots.
pub open spec fn dots(n: nat) -> Seq<char> {
    Seq::new(n, |i: int| '.')
}

/// The greatest index at or below `limit` at which the text may be cut
/// without splitting a character.
pub open spec fn floor_boundary(bytes: Seq<u8>, limit: int) -> int
    decreases limit,
{
    if limit <= 0 {
        0
    } else if is_char_boundary(bytes, limit) {
        limit
    } else {
        floor_boundary(bytes, limit - 1)
    }
}

/// `s` cut down to at most `max_len` bytes of UTF-8. A text that fits is
/// kept. Otherwise, with room for more than three bytes, the text is cut
/// three bytes before the limit, or just before the character that stands
/// across that place, and three dots follow; with less room the result is
/// dots alone.
pub open spec fn truncated(s: Seq<char>, max_len: nat) -> Seq<char> {
    let bytes = encode_utf8(s);
    if bytes.len() <= max_len {
        s
    } else if max_len <= 3 {
        dots(max_len)
    } else {
        decode_utf8(bytes.subrange(0, floor_boundary(bytes, max_len - 3))) + "..."@
    }
}

fn dot_string(n: usize) -> (text: String)
    ensures
        text@ == dots(n as nat),
{
    let mut text = String::new();
    let mut i: usize = 0;
    proof {
        assert(text@ =~= dots(0));
    }
    while i < n
        invariant
            i <= n,
            text@ == dots(i as nat),
        decreases n - i,
    {
        text.append(".");
        proof {
            reveal_strlit(".");
            assert(text@ =~= dots((i + 1) as nat));
        }
        i = i + 1;
    }
    text
}

/// Truncate string (replace end with "..." if exceeds maximum length).
pub fn truncate_string(s: &str, max_len: usize) -> (text: String)
    ensures
        text@ == truncated(s@, max_len as nat),
{
    broadcast use vstd::utf8::group_utf8_lib;

    let ghost bytes = s.spec_bytes();
    proof {
        vstd::utf8::encode_utf8_valid_utf8(s@);
    }
    if s.as_bytes().len() <= max_len {
        String::from_str(s)
    } else if max_len <= 3 {
        dot_string(max_len)
    } else {
        let mut cut: usize = max_len - 3;
        while !s.is_char_boundary(cut)
            invariant
                bytes == encode_utf8(s@),
                vstd::utf8::valid_utf8(bytes),
                cut <= max_len - 3,
                max_len < bytes.len(),
                floor_boundary(bytes, max_len - 3) == floor_boundary(bytes, cut as int),
            decreases cut,
        {
            proof {
                assert(cut > 0) by {
                    vstd::utf8::is_char_boundary_start_end_of_seq(bytes);
                }
            }
            cut = cut - 1;
        }
        let (head, _) = s.split_at(cut);
        proof {
            assert(floor_boundary(bytes, cut as int) == cut);
            assert(head.spec_bytes() == bytes.subrange(0, cut as int));
            vstd::utf8::encode_utf8_decode_utf8(head@);
            assert(decode_utf8(head.spec_bytes()) == head@);
        }
        String::from_str(head).concat("...")
    }
}

/// Where the text does not fit and the limit is at most three, the result
/// is exactly `max_len` dots.
pub proof fn lemma_short_limit_gives_dots(s: Seq<char>, max_len: nat)
    requires
        max_len <= 3,
        encode_utf8(s).len() > max_len,
    ensures
        truncated(s, max_len) == dots(max_len),
        truncated(s, max_len).len() == max_len,
        forall|i: int| 0 <= i < max_len ==> truncated(s, max_len)[i] == '.',
{
}

/// A text that fits is returned as it is.
pub proof fn lemma_fitting_text_is_kept(s: Seq<char>, max_len: nat)
    requires
        encode_utf8(s).len() <= max_len,
    ensures
        truncated(s, max_len) == s,
{
}

} // verus!
