//! The text of a module's logs.
//!
//! The log stream arrives in chunks. Each chunk is a frame: a header of eight
//! bytes, then the payload. The text shown is the payloads in order, with
//! every byte that is not ASCII left out.

use vstd::prelude::*;

verus! {

/// The length of a frame's header.
pub const FRAME_HEADER: usize = 8;

/// The payload of a chunk: what follows the header. A chunk shorter than a
/// header has none.
pub open spec fn payload(chunk: Seq<u8>) -> Seq<u8> {
    if chunk.len() >= FRAME_HEADER {
        chunk.skip(FRAME_HEADER as int)
    } else {
        Seq::empty()
    }
}

/// The payloads of the first `n` chunks, one after the other.
pub open spec fn payloads(chunks: Seq<Vec<u8>>, n: int) -> Seq<u8>
    decreases n,
{
    if n <= 0 || n > chunks.len() {
        Seq::empty()
    } else {
        payloads(chunks, n - 1) + payload(chunks[n - 1]@)
    }
}

/// A byte of ASCII.
pub open spec fn is_ascii_byte(b: u8) -> bool {
    b < 0x80
}

/// The ASCII bytes of `bytes`, in order.
pub open spec fn ascii_only(bytes: Seq<u8>) -> Seq<u8> {
    bytes.filter(|b: u8| is_ascii_byte(b))
}

/// The text that ASCII bytes spell.
pub open spec fn ascii_text(bytes: Seq<u8>) -> Seq<char> {
    Seq::new(bytes.len(), |i: int| bytes[i] as char)
}

/// The log text of a stream of chunks.
pub open spec fn log_text_spec(chunks: Seq<Vec<u8>>) -> Seq<char> {
    ascii_text(ascii_only(payloads(chunks, chunks.len() as int)))
}

/// Filtering the ASCII bytes goes byte by byte.
pub proof fn lemma_ascii_only_push(bytes: Seq<u8>, b: u8)
    ensures
        ascii_only(bytes.push(b)) == if is_ascii_byte(b) {
            ascii_only(bytes).push(b)
        } else {
            ascii_only(bytes)
        },
{
    reveal(Seq::filter);
    assert(bytes.push(b).drop_last() =~= bytes);
}

/// Turns bytes into a `String` with `String::from_utf8`. Trusted: bytes that
/// are all ASCII are valid UTF-8, so the conversion succeeds, and each byte
/// becomes the character with its code.
#[verifier::external_body]
fn text_of_ascii(bytes: Vec<u8>) -> (r: Option<String>)
    requires
        forall|i: int| 0 <= i < bytes@.len() ==> is_ascii_byte(#[trigger] bytes@[i]),
    ensures
        r is Some,
        r->0@ == ascii_text(bytes@),
{
    String::from_utf8(bytes).ok()
}

/// The payloads of all chunks, one after the other.
pub fn strip_frame_headers(chunks: &Vec<Vec<u8>>) -> (r: Vec<u8>)
    ensures
        r@ == payloads(chunks@, chunks@.len() as int),
{
    let mut out: Vec<u8> = Vec::new();
    let mut i: usize = 0;
    while i < chunks.len()
        invariant
            i <= chunks.len(),
            out@ == payloads(chunks@, i as int),
        decreases chunks.len() - i,
    {
        let chunk = &chunks[i];
        if chunk.len() >= FRAME_HEADER {
            let mut j: usize = FRAME_HEADER;
            while j < chunk.len()
                invariant
                    FRAME_HEADER <= j <= chunk.len(),
                    out@ == payloads(chunks@, i as int) + chunk@.subrange(
                        FRAME_HEADER as int,
                        j as int,
                    ),
                decreases chunk.len() - j,
            {
                out.push(chunk[j]);
                j += 1;
                assert(out@ =~= payloads(chunks@, i as int) + chunk@.subrange(
                    FRAME_HEADER as int,
                    j as int,
                ));
            }
            assert(chunk@.subrange(FRAME_HEADER as int, chunk@.len() as int) =~= payload(chunk@));
        } else {
            assert(out@ =~= out@ + payload(chunk@));
        }
        i += 1;
    }
    out
}

/// The ASCII bytes of `body`, in order.
pub fn retain_ascii(body: &Vec<u8>) -> (r: Vec<u8>)
    ensures
        r@ == ascii_only(body@),
        forall|i: int| 0 <= i < r@.len() ==> is_ascii_byte(#[trigger] r@[i]),
{
    let mut out: Vec<u8> = Vec::new();
    let mut i: usize = 0;
    assert(body@.subrange(0, 0) =~= Seq::empty());
    proof {
        reveal(Seq::filter);
    }
    while i < body.len()
        invariant
            i <= body.len(),
            out@ == ascii_only(body@.subrange(0, i as int)),
            forall|k: int| 0 <= k < out@.len() ==> is_ascii_byte(#[trigger] out@[k]),
        decreases body.len() - i,
    {
        let b: u8 = body[i];
        proof {
            lemma_ascii_only_push(body@.subrange(0, i as int), b);
            assert(body@.subrange(0, i as int).push(b) =~= body@.subrange(0, i + 1));
        }
        if b < 0x80 {
            out.push(b);
        }
        i += 1;
    }
    assert(body@.subrange(0, body@.len() as int) =~= body@);
    out
}

/// The log text of a stream of chunks.
pub fn log_text(chunks: &Vec<Vec<u8>>) -> (r: String)
    ensures
        r@ == log_text_spec(chunks@),
{
    let body = strip_frame_headers(chunks);
    let clean = retain_ascii(&body);
    let text = text_of_ascii(clean);
    text.unwrap()
}

} // verus!
