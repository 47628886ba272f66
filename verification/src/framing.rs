//! Message framing: locating the blank line that separates an HTTP header
//! block from the body, and decoding the header block as text.

use vstd::prelude::*;
use vstd::utf8::decode_utf8;
use vstd::utf8::valid_utf8;

use crate::std_bridge::vec_to_string;
use crate::text::first_match;
use crate::text::lemma_first_match;
use crate::text::lemma_first_match_exact;
use crate::text::match_at;

verus! {

/// The header terminator: CRLF CRLF.
pub open spec fn terminator() -> Seq<u8> {
    seq![13u8, 10u8, 13u8, 10u8]
}

/// The frame of a raw message: the text before the first terminator and the
/// bytes after it, provided the part before it decodes as UTF-8.
pub open spec fn spec_frame(b: Seq<u8>) -> Option<(Seq<char>, Seq<u8>)> {
    match first_match(b, terminator(), 0) {
        Some(i) => if valid_utf8(b.take(i)) {
            Some((decode_utf8(b.take(i)), b.skip(i + 4)))
        } else {
            None
        },
        None => None,
    }
}

/// The position of the first terminator in `buffer`, if there is one.
pub(crate) fn find_terminator(buffer: &Vec<u8>) -> (r: Option<usize>)
    ensures
        match r {
            Some(i) => first_match(buffer@, terminator(), 0) == Some(i as int),
            None => first_match(buffer@, terminator(), 0) is None,
        },
{
    let n: usize = buffer.len();
    let mut i: usize = 0;
    loop
        invariant
            i <= n,
            n == buffer@.len(),
            first_match(buffer@, terminator(), 0) == first_match(buffer@, terminator(), i as int),
        decreases n - i,
    {
        if n - i < 4 {
            return None;
        }
        if buffer[i] == 13 && buffer[i + 1] == 10 && buffer[i + 2] == 13 && buffer[i + 3] == 10 {
            proof {
                assert(buffer@.subrange(i as int, i + 4) =~= terminator());
            }
            return Some(i);
        }
        proof {
            if match_at(buffer@, terminator(), i as int) {
                assert(buffer@.subrange(i as int, i + 4)[0] == buffer@[i as int]);
                assert(buffer@.subrange(i as int, i + 4)[1] == buffer@[i + 1]);
                assert(buffer@.subrange(i as int, i + 4)[2] == buffer@[i + 2]);
                assert(buffer@.subrange(i as int, i + 4)[3] == buffer@[i + 3]);
            }
        }
        i += 1;
    }
}

/// Splits a raw HTTP message at the first CRLF CRLF into the header text
/// and the body bytes; fails when no terminator is present or the header
/// bytes are not UTF-8.
pub fn split_http_message(buffer: Vec<u8>) -> (r: Result<(String, Vec<u8>), ()>)
    ensures
        match r {
            Ok(p) => spec_frame(buffer@) == Some((p.0@, p.1@)),
            Err(()) => spec_frame(buffer@) is None,
        },
{
    let n: usize = buffer.len();
    let end = match find_terminator(&buffer) {
        Some(i) => i,
        None => {
            return Err(());
        },
    };
    proof {
        lemma_first_match(buffer@, terminator(), 0);
    }
    let mut header_bytes: Vec<u8> = Vec::new();
    let mut j: usize = 0;
    while j < end
        invariant
            j <= end,
            end + 4 <= buffer@.len(),
            header_bytes@ == buffer@.subrange(0, j as int),
        decreases end - j,
    {
        header_bytes.push(buffer[j]);
        proof {
            assert(buffer@.subrange(0, j as int).push(buffer@[j as int]) =~= buffer@.subrange(
                0,
                j + 1,
            ));
        }
        j += 1;
    }
    let mut body: Vec<u8> = Vec::new();
    let mut k: usize = end + 4;
    proof {
        assert(buffer@.subrange(end + 4, end + 4) =~= Seq::<u8>::empty());
    }
    while k < n
        invariant
            end + 4 <= k <= n,
            n == buffer@.len(),
            body@ == buffer@.subrange(end + 4, k as int),
        decreases n - k,
    {
        body.push(buffer[k]);
        proof {
            assert(buffer@.subrange(end + 4, k as int).push(buffer@[k as int]) =~= buffer@.subrange(
                end + 4,
                k + 1,
            ));
        }
        k += 1;
    }
    proof {
        assert(buffer@.subrange(0, end as int) =~= buffer@.take(end as int));
        assert(buffer@.subrange(end + 4, n as int) =~= buffer@.skip(end + 4));
    }
    match vec_to_string(header_bytes) {
        Ok(header) => Ok((header, body)),
        Err(_) => Err(()),
    }
}

/// Framing inverts message assembly: a header block that holds no
/// terminator of its own, followed by the terminator and any body, frames
/// back into exactly that header text and that body. The body bytes are
/// never re-scanned, so their content does not matter.
pub proof fn lemma_frame_round_trip(header: Seq<u8>, body: Seq<u8>)
    requires
        valid_utf8(header),
        forall|j: int| 0 <= j < header.len() ==> !match_at(header + terminator(), terminator(), j),
    ensures
        spec_frame(header + terminator() + body) == Some((decode_utf8(header), body)),
{
    let full = header + terminator() + body;
    assert(match_at(full, terminator(), header.len() as int)) by {
        assert(full.subrange(header.len() as int, header.len() as int + 4) =~= terminator());
    }
    assert forall|j: int| 0 <= j < header.len() implies !match_at(full, terminator(), j) by {
        if match_at(full, terminator(), j) {
            assert((header + terminator()).subrange(j, j + 4) =~= full.subrange(j, j + 4));
            assert(match_at(header + terminator(), terminator(), j));
        }
    }
    lemma_first_match_exact(full, terminator(), 0, header.len() as int);
    assert(full.take(header.len() as int) =~= header);
    assert(full.skip(header.len() as int + 4) =~= body);
}

} // verus!
