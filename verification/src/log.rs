//! The bounded activity log: new lines go at the end, and when the text
//! would pass `MAX_LOG` bytes the oldest bytes are dropped.
use vstd::prelude::*;
use vstd::utf8::{encode_utf8, is_char_boundary};

verus! {

broadcast use {vstd::utf8::group_utf8_lib, vstd::slice::group_slice_axioms};

/// The most bytes the log holds.
pub const MAX_LOG: usize = 10240;

/// The length in bytes of the UTF-8 encoding of `s`.
pub open spec fn byte_len(s: Seq<char>) -> nat {
    encode_utf8(s).len()
}

/// How many bytes pushing `msg` onto `log` drops from the front (zero or
/// less when nothing is dropped).
pub open spec fn overflow(log: Seq<char>, msg: Seq<char>) -> int {
    byte_len(log) + byte_len(msg) - MAX_LOG
}

/// Whether pushing `msg` onto `log` can be done: nothing is dropped, or the
/// cut falls on a character boundary of the log. (Where it does not, or the
/// message alone is longer than the log may be, the cut cannot be made.)
pub open spec fn log_accepts(log: Seq<char>, msg: Seq<char>) -> bool {
    overflow(log, msg) > 0 ==> is_char_boundary(encode_utf8(log), overflow(log, msg))
}

/// The bytes of the log after pushing `msg`: the old bytes without the
/// overflow at the front, then the message.
pub open spec fn pushed_bytes(log: Seq<char>, msg: Seq<char>) -> Seq<u8> {
    if overflow(log, msg) > 0 {
        encode_utf8(log).skip(overflow(log, msg)) + encode_utf8(msg)
    } else {
        encode_utf8(log) + encode_utf8(msg)
    }
}

/// Encoding a concatenation encodes each part.
pub proof fn lemma_encode_concat(a: Seq<char>, b: Seq<char>)
    ensures
        encode_utf8(a + b) == encode_utf8(a) + encode_utf8(b),
    decreases a.len(),
{
    if a.len() == 0 {
        assert(a + b =~= b);
        assert(encode_utf8(a) + encode_utf8(b) =~= encode_utf8(b));
    } else {
        lemma_encode_concat(a.drop_first(), b);
        assert((a + b).drop_first() =~= a.drop_first() + b);
        assert(encode_utf8(a + b) =~= encode_utf8(a) + encode_utf8(b));
    }
}

/// The length of `s` in bytes.
pub fn byte_count(s: &str) -> (n: usize)
    ensures
        n == byte_len(s@),
{
    s.as_bytes().len()
}

/// After a push the log holds at most `MAX_LOG` bytes and ends with the
/// whole new message; when nothing had to be dropped it is the old log
/// followed by the message.
pub proof fn law_push_keeps_newest(log: Seq<char>, msg: Seq<char>)
    requires
        log_accepts(log, msg),
    ensures
        pushed_bytes(log, msg).len() <= MAX_LOG,
        pushed_bytes(log, msg).len() >= encode_utf8(msg).len(),
        pushed_bytes(log, msg).skip(pushed_bytes(log, msg).len() - encode_utf8(msg).len())
            == encode_utf8(msg),
        overflow(log, msg) <= 0 ==> pushed_bytes(log, msg) == encode_utf8(log + msg),
{
    let p = pushed_bytes(log, msg);
    let m = encode_utf8(msg);
    assert(p.skip(p.len() - m.len()) =~= m);
    lemma_encode_concat(log, msg);
}

/// Whether `msg` can be pushed onto `log` (see `log_accepts`).
pub fn accepts(log: &str, msg: &str) -> (r: bool)
    ensures
        r == log_accepts(log@, msg@),
{
    let log_len = byte_count(log);
    let total: u128 = (log_len as u128) + (byte_count(msg) as u128);
    if total > (MAX_LOG as u128) {
        let cut: u128 = total - (MAX_LOG as u128);
        if cut > (log_len as u128) {
            proof {
                assert(!is_char_boundary(encode_utf8(log@), overflow(log@, msg@)));
            }
            false
        } else {
            log.is_char_boundary(cut as usize)
        }
    } else {
        true
    }
}

/// Pushes `msg` onto `log`, dropping the oldest bytes so that at most
/// `MAX_LOG` bytes remain.
pub fn push_bounded(log: &mut String, msg: &str)
    requires
        log_accepts(old(log)@, msg@),
    ensures
        encode_utf8(final(log)@) == pushed_bytes(old(log)@, msg@),
        byte_len(final(log)@) <= MAX_LOG,
{
    let ghost old_log = log@;
    let old_len = byte_count(log.as_str());
    let total: u128 = (old_len as u128) + (byte_count(msg) as u128);
    if total > (MAX_LOG as u128) {
        let cut: u128 = total - (MAX_LOG as u128);
        assert(cut <= old_len);
        let mut kept = {
            let (_, rest) = log.as_str().split_at(cut as usize);
            rest.to_owned()
        };
        let ghost kept0 = kept@;
        assert(encode_utf8(kept0) =~= encode_utf8(old_log).skip(cut as int));
        kept.append(msg);
        proof {
            lemma_encode_concat(kept0, msg@);
        }
        *log = kept;
    } else {
        log.append(msg);
        proof {
            lemma_encode_concat(old_log, msg@);
        }
    }
}

} // verus!
