//! Judging one response against the expected body, byte for byte.

use vstd::prelude::*;
use vstd::utf8::*;

verus! {

/// Why a request produced no body at all.
#[derive(Clone, Copy, Debug, PartialEq, Eq, Structural)]
pub enum TransportFault {
    /// The request could not be put together from the URL.
    Build,
    /// The request could not be sent.
    Send,
    /// The response arrived but its body could not be read.
    Read,
}

/// What the comparison of one response with the expected body found.
#[derive(Clone, Copy, Debug, PartialEq, Eq, Structural)]
pub enum Verdict {
    /// The body is the expected one, byte for byte.
    Match,
    /// The body differs; `offset` is the position of the first byte that is
    /// not the same in both, or the length of the shorter body when one is
    /// the beginning of the other.
    Mismatch { offset: usize },
    /// There is no body to compare.
    Transport(TransportFault),
}

/// The number of leading bytes on which `a` and `b` agree.
pub open spec fn common_prefix(a: Seq<u8>, b: Seq<u8>) -> nat
    decreases a.len(),
{
    if a.len() > 0 && b.len() > 0 && a[0] == b[0] {
        1 + common_prefix(a.drop_first(), b.drop_first())
    } else {
        0
    }
}

/// The verdict on a response that was expected to carry the text `expected`.
pub open spec fn verdict_of(outcome: Result<String, TransportFault>, expected: Seq<char>) -> Verdict {
    match outcome {
        Err(fault) => Verdict::Transport(fault),
        Ok(body) => if body@ == expected {
            Verdict::Match
        } else {
            Verdict::Mismatch {
                offset: common_prefix(encode_utf8(body@), encode_utf8(expected)) as usize,
            }
        },
    }
}

/// `common_prefix` is the place of the first difference: the two sequences
/// agree before it, differ at it where both reach that far, and it is the
/// common length exactly when the sequences are equal.
pub proof fn common_prefix_is_first_difference(a: Seq<u8>, b: Seq<u8>)
    ensures
        common_prefix(a, b) <= a.len(),
        common_prefix(a, b) <= b.len(),
        forall|i: int| 0 <= i < common_prefix(a, b) ==> a[i] == b[i],
        common_prefix(a, b) < a.len() && common_prefix(a, b) < b.len() ==> a[common_prefix(a, b) as int]
            != b[common_prefix(a, b) as int],
        a == b <==> common_prefix(a, b) == a.len() && a.len() == b.len(),
    decreases a.len(),
{
    if a.len() > 0 && b.len() > 0 && a[0] == b[0] {
        let ta = a.drop_first();
        let tb = b.drop_first();
        common_prefix_is_first_difference(ta, tb);
        let k = common_prefix(ta, tb) as int;
        assert forall|i: int| 0 <= i < k + 1 implies a[i] == b[i] by {
            if i > 0 {
                assert(a[i] == ta[i - 1]);
                assert(b[i] == tb[i - 1]);
            }
        }
        if k < ta.len() && k < tb.len() {
            assert(a[k + 1] == ta[k]);
            assert(b[k + 1] == tb[k]);
        }
        if a == b {
            assert(ta == tb);
        }
        if k == ta.len() && ta.len() == tb.len() {
            assert(ta == tb);
            assert(a =~= seq![a[0]] + ta);
            assert(b =~= seq![b[0]] + tb);
        }
    } else {
        if a.len() == 0 && b.len() == 0 {
            assert(a =~= b);
        }
    }
}

/// Two texts are the same exactly when their UTF-8 encodings are.
pub proof fn same_text_same_bytes(s: Seq<char>, t: Seq<char>)
    ensures
        s == t <==> encode_utf8(s) == encode_utf8(t),
{
    encode_utf8_decode_utf8(s);
    encode_utf8_decode_utf8(t);
}

/// Where `a` and `b` first differ, or `None` when they are equal.
pub fn first_difference(a: &[u8], b: &[u8]) -> (found: Option<usize>)
    ensures
        found is None <==> a@ == b@,
        found matches Some(offset) ==> offset == common_prefix(a@, b@),
{
    let mut i: usize = 0;
    assert(a@.skip(0) =~= a@ && b@.skip(0) =~= b@);
    while i < a.len() && i < b.len() && a[i] == b[i]
        invariant
            i <= a@.len(),
            i <= b@.len(),
            common_prefix(a@, b@) == i + common_prefix(a@.skip(i as int), b@.skip(i as int)),
        decreases a@.len() - i,
    {
        proof {
            let ta = a@.skip(i as int);
            let tb = b@.skip(i as int);
            assert(ta[0] == a@[i as int]);
            assert(tb[0] == b@[i as int]);
            assert(ta.drop_first() =~= a@.skip(i + 1));
            assert(tb.drop_first() =~= b@.skip(i + 1));
        }
        i += 1;
    }
    proof {
        let ta = a@.skip(i as int);
        let tb = b@.skip(i as int);
        if i < a@.len() && i < b@.len() {
            assert(ta[0] == a@[i as int]);
            assert(tb[0] == b@[i as int]);
        }
        assert(common_prefix(ta, tb) == 0);
        common_prefix_is_first_difference(a@, b@);
    }
    if i == a.len() && i == b.len() {
        None
    } else {
        Some(i)
    }
}

/// Compares a response with the expected body. Nothing is normalised and
/// nothing is skipped: one differing byte is a mismatch.
pub fn judge(outcome: &Result<String, TransportFault>, expected: &str) -> (verdict: Verdict)
    ensures
        verdict == verdict_of(*outcome, expected@),
        verdict is Match <==> (outcome matches Ok(body) && body@ == expected@),
{
    match outcome {
        Err(fault) => Verdict::Transport(*fault),
        Ok(body) => {
            proof {
                same_text_same_bytes(body@, expected@);
            }
            match first_difference(body.as_str().as_bytes(), expected.as_bytes()) {
                None => Verdict::Match,
                Some(offset) => Verdict::Mismatch { offset },
            }
        },
    }
}

} // verus!
