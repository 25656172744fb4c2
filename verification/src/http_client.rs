//! The decidable part of the HTTPS fetch path: whether a fetched body may
//! be handed to a JSON parser. The transport itself (connection, TLS,
//! streaming into the reused body buffer) lives with the caller; it hands
//! the raw bytes here.

use vstd::prelude::*;

verus! {

/// Blank as a body prefix may contain it: ASCII space, tab, CR or LF.
pub open spec fn is_ascii_blank(b: u8) -> bool {
    b == 32 || b == 9 || b == 13 || b == 10
}

/// The first non-blank byte of a body, if any.
pub open spec fn first_non_blank(body: Seq<u8>) -> Option<u8>
    decreases body.len(),
{
    if body.len() == 0 {
        None
    } else if is_ascii_blank(body.first()) {
        first_non_blank(body.drop_first())
    } else {
        Some(body.first())
    }
}

/// A body is taken as a JSON object exactly when its first non-blank byte
/// opens one.
pub fn body_is_json_object(body: &[u8]) -> (r: bool)
    ensures
        r == (first_non_blank(body@) == Some(123u8)),
{
    let n = body.len();
    proof {
        assert(body@.skip(0) =~= body@);
    }
    let mut i: usize = 0;
    while i < n
        invariant
            n == body@.len(),
            i <= n,
            first_non_blank(body@) == first_non_blank(body@.skip(i as int)),
        decreases n - i,
    {
        let b = body[i];
        proof {
            assert(body@.skip(i as int).first() == body@[i as int]);
            assert(body@.skip(i as int).drop_first() =~= body@.skip(i + 1));
        }
        if !(b == 32 || b == 9 || b == 13 || b == 10) {
            return b == 123;
        }
        i = i + 1;
    }
    proof {
        assert(body@.skip(n as int) =~= Seq::<u8>::empty());
    }
    false
}

} // verus!
