//! Preparing log messages for Android's logcat, which takes C strings.

use vstd::prelude::*;

verus! {

/// The message with every NUL character replaced by U+FFFD, so that it can
/// be passed on as a C string.
pub open spec fn spec_sanitized(message: Seq<char>) -> Seq<char> {
    message.map_values(|c: char| if c == '\0' { '\u{fffd}' } else { c })
}

/// The characters of `message` with every NUL replaced by U+FFFD.
pub fn sanitize_log_message(message: &str) -> (r: Vec<char>)
    ensures
        r@ == spec_sanitized(message@),
{
    let mut out: Vec<char> = Vec::new();
    for c in it: message.chars()
        invariant
            out@ == spec_sanitized(it.seq().subrange(0, it.index() as int)),
            it.seq() == message@,
    {
        let d = if c == '\0' {
            '\u{fffd}'
        } else {
            c
        };
        out.push(d);
        proof {
            assert(spec_sanitized(it.seq().subrange(0, it.index() + 1)) =~= spec_sanitized(
                it.seq().subrange(0, it.index() as int),
            ).push(d));
        }
    }
    proof {
        assert(message@.subrange(0, message@.len() as int) =~= message@);
    }
    out
}

} // verus!
