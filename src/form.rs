use vstd::prelude::*;

verus! {

/// How one character of a query string is written in a form body: the
/// brackets of nested keys percent-encoded, every other character as it is.
pub open spec fn form_char(c: char) -> Seq<char> {
    if c == '[' {
        "%5B"@
    } else if c == ']' {
        "%5D"@
    } else {
        seq![c]
    }
}

/// A query string written as a form body, character by character.
pub open spec fn form_of(query: Seq<char>) -> Seq<char>
    decreases query.len(),
{
    if query.len() == 0 {
        Seq::empty()
    } else {
        form_of(query.drop_last()) + form_char(query.last())
    }
}

/// Writes an encoded query string, whose nested keys are bracketed
/// (`card[number]=..`), as a form body: each bracket is percent-encoded
/// (`card%5Bnumber%5D=..`) and every other character is kept.
pub fn form_body(query: &str) -> (r: String)
    ensures
        r@ == form_of(query@),
{
    let n = query.unicode_len();
    let mut out = String::new();
    let mut i: usize = 0;
    while i < n
        invariant
            n == query@.len(),
            i <= n,
            out@ == form_of(query@.subrange(0, i as int)),
        decreases n - i,
    {
        let c = query.get_char(i);
        if c == '[' {
            out.append("%5B");
        } else if c == ']' {
            out.append("%5D");
        } else {
            out.append(query.substring_char(i, i + 1));
        }
        proof {
            let next = query@.subrange(0, i + 1);
            assert(next.drop_last() =~= query@.subrange(0, i as int));
            assert(next.last() == c);
        }
        i = i + 1;
    }
    proof {
        assert(query@.subrange(0, n as int) =~= query@);
    }
    out
}

} // verus!
