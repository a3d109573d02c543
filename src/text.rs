use vstd::prelude::*;
use vstd::string::StrSliceExecFns;
use vstd::string::StringExecFns;

verus! {

/// What `truncate` yields: the text itself when it has at most `max_chars`
/// characters, otherwise its first `max_chars` characters followed by "...".
pub open spec fn truncated(s: Seq<char>, max_chars: nat) -> Seq<char> {
    if s.len() <= max_chars {
        s
    } else {
        s.subrange(0, max_chars as int) + seq!['.', '.', '.']
    }
}

/// Shortens `s` to at most `max_chars` characters, marking a cut with "...".
pub fn truncate(s: &str, max_chars: usize) -> (r: String)
    ensures
        r@ == truncated(s@, max_chars as nat),
{
    let n = s.unicode_len();
    if n <= max_chars {
        String::from_str(s)
    } else {
        let mut r = String::from_str(s.substring_char(0, max_chars));
        let dots = "...";
        proof {
            reveal_strlit("...");
        }
        r.append(dots);
        assert(r@ =~= truncated(s@, max_chars as nat));
        r
    }
}

} // verus!
