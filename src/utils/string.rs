use vstd::prelude::*;

verus! {

/// `s` with one trailing `/` removed, if it has one.
pub open spec fn trimmed(s: Seq<char>) -> Seq<char> {
    if s.len() > 0 && s.last() == '/' {
        s.drop_last()
    } else {
        s
    }
}

/// Removes exactly one trailing path separator, if present.
pub fn trim_trailing_slash(string: String) -> (r: String)
    ensures
        r@ == trimmed(string@),
{
    let n: usize = string.as_str().unicode_len();
    if n > 0 && string.as_str().get_char(n - 1) == '/' {
        let head = string.as_str().substring_char(0, n - 1);
        String::from_str(head)
    } else {
        string
    }
}

} // verus!
