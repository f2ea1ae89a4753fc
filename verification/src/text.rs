use vstd::prelude::*;
use vstd::string::StrSliceExecFns;

verus! {

/// `s` with every line break at its end taken off.
pub open spec fn trim_trailing_newlines(s: Seq<char>) -> Seq<char>
    decreases s.len(),
{
    if s.len() > 0 && s.last() == '\n' {
        trim_trailing_newlines(s.drop_last())
    } else {
        s
    }
}

/// Text that does not end in a line break is its own trimmed form.
pub proof fn lemma_trim_no_trailing_newline(s: Seq<char>)
    requires
        s.len() == 0 || s.last() != '\n',
    ensures
        trim_trailing_newlines(s) == s,
{
}

/// `s` without the line breaks at its end (`str::trim_end_matches('\n')`).
pub fn trim_end_newlines(s: &str) -> (res: &str)
    ensures
        res@ == trim_trailing_newlines(s@),
{
    let len = s.unicode_len();
    let mut n = len;
    proof {
        assert(s@.subrange(0, n as int) =~= s@);
    }
    while n > 0 && s.get_char(n - 1) == '\n'
        invariant
            len == s@.len(),
            n <= len,
            trim_trailing_newlines(s@) == trim_trailing_newlines(s@.subrange(0, n as int)),
        decreases n,
    {
        proof {
            assert(s@.subrange(0, n as int).drop_last() =~= s@.subrange(0, n - 1));
        }
        n = n - 1;
    }
    s.substring_char(0, n)
}

/// Whether two texts are equal, character for character.
pub fn str_equal(a: &str, b: &str) -> (res: bool)
    ensures
        res == (a@ == b@),
{
    let la = a.unicode_len();
    let lb = b.unicode_len();
    if la != lb {
        return false;
    }
    let mut i: usize = 0;
    while i < la
        invariant
            la == a@.len(),
            lb == b@.len(),
            la == lb,
            i <= la,
            forall|j: int| 0 <= j < i ==> a@[j] == b@[j],
        decreases la - i,
    {
        if a.get_char(i) != b.get_char(i) {
            return false;
        }
        i = i + 1;
    }
    proof {
        assert(a@ =~= b@);
    }
    true
}

} // verus!
