//! Character-level text rules: white space, trimming, splitting at a space.

use vstd::prelude::*;
use vstd::string::*;

verus! {

/// Unicode White_Space, the characters that `char::is_whitespace` accepts.
pub open spec fn is_white_space(c: char) -> bool {
    let n: u32 = c as u32;
    ||| 0x9 <= n <= 0xd
    ||| n == 0x20
    ||| n == 0x85
    ||| n == 0xa0
    ||| n == 0x1680
    ||| 0x2000 <= n <= 0x200a
    ||| n == 0x2028
    ||| n == 0x2029
    ||| n == 0x202f
    ||| n == 0x205f
    ||| n == 0x3000
}

/// `s` without its leading white space.
pub open spec fn trim_start(s: Seq<char>) -> Seq<char>
    decreases s.len(),
{
    if s.len() > 0 && is_white_space(s[0]) {
        trim_start(s.drop_first())
    } else {
        s
    }
}

/// `s` without its trailing white space.
pub open spec fn trim_end(s: Seq<char>) -> Seq<char>
    decreases s.len(),
{
    if s.len() > 0 && is_white_space(s.last()) {
        trim_end(s.drop_last())
    } else {
        s
    }
}

/// `s` without its leading and trailing white space, as `str::trim` gives it.
pub open spec fn trim(s: Seq<char>) -> Seq<char> {
    trim_end(trim_start(s))
}

/// The index of the first space in `s`, or its length where it has none.
pub open spec fn first_space(s: Seq<char>) -> int
    decreases s.len(),
{
    if s.len() == 0 || s[0] == ' ' {
        0
    } else {
        1 + first_space(s.drop_first())
    }
}

/// Whether `c` is white space.
pub fn is_white_space_char(c: char) -> (res: bool)
    ensures
        res == is_white_space(c),
{
    let n: u32 = c as u32;
    (0x9 <= n && n <= 0xd) || n == 0x20 || n == 0x85 || n == 0xa0 || n == 0x1680 || (0x2000 <= n
        && n <= 0x200a) || n == 0x2028 || n == 0x2029 || n == 0x202f || n == 0x205f || n == 0x3000
}

pub proof fn lemma_first_space_bounds(s: Seq<char>)
    ensures
        0 <= first_space(s) <= s.len(),
        first_space(s) < s.len() ==> s[first_space(s)] == ' ',
        forall|i: int| 0 <= i < first_space(s) ==> s[i] != ' ',
    decreases s.len(),
{
    if s.len() > 0 && s[0] != ' ' {
        lemma_first_space_bounds(s.drop_first());
        assert forall|i: int| 0 <= i < first_space(s) implies s[i] != ' ' by {
            if i > 0 {
                assert(s[i] == s.drop_first()[i - 1]);
            }
        }
    }
}

/// Where `s` has its first space at `k`, `first_space` finds it there.
pub proof fn lemma_first_space_at(s: Seq<char>, k: int)
    requires
        0 <= k < s.len(),
        s[k] == ' ',
        forall|i: int| 0 <= i < k ==> s[i] != ' ',
    ensures
        first_space(s) == k,
    decreases k,
{
    if k > 0 {
        assert forall|i: int| 0 <= i < k - 1 implies s.drop_first()[i] != ' ' by {
            assert(s.drop_first()[i] == s[i + 1]);
        }
        lemma_first_space_at(s.drop_first(), k - 1);
    }
}

/// `s` with its leading and trailing white space removed.
pub fn trim_str(s: &str) -> (res: &str)
    ensures
        res@ == trim(s@),
{
    let n: usize = s.unicode_len();
    let mut i: usize = 0;
    proof {
        assert(s@.subrange(0, n as int) =~= s@);
    }
    while i < n && is_white_space_char(s.get_char(i))
        invariant
            n == s@.len(),
            i <= n,
            trim_start(s@) == trim_start(s@.subrange(i as int, n as int)),
        decreases n - i,
    {
        proof {
            let t = s@.subrange(i as int, n as int);
            assert(t.drop_first() =~= s@.subrange(i + 1, n as int));
        }
        i = i + 1;
    }
    proof {
        let t = s@.subrange(i as int, n as int);
        if i < n {
            assert(t[0] == s@[i as int]);
        }
        assert(trim_start(s@) == t);
    }
    let mut j: usize = n;
    while j > i && is_white_space_char(s.get_char(j - 1))
        invariant
            n == s@.len(),
            i <= j <= n,
            trim(s@) == trim_end(s@.subrange(i as int, j as int)),
        decreases j - i,
    {
        proof {
            let t = s@.subrange(i as int, j as int);
            assert(t.drop_last() =~= s@.subrange(i as int, j - 1));
            assert(t.last() == s@[j - 1]);
        }
        j = j - 1;
    }
    proof {
        let t = s@.subrange(i as int, j as int);
        if j > i {
            assert(t.last() == s@[j - 1]);
        }
    }
    s.substring_char(i, j)
}

/// Splits `s` at its first space, as `str::splitn(2, ' ')` does: the part
/// before the space and, where there is a space, the part after it.
pub fn split_at_first_space(s: &str) -> (res: (&str, Option<&str>))
    ensures
        res.0@ == s@.subrange(0, first_space(s@)),
        first_space(s@) < s@.len() ==> (res.1 matches Some(rest) && rest@ == s@.subrange(
            first_space(s@) + 1,
            s@.len() as int,
        )),
        first_space(s@) == s@.len() ==> res.1 is None,
{
    proof {
        lemma_first_space_bounds(s@);
    }
    let n: usize = s.unicode_len();
    let mut i: usize = 0;
    proof {
        assert(s@.subrange(0, n as int) =~= s@);
    }
    while i < n && s.get_char(i) != ' '
        invariant
            n == s@.len(),
            i <= n,
            first_space(s@) == i + first_space(s@.subrange(i as int, n as int)),
        decreases n - i,
    {
        proof {
            let t = s@.subrange(i as int, n as int);
            assert(t.drop_first() =~= s@.subrange(i + 1, n as int));
        }
        i = i + 1;
    }
    proof {
        if i < n {
            assert(s@.subrange(i as int, n as int)[0] == ' ');
        }
    }
    if i < n {
        (s.substring_char(0, i), Some(s.substring_char(i + 1, n)))
    } else {
        (s.substring_char(0, n), None)
    }
}

} // verus!
