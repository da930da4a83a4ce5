//! Character-level string helpers used to build shell command lines.

use vstd::prelude::*;
use vstd::string::*;

verus! {

/// `s` with every space replaced by `escape`, one character at a time from the left.
pub open spec fn escape_spaces(s: Seq<char>, escape: Seq<char>) -> Seq<char>
    decreases s.len(),
{
    if s.len() == 0 {
        Seq::empty()
    } else {
        escape_spaces(s.drop_last(), escape) + (if s.last() == ' ' {
            escape
        } else {
            seq![s.last()]
        })
    }
}

/// A string without spaces is left as it is by escaping.
pub proof fn law_escape_without_spaces(s: Seq<char>, escape: Seq<char>)
    requires
        !s.contains(' '),
    ensures
        escape_spaces(s, escape) == s,
    decreases s.len(),
{
    if s.len() > 0 {
        assert(!s.drop_last().contains(' ')) by {
            if s.drop_last().contains(' ') {
                let k = choose|k: int| 0 <= k < s.drop_last().len() && s.drop_last()[k] == ' ';
                assert(s[k] == ' ');
            }
        }
        law_escape_without_spaces(s.drop_last(), escape);
        assert(s.last() != ' ') by {
            assert(s[s.len() - 1] == s.last());
        }
        assert(s.drop_last() + seq![s.last()] =~= s);
    }
}

/// Escaping a concatenation escapes each part.
pub proof fn law_escape_spaces_concat(a: Seq<char>, b: Seq<char>, escape: Seq<char>)
    ensures
        escape_spaces(a + b, escape) == escape_spaces(a, escape) + escape_spaces(b, escape),
    decreases b.len(),
{
    if b.len() == 0 {
        assert(a + b =~= a);
        assert(escape_spaces(b, escape) =~= Seq::<char>::empty());
        assert(escape_spaces(a, escape) + escape_spaces(b, escape) =~= escape_spaces(a, escape));
    } else {
        law_escape_spaces_concat(a, b.drop_last(), escape);
        assert((a + b).drop_last() =~= a + b.drop_last());
        assert((a + b).last() == b.last());
    }
}

/// Whether two strings hold the same characters.
pub fn str_equals(a: &str, b: &str) -> (r: bool)
    ensures
        r == (a@ == b@),
{
    let n = a.unicode_len();
    let m = b.unicode_len();
    if n != m {
        return false;
    }
    let mut i: usize = 0;
    while i < n
        invariant
            n == a@.len(),
            m == b@.len(),
            n == m,
            i <= n,
            forall|j: int| 0 <= j < i ==> a@[j] == b@[j],
        decreases n - i,
    {
        if a.get_char(i) != b.get_char(i) {
            return false;
        }
        i = i + 1;
    }
    assert(a@ =~= b@);
    true
}

/// Replaces each space of `s` by `escape`, as `str::replace(" ", escape)` does.
pub fn replace_spaces(s: &str, escape: &str) -> (r: String)
    ensures
        r@ == escape_spaces(s@, escape@),
{
    let n = s.unicode_len();
    let mut out = String::new();
    let mut i: usize = 0;
    while i < n
        invariant
            n == s@.len(),
            i <= n,
            out@ == escape_spaces(s@.take(i as int), escape@),
        decreases n - i,
    {
        let c = s.get_char(i);
        if c == ' ' {
            out.append(escape);
        } else {
            out.append(s.substring_char(i, i + 1));
        }
        proof {
            assert(s@.take(i + 1).drop_last() =~= s@.take(i as int));
            assert(s@.subrange(i as int, i + 1) =~= seq![c]);
        }
        i = i + 1;
    }
    assert(s@.take(n as int) =~= s@);
    out
}

/// A single space is replaced by the whole escape text. Together with
/// [`law_escape_without_spaces`] and [`law_escape_spaces_concat`] this fixes
/// the escaping of every string: each space becomes `escape`, every other
/// character stays, in order.
pub proof fn law_escape_single_space(escape: Seq<char>)
    ensures
        escape_spaces(seq![' '], escape) == escape,
{
    let one = seq![' '];
    assert(one.drop_last() =~= Seq::<char>::empty());
    assert(one.last() == ' ');
    assert(escape_spaces(one.drop_last(), escape) == Seq::<char>::empty());
    assert(Seq::<char>::empty() + escape =~= escape);
}

} // verus!
