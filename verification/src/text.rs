//! Text helpers over `&str` and `String`, each specified over the character sequence.
use vstd::prelude::*;

verus! {

/// The Unicode `White_Space` code points: the characters that `char::is_whitespace` accepts
/// and that `str::trim` removes.
pub open spec fn is_white_space(c: char) -> bool {
    let u = c as u32;
    ||| 0x09 <= u <= 0x0D
    ||| u == 0x20 || u == 0x85 || u == 0xA0 || u == 0x1680
    ||| 0x2000 <= u <= 0x200A
    ||| u == 0x2028 || u == 0x2029 || u == 0x202F || u == 0x205F || u == 0x3000
}

/// `s` without its leading white space.
pub open spec fn trim_start_spec(s: Seq<char>) -> Seq<char>
    decreases s.len(),
{
    if s.len() > 0 && is_white_space(s[0]) {
        trim_start_spec(s.drop_first())
    } else {
        s
    }
}

/// `s` without its trailing white space.
pub open spec fn trim_end_spec(s: Seq<char>) -> Seq<char>
    decreases s.len(),
{
    if s.len() > 0 && is_white_space(s.last()) {
        trim_end_spec(s.drop_last())
    } else {
        s
    }
}

/// `s` without leading and trailing white space, as `str::trim` gives it.
pub open spec fn trim_spec(s: Seq<char>) -> Seq<char> {
    trim_end_spec(trim_start_spec(s))
}

/// Whether `c` is a white-space character.
pub fn is_whitespace_char(c: char) -> (b: bool)
    ensures
        b == is_white_space(c),
{
    let u = c as u32;
    (0x09 <= u && u <= 0x0D) || u == 0x20 || u == 0x85 || u == 0xA0 || u == 0x1680 || (0x2000
        <= u && u <= 0x200A) || u == 0x2028 || u == 0x2029 || u == 0x202F || u == 0x205F || u
        == 0x3000
}

/// Removes leading and trailing white space.
pub fn trim(s: &str) -> (r: String)
    ensures
        r@ == trim_spec(s@),
{
    let n = s.unicode_len();
    let mut i: usize = 0;
    assert(s@.subrange(0, n as int) =~= s@);
    while i < n && is_whitespace_char(s.get_char(i))
        invariant
            n == s@.len(),
            i <= n,
            trim_start_spec(s@) == trim_start_spec(s@.subrange(i as int, n as int)),
        decreases n - i,
    {
        assert(s@.subrange(i as int, n as int).drop_first() =~= s@.subrange(i + 1, n as int));
        i = i + 1;
    }
    let head = s.substring_char(i, n);
    let mut j: usize = n - i;
    proof {
        assert(head@.subrange(0, j as int) =~= head@);
        if i < n {
            assert(!is_white_space(s@.subrange(i as int, n as int)[0]));
        } else {
            assert(s@.subrange(i as int, n as int).len() == 0);
        }
        assert(trim_start_spec(s@) == head@);
    }
    while j > 0 && is_whitespace_char(head.get_char(j - 1))
        invariant
            j <= head@.len(),
            trim_end_spec(head@) == trim_end_spec(head@.subrange(0, j as int)),
        decreases j,
    {
        assert(head@.subrange(0, j as int).drop_last() =~= head@.subrange(0, j - 1));
        j = j - 1;
    }
    proof {
        if j > 0 {
            assert(!is_white_space(head@.subrange(0, j as int).last()));
        }
    }
    let body = head.substring_char(0, j);
    String::from_str(body)
}


/// `i` is the position of the last `c` in `s`.
pub open spec fn is_last_index_of(s: Seq<char>, c: char, i: int) -> bool {
    &&& 0 <= i < s.len()
    &&& s[i] == c
    &&& forall|k: int| i < k < s.len() ==> s[k] != c
}

/// `i` is the position of the first `c` in `s`.
pub open spec fn is_first_index_of(s: Seq<char>, c: char, i: int) -> bool {
    &&& 0 <= i < s.len()
    &&& s[i] == c
    &&& forall|k: int| 0 <= k < i ==> s[k] != c
}

/// What `str::rsplit_once` gives for a character pattern: the text before and after the
/// last `c`, or nothing when `c` does not occur.
pub open spec fn rsplit_once_spec(s: Seq<char>, c: char) -> Option<(Seq<char>, Seq<char>)> {
    if exists|i: int| is_last_index_of(s, c, i) {
        let i = choose|i: int| is_last_index_of(s, c, i);
        Some((s.subrange(0, i), s.subrange(i + 1, s.len() as int)))
    } else {
        None
    }
}

/// What `str::split_once` gives for a character pattern: the text before and after the
/// first `c`, or nothing when `c` does not occur.
pub open spec fn split_once_spec(s: Seq<char>, c: char) -> Option<(Seq<char>, Seq<char>)> {
    if exists|i: int| is_first_index_of(s, c, i) {
        let i = choose|i: int| is_first_index_of(s, c, i);
        Some((s.subrange(0, i), s.subrange(i + 1, s.len() as int)))
    } else {
        None
    }
}

/// Splits `s` at the last occurrence of `c`.
pub fn rsplit_once(s: &str, c: char) -> (r: Option<(String, String)>)
    ensures
        r matches Some((a, b)) ==> rsplit_once_spec(s@, c) == Some((a@, b@)),
        r is None ==> rsplit_once_spec(s@, c) is None,
{
    let n = s.unicode_len();
    let mut j: usize = n;
    while j > 0
        invariant
            n == s@.len(),
            j <= n,
            forall|k: int| j <= k < n ==> s@[k] != c,
        decreases j,
    {
        if s.get_char(j - 1) == c {
            let i = j - 1;
            let before = String::from_str(s.substring_char(0, i));
            let after = String::from_str(s.substring_char(i + 1, n));
            proof {
                assert(is_last_index_of(s@, c, i as int));
                let w = choose|w: int| is_last_index_of(s@, c, w);
                assert(w == i);
            }
            return Some((before, after));
        }
        j = j - 1;
    }
    None
}

/// Splits `s` at the first occurrence of `c`.
pub fn split_once(s: &str, c: char) -> (r: Option<(String, String)>)
    ensures
        r matches Some((a, b)) ==> split_once_spec(s@, c) == Some((a@, b@)),
        r is None ==> split_once_spec(s@, c) is None,
{
    let n = s.unicode_len();
    let mut i: usize = 0;
    while i < n
        invariant
            n == s@.len(),
            i <= n,
            forall|k: int| 0 <= k < i ==> s@[k] != c,
        decreases n - i,
    {
        if s.get_char(i) == c {
            let before = String::from_str(s.substring_char(0, i));
            let after = String::from_str(s.substring_char(i + 1, n));
            proof {
                assert(is_first_index_of(s@, c, i as int));
                let w = choose|w: int| is_first_index_of(s@, c, w);
                assert(w == i);
            }
            return Some((before, after));
        }
        i = i + 1;
    }
    None
}

/// `s` with every `c` removed, as `str::replace(c, "")` gives it.
pub open spec fn without_char(s: Seq<char>, c: char) -> Seq<char> {
    s.filter(|x: char| x != c)
}

/// Removes every occurrence of `c`.
pub fn remove_char(s: &str, c: char) -> (r: String)
    ensures
        r@ == without_char(s@, c),
{
    let n = s.unicode_len();
    let mut r = String::new();
    let mut i: usize = 0;
    proof {
        reveal_with_fuel(Seq::<_>::filter, 1);
        assert(s@.subrange(0, 0) =~= Seq::<char>::empty());
    }
    while i < n
        invariant
            n == s@.len(),
            i <= n,
            r@ == without_char(s@.subrange(0, i as int), c),
        decreases n - i,
    {
        let x = s.get_char(i);
        proof {
            reveal_with_fuel(Seq::<_>::filter, 1);
            assert(s@.subrange(0, i + 1).drop_last() =~= s@.subrange(0, i as int));
        }
        if x != c {
            r.append(s.substring_char(i, i + 1));
        }
        i = i + 1;
    }
    assert(s@.subrange(0, n as int) =~= s@);
    r
}

/// Whether `s` begins with `prefix`.
pub fn starts_with(s: &str, prefix: &str) -> (b: bool)
    ensures
        b == prefix@.is_prefix_of(s@),
{
    let n = s.unicode_len();
    let m = prefix.unicode_len();
    if m > n {
        return false;
    }
    let mut i: usize = 0;
    while i < m
        invariant
            n == s@.len(),
            m == prefix@.len(),
            m <= n,
            i <= m,
            forall|k: int| 0 <= k < i ==> s@[k] == prefix@[k],
        decreases m - i,
    {
        if s.get_char(i) != prefix.get_char(i) {
            assert(s@.subrange(0, m as int)[i as int] != prefix@[i as int]);
            return false;
        }
        i = i + 1;
    }
    assert(prefix@ =~= s@.subrange(0, m as int));
    true
}

/// Whether two texts are equal.
pub fn same_text(a: &str, b: &str) -> (r: bool)
    ensures
        r == (a@ == b@),
{
    let n = a.unicode_len();
    if n != b.unicode_len() {
        return false;
    }
    let mut i: usize = 0;
    while i < n
        invariant
            n == a@.len(),
            n == b@.len(),
            i <= n,
            forall|k: int| 0 <= k < i ==> a@[k] == b@[k],
        decreases n - i,
    {
        if a.get_char(i) != b.get_char(i) {
            return false;
        }
        i = i + 1;
    }
    assert(a@ =~= b@);
    true
}

/// The text that `str::to_uppercase` returns for a given text: Unicode's full upper-case
/// mapping, applied character by character.
pub uninterp spec fn str_to_uppercase(s: Seq<char>) -> Seq<char>;

/// The upper case of an ASCII character: `a` to `z` become `A` to `Z`; every other character
/// stays as it is.
pub open spec fn ascii_upper_char(c: char) -> char {
    if 'a' <= c && c <= 'z' {
        ((c as u32) - 32) as char
    } else {
        c
    }
}

/// A text with each ASCII letter in upper case.
pub open spec fn ascii_upper(s: Seq<char>) -> Seq<char> {
    s.map_values(|c: char| ascii_upper_char(c))
}

/// `str::to_uppercase` returns the upper case of the text (named `str_to_uppercase`). Its
/// documentation defines that as each character's Unicode upper-case mapping, a character
/// without one staying as it is; so a text of ASCII characters has its letters `a` to `z` made
/// `A` to `Z` and nothing else changed. What it gives for other characters is left to the name.
pub assume_specification[ std::primitive::str::to_uppercase ](s: &str) -> (r: String)
    ensures
        r@ == str_to_uppercase(s@),
        vstd::utf8::is_ascii_chars(s@) ==> r@ == ascii_upper(s@),
;

/// The upper case of a text, as `str::to_uppercase` gives it.
pub(crate) fn to_uppercase(s: &str) -> (r: String)
    ensures
        r@ == str_to_uppercase(s@),
        vstd::utf8::is_ascii_chars(s@) ==> r@ == ascii_upper(s@),
{
    s.to_uppercase()
}

} // verus!
