//! JSON strings: writing a text as a JSON string literal, and reading one back.
use vstd::prelude::*;

verus! {

/// The lower-case hexadecimal digit `d`.
pub open spec fn hex_digit(d: int) -> char {
    "0123456789abcdef"@[d]
}

/// The characters U+0000 to U+001F, in order.
pub open spec fn control_table() -> Seq<char> {
    "\u{0}\u{1}\u{2}\u{3}\u{4}\u{5}\u{6}\u{7}\u{8}\u{9}\u{a}\u{b}\u{c}\u{d}\u{e}\u{f}\u{10}\u{11}\u{12}\u{13}\u{14}\u{15}\u{16}\u{17}\u{18}\u{19}\u{1a}\u{1b}\u{1c}\u{1d}\u{1e}\u{1f}"@
}

proof fn lemma_control_table(c: char)
    requires
        (c as u32) < 0x20,
    ensures
        control_table()[(c as u32) as int] == c,
{
    reveal_strlit("\u{0}\u{1}\u{2}\u{3}\u{4}\u{5}\u{6}\u{7}\u{8}\u{9}\u{a}\u{b}\u{c}\u{d}\u{e}\u{f}\u{10}\u{11}\u{12}\u{13}\u{14}\u{15}\u{16}\u{17}\u{18}\u{19}\u{1a}\u{1b}\u{1c}\u{1d}\u{1e}\u{1f}");
}

/// The value of a hexadecimal digit (either case).
pub open spec fn hex_value(c: char) -> Option<int> {
    if '0' <= c && c <= '9' {
        Some(c as int - 48)
    } else if 'a' <= c && c <= 'f' {
        Some(c as int - 87)
    } else if 'A' <= c && c <= 'F' {
        Some(c as int - 55)
    } else {
        None
    }
}

proof fn lemma_hex_digit_value(d: int)
    requires
        0 <= d < 16,
    ensures
        hex_value(hex_digit(d)) == Some(d),
{
    reveal_strlit("0123456789abcdef");
}


/// How a character is written inside a JSON string, as `serde_json` writes it: `"` and `\`
/// and the control characters are escaped (the usual short forms where JSON has one,
/// `\u00XX` with lower-case digits otherwise); every other character stands as it is.
pub open spec fn escape_char(c: char) -> Seq<char> {
    if c == '"' {
        seq!['\\', '"']
    } else if c == '\\' {
        seq!['\\', '\\']
    } else if c == '\u{8}' {
        seq!['\\', 'b']
    } else if c == '\u{c}' {
        seq!['\\', 'f']
    } else if c == '\n' {
        seq!['\\', 'n']
    } else if c == '\r' {
        seq!['\\', 'r']
    } else if c == '\t' {
        seq!['\\', 't']
    } else if (c as u32) < 0x20 {
        seq!['\\', 'u', '0', '0', hex_digit(((c as u32) / 16) as int), hex_digit(((c as u32) % 16) as int)]
    } else {
        seq![c]
    }
}

/// The text with every character escaped.
pub open spec fn escaped(s: Seq<char>) -> Seq<char>
    decreases s.len(),
{
    if s.len() == 0 {
        Seq::empty()
    } else {
        escape_char(s[0]) + escaped(s.drop_first())
    }
}

/// A text written as a JSON string literal.
pub open spec fn json_string_spec(s: Seq<char>) -> Seq<char> {
    seq!['"'] + escaped(s) + seq!['"']
}

/// The character of a short escape `\x`, for the `x` that JSON defines.
pub open spec fn short_unescape(c: char) -> Option<char> {
    if c == '"' {
        Some('"')
    } else if c == '\\' {
        Some('\\')
    } else if c == '/' {
        Some('/')
    } else if c == 'b' {
        Some('\u{8}')
    } else if c == 'f' {
        Some('\u{c}')
    } else if c == 'n' {
        Some('\n')
    } else if c == 'r' {
        Some('\r')
    } else if c == 't' {
        Some('\t')
    } else {
        None
    }
}

/// Puts `c` in front of the text of a read.
pub open spec fn prepend(c: char, r: Option<(Seq<char>, Seq<char>)>) -> Option<(Seq<char>, Seq<char>)> {
    match r {
        Some((v, rest)) => Some((seq![c] + v, rest)),
        None => None,
    }
}

/// Reads the rest of a JSON string whose opening quote is already read: the text up to the
/// closing quote, and what follows it. It takes the short escapes and `\u00XX` for the control
/// characters; a raw control character, another escape or a missing closing quote makes it fail.
pub open spec fn read_string(t: Seq<char>) -> Option<(Seq<char>, Seq<char>)>
    decreases t.len(),
{
    if t.len() == 0 {
        None
    } else if t[0] == '"' {
        Some((Seq::empty(), t.skip(1)))
    } else if t[0] == '\\' {
        if t.len() < 2 {
            None
        } else {
            match short_unescape(t[1]) {
                Some(c) => prepend(c, read_string(t.skip(2))),
                None => if t[1] == 'u' && t.len() >= 6 && t[2] == '0' && t[3] == '0' {
                    match (hex_value(t[4]), hex_value(t[5])) {
                        (Some(hi), Some(lo)) => if hi * 16 + lo < 0x20 {
                            prepend(control_table()[hi * 16 + lo], read_string(t.skip(6)))
                        } else {
                            None
                        },
                        _ => None,
                    }
                } else {
                    None
                },
            }
        }
    } else if (t[0] as u32) < 0x20 {
        None
    } else {
        prepend(t[0], read_string(t.skip(1)))
    }
}

/// Reading back an escaped text followed by a quote gives the text and what follows.
pub proof fn lemma_read_escaped(s: Seq<char>, rest: Seq<char>)
    ensures
        read_string(escaped(s) + seq!['"'] + rest) == Some((s, rest)),
    decreases s.len(),
{
    let t = escaped(s) + seq!['"'] + rest;
    if s.len() == 0 {
        assert(t =~= seq!['"'] + rest);
        assert(t.skip(1) =~= rest);
    } else {
        let c = s[0];
        let e = escape_char(c);
        let tail = escaped(s.drop_first()) + seq!['"'] + rest;
        assert(t =~= e + tail);
        lemma_read_escaped(s.drop_first(), rest);
        assert(e.len() >= 1);
        assert(t.skip(e.len() as int) =~= tail);
        if (c as u32) < 0x20 && c != '\u{8}' && c != '\u{c}' && c != '\n' && c != '\r' && c
            != '\t' {
            lemma_hex_digit_value(((c as u32) / 16) as int);
            lemma_hex_digit_value(((c as u32) % 16) as int);
            lemma_control_table(c);
            assert(t[4] == hex_digit(((c as u32) / 16) as int));
            assert(t[5] == hex_digit(((c as u32) % 16) as int));
        }
        assert(s =~= seq![c] + s.drop_first());
    }
}

/// Writes a text as a JSON string literal.
pub fn json_string(s: &str) -> (r: String)
    ensures
        r@ == json_string_spec(s@),
{
    let n = s.unicode_len();
    let mut body = String::new();
    let mut i: usize = 0;
    proof {
        lemma_escaped_take(s@, 0);
    }
    while i < n
        invariant
            n == s@.len(),
            i <= n,
            body@ == escaped(s@.take(i as int)),
        decreases n - i,
    {
        proof {
        reveal_strlit("\\\"");
        reveal_strlit("\\\\");
        reveal_strlit("\\b");
        reveal_strlit("\\f");
        reveal_strlit("\\n");
        reveal_strlit("\\r");
        reveal_strlit("\\t");
        reveal_strlit("\\u00");
        reveal_strlit("0123456789abcdef");
        }
        let c = s.get_char(i);
        let ghost before = body@;
        if c == '"' {
            body.append("\\\"");
        } else if c == '\\' {
            body.append("\\\\");
        } else if c == '\u{8}' {
            body.append("\\b");
        } else if c == '\u{c}' {
            body.append("\\f");
        } else if c == '\n' {
            body.append("\\n");
        } else if c == '\r' {
            body.append("\\r");
        } else if c == '\t' {
            body.append("\\t");
        } else if (c as u32) < 0x20 {
            let v = c as u32;
            let digits = "0123456789abcdef";
            body.append("\\u00");
            body.append(digits.substring_char((v / 16) as usize, (v / 16 + 1) as usize));
            body.append(digits.substring_char((v % 16) as usize, (v % 16 + 1) as usize));
        } else {
            body.append(s.substring_char(i, i + 1));
        }
        assert(body@ =~= before + escape_char(c));
        proof {
            lemma_escaped_take(s@, i as int);
        }
        i = i + 1;
    }
    assert(s@.take(n as int) =~= s@);
    proof {
        reveal_strlit("\"");
    }
    String::from_str("\"").concat(body.as_str()).concat("\"")
}

/// Escaping one more character adds its escape at the end.
proof fn lemma_escaped_take(s: Seq<char>, i: int)
    requires
        0 <= i <= s.len(),
    ensures
        escaped(s.take(0)) == Seq::<char>::empty(),
        i < s.len() ==> escaped(s.take(i + 1)) == escaped(s.take(i)) + escape_char(s[i]),
{
    assert(s.take(0).len() == 0);
    if i < s.len() {
        lemma_escaped_push(s.take(i), s[i]);
        assert(s.take(i + 1) =~= s.take(i).push(s[i]));
    }
}

/// Escaping a text with a character pushed at the end.
proof fn lemma_escaped_push(a: Seq<char>, c: char)
    ensures
        escaped(a.push(c)) == escaped(a) + escape_char(c),
    decreases a.len(),
{
    if a.len() == 0 {
        assert(a.push(c).drop_first() =~= Seq::<char>::empty());
        assert(a.push(c)[0] == c);
        assert(escaped(Seq::<char>::empty()) == Seq::<char>::empty());
        assert(escaped(a.push(c)) =~= escape_char(c));
    } else {
        lemma_escaped_push(a.drop_first(), c);
        assert(a.push(c).drop_first() =~= a.drop_first().push(c));
        assert(escaped(a.push(c)) =~= escaped(a) + escape_char(c));
    }
}


/// Puts a text in front of the text of a read.
pub open spec fn with_prefix(v: Seq<char>, r: Option<(Seq<char>, Seq<char>)>) -> Option<(Seq<char>, Seq<char>)> {
    match r {
        Some((x, rest)) => Some((v + x, rest)),
        None => None,
    }
}

proof fn lemma_with_prefix_prepend(v: Seq<char>, c: char, r: Option<(Seq<char>, Seq<char>)>)
    ensures
        with_prefix(v, prepend(c, r)) == with_prefix(v.push(c), r),
{
    if let Some((x, rest)) = r {
        assert(v + (seq![c] + x) =~= v.push(c) + x);
    }
}

/// The value of a hexadecimal digit.
fn hex_value_of(c: char) -> (r: Option<u32>)
    ensures
        match hex_value(c) {
            Some(v) => r == Some(v as u32),
            None => r is None,
        },
{
    if '0' <= c && c <= '9' {
        Some(c as u32 - 48)
    } else if 'a' <= c && c <= 'f' {
        Some(c as u32 - 87)
    } else if 'A' <= c && c <= 'F' {
        Some(c as u32 - 55)
    } else {
        None
    }
}

/// Reads a JSON string whose opening quote ends before position `start` of `t`: its text, and
/// the position just after its closing quote.
pub fn read_json_string(t: &str, start: usize) -> (r: Option<(String, usize)>)
    requires
        start <= t@.len(),
    ensures
        r matches Some((v, end)) ==> start < end <= t@.len() && read_string(t@.skip(start as int))
            == Some((v@, t@.skip(end as int))),
        r is None ==> read_string(t@.skip(start as int)) is None,
{
    let n = t.unicode_len();
    let mut value = String::new();
    let mut i = start;
    assert(with_prefix(value@, read_string(t@.skip(start as int))) == read_string(t@.skip(start as int))) by {
        if let Some((x, rest)) = read_string(t@.skip(start as int)) {
            assert(Seq::<char>::empty() + x =~= x);
        }
    }
    loop
        invariant
            n == t@.len(),
            start <= i <= n,
            read_string(t@.skip(start as int)) == with_prefix(value@, read_string(t@.skip(i as int))),
        decreases n - i,
    {
        proof {
            reveal_strlit("\"");
            reveal_strlit("\\");
            reveal_strlit("/");
            reveal_strlit("\u{8}");
            reveal_strlit("\u{c}");
            reveal_strlit("\n");
            reveal_strlit("\r");
            reveal_strlit("\t");
            reveal_strlit("");
            reveal_strlit("\u{0}\u{1}\u{2}\u{3}\u{4}\u{5}\u{6}\u{7}\u{8}\u{9}\u{a}\u{b}\u{c}\u{d}\u{e}\u{f}\u{10}\u{11}\u{12}\u{13}\u{14}\u{15}\u{16}\u{17}\u{18}\u{19}\u{1a}\u{1b}\u{1c}\u{1d}\u{1e}\u{1f}");
        }
        let ghost k = t@.skip(i as int);
        if i >= n {
            return None;
        }
        let c = t.get_char(i);
        assert(k[0] == c);
        if c == '"' {
            assert(k.skip(1) =~= t@.skip(i + 1));
            assert(value@ + Seq::<char>::empty() =~= value@);
            return Some((value, i + 1));
        } else if c == '\\' {
            if i + 1 >= n {
                return None;
            }
            let e = t.get_char(i + 1);
            assert(k[1] == e);
            assert(k.skip(2) =~= t@.skip(i + 2));
            let piece: &str = if e == '"' {
                "\""
            } else if e == '\\' {
                "\\"
            } else if e == '/' {
                "/"
            } else if e == 'b' {
                "\u{8}"
            } else if e == 'f' {
                "\u{c}"
            } else if e == 'n' {
                "\n"
            } else if e == 'r' {
                "\r"
            } else if e == 't' {
                "\t"
            } else {
                ""
            };
            if piece.unicode_len() == 1 {
                let ghost before = value@;
                value.append(piece);
                proof {
                    lemma_with_prefix_prepend(before, piece@[0], read_string(k.skip(2)));
                    assert(value@ =~= before.push(piece@[0]));
                }
                i = i + 2;
            } else {
                if e != 'u' || n - i <= 5 {
                    return None;
                }
                if t.get_char(i + 2) != '0' || t.get_char(i + 3) != '0' {
                    return None;
                }
                let c4 = t.get_char(i + 4);
                let c5 = t.get_char(i + 5);
                assert(k[2] == t@[i + 2] && k[3] == t@[i + 3] && k[4] == c4 && k[5] == c5);
                match (hex_value_of(c4), hex_value_of(c5)) {
                    (Some(hi), Some(lo)) => {
                        if hi * 16 + lo >= 0x20 {
                            return None;
                        }
                        let v = hi * 16 + lo;
                        let table = "\u{0}\u{1}\u{2}\u{3}\u{4}\u{5}\u{6}\u{7}\u{8}\u{9}\u{a}\u{b}\u{c}\u{d}\u{e}\u{f}\u{10}\u{11}\u{12}\u{13}\u{14}\u{15}\u{16}\u{17}\u{18}\u{19}\u{1a}\u{1b}\u{1c}\u{1d}\u{1e}\u{1f}";
                        let ghost before = value@;
                        value.append(table.substring_char(v as usize, (v + 1) as usize));
                        proof {
                            assert(k.skip(6) =~= t@.skip(i + 6));
                            lemma_with_prefix_prepend(before, control_table()[v as int], read_string(k.skip(6)));
                            assert(value@ =~= before.push(control_table()[v as int]));
                        }
                        i = i + 6;
                    },
                    _ => {
                        return None;
                    },
                }
            }
        } else if (c as u32) < 0x20 {
            return None;
        } else {
            let ghost before = value@;
            value.append(t.substring_char(i, i + 1));
            proof {
                assert(k.skip(1) =~= t@.skip(i + 1));
                lemma_with_prefix_prepend(before, c, read_string(k.skip(1)));
                assert(value@ =~= before.push(c));
            }
            i = i + 1;
        }
    }
}

} // verus!
