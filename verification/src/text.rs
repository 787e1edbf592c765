//! String-building helpers shared by the rendering code: decimal and
//! hexadecimal digit sequences, and the spec-level shapes they satisfy.

use vstd::prelude::*;

verus! {

/// The decimal digit character for a value below ten.
pub open spec fn dec_digit(d: nat) -> char
    recommends
        d < 10,
{
    ((48 + d) as u8) as char
}

/// The canonical decimal rendering of a natural number: no sign, no leading
/// zeros (except for zero itself, rendered "0").
pub open spec fn dec_str(n: nat) -> Seq<char>
    decreases n,
{
    if n < 10 {
        seq![dec_digit(n)]
    } else {
        dec_str(n / 10).push(dec_digit(n % 10))
    }
}

/// One decimal digit as a string slice.
fn digit_str(d: u64) -> (r: &'static str)
    requires
        d < 10,
    ensures
        r@ == seq![dec_digit(d as nat)],
{
    proof {
        reveal_strlit("0");
        reveal_strlit("1");
        reveal_strlit("2");
        reveal_strlit("3");
        reveal_strlit("4");
        reveal_strlit("5");
        reveal_strlit("6");
        reveal_strlit("7");
        reveal_strlit("8");
        reveal_strlit("9");
    }
    match d {
        0 => "0",
        1 => "1",
        2 => "2",
        3 => "3",
        4 => "4",
        5 => "5",
        6 => "6",
        7 => "7",
        8 => "8",
        _ => "9",
    }
}

/// Renders an unsigned integer in decimal.
pub fn u64_str(n: u64) -> (r: String)
    ensures
        r@ == dec_str(n as nat),
    decreases n,
{
    if n < 10 {
        String::from_str(digit_str(n))
    } else {
        let mut r = u64_str(n / 10);
        r.append(digit_str(n % 10));
        r
    }
}

/// The lowercase hexadecimal digit character for a value below sixteen.
pub open spec fn hex_digit(d: nat) -> char
    recommends
        d < 16,
{
    if d < 10 {
        ((48 + d) as u8) as char
    } else {
        ((87 + d) as u8) as char
    }
}

/// A byte as exactly two lowercase hexadecimal digits.
pub open spec fn hex_byte(b: u8) -> Seq<char> {
    seq![hex_digit((b / 16) as nat), hex_digit((b % 16) as nat)]
}

/// One lowercase hexadecimal digit as a string slice.
fn hex_digit_str(d: u8) -> (r: &'static str)
    requires
        d < 16,
    ensures
        r@ == seq![hex_digit(d as nat)],
{
    if d < 10 {
        digit_str(d as u64)
    } else {
        proof {
            reveal_strlit("a");
            reveal_strlit("b");
            reveal_strlit("c");
            reveal_strlit("d");
            reveal_strlit("e");
            reveal_strlit("f");
        }
        match d {
            10 => "a",
            11 => "b",
            12 => "c",
            13 => "d",
            14 => "e",
            _ => "f",
        }
    }
}

/// Renders a byte as two zero-padded lowercase hexadecimal digits.
pub fn hex_byte_str(b: u8) -> (r: String)
    ensures
        r@ == hex_byte(b),
{
    let mut r = String::from_str(hex_digit_str(b / 16));
    r.append(hex_digit_str(b % 16));
    proof {
        assert(r@ =~= hex_byte(b));
    }
    r
}

/// A byte sequence as lowercase hex, two digits per byte, no separators.
pub open spec fn bytes_hex(bs: Seq<u8>) -> Seq<char>
    decreases bs.len(),
{
    if bs.len() == 0 {
        Seq::empty()
    } else {
        bytes_hex(bs.drop_last()) + hex_byte(bs.last())
    }
}

/// Renders bytes as lowercase hex, two digits per byte.
pub fn bytes_hex_token(bs: &Vec<u8>) -> (r: String)
    ensures
        r@ == bytes_hex(bs@),
{
    let mut out = String::new();
    let mut i: usize = 0;
    while i < bs.len()
        invariant
            0 <= i <= bs.len(),
            out@ == bytes_hex(bs@.take(i as int)),
        decreases bs.len() - i,
    {
        proof {
            assert(bs@.take(i as int + 1).drop_last() =~= bs@.take(i as int));
        }
        out.append(hex_byte_str(bs[i]).as_str());
        i = i + 1;
    }
    proof {
        assert(bs@.take(bs@.len() as int) =~= bs@);
    }
    out
}

/// A boolean as its lowercase keyword.
pub open spec fn bool_str(b: bool) -> Seq<char> {
    if b {
        "true"@
    } else {
        "false"@
    }
}

/// Renders a boolean as "true" or "false".
pub fn bool_token(b: bool) -> (r: String)
    ensures
        r@ == bool_str(b),
{
    if b {
        String::from_str("true")
    } else {
        String::from_str("false")
    }
}

/// The given parts joined by the separator: empty for no parts, and no
/// leading or trailing separator otherwise.
pub open spec fn join_by(parts: Seq<Seq<char>>, sep: Seq<char>) -> Seq<char>
    decreases parts.len(),
{
    if parts.len() == 0 {
        Seq::empty()
    } else if parts.len() == 1 {
        parts[0]
    } else {
        join_by(parts.drop_last(), sep) + sep + parts.last()
    }
}

/// Extending a join by one more part appends one separator and that part.
pub proof fn lemma_join_by_step(parts: Seq<Seq<char>>, sep: Seq<char>, i: int)
    requires
        0 <= i < parts.len(),
    ensures
        join_by(parts.take(i + 1), sep) == if i == 0 {
            parts[0]
        } else {
            join_by(parts.take(i), sep) + sep + parts[i]
        },
{
    let ext = parts.take(i + 1);
    assert(ext.drop_last() =~= parts.take(i));
    assert(ext.last() == parts[i]);
}

/// Joins the given strings with the separator.
pub fn join_strings(parts: &Vec<String>, sep: &str) -> (r: String)
    ensures
        r@ == join_by(parts@.map(|i, s: String| s@), sep@),
{
    let ghost model = parts@.map(|i, s: String| s@);
    let mut r = String::new();
    let mut i: usize = 0;
    while i < parts.len()
        invariant
            0 <= i <= parts.len(),
            model == parts@.map(|i, s: String| s@),
            r@ == join_by(model.take(i as int), sep@),
        decreases parts.len() - i,
    {
        proof {
            lemma_join_by_step(model, sep@, i as int);
        }
        if i > 0 {
            r.append(sep);
        }
        r.append(parts[i].as_str());
        i = i + 1;
    }
    proof {
        assert(model.take(parts.len() as int) =~= model);
    }
    r
}

/// A key-value pair as it reads in a form field or a signed payload.
pub open spec fn kv_text(kv: (String, String)) -> Seq<char> {
    kv.0@ + "="@ + kv.1@
}

/// Joins key-value pairs, each as "key=value", with the separator.
pub fn join_kv(pairs: &Vec<(String, String)>, sep: &str) -> (r: String)
    ensures
        r@ == join_by(pairs@.map(|i, kv: (String, String)| kv_text(kv)), sep@),
{
    let ghost model = pairs@.map(|i, kv: (String, String)| kv_text(kv));
    let mut out = String::new();
    let mut i: usize = 0;
    while i < pairs.len()
        invariant
            0 <= i <= pairs.len(),
            model == pairs@.map(|i, kv: (String, String)| kv_text(kv)),
            out@ == join_by(model.take(i as int), sep@),
        decreases pairs.len() - i,
    {
        proof {
            lemma_join_by_step(model, sep@, i as int);
        }
        if i > 0 {
            out.append(sep);
        }
        out.append(pairs[i].0.as_str());
        out.append("=");
        out.append(pairs[i].1.as_str());
        proof {
            assert(out@ =~= join_by(model.take(i as int + 1), sep@));
        }
        i = i + 1;
    }
    proof {
        assert(model.take(pairs@.len() as int) =~= model);
    }
    out
}

/// How one character reads inside a JSON string literal: quotes and
/// backslashes escaped, the named control characters by letter, and any
/// other control character as a four-digit escape with lowercase hex.
pub open spec fn json_escape_char(c: char) -> Seq<char> {
    if c == '"' {
        seq!['\\', '"']
    } else if c == '\\' {
        seq!['\\', '\\']
    } else if c == '\u{8}' {
        seq!['\\', 'b']
    } else if c == '\t' {
        seq!['\\', 't']
    } else if c == '\n' {
        seq!['\\', 'n']
    } else if c == '\u{c}' {
        seq!['\\', 'f']
    } else if c == '\r' {
        seq!['\\', 'r']
    } else if (c as u32) < 32 {
        seq!['\\', 'u', '0', '0'] + hex_byte((c as u32) as u8)
    } else {
        seq![c]
    }
}

/// A sequence of characters as they read inside a JSON string literal.
pub open spec fn json_escaped(s: Seq<char>) -> Seq<char>
    decreases s.len(),
{
    if s.len() == 0 {
        Seq::empty()
    } else {
        json_escaped(s.drop_last()) + json_escape_char(s.last())
    }
}

/// A JSON string literal: the escaped characters between double quotes.
pub open spec fn json_string(s: Seq<char>) -> Seq<char> {
    seq!['"'] + json_escaped(s) + seq!['"']
}

/// Renders a string as a JSON string literal.
pub fn json_string_token(s: &str) -> (r: String)
    ensures
        r@ == json_string(s@),
{
    proof {
        reveal_strlit("\"");
        reveal_strlit("\\\"");
        reveal_strlit("\\\\");
        reveal_strlit("\\b");
        reveal_strlit("\\t");
        reveal_strlit("\\n");
        reveal_strlit("\\f");
        reveal_strlit("\\r");
        reveal_strlit("\\u00");
    }
    let n = s.unicode_len();
    let mut out = String::from_str("\"");
    let mut i: usize = 0;
    while i < n
        invariant
            0 <= i <= n == s@.len(),
            out@ == seq!['"'] + json_escaped(s@.take(i as int)),
        decreases n - i,
    {
        proof {
            reveal_strlit("\"");
            reveal_strlit("\\\"");
            reveal_strlit("\\\\");
            reveal_strlit("\\b");
            reveal_strlit("\\t");
            reveal_strlit("\\n");
            reveal_strlit("\\f");
            reveal_strlit("\\r");
            reveal_strlit("\\u00");
            assert(s@.take(i as int + 1).drop_last() =~= s@.take(i as int));
            assert(s@.take(i as int + 1).last() == s@[i as int]);
        }
        let c = s.get_char(i);
        let piece: String = if c == '"' {
            String::from_str("\\\"")
        } else if c == '\\' {
            String::from_str("\\\\")
        } else if c == '\u{8}' {
            String::from_str("\\b")
        } else if c == '\t' {
            String::from_str("\\t")
        } else if c == '\n' {
            String::from_str("\\n")
        } else if c == '\u{c}' {
            String::from_str("\\f")
        } else if c == '\r' {
            String::from_str("\\r")
        } else if (c as u32) < 32 {
            let mut esc = String::from_str("\\u00");
            esc.append(hex_byte_str((c as u32) as u8).as_str());
            esc
        } else {
            String::from_str(s.substring_char(i, i + 1))
        };
        proof {
            assert(piece@ =~= json_escape_char(s@[i as int]));
            assert(json_escaped(s@.take(i as int + 1)) == json_escaped(s@.take(i as int))
                + json_escape_char(s@[i as int]));
        }
        out.append(piece.as_str());
        proof {
            assert(out@ =~= seq!['"'] + json_escaped(s@.take(i as int + 1)));
        }
        i = i + 1;
    }
    proof {
        assert(s@.take(n as int) =~= s@);
    }
    out.append("\"");
    proof {
        assert(out@ =~= json_string(s@));
    }
    out
}

/// The index of the first occurrence of the character, or -1 when absent.
pub open spec fn first_index_of(s: Seq<char>, c: char) -> int
    decreases s.len(),
{
    if s.len() == 0 {
        -1
    } else if s[0] == c {
        0
    } else {
        let rest = first_index_of(s.drop_first(), c);
        if rest < 0 {
            -1
        } else {
            rest + 1
        }
    }
}

/// What the first occurrence index means: a hit is in bounds, is the
/// character, and nothing before it is; a miss means the character is absent.
pub proof fn lemma_first_index_of(s: Seq<char>, c: char)
    ensures
        first_index_of(s, c) >= -1,
        first_index_of(s, c) < 0 ==> forall|k: int| 0 <= k < s.len() ==> s[k] != c,
        first_index_of(s, c) >= 0 ==> first_index_of(s, c) < s.len() && s[first_index_of(s, c)]
            == c && forall|k: int| 0 <= k < first_index_of(s, c) ==> s[k] != c,
    decreases s.len(),
{
    if s.len() > 0 && s[0] != c {
        lemma_first_index_of(s.drop_first(), c);
        let rest = first_index_of(s.drop_first(), c);
        if rest >= 0 {
            assert forall|k: int| 0 <= k < rest + 1 implies s[k] != c by {
                if k > 0 {
                    assert(s.drop_first()[k - 1] != c);
                }
            }
        } else {
            assert forall|k: int| 0 <= k < s.len() implies s[k] != c by {
                if k > 0 {
                    assert(s.drop_first()[k - 1] != c);
                }
            }
        }
    }
}

/// The index of the last occurrence of the character, or -1 when absent.
pub open spec fn last_index_of(s: Seq<char>, c: char) -> int
    decreases s.len(),
{
    if s.len() == 0 {
        -1
    } else if s.last() == c {
        s.len() - 1
    } else {
        last_index_of(s.drop_last(), c)
    }
}

/// What the last occurrence index means: a hit is in bounds, is the
/// character, and nothing after it is; a miss means the character is absent.
pub proof fn lemma_last_index_of(s: Seq<char>, c: char)
    ensures
        last_index_of(s, c) >= -1,
        last_index_of(s, c) < 0 ==> forall|k: int| 0 <= k < s.len() ==> s[k] != c,
        last_index_of(s, c) >= 0 ==> last_index_of(s, c) < s.len() && s[last_index_of(s, c)] == c
            && forall|k: int| last_index_of(s, c) < k < s.len() ==> s[k] != c,
    decreases s.len(),
{
    if s.len() > 0 && s.last() != c {
        let d = s.drop_last();
        lemma_last_index_of(d, c);
        let i = last_index_of(d, c);
        if i < 0 {
            assert forall|k: int| 0 <= k < s.len() implies s[k] != c by {
                if k < s.len() - 1 {
                    assert(d[k] != c);
                }
            }
        } else {
            assert(s[i] == d[i]);
            assert forall|k: int| i < k < s.len() implies s[k] != c by {
                if k < s.len() - 1 {
                    assert(d[k] != c);
                }
            }
        }
    }
}

/// Finds the first occurrence of a character.
pub fn find_char(s: &str, c: char) -> (r: Option<usize>)
    ensures
        match r {
            Some(i) => i == first_index_of(s@, c),
            None => first_index_of(s@, c) < 0,
        },
{
    let n = s.unicode_len();
    let mut i: usize = 0;
    while i < n
        invariant
            0 <= i <= n == s@.len(),
            forall|k: int| 0 <= k < i ==> s@[k] != c,
        decreases n - i,
    {
        if s.get_char(i) == c {
            proof {
                lemma_first_index_of(s@, c);
            }
            return Some(i);
        }
        i = i + 1;
    }
    proof {
        lemma_first_index_of(s@, c);
    }
    None
}

/// Finds the last occurrence of a character.
pub fn rfind_char(s: &str, c: char) -> (r: Option<usize>)
    ensures
        match r {
            Some(i) => i == last_index_of(s@, c),
            None => last_index_of(s@, c) < 0,
        },
{
    let mut i: usize = s.unicode_len();
    while i > 0
        invariant
            0 <= i <= s@.len(),
            forall|k: int| i <= k < s@.len() ==> s@[k] != c,
        decreases i,
    {
        if s.get_char(i - 1) == c {
            proof {
                lemma_last_index_of(s@, c);
            }
            return Some(i - 1);
        }
        i = i - 1;
    }
    proof {
        lemma_last_index_of(s@, c);
    }
    None
}

/// A position whose character matches, with no match before it, is the
/// first occurrence.
pub proof fn lemma_first_index_of_is(s: Seq<char>, c: char, i: int)
    requires
        0 <= i < s.len(),
        s[i] == c,
        forall|k: int| 0 <= k < i ==> s[k] != c,
    ensures
        first_index_of(s, c) == i,
{
    lemma_first_index_of(s, c);
}

/// A sequence without the character has no first occurrence.
pub proof fn lemma_first_index_of_none(s: Seq<char>, c: char)
    requires
        forall|k: int| 0 <= k < s.len() ==> s[k] != c,
    ensures
        first_index_of(s, c) == -1,
{
    lemma_first_index_of(s, c);
}

/// A position whose character matches, with no match after it, is the last
/// occurrence.
pub proof fn lemma_last_index_of_is(s: Seq<char>, c: char, i: int)
    requires
        0 <= i < s.len(),
        s[i] == c,
        forall|k: int| i < k < s.len() ==> s[k] != c,
    ensures
        last_index_of(s, c) == i,
{
    lemma_last_index_of(s, c);
}

/// A sequence without the character has no last occurrence.
pub proof fn lemma_last_index_of_none(s: Seq<char>, c: char)
    requires
        forall|k: int| 0 <= k < s.len() ==> s[k] != c,
    ensures
        last_index_of(s, c) == -1,
{
    lemma_last_index_of(s, c);
}

/// Compares two string slices character by character.
pub fn str_eq(a: &str, b: &str) -> (r: bool)
    ensures
        r == (a@ == b@),
{
    let n = a.unicode_len();
    let m = b.unicode_len();
    if n != m {
        return false;
    }
    let mut i: usize = 0;
    while i < n
        invariant
            0 <= i <= n == a@.len() == b@.len(),
            forall|k: int| 0 <= k < i ==> a@[k] == b@[k],
        decreases n - i,
    {
        if a.get_char(i) != b.get_char(i) {
            return false;
        }
        i = i + 1;
    }
    proof {
        assert(a@ =~= b@);
    }
    true
}

/// The pieces of a sequence cut at every occurrence of the separator. A
/// sequence without the separator is one piece; each separator ends a piece,
/// so a trailing separator yields a trailing empty piece.
pub open spec fn split_by(s: Seq<char>, sep: char) -> Seq<Seq<char>>
    decreases s.len(),
{
    let i = first_index_of(s, sep);
    if 0 <= i < s.len() {
        seq![s.take(i)] + split_by(s.skip(i + 1), sep)
    } else {
        seq![s]
    }
}

/// A sequence free of the separator splits into itself alone.
pub proof fn lemma_split_by_sep_free(s: Seq<char>, sep: char)
    requires
        forall|k: int| 0 <= k < s.len() ==> s[k] != sep,
    ensures
        split_by(s, sep) == seq![s],
{
    lemma_first_index_of_none(s, sep);
}

/// Splitting starts with the separator-free prefix before the first
/// separator, followed by the split of what comes after it.
pub proof fn lemma_split_by_concat(a: Seq<char>, b: Seq<char>, sep: char)
    requires
        forall|k: int| 0 <= k < a.len() ==> a[k] != sep,
    ensures
        split_by(a + seq![sep] + b, sep) == seq![a] + split_by(b, sep),
{
    let s = a + seq![sep] + b;
    assert(s[a.len() as int] == sep);
    lemma_first_index_of_is(s, sep, a.len() as int);
    assert(s.take(a.len() as int) =~= a);
    assert(s.skip(a.len() as int + 1) =~= b);
}

/// Splits a string at every occurrence of the separator.
pub fn split_char(s: &str, sep: char) -> (r: Vec<String>)
    ensures
        r@.map(|i, p: String| p@) == split_by(s@, sep),
    decreases s@.len(),
{
    proof {
        lemma_first_index_of(s@, sep);
    }
    let mut r: Vec<String> = Vec::new();
    match find_char(s, sep) {
        Some(i) => {
            let n = s.unicode_len();
            let head = s.substring_char(0, i);
            let rest = s.substring_char(i + 1, n);
            proof {
                assert(rest@ =~= s@.skip(i + 1));
            }
            r.push(String::from_str(head));
            let mut tail = split_char(rest, sep);
            r.append(&mut tail);
            proof {
                assert(r@.map(|i, p: String| p@) =~= split_by(s@, sep));
            }
        },
        None => {
            r.push(String::from_str(s));
            proof {
                assert(r@.map(|i, p: String| p@) =~= split_by(s@, sep));
            }
        },
    }
    r
}

} // verus!
