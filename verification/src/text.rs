//! Text helpers shared by the other modules: decimal numbers, trimming,
//! lower-casing, joining and substitution, each with its meaning stated over
//! sequences of characters.

use rand::Rng;
use vstd::prelude::*;
use vstd::string::*;
use vstd::utf8::*;

verus! {

/// `String::push` appends one character.
pub assume_specification[ String::push ](s: &mut String, ch: char)
    ensures
        final(s)@ == old(s)@.push(ch),
;

/// `String::from_utf8` accepts exactly the well-formed UTF-8 byte strings and
/// decodes them; the bytes of a rejected input are dropped here.
#[verifier::external_body]
pub(crate) fn string_from_utf8(bytes: Vec<u8>) -> (decoded: Option<String>)
    ensures
        decoded is Some <==> valid_utf8(bytes@),
        decoded is Some ==> decoded->0@ == decode_utf8(bytes@),
{
    String::from_utf8(bytes).ok()
}

/// The character that stands for a decimal digit `d < 10`.
pub open spec fn digit_char(d: nat) -> char {
    ((d + 48) as u8) as char
}

/// Whether `c` is one of `0` to `9`.
pub open spec fn is_digit(c: char) -> bool {
    48 <= c as u32 <= 57
}

/// The value of a decimal digit character.
pub open spec fn digit_value(c: char) -> nat {
    (c as u32 - 48) as nat
}

/// Decimal representation of a number, most significant digit first, with
/// no leading zero.
pub open spec fn decimal(n: nat) -> Seq<char>
    decreases n,
{
    if n < 10 {
        seq![digit_char(n)]
    } else {
        decimal(n / 10).push(digit_char(n % 10))
    }
}

/// The number that a sequence of decimal digits denotes (0 for none).
pub open spec fn decimal_value(digits: Seq<char>) -> nat
    decreases digits.len(),
{
    if digits.len() == 0 {
        0
    } else {
        decimal_value(digits.drop_last()) * 10 + digit_value(digits.last())
    }
}

/// Whether every character of `s` is a decimal digit.
pub open spec fn all_digits(s: Seq<char>) -> bool {
    forall|i: int| 0 <= i < s.len() ==> is_digit(#[trigger] s[i])
}

/// The decimal representation is made of digits, is never empty, starts
/// with `0` only for zero, and denotes the number it was made from.
pub proof fn lemma_decimal_round_trip(n: nat)
    ensures
        decimal(n).len() >= 1,
        all_digits(decimal(n)),
        decimal(n)[0] == '0' <==> n == 0,
        decimal_value(decimal(n)) == n,
    decreases n,
{
    if n < 10 {
        assert(decimal(n) =~= seq![digit_char(n)]);
        assert(decimal(n).drop_last() =~= Seq::<char>::empty());
        assert(decimal_value(decimal(n).drop_last()) == 0);
    } else {
        lemma_decimal_round_trip(n / 10);
        let head = decimal(n / 10);
        assert(decimal(n).drop_last() =~= head);
        assert(decimal(n)[0] == head[0]);
        assert forall|i: int| 0 <= i < decimal(n).len() implies is_digit(
            #[trigger] decimal(n)[i],
        ) by {
            if i < head.len() {
                assert(decimal(n)[i] == head[i]);
            }
        }
    }
}

/// Appends the decimal representation of `n` to `out`.
pub fn push_decimal(out: &mut String, n: u64)
    ensures
        final(out)@ == old(out)@ + decimal(n as nat),
    decreases n,
{
    if n >= 10 {
        push_decimal(out, n / 10);
    }
    let d: u8 = (n % 10) as u8;
    out.push((48u8 + d) as char);
    proof {
        let last = digit_char((n % 10) as nat);
        if n >= 10 {
            let head = decimal((n / 10) as nat);
            assert(old(out)@ + head.push(last) =~= (old(out)@ + head).push(last));
        } else {
            assert(old(out)@ + seq![last] =~= old(out)@.push(last));
        }
    }
}

/// The decimal representation of `n`.
pub fn decimal_string(n: u64) -> (out: String)
    ensures
        out@ == decimal(n as nat),
{
    let mut out = String::new();
    push_decimal(&mut out, n);
    assert(Seq::<char>::empty() + decimal(n as nat) =~= decimal(n as nat));
    out
}

/// The characters of a string, in order.
pub fn chars_of(s: &str) -> (out: Vec<char>)
    ensures
        out@ == s@,
{
    let mut out: Vec<char> = Vec::new();
    for c in it: s.chars()
        invariant
            out@ == it.seq().take(it.index() as int),
            it.seq() == s@,
    {
        out.push(c);
    }
    out
}

/// Appends `chars[from..to]` to `out`.
fn push_chars(out: &mut String, chars: &Vec<char>, from: usize, to: usize)
    requires
        from <= to <= chars.len(),
    ensures
        final(out)@ == old(out)@ + chars@.subrange(from as int, to as int),
{
    let mut i: usize = from;
    while i < to
        invariant
            from <= i <= to <= chars.len(),
            out@ == old(out)@ + chars@.subrange(from as int, i as int),
        decreases to - i,
    {
        out.push(chars[i]);
        assert(chars@.subrange(from as int, i + 1) =~= chars@.subrange(from as int, i as int).push(
            chars@[i as int],
        ));
        i += 1;
    }
}

/// The string made of `chars`.
pub fn string_of(chars: &Vec<char>) -> (out: String)
    ensures
        out@ == chars@,
{
    let mut out = String::new();
    push_chars(&mut out, chars, 0, chars.len());
    assert(chars@.subrange(0, chars.len() as int) =~= chars@);
    out
}

/// Whether two strings hold the same characters.
pub fn same_text(a: &str, b: &str) -> (r: bool)
    ensures
        r == (a@ == b@),
{
    a.to_owned() == b.to_owned()
}

/// Whether `text` begins with `prefix`.
pub open spec fn has_prefix(text: Seq<char>, prefix: Seq<char>) -> bool {
    prefix.len() <= text.len() && text.take(prefix.len() as int) == prefix
}

/// Whether `text` ends with `suffix`.
pub open spec fn has_suffix(text: Seq<char>, suffix: Seq<char>) -> bool {
    suffix.len() <= text.len() && text.skip(text.len() - suffix.len()) == suffix
}

/// Whether `pattern` occurs in `text` at position `at`.
pub open spec fn occurs_at(text: Seq<char>, at: int, pattern: Seq<char>) -> bool {
    0 <= at && at + pattern.len() <= text.len() && text.subrange(at, at + pattern.len())
        == pattern
}

/// Tests whether `pattern` occurs in `text` at position `at`.
pub fn matches_at(text: &Vec<char>, at: usize, pattern: &Vec<char>) -> (r: bool)
    ensures
        r == occurs_at(text@, at as int, pattern@),
{
    if at > text.len() || pattern.len() > text.len() - at {
        return false;
    }
    let mut k: usize = 0;
    while k < pattern.len()
        invariant
            k <= pattern.len(),
            at + pattern.len() <= text.len(),
            text@.subrange(at as int, at + k) == pattern@.take(k as int),
        decreases pattern.len() - k,
    {
        if text[at + k] != pattern[k] {
            assert(text@.subrange(at as int, at + pattern.len())[k as int] != pattern@[k as int]);
            return false;
        }
        assert(text@.subrange(at as int, at + k + 1) =~= text@.subrange(at as int, at + k).push(
            text@[at + k],
        ));
        assert(pattern@.take(k + 1) =~= pattern@.take(k as int).push(pattern@[k as int]));
        k += 1;
    }
    assert(pattern@.take(pattern.len() as int) =~= pattern@);
    true
}

/// Tests whether `text` begins with `prefix`.
pub fn starts_with(text: &str, prefix: &str) -> (r: bool)
    ensures
        r == has_prefix(text@, prefix@),
{
    let t = chars_of(text);
    let p = chars_of(prefix);
    let r = matches_at(&t, 0, &p);
    proof {
        if p.len() <= t.len() {
            assert(t@.subrange(0, 0 + p@.len() as int) =~= t@.take(p@.len() as int));
        }
    }
    r
}

/// Unicode white space: the characters that trimming removes.
pub open spec fn is_space(c: char) -> bool {
    let u = c as u32;
    ||| 0x09 <= u <= 0x0D
    ||| u == 0x20
    ||| u == 0x85
    ||| u == 0xA0
    ||| u == 0x1680
    ||| 0x2000 <= u <= 0x200A
    ||| u == 0x2028
    ||| u == 0x2029
    ||| u == 0x202F
    ||| u == 0x205F
    ||| u == 0x3000
}

/// Tests whether `c` is white space.
pub fn is_whitespace(c: char) -> (r: bool)
    ensures
        r == is_space(c),
{
    let u: u32 = c as u32;
    (0x09 <= u && u <= 0x0D) || u == 0x20 || u == 0x85 || u == 0xA0 || u == 0x1680 || (0x2000 <= u
        && u <= 0x200A) || u == 0x2028 || u == 0x2029 || u == 0x202F || u == 0x205F || u == 0x3000
}

/// `s` without its leading white space.
pub open spec fn trim_start(s: Seq<char>) -> Seq<char>
    decreases s.len(),
{
    if s.len() > 0 && is_space(s[0]) {
        trim_start(s.drop_first())
    } else {
        s
    }
}

/// `s` without its trailing white space.
pub open spec fn trim_end(s: Seq<char>) -> Seq<char>
    decreases s.len(),
{
    if s.len() > 0 && is_space(s.last()) {
        trim_end(s.drop_last())
    } else {
        s
    }
}

/// `s` without leading and trailing white space.
pub open spec fn trimmed(s: Seq<char>) -> Seq<char> {
    trim_end(trim_start(s))
}

/// Text that neither starts nor ends with white space is its own trimming.
pub proof fn lemma_trimmed_identity(s: Seq<char>)
    requires
        s.len() > 0 ==> !is_space(s[0]) && !is_space(s.last()),
    ensures
        trimmed(s) == s,
{
}

/// Copy of `text` without leading and trailing white space.
pub fn trim(text: &str) -> (out: String)
    ensures
        out@ == trimmed(text@),
{
    let chars = chars_of(text);
    let n = chars.len();
    let mut i: usize = 0;
    assert(chars@.skip(0) =~= chars@);
    while i < n && is_whitespace(chars[i])
        invariant
            i <= n == chars.len(),
            trim_start(chars@) == trim_start(chars@.skip(i as int)),
        decreases n - i,
    {
        assert(chars@.skip(i as int).drop_first() =~= chars@.skip(i + 1));
        i += 1;
    }
    assert(trim_start(chars@) == chars@.skip(i as int));
    let mut j: usize = n;
    while j > i && is_whitespace(chars[j - 1])
        invariant
            i <= j <= n == chars.len(),
            trim_end(chars@.skip(i as int)) == trim_end(chars@.subrange(i as int, j as int)),
        decreases j,
    {
        assert(chars@.subrange(i as int, j as int).drop_last() =~= chars@.subrange(
            i as int,
            j - 1,
        ));
        j -= 1;
    }
    proof {
        assert(chars@.skip(i as int) =~= chars@.subrange(i as int, n as int));
        let kept = chars@.subrange(i as int, j as int);
        if j > i {
            assert(kept.last() == chars@[j - 1]);
        }
        assert(trim_end(kept) == kept);
    }
    let mut out = String::new();
    push_chars(&mut out, &chars, i, j);
    assert(Seq::<char>::empty() + chars@.subrange(i as int, j as int) =~= chars@.subrange(
        i as int,
        j as int,
    ));
    out
}

/// The lower-case form of an ASCII capital letter; any other character is
/// left as it is.
pub open spec fn lower_char(c: char) -> char {
    if 65 <= c as u32 <= 90 {
        ((c as u32 + 32) as u8) as char
    } else {
        c
    }
}

/// `s` with its ASCII capital letters made lower case.
pub open spec fn ascii_lower(s: Seq<char>) -> Seq<char> {
    Seq::new(s.len(), |i: int| lower_char(s[i]))
}

/// Copy of `text` with its ASCII capital letters made lower case.
pub fn to_ascii_lowercase(text: &str) -> (out: String)
    ensures
        out@ == ascii_lower(text@),
{
    let chars = chars_of(text);
    let mut out = String::new();
    let mut i: usize = 0;
    while i < chars.len()
        invariant
            i <= chars.len(),
            out@ == ascii_lower(chars@.take(i as int)),
        decreases chars.len() - i,
    {
        let c = chars[i];
        let u: u32 = c as u32;
        let lower: char = if 65 <= u && u <= 90 {
            ((u + 32) as u8) as char
        } else {
            c
        };
        out.push(lower);
        assert(ascii_lower(chars@.take(i + 1)) =~= ascii_lower(chars@.take(i as int)).push(
            lower_char(chars@[i as int]),
        ));
        i += 1;
    }
    assert(chars@.take(chars.len() as int) =~= chars@);
    out
}

/// `parts` written one after the other with `separator` between neighbours.
pub open spec fn joined(parts: Seq<Seq<char>>, separator: Seq<char>) -> Seq<char>
    decreases parts.len(),
{
    if parts.len() == 0 {
        Seq::empty()
    } else if parts.len() == 1 {
        parts[0]
    } else {
        joined(parts.drop_last(), separator) + separator + parts.last()
    }
}

/// The views of a vector of strings.
pub open spec fn texts(parts: Seq<String>) -> Seq<Seq<char>> {
    Seq::new(parts.len(), |i: int| parts[i]@)
}

/// Joins `parts` with `separator` between neighbours.
pub fn join(parts: &Vec<String>, separator: &str) -> (out: String)
    ensures
        out@ == joined(texts(parts@), separator@),
{
    let mut out = String::new();
    let mut i: usize = 0;
    while i < parts.len()
        invariant
            i <= parts.len(),
            out@ == joined(texts(parts@).take(i as int), separator@),
        decreases parts.len() - i,
    {
        if i > 0 {
            out.append(separator);
        }
        out.append(parts[i].as_str());
        proof {
            let all = texts(parts@);
            assert(all.take(i + 1).drop_last() =~= all.take(i as int));
            assert(all.take(i + 1).last() == parts@[i as int]@);
            if i == 0 {
                assert(Seq::<char>::empty() + parts@[0]@ =~= parts@[0]@);
            }
        }
        i += 1;
    }
    assert(texts(parts@).take(parts.len() as int) =~= texts(parts@));
    out
}

/// `text` with every occurrence of `pattern` replaced by `with`, scanning
/// from the left and never looking into a replacement. An empty pattern
/// replaces nothing.
pub open spec fn replaced(text: Seq<char>, pattern: Seq<char>, with: Seq<char>) -> Seq<char>
    decreases text.len(),
{
    if pattern.len() == 0 || text.len() < pattern.len() {
        text
    } else if text.take(pattern.len() as int) == pattern {
        with + replaced(text.skip(pattern.len() as int), pattern, with)
    } else {
        seq![text[0]] + replaced(text.skip(1), pattern, with)
    }
}

/// Replaces every occurrence of `pattern` in `text` by `with`.
pub fn replace(text: &str, pattern: &str, with: &str) -> (out: String)
    ensures
        out@ == replaced(text@, pattern@, with@),
{
    let t = chars_of(text);
    let p = chars_of(pattern);
    if p.len() == 0 {
        return text.to_owned();
    }
    let mut out = String::new();
    let mut i: usize = 0;
    assert(t@.skip(0) =~= t@);
    assert(Seq::<char>::empty() + replaced(t@, p@, with@) =~= replaced(t@, p@, with@));
    while i < t.len()
        invariant
            i <= t.len(),
            p.len() > 0,
            replaced(t@, p@, with@) == out@ + replaced(t@.skip(i as int), p@, with@),
        decreases t.len() - i,
    {
        let ghost rest = t@.skip(i as int);
        let ghost before = out@;
        if matches_at(&t, i, &p) {
            out.append(with);
            proof {
                assert(rest.take(p@.len() as int) =~= t@.subrange(i as int, i + p@.len()));
                assert(rest.skip(p@.len() as int) =~= t@.skip(i + p@.len()));
                assert(before + (with@ + replaced(t@.skip(i + p@.len()), p@, with@)) =~= (before
                    + with@) + replaced(t@.skip(i + p@.len()), p@, with@));
            }
            i += p.len();
        } else {
            out.push(t[i]);
            proof {
                assert(rest.skip(1) =~= t@.skip(i + 1));
                if rest.len() >= p@.len() {
                    assert(rest.take(p@.len() as int) =~= t@.subrange(i as int, i + p@.len()));
                } else {
                    assert(replaced(rest.skip(1), p@, with@) == rest.skip(1));
                    assert(rest =~= seq![rest[0]] + rest.skip(1));
                }
                assert(before + (seq![rest[0]] + replaced(t@.skip(i + 1), p@, with@)) =~= before.push(
                    t@[i as int],
                ) + replaced(t@.skip(i + 1), p@, with@));
            }
            i += 1;
        }
    }
    assert(replaced(t@.skip(t.len() as int), p@, with@) =~= Seq::<char>::empty());
    assert(out@ + Seq::<char>::empty() =~= out@);
    out
}

/// The pieces of `s` between the occurrences of `separator`: one more piece
/// than there are separators, empty pieces included.
pub open spec fn split(s: Seq<char>, separator: char) -> Seq<Seq<char>>
    decreases s.len(),
{
    if s.len() == 0 {
        seq![Seq::empty()]
    } else {
        let before = split(s.drop_last(), separator);
        if s.last() == separator {
            before.push(Seq::empty())
        } else {
            before.drop_last().push(before.last().push(s.last()))
        }
    }
}

/// The views of a vector of character vectors.
pub open spec fn pieces(parts: Seq<Vec<char>>) -> Seq<Seq<char>> {
    Seq::new(parts.len(), |i: int| parts[i]@)
}

/// Splits `chars` at every occurrence of `separator`.
pub fn split_on(chars: &Vec<char>, separator: char) -> (parts: Vec<Vec<char>>)
    ensures
        pieces(parts@) == split(chars@, separator),
        parts.len() >= 1,
{
    let mut done: Vec<Vec<char>> = Vec::new();
    let mut current: Vec<char> = Vec::new();
    let mut i: usize = 0;
    assert(chars@.take(0) =~= Seq::<char>::empty());
    assert(pieces(done@).push(current@) =~= seq![Seq::<char>::empty()]);
    while i < chars.len()
        invariant
            i <= chars.len(),
            split(chars@.take(i as int), separator) == pieces(done@).push(current@),
        decreases chars.len() - i,
    {
        let c = chars[i];
        let ghost before = pieces(done@).push(current@);
        assert(chars@.take(i + 1).drop_last() =~= chars@.take(i as int));
        assert(chars@.take(i + 1).last() == c);
        if c == separator {
            done.push(current);
            current = Vec::new();
            assert(pieces(done@) =~= before);
            assert(pieces(done@).push(current@) =~= before.push(Seq::empty()));
        } else {
            let ghost open = current@;
            current.push(c);
            assert(before.drop_last() =~= pieces(done@));
            assert(before.last() == open);
        }
        i += 1;
    }
    assert(chars@.take(chars.len() as int) =~= chars@);
    let ghost all = pieces(done@).push(current@);
    done.push(current);
    assert(pieces(done@) =~= all);
    done
}

/// Whether `s` is the decimal representation of a number: digits only, at
/// least one, and no leading zero but for zero itself.
pub open spec fn is_canonical_decimal(s: Seq<char>) -> bool {
    s.len() >= 1 && all_digits(s) && (s.len() == 1 || s[0] != '0')
}

/// A digit is the character of its own value.
pub proof fn lemma_digit_char(c: char)
    requires
        is_digit(c),
    ensures
        digit_char(digit_value(c)) == c,
{
    let u: u32 = c as u32;
    assert(u as char == c);
    assert(((u as u8) as u32) == u);
    assert((u as u8) as char == u as char);
}

/// A canonical decimal is the representation of the number it denotes.
pub proof fn lemma_canonical_decimal(s: Seq<char>)
    requires
        is_canonical_decimal(s),
    ensures
        decimal(decimal_value(s)) == s,
        s.len() > 1 ==> decimal_value(s) >= 10,
    decreases s.len(),
{
    let head = s.drop_last();
    let last = s.last();
    assert(is_digit(last));
    if s.len() == 1 {
        assert(head =~= Seq::<char>::empty());
        assert(decimal_value(head) == 0);
        assert(decimal_value(s) == digit_value(last));
        lemma_digit_char(last);
        assert(decimal(decimal_value(s)) =~= s);
    } else {
        assert(head[0] == s[0]);
        assert(is_digit(s[0]));
        assert forall|i: int| 0 <= i < head.len() implies is_digit(#[trigger] head[i]) by {
            assert(head[i] == s[i]);
        }
        lemma_canonical_decimal(head);
        if head.len() == 1 {
            assert(head.drop_last() =~= Seq::<char>::empty());
            assert(decimal_value(head.drop_last()) == 0);
            assert(decimal_value(head) == digit_value(head[0]));
            assert(decimal_value(head) >= 1);
        }
        let v = decimal_value(head);
        assert(decimal_value(s) == v * 10 + digit_value(last));
        assert(decimal_value(s) / 10 == v);
        assert(decimal_value(s) % 10 == digit_value(last));
        lemma_digit_char(last);
        assert(decimal(decimal_value(s)) =~= decimal(v).push(last));
        assert(head.push(last) =~= s);
    }
}

/// Reads a canonical decimal of at most three digits.
pub fn parse_small_decimal(s: &Vec<char>) -> (value: Option<u16>)
    ensures
        value is Some <==> is_canonical_decimal(s@) && s.len() <= 3,
        value is Some ==> value->0 == decimal_value(s@),
{
    if s.len() < 1 || s.len() > 3 {
        return None;
    }
    let mut value: u16 = 0;
    let mut i: usize = 0;
    assert(s@.take(0) =~= Seq::<char>::empty());
    while i < s.len()
        invariant
            i <= s.len() <= 3,
            all_digits(s@.take(i as int)),
            value == decimal_value(s@.take(i as int)),
            value <= 999,
            i <= 2 ==> value <= 99,
            i <= 1 ==> value <= 9,
            i == 0 ==> value == 0,
        decreases s.len() - i,
    {
        let u: u32 = s[i] as u32;
        if u < 48 || u > 57 {
            assert(!is_digit(s@[i as int]));
            return None;
        }
        assert(s@.take(i + 1).drop_last() =~= s@.take(i as int));
        assert(s@.take(i + 1).last() == s@[i as int]);
        assert forall|k: int| 0 <= k < i + 1 implies is_digit(#[trigger] s@.take(i + 1)[k]) by {
            if k < i {
                assert(s@.take(i as int)[k] == s@.take(i + 1)[k]);
            }
        }
        value = value * 10 + (u - 48) as u16;
        i += 1;
    }
    assert(s@.take(s.len() as int) =~= s@);
    if s.len() > 1 && s[0] == '0' {
        return None;
    }
    Some(value)
}

/// Whether `separator` does not occur in `s`.
pub open spec fn free_of(s: Seq<char>, separator: char) -> bool {
    forall|i: int| 0 <= i < s.len() ==> #[trigger] s[i] != separator
}

/// Text without a separator is a single piece.
pub proof fn lemma_split_single(piece: Seq<char>, separator: char)
    requires
        free_of(piece, separator),
    ensures
        split(piece, separator) == seq![piece],
    decreases piece.len(),
{
    if piece.len() == 0 {
        assert(piece =~= Seq::<char>::empty());
    } else {
        let head = piece.drop_last();
        assert forall|i: int| 0 <= i < head.len() implies #[trigger] head[i] != separator by {
            assert(head[i] == piece[i]);
        }
        lemma_split_single(head, separator);
        assert(piece.last() == piece[piece.len() - 1]);
        assert(head.push(piece.last()) =~= piece);
        assert(seq![head].drop_last().push(piece) =~= seq![piece]);
    }
}

/// A separator and a piece without one, written after `s`, add that piece
/// to the pieces of `s`.
pub proof fn lemma_split_append(s: Seq<char>, piece: Seq<char>, separator: char)
    requires
        free_of(piece, separator),
    ensures
        split(s + seq![separator] + piece, separator) == split(s, separator).push(piece),
    decreases piece.len(),
{
    let whole = s + seq![separator] + piece;
    if piece.len() == 0 {
        assert(whole.drop_last() =~= s);
        assert(whole.last() == separator);
        assert(piece =~= Seq::<char>::empty());
    } else {
        let head = piece.drop_last();
        assert forall|i: int| 0 <= i < head.len() implies #[trigger] head[i] != separator by {
            assert(head[i] == piece[i]);
        }
        lemma_split_append(s, head, separator);
        assert(whole.drop_last() =~= s + seq![separator] + head);
        assert(whole.last() == piece[piece.len() - 1]);
        let before = split(s, separator).push(head);
        assert(before.drop_last() =~= split(s, separator));
        assert(head.push(piece.last()) =~= piece);
    }
}

/// The pieces of a text, joined by the separator, are the text again.
pub proof fn lemma_join_of_split(s: Seq<char>, separator: char)
    ensures
        split(s, separator).len() >= 1,
        joined(split(s, separator), seq![separator]) == s,
    decreases s.len(),
{
    if s.len() == 0 {
        assert(split(s, separator) =~= seq![Seq::<char>::empty()]);
        assert(s =~= Seq::<char>::empty());
    } else {
        let head = s.drop_last();
        let before = split(head, separator);
        lemma_join_of_split(head, separator);
        let sep = seq![separator];
        if s.last() == separator {
            let parts = before.push(Seq::empty());
            assert(parts.drop_last() =~= before);
            assert(joined(parts, sep) == joined(before, sep) + sep + parts.last());
            assert(head + sep + Seq::<char>::empty() =~= s);
        } else {
            let last = before.last().push(s.last());
            let parts = before.drop_last().push(last);
            assert(parts.drop_last() =~= before.drop_last());
            if before.len() == 1 {
                assert(joined(before, sep) == before[0]);
                assert(before[0].push(s.last()) =~= s);
            } else {
                assert(joined(before, sep) == joined(before.drop_last(), sep) + sep
                    + before.last());
                assert(joined(parts, sep) == joined(before.drop_last(), sep) + sep + last);
                assert(joined(before.drop_last(), sep) + sep + last =~= (joined(
                    before.drop_last(),
                    sep,
                ) + sep + before.last()).push(s.last()));
                assert(head.push(s.last()) =~= s);
            }
        }
    }
}

/// Whether `c` is an ASCII letter or digit.
pub open spec fn is_alphanumeric(c: char) -> bool {
    let u = c as u32;
    (48 <= u <= 57) || (65 <= u <= 90) || (97 <= u <= 122)
}

/// Draws `len` characters from `rand::distributions::Alphanumeric` with the
/// thread's generator. Each of them is an ASCII letter or digit; which ones
/// come is left to chance.
#[verifier::external_body]
pub(crate) fn random_alphanumeric(len: usize) -> (drawn: String)
    ensures
        drawn@.len() == len,
        forall|i: int| 0 <= i < drawn@.len() ==> is_alphanumeric(#[trigger] drawn@[i]),
{
    rand::thread_rng().sample_iter(&rand::distributions::Alphanumeric).take(len).map(
        char::from,
    ).collect()
}

} // verus!
