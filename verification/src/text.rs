//! Character-level helpers on text: conversions, path joining, splitting on a
//! separator and decimal parsing.
use vstd::prelude::*;

verus! {

/// The characters of `s`, in order.
pub fn chars_of(s: &str) -> (v: Vec<char>)
    ensures
        v@ == s@,
{
    broadcast use vstd::string::axiom_spec_iter;
    let mut v: Vec<char> = Vec::new();
    for c in it: s.chars()
        invariant
            v@ == it.seq().take(it.index() as int),
            it.seq() == s@,
    {
        v.push(c);
    }
    v
}

/// Appends one character to a string (`String::push`).
#[verifier::external_body]
fn push_char(s: &mut String, c: char)
    ensures
        final(s)@ == old(s)@.push(c),
{
    s.push(c);
}

/// The string made of the characters of `v`, in order.
pub fn string_of(v: &Vec<char>) -> (s: String)
    ensures
        s@ == v@,
{
    let mut s = String::new();
    let mut i: usize = 0;
    while i < v.len()
        invariant
            i <= v.len(),
            s@ == v@.take(i as int),
        decreases v.len() - i,
    {
        push_char(&mut s, v[i]);
        proof {
            assert(v@.take(i + 1) =~= v@.take(i as int).push(v@[i as int]));
        }
        i = i + 1;
    }
    proof {
        assert(v@.take(v.len() as int) =~= v@);
    }
    s
}

/// A copy of `s` as an owned string.
pub fn owned(s: &str) -> (r: String)
    ensures
        r@ == s@,
{
    let v = chars_of(s);
    string_of(&v)
}

/// Whether two texts hold the same characters.
pub fn text_eq(a: &str, b: &str) -> (r: bool)
    ensures
        r == (a@ == b@),
{
    let va = chars_of(a);
    let vb = chars_of(b);
    if va.len() != vb.len() {
        return false;
    }
    let mut i: usize = 0;
    while i < va.len()
        invariant
            va@ == a@,
            vb@ == b@,
            va.len() == vb.len(),
            i <= va.len(),
            forall|j: int| 0 <= j < i ==> va@[j] == vb@[j],
        decreases va.len() - i,
    {
        if va[i] != vb[i] {
            return false;
        }
        i = i + 1;
    }
    proof {
        assert(va@ =~= vb@);
    }
    true
}

/// `part` appended to the path `base` with a `/` between them, the way a
/// path is extended on Unix: an absolute `part` replaces `base`, an empty
/// `base` gives `part`, and no second separator is added after a trailing
/// one.
pub open spec fn join_path_spec(base: Seq<char>, part: Seq<char>) -> Seq<char> {
    if part.len() > 0 && part[0] == '/' {
        part
    } else if base.len() == 0 {
        part
    } else if base.last() == '/' {
        base + part
    } else {
        base + seq!['/'] + part
    }
}

/// Extends the path `base` by `part` (see `join_path_spec`).
pub fn join_path(base: &str, part: &str) -> (r: String)
    ensures
        r@ == join_path_spec(base@, part@),
{
    let b = chars_of(base);
    let p = chars_of(part);
    if p.len() > 0 && p[0] == '/' {
        return string_of(&p);
    }
    if b.len() == 0 {
        return string_of(&p);
    }
    let mut r = string_of(&b);
    if b[b.len() - 1] != '/' {
        push_char(&mut r, '/');
    }
    r.append(part);
    r
}

/// The pieces of `s` between occurrences of `sep`, from left to right; a
/// text holding `n` separators has `n + 1` pieces, some possibly empty.
pub open spec fn split_spec(s: Seq<char>, sep: char) -> Seq<Seq<char>>
    decreases s.len(),
{
    if s.len() == 0 {
        seq![Seq::<char>::empty()]
    } else {
        let pieces = split_spec(s.drop_last(), sep);
        if s.last() == sep {
            pieces.push(Seq::<char>::empty())
        } else {
            pieces.update(pieces.len() - 1, pieces.last().push(s.last()))
        }
    }
}

/// The pieces joined back together with `sep` between consecutive ones.
pub open spec fn join_spec(pieces: Seq<Seq<char>>, sep: char) -> Seq<char>
    decreases pieces.len(),
{
    if pieces.len() == 0 {
        Seq::<char>::empty()
    } else if pieces.len() == 1 {
        pieces[0]
    } else {
        join_spec(pieces.drop_last(), sep) + seq![sep] + pieces.last()
    }
}

/// Splitting always gives at least one piece.
pub proof fn lemma_split_len_pos(s: Seq<char>, sep: char)
    ensures
        split_spec(s, sep).len() >= 1,
    decreases s.len(),
{
    if s.len() > 0 {
        lemma_split_len_pos(s.drop_last(), sep);
    }
}

/// Splitting on `sep` loses nothing: joining the pieces with `sep` gives the
/// text back, and no piece holds `sep`.
pub proof fn lemma_split_join(s: Seq<char>, sep: char)
    ensures
        join_spec(split_spec(s, sep), sep) == s,
        forall|i: int, j: int|
            0 <= i < split_spec(s, sep).len() && 0 <= j < split_spec(s, sep)[i].len()
                ==> split_spec(s, sep)[i][j] != sep,
    decreases s.len(),
{
    if s.len() == 0 {
    } else {
        let t = s.drop_last();
        lemma_split_join(t, sep);
        lemma_split_len_pos(t, sep);
        let pieces = split_spec(t, sep);
        if s.last() == sep {
            let np = pieces.push(Seq::<char>::empty());
            assert(np.drop_last() =~= pieces);
            assert(join_spec(np, sep) =~= s);
        } else {
            let np = pieces.update(pieces.len() - 1, pieces.last().push(s.last()));
            if pieces.len() == 1 {
                assert(join_spec(np, sep) =~= s);
            } else {
                assert(np.drop_last() =~= pieces.drop_last());
                let a = join_spec(pieces.drop_last(), sep);
                assert(join_spec(pieces, sep) == a + seq![sep] + pieces.last());
                assert(np.last() == pieces.last().push(s.last()));
                assert(join_spec(np, sep) == a + seq![sep] + np.last());
                assert(s =~= t.push(s.last()));
                assert(a + seq![sep] + pieces.last().push(s.last()) =~= (a + seq![sep]
                    + pieces.last()).push(s.last()));
            }
            assert forall|i: int, j: int|
                0 <= i < np.len() && 0 <= j < np[i].len() implies np[i][j] != sep by {
                if i < pieces.len() - 1 {
                    assert(np[i] == pieces[i]);
                } else {
                    if j < pieces.last().len() {
                        assert(np[i][j] == pieces[pieces.len() - 1][j]);
                    }
                }
            }
        }
    }
}

/// Splits `s` at every occurrence of `sep` (see `split_spec`).
pub fn split_on(s: &str, sep: char) -> (pieces: Vec<String>)
    ensures
        pieces@.len() == split_spec(s@, sep).len(),
        forall|i: int| 0 <= i < pieces@.len() ==> #[trigger] pieces@[i]@ == split_spec(s@, sep)[i],
{
    let v = chars_of(s);
    let mut pieces: Vec<String> = Vec::new();
    let mut current: Vec<char> = Vec::new();
    let mut i: usize = 0;
    while i < v.len()
        invariant
            v@ == s@,
            i <= v.len(),
            pieces@.len() + 1 == split_spec(s@.take(i as int), sep).len(),
            forall|k: int| 0 <= k < pieces@.len() ==> #[trigger] pieces@[k]@ == split_spec(s@.take(i as int), sep)[k],
            current@ == split_spec(s@.take(i as int), sep).last(),
        decreases v.len() - i,
    {
        proof {
            assert(s@.take(i + 1).drop_last() =~= s@.take(i as int));
            lemma_split_len_pos(s@.take(i as int), sep);
        }
        let c = v[i];
        if c == sep {
            let piece = string_of(&current);
            pieces.push(piece);
            current = Vec::new();
        } else {
            current.push(c);
        }
        i = i + 1;
    }
    proof {
        assert(s@.take(v.len() as int) =~= s@);
    }
    let piece = string_of(&current);
    pieces.push(piece);
    pieces
}

/// Whether `c` is one of the decimal digits `0`..`9`.
pub open spec fn is_digit(c: char) -> bool {
    '0' <= c && c <= '9'
}

/// The value of the decimal digit `c`.
pub open spec fn digit_value(c: char) -> int {
    c as int - '0' as int
}

/// Whether every character of `d` is a decimal digit.
pub open spec fn all_digits(d: Seq<char>) -> bool {
    forall|i: int| 0 <= i < d.len() ==> is_digit(#[trigger] d[i])
}

/// The number written by the decimal digits `d` (most significant first).
pub open spec fn decimal_value(d: Seq<char>) -> int
    decreases d.len(),
{
    if d.len() == 0 {
        0
    } else {
        decimal_value(d.drop_last()) * 10 + digit_value(d.last())
    }
}

/// The digits of `s` once an optional leading `+` is set aside.
pub open spec fn unsigned_digits(s: Seq<char>) -> Seq<char> {
    if s.len() > 0 && s[0] == '+' {
        s.skip(1)
    } else {
        s
    }
}

/// What reading `s` as a 16-bit unsigned decimal gives: an optional `+`
/// followed by at least one digit and nothing else, whose value fits in 16
/// bits; `None` for any other text.
pub open spec fn parse_u16_spec(s: Seq<char>) -> Option<u16> {
    let d = unsigned_digits(s);
    if d.len() > 0 && all_digits(d) && decimal_value(d) <= 65535 {
        Some(decimal_value(d) as u16)
    } else {
        None
    }
}

/// Reads `s` as a 16-bit unsigned decimal number (see `parse_u16_spec`).
pub fn parse_u16(s: &str) -> (r: Option<u16>)
    ensures
        r == parse_u16_spec(s@),
{
    let v = chars_of(s);
    let start: usize = if v.len() > 0 && v[0] == '+' { 1 } else { 0 };
    let ghost d = unsigned_digits(s@);
    proof {
        assert(d =~= v@.skip(start as int));
    }
    if start >= v.len() {
        return None;
    }
    let mut i: usize = start;
    while i < v.len()
        invariant
            v@ == s@,
            d == v@.skip(start as int),
            d == unsigned_digits(s@),
            start <= i <= v.len(),
            forall|j: int| start <= j < i ==> is_digit(#[trigger] v@[j]),
        decreases v.len() - i,
    {
        if !('0' <= v[i] && v[i] <= '9') {
            proof {
                assert(d[i - start] == v@[i as int]);
                assert(!is_digit(d[i - start]));
                assert(!all_digits(d));
            }
            return None;
        }
        i = i + 1;
    }
    proof {
        assert forall|j: int| 0 <= j < d.len() implies is_digit(#[trigger] d[j]) by {
            assert(d[j] == v@[j + start]);
        }
    }
    // `acc` holds the value of the digits read so far, capped at 65536.
    let mut acc: u32 = 0;
    let mut k: usize = start;
    while k < v.len()
        invariant
            v@ == s@,
            d == v@.skip(start as int),
            d == unsigned_digits(s@),
            start <= k <= v.len(),
            all_digits(d),
            acc as int == if decimal_value(d.take(k - start)) < 65536 {
                decimal_value(d.take(k - start))
            } else {
                65536
            },
        decreases v.len() - k,
    {
        let c = v[k];
        proof {
            assert(d[k - start] == c);
            assert(is_digit(d[k - start]));
            assert(d.take(k - start + 1).drop_last() =~= d.take(k - start));
            assert(d.take(k - start + 1).last() == c);
        }
        let digit: u32 = (c as u32) - ('0' as u32);
        let next: u32 = acc * 10 + digit;
        acc = if next < 65536 { next } else { 65536 };
        k = k + 1;
    }
    proof {
        assert(d.take(k - start) =~= d);
    }
    if acc < 65536 {
        Some(acc as u16)
    } else {
        None
    }
}

/// The character of the decimal digit `d`, for `d` in `0..10`.
pub open spec fn digit_char(d: int) -> char {
    seq!['0', '1', '2', '3', '4', '5', '6', '7', '8', '9'][d]
}

/// The decimal writing of `n`: its digits, most significant first, with no
/// leading zero (`0` is written `0`).
pub open spec fn decimal_digits(n: nat) -> Seq<char>
    decreases n,
{
    if n < 10 {
        seq![digit_char(n as int)]
    } else {
        decimal_digits(n / 10).push(digit_char((n % 10) as int))
    }
}

proof fn lemma_digit_char(d: int)
    requires
        0 <= d < 10,
    ensures
        is_digit(digit_char(d)),
        digit_value(digit_char(d)) == d,
{
}

/// The decimal writing of a number is made of digits, is not empty, and
/// reads back as the number.
pub proof fn lemma_decimal_digits(n: nat)
    ensures
        decimal_digits(n).len() > 0,
        all_digits(decimal_digits(n)),
        decimal_value(decimal_digits(n)) == n,
    decreases n,
{
    if n < 10 {
        lemma_digit_char(n as int);
        let d = decimal_digits(n);
        assert(d.drop_last() =~= Seq::<char>::empty());
        assert(decimal_value(d.drop_last()) == 0);
        assert(d.last() == digit_char(n as int));
    } else {
        lemma_decimal_digits(n / 10);
        lemma_digit_char((n % 10) as int);
        let d = decimal_digits(n);
        assert(d.drop_last() =~= decimal_digits(n / 10));
        assert(d.last() == digit_char((n % 10) as int));
        assert(decimal_value(d) == decimal_value(decimal_digits(n / 10)) * 10 + digit_value(d.last()));
        assert((n / 10) * 10 + n % 10 == n) by (nonlinear_arith);
        assert forall|i: int| 0 <= i < d.len() implies is_digit(#[trigger] d[i]) by {
            if i < d.len() - 1 {
                assert(d[i] == decimal_digits(n / 10)[i]);
            }
        }
    }
}

/// Reading back what is written of a 16-bit number gives the number.
pub proof fn lemma_parse_decimal_round_trip(n: u16)
    ensures
        parse_u16_spec(decimal_digits(n as nat)) == Some(n),
{
    let d = decimal_digits(n as nat);
    lemma_decimal_digits(n as nat);
    assert(is_digit(d[0]));
    assert(unsigned_digits(d) == d);
}

/// Appends the decimal writing of `n` to `s`.
fn push_decimal(n: u64, s: &mut String)
    ensures
        final(s)@ == old(s)@ + decimal_digits(n as nat),
    decreases n,
{
    if n >= 10 {
        push_decimal(n / 10, s);
    }
    let c = match n % 10 {
        0 => '0',
        1 => '1',
        2 => '2',
        3 => '3',
        4 => '4',
        5 => '5',
        6 => '6',
        7 => '7',
        8 => '8',
        _ => '9',
    };
    push_char(s, c);
    proof {
        assert(c == digit_char((n % 10) as int));
        if n >= 10 {
            assert(old(s)@ + decimal_digits(n as nat) =~= old(s)@ + decimal_digits((n / 10) as nat)
                + seq![c]);
        } else {
            assert(n % 10 == n);
        }
    }
}

/// The decimal writing of `n` (see `decimal_digits`).
pub fn decimal_string(n: u64) -> (s: String)
    ensures
        s@ == decimal_digits(n as nat),
{
    let mut s = String::new();
    push_decimal(n, &mut s);
    proof {
        assert(Seq::<char>::empty() + decimal_digits(n as nat) =~= decimal_digits(n as nat));
    }
    s
}

} // verus!
