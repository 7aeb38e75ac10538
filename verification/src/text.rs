//! Text building blocks: characters of a string, decimal numerals, prefixes.

use vstd::prelude::*;
use vstd::string::*;
use vstd::std_specs::iter::IteratorSpec;

verus! {

/// Wraps `String::push`.
#[verifier::external_body]
pub(crate) fn push_char(s: &mut String, c: char)
    ensures
        final(s)@ == old(s)@.push(c),
{
    s.push(c);
}

/// The characters of `s`, in order.
pub fn chars_of(s: &str) -> (v: Vec<char>)
    ensures
        v@ == s@,
{
    let mut v: Vec<char> = Vec::new();
    let mut it = s.chars();
    loop
        invariant
            v@ + it.remaining() == s@,
            it.decrease() is Some,
        ensures
            v@ == s@,
        decreases it.decrease()->0,
    {
        match it.next() {
            Some(c) => {
                v.push(c);
            },
            None => {
                assert(v@ =~= v@ + it.remaining());
                break ;
            },
        }
    }
    v
}

/// The character of a decimal digit `0..10`.
pub open spec fn decimal_digit(d: int) -> char {
    (d + 48) as char
}

/// The decimal numeral of a natural number, without leading zeros.
pub open spec fn decimal(n: nat) -> Seq<char>
    decreases n,
{
    if n < 10 {
        seq![decimal_digit(n as int)]
    } else {
        decimal(n / 10).push(decimal_digit((n % 10) as int))
    }
}

/// The decimal numeral of an integer, with a leading `-` when it is negative.
pub open spec fn signed_decimal(n: int) -> Seq<char> {
    if n < 0 {
        seq!['-'] + decimal((-n) as nat)
    } else {
        decimal(n as nat)
    }
}

/// Appends the decimal numeral of `n`.
pub fn push_decimal(s: &mut String, n: u64)
    ensures
        final(s)@ == old(s)@ + decimal(n as nat),
    decreases n,
{
    if n >= 10 {
        push_decimal(s, n / 10);
    }
    let d: u8 = (n % 10) as u8;
    push_char(s, (48u8 + d) as char);
    assert(s@ =~= old(s)@ + decimal(n as nat));
}

/// Appends the decimal numeral of a signed `n`.
pub fn push_signed_decimal(s: &mut String, n: i32)
    ensures
        final(s)@ == old(s)@ + signed_decimal(n as int),
{
    if n < 0 {
        push_char(s, '-');
        let m: i64 = 0i64 - (n as i64);
        push_decimal(s, m as u64);
        assert(s@ =~= old(s)@ + signed_decimal(n as int));
    } else {
        push_decimal(s, n as u64);
    }
}

/// `p` is a prefix of `s`.
pub open spec fn is_prefix(p: Seq<char>, s: Seq<char>) -> bool {
    p.len() <= s.len() && s.take(p.len() as int) =~= p
}

/// Whether `p` is a prefix of `s`.
pub fn has_prefix(s: &Vec<char>, p: &Vec<char>) -> (b: bool)
    ensures
        b == is_prefix(p@, s@),
{
    if p.len() > s.len() {
        return false;
    }
    let mut i: usize = 0;
    while i < p.len()
        invariant
            p.len() <= s.len(),
            i <= p.len(),
            forall|j: int| 0 <= j < i ==> s@[j] == p@[j],
        decreases p.len() - i,
    {
        if s[i] != p[i] {
            assert(s@.take(p.len() as int)[i as int] != p@[i as int]);
            return false;
        }
        i = i + 1;
    }
    true
}

/// A new string with the characters `cs`.
pub fn string_from_chars(cs: &Vec<char>) -> (s: String)
    ensures
        s@ == cs@,
{
    let mut s = String::new();
    let mut i: usize = 0;
    while i < cs.len()
        invariant
            i <= cs.len(),
            s@ =~= cs@.take(i as int),
        decreases cs.len() - i,
    {
        push_char(&mut s, cs[i]);
        i = i + 1;
        assert(s@ =~= cs@.take(i as int));
    }
    s
}

} // verus!

verus! {

/// The number of characters before the first line feed (all of them when there
/// is none).
pub open spec fn line_len(s: Seq<char>) -> nat
    decreases s.len(),
{
    if s.len() == 0 || s[0] == '\n' {
        0
    } else {
        1 + line_len(s.drop_first())
    }
}

/// A line without the carriage return that ended it.
pub open spec fn strip_cr(l: Seq<char>) -> Seq<char> {
    if l.len() > 0 && l.last() == '\r' {
        l.drop_last()
    } else {
        l
    }
}

/// The lines of a text, as `str::lines` yields them: split at each `\n` or
/// `\r\n`, without the terminators, and with no empty line after a final one.
pub open spec fn lines(s: Seq<char>) -> Seq<Seq<char>>
    decreases s.len(),
{
    if s.len() == 0 {
        seq![]
    } else {
        let n = line_len(s);
        if n < s.len() {
            seq![strip_cr(s.take(n as int))] + lines(s.skip(n + 1 as int))
        } else {
            seq![s]
        }
    }
}

proof fn lemma_line_len(s: Seq<char>, n: nat)
    requires
        n <= s.len(),
        forall|i: int| 0 <= i < n ==> s[i] != '\n',
        n == s.len() || s[n as int] == '\n',
    ensures
        line_len(s) == n,
    decreases n,
{
    if n > 0 {
        let t = s.drop_first();
        assert forall|i: int| 0 <= i < n - 1 implies t[i] != '\n' by {
            assert(t[i] == s[i + 1]);
        }
        if n < s.len() {
            assert(t[n - 1] == s[n as int]);
        }
        lemma_line_len(t, (n - 1) as nat);
    }
}

/// The characters `cs[from..to]`.
pub fn slice_chars(cs: &Vec<char>, from: usize, to: usize) -> (r: Vec<char>)
    requires
        from <= to <= cs@.len(),
    ensures
        r@ == cs@.subrange(from as int, to as int),
{
    let mut r: Vec<char> = Vec::new();
    let mut i = from;
    while i < to
        invariant
            from <= i <= to,
            to <= cs@.len(),
            r@ =~= cs@.subrange(from as int, i as int),
        decreases to - i,
    {
        r.push(cs[i]);
        i = i + 1;
        assert(r@ =~= cs@.subrange(from as int, i as int));
    }
    r
}

/// The lines of `cs`, as `lines` describes them.
pub fn split_lines(cs: &Vec<char>) -> (ls: Vec<Vec<char>>)
    ensures
        ls@.map_values(|l: Vec<char>| l@) == lines(cs@),
{
    let mut ls: Vec<Vec<char>> = Vec::new();
    let mut pos: usize = 0;
    let n = cs.len();
    assert(cs@.skip(0) =~= cs@);
    assert(lines(cs@) =~= ls@.map_values(|l: Vec<char>| l@) + lines(cs@.skip(0)));
    while pos < n
        invariant
            n == cs@.len(),
            pos <= n,
            lines(cs@) == ls@.map_values(|l: Vec<char>| l@) + lines(cs@.skip(pos as int)),
        decreases n - pos,
    {
        let ghost rest = cs@.skip(pos as int);
        let mut j = pos;
        while j < n && cs[j] != '\n'
            invariant
                pos <= j <= n,
                n == cs@.len(),
                forall|i: int| pos <= i < j ==> cs@[i] != '\n',
            decreases n - j,
        {
            j = j + 1;
        }
        proof {
            assert forall|i: int| 0 <= i < j - pos implies rest[i] != '\n' by {
                assert(rest[i] == cs@[pos + i]);
            }
            if j < n {
                assert(rest[j - pos] == cs@[j as int]);
            }
            lemma_line_len(rest, (j - pos) as nat);
        }
        let ghost prev = ls@.map_values(|l: Vec<char>| l@);
        let mut line = slice_chars(cs, pos, j);
        assert(line@ =~= rest.take((j - pos) as int));
        if j < n {
            if line.len() > 0 && line[line.len() - 1] == '\r' {
                line.pop();
            }
            assert(line@ == strip_cr(rest.take((j - pos) as int)));
            ls.push(line);
            assert(rest.skip((j - pos) + 1) =~= cs@.skip(j + 1));
            assert(ls@.map_values(|l: Vec<char>| l@) =~= prev.push(strip_cr(rest.take((j - pos) as int))));
            assert(lines(rest) == seq![strip_cr(rest.take((j - pos) as int))] + lines(cs@.skip(j + 1)));
            assert(lines(cs@) =~= ls@.map_values(|l: Vec<char>| l@) + lines(cs@.skip(j + 1)));
            pos = j + 1;
        } else {
            assert(rest.take((j - pos) as int) =~= rest);
            ls.push(line);
            assert(ls@.map_values(|l: Vec<char>| l@) =~= prev.push(rest));
            assert(lines(rest) == seq![rest]);
            assert(cs@.skip(n as int) =~= Seq::<char>::empty());
            assert(lines(cs@) =~= ls@.map_values(|l: Vec<char>| l@) + lines(cs@.skip(n as int)));
            pos = n;
        }
    }
    assert(cs@.skip(n as int) =~= Seq::<char>::empty());
    assert(lines(cs@) =~= ls@.map_values(|l: Vec<char>| l@));
    ls
}

} // verus!

verus! {

/// What `String::from_utf8_lossy` makes of some bytes: their UTF-8 decoding,
/// each invalid sequence replaced by U+FFFD.
pub uninterp spec fn utf8_lossy_text(bytes: Seq<u8>) -> Seq<char>;

/// Bytes below 128 read as the ASCII characters they encode.
pub open spec fn ascii_text(bytes: Seq<u8>) -> Seq<char> {
    bytes.map_values(|b: u8| b as char)
}

/// Wraps `String::from_utf8_lossy`: the text of some bytes, named by
/// `utf8_lossy_text`; ASCII bytes read as themselves.
#[verifier::external_body]
pub(crate) fn utf8_lossy(bytes: &[u8]) -> (s: String)
    ensures
        s@ == utf8_lossy_text(bytes@),
        (forall|i: int| 0 <= i < bytes@.len() ==> bytes@[i] < 128) ==> s@ == ascii_text(bytes@),
{
    String::from_utf8_lossy(bytes).into_owned()
}

/// The characters of `s` before the first `c` (all of them when there is none).
pub open spec fn text_before(s: Seq<char>, c: char) -> Seq<char>
    decreases s.len(),
{
    if s.len() == 0 {
        s
    } else if s[0] == c {
        Seq::empty()
    } else {
        seq![s[0]] + text_before(s.drop_first(), c)
    }
}

/// `s` without the run of `c` it starts with.
pub open spec fn drop_leading(s: Seq<char>, c: char) -> Seq<char>
    decreases s.len(),
{
    if s.len() > 0 && s[0] == c {
        drop_leading(s.drop_first(), c)
    } else {
        s
    }
}

pub proof fn lemma_text_before(s: Seq<char>, c: char, n: nat)
    requires
        n <= s.len(),
        forall|i: int| 0 <= i < n ==> s[i] != c,
        n == s.len() || s[n as int] == c,
    ensures
        text_before(s, c) == s.take(n as int),
    decreases n,
{
    if n == 0 {
        if s.len() > 0 {
            assert(s[0] == c);
        }
        assert(s.take(0) =~= Seq::<char>::empty());
        if s.len() == 0 {
            assert(s =~= Seq::<char>::empty());
        }
    } else {
        let t = s.drop_first();
        assert forall|i: int| 0 <= i < n - 1 implies t[i] != c by {
            assert(t[i] == s[i + 1]);
        }
        if n < s.len() {
            assert(t[n - 1] == s[n as int]);
        }
        lemma_text_before(t, c, (n - 1) as nat);
        assert(s.take(n as int) =~= seq![s[0]] + t.take(n - 1));
    }
}

/// The characters of `cs` before the first `c`.
pub fn chars_before(cs: &Vec<char>, c: char) -> (r: Vec<char>)
    ensures
        r@ == text_before(cs@, c),
{
    let mut j: usize = 0;
    while j < cs.len() && cs[j] != c
        invariant
            j <= cs@.len(),
            forall|i: int| 0 <= i < j ==> cs@[i] != c,
        decreases cs@.len() - j,
    {
        j = j + 1;
    }
    proof {
        lemma_text_before(cs@, c, j as nat);
    }
    let r = slice_chars(cs, 0, j);
    assert(r@ =~= cs@.take(j as int));
    r
}

pub proof fn lemma_drop_leading(s: Seq<char>, c: char, n: nat)
    requires
        n <= s.len(),
        forall|i: int| 0 <= i < n ==> s[i] == c,
        n == s.len() || s[n as int] != c,
    ensures
        drop_leading(s, c) == s.skip(n as int),
    decreases n,
{
    if n == 0 {
        assert(s.skip(0) =~= s);
    } else {
        let t = s.drop_first();
        assert forall|i: int| 0 <= i < n - 1 implies t[i] == c by {
            assert(t[i] == s[i + 1]);
        }
        if n < s.len() {
            assert(t[n - 1] == s[n as int]);
        }
        lemma_drop_leading(t, c, (n - 1) as nat);
        assert(t.skip(n - 1) =~= s.skip(n as int));
    }
}

/// `s` without the run of `c` it starts with.
pub fn trim_leading(s: &String, c: char) -> (r: String)
    ensures
        r@ == drop_leading(s@, c),
{
    let cs = chars_of(s.as_str());
    let mut j: usize = 0;
    while j < cs.len() && cs[j] == c
        invariant
            j <= cs@.len(),
            forall|i: int| 0 <= i < j ==> cs@[i] == c,
        decreases cs@.len() - j,
    {
        j = j + 1;
    }
    proof {
        lemma_drop_leading(cs@, c, j as nat);
    }
    let rest = slice_chars(&cs, j, cs.len());
    assert(rest@ =~= cs@.skip(j as int));
    string_from_chars(&rest)
}

} // verus!
