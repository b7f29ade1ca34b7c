//! Character-level helpers for the comma-separated command-line lists:
//! splitting on commas, trimming Unicode white space, ASCII case-insensitive
//! comparison and decimal `usize` literals.

use core::num::ParseIntError;
use vstd::prelude::*;

verus! {

/// `char::is_whitespace`: the Unicode `White_Space` property.
pub open spec fn is_whitespace(c: char) -> bool {
    ||| c == '\t'
    ||| c == '\n'
    ||| c == '\u{0B}'
    ||| c == '\u{0C}'
    ||| c == '\r'
    ||| c == ' '
    ||| c == '\u{85}'
    ||| c == '\u{A0}'
    ||| c == '\u{1680}'
    ||| ('\u{2000}' <= c && c <= '\u{200A}')
    ||| c == '\u{2028}'
    ||| c == '\u{2029}'
    ||| c == '\u{202F}'
    ||| c == '\u{205F}'
    ||| c == '\u{3000}'
}

/// Drops leading white space.
pub open spec fn trim_start(s: Seq<char>) -> Seq<char>
    decreases s.len(),
{
    if s.len() > 0 && is_whitespace(s[0]) {
        trim_start(s.drop_first())
    } else {
        s
    }
}

/// Drops trailing white space.
pub open spec fn trim_end(s: Seq<char>) -> Seq<char>
    decreases s.len(),
{
    if s.len() > 0 && is_whitespace(s.last()) {
        trim_end(s.drop_last())
    } else {
        s
    }
}

/// `str::trim`: white space removed from both ends.
pub open spec fn trim(s: Seq<char>) -> Seq<char> {
    trim_end(trim_start(s))
}

/// `str::split(',')`: the pieces between commas, in order. There is always
/// one more piece than there are commas, so the empty text gives one empty
/// piece.
pub open spec fn split_commas(s: Seq<char>) -> Seq<Seq<char>>
    decreases s.len(),
{
    if s.len() == 0 {
        seq![Seq::<char>::empty()]
    } else {
        let rest = split_commas(s.drop_last());
        if s.last() == ',' {
            rest.push(Seq::<char>::empty())
        } else {
            rest.update(rest.len() - 1, rest.last().push(s.last()))
        }
    }
}

/// The pieces joined with a comma between each two.
pub open spec fn join_commas(pieces: Seq<Seq<char>>) -> Seq<char>
    decreases pieces.len(),
{
    if pieces.len() <= 1 {
        if pieces.len() == 0 {
            Seq::<char>::empty()
        } else {
            pieces[0]
        }
    } else {
        join_commas(pieces.drop_last()) + seq![','] + pieces.last()
    }
}

/// There is always at least one piece.
pub proof fn lemma_split_commas_nonempty(s: Seq<char>)
    ensures
        split_commas(s).len() >= 1,
    decreases s.len(),
{
    if s.len() > 0 {
        lemma_split_commas_nonempty(s.drop_last());
    }
}

/// Text without a comma appended to `s` extends its last piece.
pub proof fn lemma_split_commas_append(s: Seq<char>, t: Seq<char>)
    requires
        !t.contains(','),
    ensures
        split_commas(s + t) == split_commas(s).update(
            split_commas(s).len() - 1,
            split_commas(s).last() + t,
        ),
    decreases t.len(),
{
    lemma_split_commas_nonempty(s);
    let ps = split_commas(s);
    if t.len() == 0 {
        assert(s + t =~= s);
        assert(ps.last() + t =~= ps.last());
        assert(ps.update(ps.len() - 1, ps.last() + t) =~= ps);
    } else {
        let u = t.drop_last();
        assert(!u.contains(',')) by {
            if u.contains(',') {
                let i = choose|i: int| 0 <= i < u.len() && u[i] == ',';
                assert(t[i] == ',');
            }
        }
        lemma_split_commas_append(s, u);
        assert((s + t).drop_last() =~= s + u);
        assert((s + t).last() == t.last());
        assert(t.last() != ',') by {
            assert(t[t.len() - 1] == t.last());
        }
        let rest = split_commas(s + u);
        assert(rest.len() == ps.len());
        assert(rest.last() == ps.last() + u);
        assert((ps.last() + u).push(t.last()) =~= ps.last() + t);
        assert(rest.update(rest.len() - 1, rest.last().push(t.last())) =~= ps.update(
            ps.len() - 1,
            ps.last() + t,
        ));
    }
}

/// Splitting comma-joined pieces that hold no comma gives the pieces back.
pub proof fn lemma_split_join_commas(pieces: Seq<Seq<char>>)
    requires
        pieces.len() >= 1,
        forall|k: int| 0 <= k < pieces.len() ==> !(#[trigger] pieces[k]).contains(','),
    ensures
        split_commas(join_commas(pieces)) == pieces,
    decreases pieces.len(),
{
    let e = Seq::<char>::empty();
    if pieces.len() == 1 {
        lemma_split_commas_append(e, pieces[0]);
        assert(e + pieces[0] =~= pieces[0]);
        assert(split_commas(e) == seq![e]);
        assert(e + pieces[0] =~= pieces[0]);
        assert(seq![e].update(0, e + pieces[0]) =~= pieces);
    } else {
        let init = pieces.drop_last();
        assert forall|k: int| 0 <= k < init.len() implies !(#[trigger] init[k]).contains(',') by {
            assert(init[k] == pieces[k]);
        }
        lemma_split_join_commas(init);
        let j = join_commas(init);
        let jc = j + seq![','];
        assert(jc.drop_last() =~= j);
        assert(split_commas(jc) == split_commas(j).push(e));
        assert(!pieces.last().contains(',')) by {
            assert(pieces[pieces.len() - 1] == pieces.last());
        }
        lemma_split_commas_append(jc, pieces.last());
        assert(join_commas(pieces) == jc + pieces.last());
        assert(e + pieces.last() =~= pieces.last());
        assert(init.push(e).update(init.len() as int, e + pieces.last()) =~= pieces);
    }
}

/// ASCII upper-case letters map to lower case; every other character is kept.
pub open spec fn ascii_lower(c: char) -> int {
    if 'A' <= c && c <= 'Z' {
        (c as u32) + 32
    } else {
        c as int
    }
}

/// `str::eq_ignore_ascii_case` on character sequences.
pub open spec fn eq_ignore_ascii_case(a: Seq<char>, b: Seq<char>) -> bool {
    &&& a.len() == b.len()
    &&& forall|i: int| 0 <= i < a.len() ==> #[trigger] ascii_lower(a[i]) == ascii_lower(b[i])
}

/// Every character is an ASCII decimal digit.
pub open spec fn all_ascii_digits(d: Seq<char>) -> bool {
    forall|i: int| 0 <= i < d.len() ==> '0' <= #[trigger] d[i] && d[i] <= '9'
}

/// The number written by a string of decimal digits.
pub open spec fn digits_value(d: Seq<char>) -> nat
    decreases d.len(),
{
    if d.len() == 0 {
        0
    } else {
        digits_value(d.drop_last()) * 10 + ((d.last() as u32) - ('0' as u32)) as nat
    }
}

/// The digits of an unsigned literal: one leading `+` is allowed.
pub open spec fn unsigned_digits(s: Seq<char>) -> Seq<char> {
    if s.len() > 0 && s[0] == '+' {
        s.drop_first()
    } else {
        s
    }
}

/// What `str::parse::<usize>` accepts: an optional `+`, then at least one
/// ASCII digit and nothing else, naming a number that fits in `usize`.
pub open spec fn is_usize_literal(s: Seq<char>) -> bool {
    let d = unsigned_digits(s);
    &&& d.len() > 0
    &&& all_ascii_digits(d)
    &&& digits_value(d) <= usize::MAX
}

/// The number an accepted literal names.
pub open spec fn usize_literal_value(s: Seq<char>) -> nat {
    digits_value(unsigned_digits(s))
}

/// What `str::parse::<i32>` accepts: an optional `+` or `-`, then at least
/// one ASCII digit and nothing else, naming a number that fits in `i32`.
pub open spec fn is_i32_literal(s: Seq<char>) -> bool {
    let negative = s.len() > 0 && s[0] == '-';
    let d = if s.len() > 0 && (s[0] == '+' || s[0] == '-') {
        s.drop_first()
    } else {
        s
    };
    &&& d.len() > 0
    &&& all_ascii_digits(d)
    &&& if negative {
        digits_value(d) <= 0x8000_0000
    } else {
        digits_value(d) <= 0x7fff_ffff
    }
}

/// The number an `i32` literal names.
pub open spec fn i32_literal_value(s: Seq<char>) -> int {
    if s.len() > 0 && s[0] == '-' {
        -digits_value(s.drop_first())
    } else if s.len() > 0 && s[0] == '+' {
        digits_value(s.drop_first()) as int
    } else {
        digits_value(s) as int
    }
}

/// The characters of `s`, in order.
pub fn chars_of(s: &str) -> (chars: Vec<char>)
    ensures
        chars@ == s@,
{
    let n = s.unicode_len();
    let mut chars: Vec<char> = Vec::new();
    let mut i: usize = 0;
    while i < n
        invariant
            n == s@.len(),
            i <= n,
            chars@ == s@.subrange(0, i as int),
        decreases n - i,
    {
        let c = s.get_char(i);
        chars.push(c);
        i = i + 1;
        assert(chars@ =~= s@.subrange(0, i as int));
    }
    assert(chars@ =~= s@);
    chars
}

/// `char::is_whitespace`.
pub fn char_is_whitespace(c: char) -> (b: bool)
    ensures
        b == is_whitespace(c),
{
    c == '\t' || c == '\n' || c == '\u{0B}' || c == '\u{0C}' || c == '\r' || c == ' ' || c
        == '\u{85}' || c == '\u{A0}' || c == '\u{1680}' || ('\u{2000}' <= c && c <= '\u{200A}')
        || c == '\u{2028}' || c == '\u{2029}' || c == '\u{202F}' || c == '\u{205F}' || c
        == '\u{3000}'
}

proof fn lemma_trim_start_skip(s: Seq<char>, lo: int)
    requires
        0 <= lo < s.len(),
        is_whitespace(s[lo]),
    ensures
        trim_start(s.subrange(lo, s.len() as int)) == trim_start(
            s.subrange(lo + 1, s.len() as int),
        ),
{
    assert(s.subrange(lo, s.len() as int).drop_first() =~= s.subrange(lo + 1, s.len() as int));
}

proof fn lemma_trim_end_skip(s: Seq<char>, hi: int)
    requires
        0 < hi <= s.len(),
        is_whitespace(s[hi - 1]),
    ensures
        trim_end(s.subrange(0, hi)) == trim_end(s.subrange(0, hi - 1)),
{
    assert(s.subrange(0, hi).drop_last() =~= s.subrange(0, hi - 1));
}

/// The bounds of `trim(chars[from..to])` inside `chars`.
pub fn trim_bounds(chars: &Vec<char>, from: usize, to: usize) -> (r: (usize, usize))
    requires
        from <= to <= chars@.len(),
    ensures
        from <= r.0 <= r.1 <= to,
        chars@.subrange(r.0 as int, r.1 as int) == trim(chars@.subrange(from as int, to as int)),
{
    let ghost piece = chars@.subrange(from as int, to as int);
    let mut lo = from;
    while lo < to && char_is_whitespace(chars[lo])
        invariant
            from <= lo <= to <= chars@.len(),
            piece == chars@.subrange(from as int, to as int),
            trim_start(piece) == trim_start(chars@.subrange(lo as int, to as int)),
        decreases to - lo,
    {
        proof {
            let p = chars@.subrange(lo as int, to as int);
            assert(p[0] == chars@[lo as int]);
            lemma_trim_start_skip(p, 0);
            assert(p.subrange(0, p.len() as int) =~= p);
            assert(p.subrange(1, p.len() as int) =~= chars@.subrange(lo + 1, to as int));
        }
        lo = lo + 1;
    }
    let ghost started = chars@.subrange(lo as int, to as int);
    assert(trim_start(started) == started);
    assert(trim_start(piece) == started);
    let mut hi = to;
    while hi > lo && char_is_whitespace(chars[hi - 1])
        invariant
            from <= lo <= hi <= to <= chars@.len(),
            started == chars@.subrange(lo as int, to as int),
            trim_end(started) == trim_end(chars@.subrange(lo as int, hi as int)),
        decreases hi - lo,
    {
        proof {
            let p = chars@.subrange(lo as int, hi as int);
            assert(p[p.len() - 1] == chars@[hi - 1]);
            lemma_trim_end_skip(p, p.len() as int);
            assert(p.subrange(0, p.len() as int) =~= p);
            assert(p.subrange(0, p.len() - 1) =~= chars@.subrange(lo as int, hi - 1));
        }
        hi = hi - 1;
    }
    (lo, hi)
}


/// The bounds of each piece of `split_commas(chars)`, in order.
pub fn split_comma_bounds(chars: &Vec<char>) -> (r: Vec<(usize, usize)>)
    ensures
        r@.len() == split_commas(chars@).len(),
        forall|k: int|
            0 <= k < r@.len() ==> {
                &&& (#[trigger] r@[k]).0 <= r@[k].1 <= chars@.len()
                &&& chars@.subrange(r@[k].0 as int, r@[k].1 as int) == split_commas(chars@)[k]
            },
{
    let n = chars.len();
    let mut r: Vec<(usize, usize)> = Vec::new();
    let mut start: usize = 0;
    let mut i: usize = 0;
    assert(chars@.subrange(0, 0) =~= Seq::<char>::empty());
    while i < n
        invariant
            n == chars@.len(),
            start <= i <= n,
            split_commas(chars@.subrange(0, i as int)).len() == r@.len() + 1,
            forall|k: int|
                0 <= k < r@.len() ==> {
                    &&& (#[trigger] r@[k]).0 <= r@[k].1 <= chars@.len()
                    &&& chars@.subrange(r@[k].0 as int, r@[k].1 as int) == split_commas(
                        chars@.subrange(0, i as int),
                    )[k]
                },
            split_commas(chars@.subrange(0, i as int)).last() == chars@.subrange(
                start as int,
                i as int,
            ),
        decreases n - i,
    {
        let ghost prev = chars@.subrange(0, i as int);
        let ghost next = chars@.subrange(0, i + 1);
        assert(next.drop_last() =~= prev);
        assert(next.last() == chars@[i as int]);
        let c = chars[i];
        if c == ',' {
            assert(split_commas(next) == split_commas(prev).push(Seq::<char>::empty()));
            r.push((start, i));
            start = i + 1;
            assert(chars@.subrange(start as int, i + 1) =~= Seq::<char>::empty());
        } else {
            let ghost sp = split_commas(prev);
            assert(split_commas(next) == sp.update(sp.len() - 1, sp.last().push(c)));
            assert(chars@.subrange(start as int, i + 1) =~= chars@.subrange(
                start as int,
                i as int,
            ).push(c));
        }
        i = i + 1;
    }
    assert(chars@.subrange(0, n as int) =~= chars@);
    r.push((start, n));
    r
}

/// `ascii_lower` on one character, as a code point.
pub fn ascii_lower_code(c: char) -> (code: u32)
    ensures
        code as int == ascii_lower(c),
{
    if 'A' <= c && c <= 'Z' {
        (c as u32) + 32
    } else {
        c as u32
    }
}

/// `eq_ignore_ascii_case(chars[from..to], word)`.
pub fn chars_eq_ignore_ascii_case(chars: &Vec<char>, from: usize, to: usize, word: &str) -> (b:
    bool)
    requires
        from <= to <= chars@.len(),
    ensures
        b == eq_ignore_ascii_case(chars@.subrange(from as int, to as int), word@),
{
    let ghost piece = chars@.subrange(from as int, to as int);
    let n = word.unicode_len();
    if to - from != n {
        return false;
    }
    let mut i: usize = 0;
    while i < n
        invariant
            n == word@.len(),
            n == to - from,
            from <= to <= chars@.len(),
            piece == chars@.subrange(from as int, to as int),
            i <= n,
            forall|j: int| 0 <= j < i ==> #[trigger] ascii_lower(piece[j]) == ascii_lower(word@[j]),
        decreases n - i,
    {
        let a = ascii_lower_code(chars[from + i]);
        let b = ascii_lower_code(word.get_char(i));
        assert(piece[i as int] == chars@[from + i]);
        if a != b {
            return false;
        }
        i = i + 1;
    }
    true
}


/// `chars[from..to] == word`.
pub fn chars_equal(chars: &Vec<char>, from: usize, to: usize, word: &str) -> (b: bool)
    requires
        from <= to <= chars@.len(),
    ensures
        b == (chars@.subrange(from as int, to as int) == word@),
{
    let ghost piece = chars@.subrange(from as int, to as int);
    let n = word.unicode_len();
    if to - from != n {
        return false;
    }
    let mut i: usize = 0;
    while i < n
        invariant
            n == word@.len(),
            n == to - from,
            from <= to <= chars@.len(),
            piece == chars@.subrange(from as int, to as int),
            i <= n,
            forall|j: int| 0 <= j < i ==> #[trigger] piece[j] == word@[j],
        decreases n - i,
    {
        assert(piece[i as int] == chars@[from + i]);
        if chars[from + i] != word.get_char(i) {
            return false;
        }
        i = i + 1;
    }
    assert(piece =~= word@);
    true
}

/// The error `str::parse::<usize>` reports; only carried along, never
/// inspected.
#[verifier::external_type_specification]
#[verifier::external_body]
pub struct ExParseIntError(ParseIntError);

/// `str::parse::<usize>`. Its documentation: the text is an optional `+`
/// followed by decimal digits only, and the number must fit the type;
/// anything else (empty text, other characters, overflow) is an error.
/// Which `IntErrorKind` the error carries is left unsaid here.
#[verifier::external_body]
pub(crate) fn parse_usize(s: &str) -> (r: Result<usize, ParseIntError>)
    ensures
        r is Ok <==> is_usize_literal(s@),
        r matches Ok(v) ==> v as nat == usize_literal_value(s@),
{
    s.parse::<usize>()
}

/// The text that `{:?}` writes for a string (quoted, with escapes).
pub uninterp spec fn str_debug(s: Seq<char>) -> Seq<char>;

/// `format!("{:?}", s)` for a string slice.
#[verifier::external_body]
pub(crate) fn debug_str(s: &str) -> (r: String)
    ensures
        r@ == str_debug(s@),
{
    format!("{:?}", s)
}

/// `str::parse::<i32>`. Its documentation: the text is an optional `+` or
/// `-` followed by decimal digits only, and the number must fit the type;
/// anything else is an error.
#[verifier::external_body]
pub(crate) fn parse_i32(s: &str) -> (r: Result<i32, ParseIntError>)
    ensures
        r is Ok <==> is_i32_literal(s@),
        r matches Ok(v) ==> v as int == i32_literal_value(s@),
{
    s.parse::<i32>()
}

} // verus!
