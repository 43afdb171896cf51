//! Character-level helpers shared by the command builders and parsers.

use vstd::prelude::*;
use vstd::std_specs::iter::IteratorSpec;

verus! {

/// The decimal digit character for `d` (taken modulo ten).
pub open spec fn digit_char(d: int) -> char {
    let m = d % 10;
    if m == 0 {
        '0'
    } else if m == 1 {
        '1'
    } else if m == 2 {
        '2'
    } else if m == 3 {
        '3'
    } else if m == 4 {
        '4'
    } else if m == 5 {
        '5'
    } else if m == 6 {
        '6'
    } else if m == 7 {
        '7'
    } else if m == 8 {
        '8'
    } else {
        '9'
    }
}

/// The decimal representation of a natural number, without leading zeros.
pub open spec fn decimal(n: nat) -> Seq<char>
    decreases n,
{
    if n < 10 {
        seq![digit_char(n as int)]
    } else {
        decimal(n / 10).push(digit_char((n % 10) as int))
    }
}

/// The decimal representation of an integer, with a leading `-` when negative.
pub open spec fn signed_decimal(n: int) -> Seq<char> {
    if n < 0 {
        seq!['-'] + decimal((-n) as nat)
    } else {
        decimal(n as nat)
    }
}

fn digit_str(d: u64) -> (r: &'static str)
    requires
        d < 10,
    ensures
        r@ == seq![digit_char(d as int)],
{
    proof {
        reveal_strlit("0");
        reveal_strlit("1");
        reveal_strlit("2");
        reveal_strlit("3");
        reveal_strlit("4");
        reveal_strlit("5");
        reveal_strlit("6");
        reveal_strlit("7");
        reveal_strlit("8");
        reveal_strlit("9");
    }
    if d == 0 {
        "0"
    } else if d == 1 {
        "1"
    } else if d == 2 {
        "2"
    } else if d == 3 {
        "3"
    } else if d == 4 {
        "4"
    } else if d == 5 {
        "5"
    } else if d == 6 {
        "6"
    } else if d == 7 {
        "7"
    } else if d == 8 {
        "8"
    } else {
        "9"
    }
}

/// Formats `n` in decimal.
pub fn decimal_string(n: u64) -> (r: String)
    ensures
        r@ == decimal(n as nat),
    decreases n,
{
    if n < 10 {
        String::from_str(digit_str(n))
    } else {
        let mut s = decimal_string(n / 10);
        s.append(digit_str(n % 10));
        s
    }
}

/// Formats `n` in decimal, with a leading `-` when negative.
pub fn signed_decimal_string(n: i32) -> (r: String)
    ensures
        r@ == signed_decimal(n as int),
{
    if n < 0 {
        let m: u64 = (-(n as i64)) as u64;
        let digits = decimal_string(m);
        proof {
            reveal_strlit("-");
        }
        String::from_str("-").concat(digits.as_str())
    } else {
        decimal_string(n as u64)
    }
}

/// The characters of `s`, one per element.
pub fn chars_of(s: &str) -> (r: Vec<char>)
    ensures
        r@ == s@,
{
    broadcast use vstd::string::next_postcondition, vstd::string::axiom_spec_iter;

    let mut out: Vec<char> = Vec::new();
    let mut it = s.chars();
    loop
        invariant
            out@ + it.remaining() == s@,
            it.decrease() is Some,
        ensures
            out@ == s@,
        decreases it.decrease()->0,
    {
        match it.next() {
            Some(c) => {
                proof {
                    assert(s@ =~= out@.push(c) + it.remaining());
                }
                out.push(c);
            },
            None => {
                proof {
                    assert(out@ =~= s@);
                }
                break ;
            },
        }
    }
    out
}

/// Whitespace as understood by the parsers: space, tab, line feed,
/// carriage return, vertical tab and form feed.
pub open spec fn is_blank(c: char) -> bool {
    c == ' ' || c == '\t' || c == '\n' || c == '\r' || c == '\x0b' || c == '\x0c'
}

/// The first index at or after `i` that does not hold a blank.
pub open spec fn skip_blanks(s: Seq<char>, i: int) -> int
    decreases s.len() - i,
{
    if 0 <= i < s.len() && is_blank(s[i]) {
        skip_blanks(s, i + 1)
    } else {
        i
    }
}

/// The end of `s[lo..j]` once trailing blanks are removed.
pub open spec fn back_blanks(s: Seq<char>, lo: int, j: int) -> int
    decreases j - lo,
{
    if lo < j <= s.len() && is_blank(s[j - 1]) {
        back_blanks(s, lo, j - 1)
    } else {
        j
    }
}

/// `s` without leading and trailing blanks.
pub open spec fn trim(s: Seq<char>) -> Seq<char> {
    let a = skip_blanks(s, 0);
    s.subrange(a, back_blanks(s, a, s.len() as int))
}

/// Bounds of the trimmed part of `v[lo..hi]`.
pub fn trim_bounds(v: &Vec<char>, lo: usize, hi: usize) -> (r: (usize, usize))
    requires
        lo <= hi <= v@.len(),
    ensures
        r.0 == skip_blanks(v@.subrange(0, hi as int), lo as int),
        r.1 == back_blanks(v@, r.0 as int, hi as int),
        lo <= r.0 <= r.1 <= hi,
{
    let ghost w = v@.subrange(0, hi as int);
    let mut a = lo;
    while a < hi && is_blank_char(v[a])
        invariant
            lo <= a <= hi <= v@.len(),
            w == v@.subrange(0, hi as int),
            skip_blanks(w, lo as int) == skip_blanks(w, a as int),
        decreases hi - a,
    {
        a = a + 1;
    }
    let mut b = hi;
    while b > a && is_blank_char(v[b - 1])
        invariant
            a <= b <= hi <= v@.len(),
            back_blanks(v@, a as int, hi as int) == back_blanks(v@, a as int, b as int),
        decreases b - a,
    {
        b = b - 1;
    }
    (a, b)
}

/// Whether `c` is one of the blanks of `is_blank`.
pub fn is_blank_char(c: char) -> (r: bool)
    ensures
        r == is_blank(c),
{
    c == ' ' || c == '\t' || c == '\n' || c == '\r' || c == '\x0b' || c == '\x0c'
}

/// `s` without leading and trailing blanks.
pub fn trimmed(s: &str) -> (r: String)
    ensures
        r@ == trim(s@),
{
    let v = chars_of(s);
    let (a, b) = trim_bounds(&v, 0, v.len());
    proof {
        assert(v@.subrange(0, v@.len() as int) =~= v@);
    }
    String::from_str(s.substring_char(a, b))
}

/// Whether `n` occurs in `h` starting at index `i`.
pub open spec fn occurs_at(h: Seq<char>, n: Seq<char>, i: int) -> bool {
    0 <= i && i + n.len() <= h.len() && h.subrange(i, i + n.len()) == n
}

/// Whether `n` occurs anywhere in `h`.
pub open spec fn contains(h: Seq<char>, n: Seq<char>) -> bool {
    exists|i: int| occurs_at(h, n, i)
}

/// Whether `h` begins with `n`.
pub open spec fn starts_with(h: Seq<char>, n: Seq<char>) -> bool {
    occurs_at(h, n, 0)
}

/// Whether `n` occurs in `h` at index `i`.
pub fn matches_at(h: &Vec<char>, n: &Vec<char>, i: usize) -> (r: bool)
    ensures
        r == occurs_at(h@, n@, i as int),
{
    if i > h.len() || n.len() > h.len() - i {
        return false;
    }
    let mut k: usize = 0;
    while k < n.len()
        invariant
            i + n@.len() <= h@.len(),
            h@.len() <= usize::MAX,
            k <= n@.len(),
            forall|j: int| 0 <= j < k ==> h@[i + j] == n@[j],
        decreases n@.len() - k,
    {
        if h[i + k] != n[k] {
            proof {
                assert(h@.subrange(i as int, i + n@.len())[k as int] != n@[k as int]);
            }
            return false;
        }
        k = k + 1;
    }
    proof {
        assert(h@.subrange(i as int, i + n@.len()) =~= n@);
    }
    true
}

/// The first occurrence of `n` in `h` at or after `from`.
pub fn find_from(h: &Vec<char>, n: &Vec<char>, from: usize) -> (r: Option<usize>)
    ensures
        match r {
            Some(i) => from <= i && occurs_at(h@, n@, i as int) && forall|j: int|
                from <= j < i ==> !occurs_at(h@, n@, j),
            None => forall|j: int| from <= j ==> !occurs_at(h@, n@, j),
        },
        match r {
            Some(i) => first_from(h@, n@, from as int) == Some(i as int),
            None => first_from(h@, n@, from as int) is None,
        },
{
    let r = find_at_or_after(h, n, from);
    proof {
        match r {
            Some(i) => {
                let c = choose|k: int| from <= k && occurs_at(h@, n@, k) && forall|j: int|
                    from <= j < k ==> !occurs_at(h@, n@, j);
                assert(from <= i && occurs_at(h@, n@, i as int));
                assert(c == i) by {
                    if c < i {
                        assert(!occurs_at(h@, n@, c));
                    } else if c > i {
                        assert(!occurs_at(h@, n@, i as int));
                    }
                }
            },
            None => {},
        }
    }
    r
}

fn find_at_or_after(h: &Vec<char>, n: &Vec<char>, from: usize) -> (r: Option<usize>)
    ensures
        match r {
            Some(i) => from <= i && occurs_at(h@, n@, i as int) && forall|j: int|
                from <= j < i ==> !occurs_at(h@, n@, j),
            None => forall|j: int| from <= j ==> !occurs_at(h@, n@, j),
        },
{
    if from > h.len() {
        return None;
    }
    let mut i = from;
    loop
        invariant
            from <= i <= h@.len(),
            forall|j: int| from <= j < i ==> !occurs_at(h@, n@, j),
        decreases h@.len() - i,
    {
        if matches_at(h, n, i) {
            return Some(i);
        }
        if i == h.len() {
            return None;
        }
        i = i + 1;
    }
}

/// Whether the text `n` occurs in the text `h`.
pub fn str_contains(h: &str, n: &str) -> (r: bool)
    ensures
        r == contains(h@, n@),
{
    let hv = chars_of(h);
    let nv = chars_of(n);
    match find_from(&hv, &nv, 0) {
        Some(_) => true,
        None => false,
    }
}

/// Whether the text `h` begins with the text `n`.
pub fn str_starts_with(h: &str, n: &str) -> (r: bool)
    ensures
        r == starts_with(h@, n@),
{
    let hv = chars_of(h);
    let nv = chars_of(n);
    matches_at(&hv, &nv, 0)
}

/// The first index at or after `from` where `n` occurs in `h`.
pub open spec fn first_from(h: Seq<char>, n: Seq<char>, from: int) -> Option<int> {
    if exists|i: int| from <= i && occurs_at(h, n, i) {
        Some(
            choose|i: int|
                from <= i && occurs_at(h, n, i) && forall|j: int|
                    from <= j < i ==> !occurs_at(h, n, j),
        )
    } else {
        None
    }
}

/// `l` without one trailing carriage return.
pub open spec fn strip_cr(l: Seq<char>) -> Seq<char> {
    if l.len() > 0 && l.last() == '\r' {
        l.drop_last()
    } else {
        l
    }
}

/// The lines of `s[start..]`, scanning from `i`: pieces separated by line
/// feeds, each without a trailing carriage return; a final line feed ends
/// the last line and opens none.
pub open spec fn lines_from(s: Seq<char>, i: int, start: int) -> Seq<Seq<char>>
    decreases s.len() - i,
{
    if i >= s.len() {
        if start < s.len() {
            seq![strip_cr(s.subrange(start, s.len() as int))]
        } else {
            Seq::empty()
        }
    } else if s[i] == '\n' {
        seq![strip_cr(s.subrange(start, i))] + lines_from(s, i + 1, i + 1)
    } else {
        lines_from(s, i + 1, start)
    }
}

/// The lines of `s`.
pub open spec fn lines(s: Seq<char>) -> Seq<Seq<char>> {
    lines_from(s, 0, 0)
}

/// The pieces of `s[start..]` separated by `c`, scanning from `i`.
pub open spec fn split_from(s: Seq<char>, c: char, i: int, start: int) -> Seq<Seq<char>>
    decreases s.len() - i,
{
    if i >= s.len() {
        seq![s.subrange(start, s.len() as int)]
    } else if s[i] == c {
        seq![s.subrange(start, i)] + split_from(s, c, i + 1, i + 1)
    } else {
        split_from(s, c, i + 1, start)
    }
}

/// The pieces of `s` separated by `c` (there is always at least one).
pub open spec fn split(s: Seq<char>, c: char) -> Seq<Seq<char>> {
    split_from(s, c, 0, 0)
}

/// The words of `s` from `i` on: maximal runs without blanks. `start` is
/// where the current word began, or -1 between words.
pub open spec fn words_from(s: Seq<char>, i: int, start: int) -> Seq<Seq<char>>
    decreases s.len() - i,
{
    if i >= s.len() {
        if start >= 0 {
            seq![s.subrange(start, s.len() as int)]
        } else {
            Seq::empty()
        }
    } else if is_blank(s[i]) {
        (if start >= 0 {
            seq![s.subrange(start, i)]
        } else {
            Seq::empty()
        }) + words_from(s, i + 1, -1)
    } else {
        words_from(s, i + 1, if start >= 0 {
            start
        } else {
            i
        })
    }
}

/// The words of `s`.
pub open spec fn words(s: Seq<char>) -> Seq<Seq<char>> {
    words_from(s, 0, -1)
}

/// The pieces of `v` between the given bounds.
pub open spec fn pieces(v: Seq<char>, b: Seq<(usize, usize)>) -> Seq<Seq<char>> {
    b.map_values(|p: (usize, usize)| v.subrange(p.0 as int, p.1 as int))
}

/// Bounds that lie within `v[lo..hi]`.
pub open spec fn bounded(b: Seq<(usize, usize)>, lo: int, hi: int) -> bool {
    forall|k: int| 0 <= k < b.len() ==> lo <= #[trigger] b[k].0 <= b[k].1 <= hi
}

/// Bounds of the lines of `v[lo..hi]`.
pub fn line_bounds(v: &Vec<char>, lo: usize, hi: usize) -> (r: Vec<(usize, usize)>)
    requires
        lo <= hi <= v@.len(),
    ensures
        pieces(v@, r@) == lines(v@.subrange(lo as int, hi as int)),
        bounded(r@, lo as int, hi as int),
{
    let ghost w = v@.subrange(lo as int, hi as int);
    let mut out: Vec<(usize, usize)> = Vec::new();
    let mut i = lo;
    let mut start = lo;
    while i < hi
        invariant
            lo <= start <= i <= hi <= v@.len(),
            w == v@.subrange(lo as int, hi as int),
            pieces(v@, out@) + lines_from(w, i - lo, start - lo) == lines(w),
            bounded(out@, lo as int, hi as int),
        decreases hi - i,
    {
        if v[i] == '\n' {
            let e = if i > start && v[i - 1] == '\r' {
                i - 1
            } else {
                i
            };
            proof {
                assert(w.subrange(start - lo, i - lo) =~= v@.subrange(start as int, i as int));
                assert(strip_cr(w.subrange(start - lo, i - lo)) =~= v@.subrange(start as int, e as int));
                assert(pieces(v@, out@.push((start, e))) =~= pieces(v@, out@).push(
                    v@.subrange(start as int, e as int),
                ));
                assert(pieces(v@, out@).push(v@.subrange(start as int, e as int)) + lines_from(
                    w,
                    i + 1 - lo,
                    i + 1 - lo,
                ) =~= pieces(v@, out@) + (seq![v@.subrange(start as int, e as int)] + lines_from(
                    w,
                    i + 1 - lo,
                    i + 1 - lo,
                )));
            }
            out.push((start, e));
            start = i + 1;
        }
        i = i + 1;
    }
    if start < hi {
        let e = if hi > start && v[hi - 1] == '\r' {
            hi - 1
        } else {
            hi
        };
        proof {
            assert(w.subrange(start - lo, w.len() as int) =~= v@.subrange(start as int, hi as int));
            assert(strip_cr(w.subrange(start - lo, w.len() as int)) =~= v@.subrange(
                start as int,
                e as int,
            ));
            assert(pieces(v@, out@.push((start, e))) =~= pieces(v@, out@).push(
                v@.subrange(start as int, e as int),
            ));
        }
        out.push((start, e));
    } else {
        proof {
            assert(pieces(v@, out@) + Seq::<Seq<char>>::empty() =~= pieces(v@, out@));
        }
    }
    out
}

/// Bounds of the pieces of `v[lo..hi]` separated by `c`.
pub fn split_bounds(v: &Vec<char>, lo: usize, hi: usize, c: char) -> (r: Vec<(usize, usize)>)
    requires
        lo <= hi <= v@.len(),
    ensures
        pieces(v@, r@) == split(v@.subrange(lo as int, hi as int), c),
        bounded(r@, lo as int, hi as int),
{
    let ghost w = v@.subrange(lo as int, hi as int);
    let mut out: Vec<(usize, usize)> = Vec::new();
    let mut i = lo;
    let mut start = lo;
    while i < hi
        invariant
            lo <= start <= i <= hi <= v@.len(),
            w == v@.subrange(lo as int, hi as int),
            pieces(v@, out@) + split_from(w, c, i - lo, start - lo) == split(w, c),
            bounded(out@, lo as int, hi as int),
        decreases hi - i,
    {
        if v[i] == c {
            proof {
                assert(w.subrange(start - lo, i - lo) =~= v@.subrange(start as int, i as int));
                assert(pieces(v@, out@.push((start, i))) =~= pieces(v@, out@).push(
                    v@.subrange(start as int, i as int),
                ));
                assert(pieces(v@, out@).push(v@.subrange(start as int, i as int)) + split_from(
                    w,
                    c,
                    i + 1 - lo,
                    i + 1 - lo,
                ) =~= pieces(v@, out@) + (seq![v@.subrange(start as int, i as int)] + split_from(
                    w,
                    c,
                    i + 1 - lo,
                    i + 1 - lo,
                )));
            }
            out.push((start, i));
            start = i + 1;
        }
        i = i + 1;
    }
    proof {
        assert(w.subrange(start - lo, w.len() as int) =~= v@.subrange(start as int, hi as int));
        assert(pieces(v@, out@.push((start, hi))) =~= pieces(v@, out@).push(
            v@.subrange(start as int, hi as int),
        ));
    }
    out.push((start, hi));
    out
}

/// Bounds of the words of `v[lo..hi]`.
pub fn word_bounds(v: &Vec<char>, lo: usize, hi: usize) -> (r: Vec<(usize, usize)>)
    requires
        lo <= hi <= v@.len(),
    ensures
        pieces(v@, r@) == words(v@.subrange(lo as int, hi as int)),
        bounded(r@, lo as int, hi as int),
{
    let ghost w = v@.subrange(lo as int, hi as int);
    let mut out: Vec<(usize, usize)> = Vec::new();
    let mut i = lo;
    let mut in_word = false;
    let mut start = lo;
    while i < hi
        invariant
            lo <= start <= i <= hi <= v@.len(),
            w == v@.subrange(lo as int, hi as int),
            pieces(v@, out@) + words_from(w, i - lo, if in_word {
                start - lo
            } else {
                -1
            }) == words(w),
            bounded(out@, lo as int, hi as int),
        decreases hi - i,
    {
        if is_blank_char(v[i]) {
            if in_word {
                proof {
                    assert(w.subrange(start - lo, i - lo) =~= v@.subrange(start as int, i as int));
                    assert(pieces(v@, out@.push((start, i))) =~= pieces(v@, out@).push(
                        v@.subrange(start as int, i as int),
                    ));
                    assert(pieces(v@, out@).push(v@.subrange(start as int, i as int)) + words_from(
                        w,
                        i + 1 - lo,
                        -1,
                    ) =~= pieces(v@, out@) + (seq![v@.subrange(start as int, i as int)]
                        + words_from(w, i + 1 - lo, -1)));
                }
                out.push((start, i));
            } else {
                proof {
                    assert(Seq::<Seq<char>>::empty() + words_from(w, i + 1 - lo, -1) =~= words_from(
                        w,
                        i + 1 - lo,
                        -1,
                    ));
                }
            }
            in_word = false;
        } else if !in_word {
            in_word = true;
            start = i;
        }
        i = i + 1;
    }
    if in_word {
        proof {
            assert(w.subrange(start - lo, w.len() as int) =~= v@.subrange(start as int, hi as int));
            assert(pieces(v@, out@.push((start, hi))) =~= pieces(v@, out@).push(
                v@.subrange(start as int, hi as int),
            ));
        }
        out.push((start, hi));
    } else {
        proof {
            assert(pieces(v@, out@) + Seq::<Seq<char>>::empty() =~= pieces(v@, out@));
        }
    }
    out
}

/// Whether `c` is an ASCII decimal digit.
pub open spec fn is_digit(c: char) -> bool {
    '0' <= c && c <= '9'
}

/// The value of a decimal digit.
pub open spec fn digit_value(c: char) -> int {
    (c as u32) - ('0' as u32)
}

/// The value of a string of decimal digits.
pub open spec fn digits_value(s: Seq<char>) -> int
    decreases s.len(),
{
    if s.len() == 0 {
        0
    } else {
        digits_value(s.drop_last()) * 10 + digit_value(s.last())
    }
}

/// Whether every element of `d` is a decimal digit.
pub open spec fn digits_only(d: Seq<char>) -> bool {
    forall|i: int| 0 <= i < d.len() ==> is_digit(#[trigger] d[i])
}

/// `s` without one leading `+`.
pub open spec fn unsigned_part(s: Seq<char>) -> Seq<char> {
    if s.len() > 0 && s[0] == '+' {
        s.drop_first()
    } else {
        s
    }
}

/// What `u32::from_str` makes of `s`: an optional `+` followed by at least
/// one decimal digit, whose value fits in 32 bits.
pub open spec fn parsed_u32(s: Seq<char>) -> Option<u32> {
    let d = unsigned_part(s);
    if d.len() > 0 && digits_only(d) && digits_value(d) <= u32::MAX {
        Some(digits_value(d) as u32)
    } else {
        None
    }
}

/// Reads `v[lo..hi]` as an unsigned 32-bit decimal number.
pub fn parse_u32(v: &Vec<char>, lo: usize, hi: usize) -> (r: Option<u32>)
    requires
        lo <= hi <= v@.len(),
    ensures
        r == parsed_u32(v@.subrange(lo as int, hi as int)),
{
    let ghost s = v@.subrange(lo as int, hi as int);
    let start = if lo < hi && v[lo] == '+' {
        lo + 1
    } else {
        lo
    };
    let ghost d = unsigned_part(s);
    proof {
        assert(d =~= v@.subrange(start as int, hi as int));
    }
    if start == hi {
        return None;
    }
    let mut acc: u64 = 0;
    let mut big = false;
    let mut i = start;
    proof {
        assert(v@.subrange(start as int, start as int) =~= Seq::<char>::empty());
    }
    while i < hi
        invariant
            lo <= start <= i <= hi <= v@.len(),
            d == v@.subrange(start as int, hi as int),
            s == v@.subrange(lo as int, hi as int),
            d == unsigned_part(s),
            forall|k: int| start <= k < i ==> is_digit(v@[k]),
            big ==> digits_value(v@.subrange(start as int, i as int)) > u32::MAX,
            !big ==> acc == digits_value(v@.subrange(start as int, i as int)),
            acc <= u32::MAX,
        decreases hi - i,
    {
        let c = v[i];
        if !('0' <= c && c <= '9') {
            proof {
                assert(!is_digit(c));
                assert(0 <= i - start < d.len());
                assert(d[i - start] == v@[i as int]);
                assert(!is_digit(d[i - start]));
                assert(!digits_only(d));
            }
            return None;
        }
        let dv = ((c as u32) - ('0' as u32)) as u64;
        proof {
            assert(v@.subrange(start as int, i + 1).drop_last() =~= v@.subrange(
                start as int,
                i as int,
            ));
            assert(v@.subrange(start as int, i + 1).last() == c);
        }
        if !big {
            let next = acc * 10 + dv;
            if next > 4294967295u64 {
                big = true;
            } else {
                acc = next;
            }
        }
        i = i + 1;
    }
    proof {
        assert forall|k: int| 0 <= k < d.len() implies is_digit(d[k]) by {
            assert(d[k] == v@[start + k]);
        }
    }
    if big {
        None
    } else {
        Some(acc as u32)
    }
}

} // verus!
