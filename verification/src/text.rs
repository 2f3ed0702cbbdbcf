//! Character-level text handling shared by every server of the project:
//! decimal numbers in the way Rust's `FromStr` and `Display` read and write
//! them, and the splitting of request text into pieces, lines and words.
use vstd::prelude::*;
use vstd::string::*;

verus! {

// ---------------------------------------------------------------------------
// Decimal numbers
// ---------------------------------------------------------------------------

/// `c` is one of `0` to `9`.
pub open spec fn is_ascii_digit(c: char) -> bool {
    '0' <= c && c <= '9'
}

/// The value of the decimal digit `c`.
pub open spec fn digit_value(c: char) -> nat {
    (c as int - '0' as int) as nat
}

/// Every character of `s` is a decimal digit.
pub open spec fn all_digits(s: Seq<char>) -> bool {
    forall|i: int| 0 <= i < s.len() ==> is_ascii_digit(#[trigger] s[i])
}

/// The number that a string of decimal digits denotes.
pub open spec fn digits_value(s: Seq<char>) -> nat
    decreases s.len(),
{
    if s.len() == 0 {
        0
    } else {
        digits_value(s.drop_last()) * 10 + digit_value(s.last())
    }
}

/// The digits of an unsigned number: an optional leading `+` is dropped.
pub open spec fn unsigned_digits(s: Seq<char>) -> Seq<char> {
    if s.len() > 0 && s[0] == '+' {
        s.drop_first()
    } else {
        s
    }
}

/// What `str::parse` gives for an unsigned integer type whose largest value is
/// `max`: an optional `+`, then at least one decimal digit and nothing else,
/// denoting a value no greater than `max`.
pub open spec fn parse_unsigned_spec(s: Seq<char>, max: nat) -> Option<nat> {
    let d = unsigned_digits(s);
    if d.len() == 0 || !all_digits(d) || digits_value(d) > max {
        None
    } else {
        Some(digits_value(d))
    }
}

/// What `str::parse::<i32>` gives: an optional sign, then at least one digit
/// and nothing else, within the range of `i32`.
pub open spec fn parse_i32_spec(s: Seq<char>) -> Option<int> {
    if s.len() > 0 && s[0] == '-' {
        let d = s.drop_first();
        if d.len() == 0 || !all_digits(d) || digits_value(d) > 2147483648 {
            None
        } else {
            Some(-(digits_value(d) as int))
        }
    } else {
        match parse_unsigned_spec(s, 2147483647) {
            Some(v) => Some(v as int),
            None => None,
        }
    }
}

/// What `str::parse::<bool>` gives.
pub open spec fn parse_bool_spec(s: Seq<char>) -> Option<bool> {
    if s == seq!['t', 'r', 'u', 'e'] {
        Some(true)
    } else if s == seq!['f', 'a', 'l', 's', 'e'] {
        Some(false)
    } else {
        None
    }
}

/// The character of the decimal digit `d`.
pub open spec fn digit_char(d: nat) -> char {
    if d == 0 {
        '0'
    } else if d == 1 {
        '1'
    } else if d == 2 {
        '2'
    } else if d == 3 {
        '3'
    } else if d == 4 {
        '4'
    } else if d == 5 {
        '5'
    } else if d == 6 {
        '6'
    } else if d == 7 {
        '7'
    } else if d == 8 {
        '8'
    } else {
        '9'
    }
}

/// How `Display` writes an unsigned number: its decimal digits, without
/// leading zeros.
pub open spec fn decimal(n: nat) -> Seq<char>
    decreases n,
{
    if n < 10 {
        seq![digit_char(n)]
    } else {
        decimal(n / 10).push(digit_char(n % 10))
    }
}

proof fn lemma_digit_char(d: nat)
    requires
        d < 10,
    ensures
        is_ascii_digit(digit_char(d)),
        digit_value(digit_char(d)) == d,
        digit_char(d) != '+',
{
}

/// Writing a number in decimal and reading it back gives the number.
pub proof fn lemma_decimal_digits(n: nat)
    ensures
        decimal(n).len() > 0,
        all_digits(decimal(n)),
        digits_value(decimal(n)) == n,
        decimal(n)[0] != '+',
        decimal(n)[0] != '-',
    decreases n,
{
    if n < 10 {
        lemma_digit_char(n);
        assert(decimal(n).drop_last() =~= Seq::<char>::empty());
        assert(digits_value(decimal(n)) == digits_value(Seq::<char>::empty()) * 10 + digit_value(
            digit_char(n),
        ));
    } else {
        lemma_decimal_digits(n / 10);
        lemma_digit_char(n % 10);
        let s = decimal(n);
        assert(s.drop_last() =~= decimal(n / 10));
        assert(digits_value(s) == digits_value(decimal(n / 10)) * 10 + digit_value(
            digit_char(n % 10),
        ));
        assert((n / 10) * 10 + n % 10 == n) by (nonlinear_arith);
        assert forall|i: int| 0 <= i < s.len() implies is_ascii_digit(#[trigger] s[i]) by {
            if i < s.len() - 1 {
                assert(s[i] == decimal(n / 10)[i]);
            }
        }
    }
}

/// Reading back what `Display` writes: `parse(n.to_string()) == n`.
pub proof fn lemma_parse_decimal(n: nat, max: nat)
    requires
        n <= max,
    ensures
        parse_unsigned_spec(decimal(n), max) == Some(n),
{
    lemma_decimal_digits(n);
}

/// Decimal digit of `c`, if `c` is one.
pub fn digit_of(c: char) -> (r: Option<u64>)
    ensures
        match r {
            Some(d) => is_ascii_digit(c) && d == digit_value(c) && d < 10,
            None => !is_ascii_digit(c),
        },
{
    if '0' <= c && c <= '9' {
        Some((c as u32 - '0' as u32) as u64)
    } else {
        None
    }
}

/// Value of the digits `s[start..]`, if all of them are digits, there is at
/// least one, and the value is no greater than `max`.
fn parse_digits_from(s: &str, start: usize, max: u64) -> (r: Option<u64>)
    requires
        start <= s@.len(),
    ensures
        ({
            let d = s@.skip(start as int);
            r == if d.len() == 0 || !all_digits(d) || digits_value(d) > max {
                None::<u64>
            } else {
                Some(digits_value(d) as u64)
            }
        }),
{
    let n = s.unicode_len();
    if start == n {
        return None;
    }
    let mut i = start;
    let mut acc: u64 = 0;
    let mut over = false;
    while i < n
        invariant
            start <= i <= n,
            n == s@.len(),
            all_digits(s@.subrange(start as int, i as int)),
            over ==> digits_value(s@.subrange(start as int, i as int)) > max,
            !over ==> acc == digits_value(s@.subrange(start as int, i as int)) && acc <= max,
        decreases n - i,
    {
        let c = s.get_char(i);
        let ghost prev = s@.subrange(start as int, i as int);
        let ghost next = s@.subrange(start as int, i + 1);
        assert(next.drop_last() =~= prev);
        assert(next.last() == c);
        match digit_of(c) {
            None => {
                assert(!all_digits(s@.skip(start as int))) by {
                    assert(s@.skip(start as int)[i - start] == c);
                }
                return None;
            },
            Some(d) => {
                assert forall|k: int| 0 <= k < next.len() implies is_ascii_digit(#[trigger] next[k]) by {
                    if k < prev.len() {
                        assert(next[k] == prev[k]);
                    }
                }
                if !over {
                    if d > max || acc > (max - d) / 10 {
                        assert(acc * 10 + d > max) by (nonlinear_arith)
                            requires
                                d > max || acc > (max - d) / 10,
                                d < 10,
                        ;
                        over = true;
                    } else {
                        assert(acc * 10 + d <= max) by (nonlinear_arith)
                            requires
                                d <= max,
                                acc <= (max - d) / 10,
                        ;
                        acc = acc * 10 + d;
                    }
                }
            },
        }
        i = i + 1;
    }
    assert(s@.subrange(start as int, n as int) =~= s@.skip(start as int));
    if over {
        None
    } else {
        Some(acc)
    }
}

/// `str::parse` for an unsigned integer type whose largest value is `max`.
pub fn parse_unsigned(s: &str, max: u64) -> (r: Option<u64>)
    ensures
        r == match parse_unsigned_spec(s@, max as nat) {
            Some(v) => Some(v as u64),
            None => None::<u64>,
        },
{
    let n = s.unicode_len();
    if n > 0 && s.get_char(0) == '+' {
        assert(s@.skip(1) =~= s@.drop_first());
        parse_digits_from(s, 1, max)
    } else {
        assert(s@.skip(0) =~= s@);
        parse_digits_from(s, 0, max)
    }
}

/// `str::parse::<u8>`.
pub fn parse_u8(s: &str) -> (r: Option<u8>)
    ensures
        r == match parse_unsigned_spec(s@, 255) {
            Some(v) => Some(v as u8),
            None => None::<u8>,
        },
{
    match parse_unsigned(s, 255) {
        Some(v) => Some(v as u8),
        None => None,
    }
}

/// `str::parse::<u16>`.
pub fn parse_u16(s: &str) -> (r: Option<u16>)
    ensures
        r == match parse_unsigned_spec(s@, 65535) {
            Some(v) => Some(v as u16),
            None => None::<u16>,
        },
{
    match parse_unsigned(s, 65535) {
        Some(v) => Some(v as u16),
        None => None,
    }
}

/// `str::parse::<u32>`.
pub fn parse_u32(s: &str) -> (r: Option<u32>)
    ensures
        r == match parse_unsigned_spec(s@, 4294967295) {
            Some(v) => Some(v as u32),
            None => None::<u32>,
        },
{
    match parse_unsigned(s, 4294967295) {
        Some(v) => Some(v as u32),
        None => None,
    }
}

/// `str::parse::<i32>`.
pub fn parse_i32(s: &str) -> (r: Option<i32>)
    ensures
        r == match parse_i32_spec(s@) {
            Some(v) => Some(v as i32),
            None => None::<i32>,
        },
{
    let n = s.unicode_len();
    if n > 0 && s.get_char(0) == '-' {
        assert(s@.skip(1) =~= s@.drop_first());
        match parse_digits_from(s, 1, 2147483648) {
            Some(v) => {
                let r: i64 = 0 - (v as i64);
                Some(r as i32)
            },
            None => None,
        }
    } else {
        match parse_unsigned(s, 2147483647) {
            Some(v) => Some(v as i32),
            None => None,
        }
    }
}

/// `str::parse::<bool>`.
pub fn parse_bool(s: &str) -> (r: Option<bool>)
    ensures
        r == parse_bool_spec(s@),
{
    proof {
        reveal_strlit("true");
        reveal_strlit("false");
    }
    let n = s.unicode_len();
    if n == 4 && s.get_char(0) == 't' && s.get_char(1) == 'r' && s.get_char(2) == 'u' && s.get_char(
        3,
    ) == 'e' {
        assert(s@ =~= seq!['t', 'r', 'u', 'e']);
        Some(true)
    } else if n == 5 && s.get_char(0) == 'f' && s.get_char(1) == 'a' && s.get_char(2) == 'l'
        && s.get_char(3) == 's' && s.get_char(4) == 'e' {
        assert(s@ =~= seq!['f', 'a', 'l', 's', 'e']);
        Some(false)
    } else {
        assert(s@ != seq!['t', 'r', 'u', 'e']) by {
            if s@ == seq!['t', 'r', 'u', 'e'] {
                assert(s@[0] == 't' && s@[1] == 'r' && s@[2] == 'u' && s@[3] == 'e');
            }
        }
        assert(s@ != seq!['f', 'a', 'l', 's', 'e']) by {
            if s@ == seq!['f', 'a', 'l', 's', 'e'] {
                assert(s@[0] == 'f' && s@[1] == 'a' && s@[2] == 'l' && s@[3] == 's' && s@[4]
                    == 'e');
            }
        }
        None
    }
}

/// Appends the digit `d` to `out`.
fn append_digit(out: &mut String, d: u64)
    requires
        d < 10,
    ensures
        final(out)@ == old(out)@.push(digit_char(d as nat)),
{
    proof {
        reveal_strlit("0");
        reveal_strlit("1");
        reveal_strlit("2");
        reveal_strlit("3");
        reveal_strlit("4");
        reveal_strlit("5");
        reveal_strlit("6");
        reveal_strlit("7");
        reveal_strlit("8");
        reveal_strlit("9");
    }
    if d == 0 {
        out.append("0");
    } else if d == 1 {
        out.append("1");
    } else if d == 2 {
        out.append("2");
    } else if d == 3 {
        out.append("3");
    } else if d == 4 {
        out.append("4");
    } else if d == 5 {
        out.append("5");
    } else if d == 6 {
        out.append("6");
    } else if d == 7 {
        out.append("7");
    } else if d == 8 {
        out.append("8");
    } else {
        out.append("9");
    }
}

/// Appends `n` to `out` as `Display` writes it.
pub fn append_decimal(out: &mut String, n: u64)
    ensures
        final(out)@ == old(out)@ + decimal(n as nat),
    decreases n,
{
    if n >= 10 {
        append_decimal(out, n / 10);
        append_digit(out, n % 10);
        assert(final(out)@ =~= old(out)@ + decimal(n as nat));
    } else {
        append_digit(out, n);
        assert(final(out)@ =~= old(out)@ + decimal(n as nat));
    }
}

/// `n.to_string()`.
pub fn decimal_string(n: u64) -> (r: String)
    ensures
        r@ == decimal(n as nat),
{
    let mut r = String::new();
    append_decimal(&mut r, n);
    assert(r@ =~= decimal(n as nat));
    r
}


// ---------------------------------------------------------------------------
// Splitting
// ---------------------------------------------------------------------------

/// The views of a sequence of strings.
pub open spec fn views(v: Seq<String>) -> Seq<Seq<char>> {
    v.map_values(|x: String| x@)
}

/// The views of a list grow by the view of what is pushed.
pub proof fn lemma_views_push(v: Seq<String>, x: String)
    ensures
        views(v.push(x)) == views(v).push(x@),
{
    assert(views(v.push(x)) =~= views(v).push(x@));
}

/// Index of the first `c` in `s`.
pub open spec fn find_char(s: Seq<char>, c: char) -> Option<int>
    decreases s.len(),
{
    if s.len() == 0 {
        None
    } else if s[0] == c {
        Some(0)
    } else {
        match find_char(s.drop_first(), c) {
            Some(i) => Some(i + 1),
            None => None,
        }
    }
}

/// `find_char` gives the first occurrence of `c`, or tells there is none.
pub proof fn lemma_find_char(s: Seq<char>, c: char)
    ensures
        match find_char(s, c) {
            Some(i) => 0 <= i < s.len() && s[i] == c && forall|j: int|
                0 <= j < i ==> #[trigger] s[j] != c,
            None => forall|j: int| 0 <= j < s.len() ==> #[trigger] s[j] != c,
        },
    decreases s.len(),
{
    if s.len() > 0 && s[0] != c {
        lemma_find_char(s.drop_first(), c);
        match find_char(s.drop_first(), c) {
            Some(i) => {
                assert forall|j: int| 0 <= j < i + 1 implies #[trigger] s[j] != c by {
                    if j > 0 {
                        assert(s[j] == s.drop_first()[j - 1]);
                    }
                }
            },
            None => {
                assert forall|j: int| 0 <= j < s.len() implies #[trigger] s[j] != c by {
                    if j > 0 {
                        assert(s[j] == s.drop_first()[j - 1]);
                    }
                }
            },
        }
    }
}

/// The pieces of `s` between the occurrences of `c`, as `str::split` gives
/// them (empty pieces included; always at least one piece).
pub open spec fn split_char_spec(s: Seq<char>, c: char) -> Seq<Seq<char>>
    decreases s.len(),
{
    match find_char(s, c) {
        Some(i) => if 0 <= i < s.len() {
            seq![s.take(i)] + split_char_spec(s.skip(i + 1), c)
        } else {
            seq![s]
        },
        None => seq![s],
    }
}

/// Index of the first `c` in `s` at or after `from`.
pub fn find_char_from(s: &str, c: char, from: usize) -> (r: Option<usize>)
    requires
        from <= s@.len(),
    ensures
        r == match find_char(s@.skip(from as int), c) {
            Some(i) => Some((i + from) as usize),
            None => None::<usize>,
        },
{
    let n = s.unicode_len();
    let mut i = from;
    proof {
        lemma_find_char(s@.skip(from as int), c);
    }
    while i < n
        invariant
            from <= i <= n,
            n == s@.len(),
            forall|j: int| from <= j < i ==> #[trigger] s@[j] != c,
        decreases n - i,
    {
        if s.get_char(i) == c {
            let ghost t = s@.skip(from as int);
            assert(t[i - from] == c);
            assert forall|j: int| 0 <= j < i - from implies #[trigger] t[j] != c by {
                assert(t[j] == s@[j + from]);
            }
            proof {
                lemma_find_char(t, c);
                match find_char(t, c) {
                    Some(k) => {
                        if k < i - from {
                            assert(t[k] != c);
                        }
                        if k > i - from {
                            assert(t[i - from] != c);
                        }
                    },
                    None => {
                        assert(t[i - from] != c);
                    },
                }
            }
            return Some(i);
        }
        i = i + 1;
    }
    let ghost t = s@.skip(from as int);
    assert forall|j: int| 0 <= j < t.len() implies #[trigger] t[j] != c by {
        assert(t[j] == s@[j + from]);
    }
    None
}

/// `s[from..to]` as a new `String`.
pub fn substring(s: &str, from: usize, to: usize) -> (r: String)
    requires
        from <= to <= s@.len(),
    ensures
        r@ == s@.subrange(from as int, to as int),
{
    String::from_str(s.substring_char(from, to))
}

/// `str::split_once(c)`: the text before and after the first `c`.
pub fn split_once_char(s: &str, c: char) -> (r: Option<(String, String)>)
    ensures
        match find_char(s@, c) {
            Some(i) => r matches Some((a, b)) && a@ == s@.take(i) && b@ == s@.skip(i + 1),
            None => r is None,
        },
{
    proof {
        lemma_find_char(s@, c);
        assert(s@.skip(0) =~= s@);
    }
    let n = s.unicode_len();
    match find_char_from(s, c, 0) {
        Some(i) => {
            let a = substring(s, 0, i);
            let b = substring(s, i + 1, n);
            assert(a@ =~= s@.take(i as int));
            assert(b@ =~= s@.skip(i + 1));
            Some((a, b))
        },
        None => None,
    }
}

/// `s.split(c)`: every piece between the occurrences of `c`.
pub fn split_char(s: &str, c: char) -> (r: Vec<String>)
    ensures
        views(r@) == split_char_spec(s@, c),
{
    let n = s.unicode_len();
    let mut start: usize = 0;
    let mut out: Vec<String> = Vec::new();
    assert(s@.skip(0) =~= s@);
    assert(views(out@) =~= Seq::<Seq<char>>::empty());
    loop
        invariant
            start <= n,
            n == s@.len(),
            views(out@) + split_char_spec(s@.skip(start as int), c) == split_char_spec(s@, c),
        decreases n - start,
    {
        let ghost t = s@.skip(start as int);
        proof {
            lemma_find_char(t, c);
        }
        match find_char_from(s, c, start) {
            Some(j) => {
                let piece = substring(s, start, j);
                proof {
                    lemma_views_push(out@, piece);
                    assert(piece@ =~= t.take(j - start));
                    assert(t.skip(j - start + 1) =~= s@.skip(j + 1));
                    assert(views(out@.push(piece)) + split_char_spec(s@.skip(j + 1), c)
                        =~= views(out@) + split_char_spec(t, c));
                }
                out.push(piece);
                start = j + 1;
            },
            None => {
                let piece = substring(s, start, n);
                proof {
                    lemma_views_push(out@, piece);
                    assert(piece@ =~= t);
                    assert(views(out@.push(piece)) =~= views(out@) + split_char_spec(t, c));
                }
                out.push(piece);
                return out;
            },
        }
    }
}

/// A line as `str::lines` gives it: one `\r` before the `\n` is dropped.
pub open spec fn strip_cr(l: Seq<char>) -> Seq<char> {
    if l.len() > 0 && l.last() == '\r' {
        l.drop_last()
    } else {
        l
    }
}

/// `str::lines`: the text split at each `\n` (dropping a `\r` before it);
/// a final line ending adds no empty line, and an empty text has no lines.
pub open spec fn lines_spec(s: Seq<char>) -> Seq<Seq<char>>
    decreases s.len(),
{
    if s.len() == 0 {
        seq![]
    } else {
        match find_char(s, '\n') {
            Some(i) => if 0 <= i < s.len() {
                seq![strip_cr(s.take(i))] + lines_spec(s.skip(i + 1))
            } else {
                seq![s]
            },
            None => seq![s],
        }
    }
}

/// `s.lines()`.
pub fn lines(s: &str) -> (r: Vec<String>)
    ensures
        views(r@) == lines_spec(s@),
{
    let n = s.unicode_len();
    let mut start: usize = 0;
    let mut out: Vec<String> = Vec::new();
    assert(s@.skip(0) =~= s@);
    assert(views(out@) =~= Seq::<Seq<char>>::empty());
    while start < n
        invariant
            start <= n,
            n == s@.len(),
            views(out@) + lines_spec(s@.skip(start as int)) == lines_spec(s@),
        decreases n - start,
    {
        let ghost t = s@.skip(start as int);
        proof {
            lemma_find_char(t, '\n');
        }
        match find_char_from(s, '\n', start) {
            Some(j) => {
                let mut end = j;
                if j > start && s.get_char(j - 1) == '\r' {
                    end = j - 1;
                }
                let piece = substring(s, start, end);
                proof {
                    lemma_views_push(out@, piece);
                    assert(piece@ =~= strip_cr(t.take(j - start)));
                    assert(t.skip(j - start + 1) =~= s@.skip(j + 1));
                    assert(views(out@.push(piece)) + lines_spec(s@.skip(j + 1)) =~= views(out@)
                        + lines_spec(t));
                }
                out.push(piece);
                start = j + 1;
            },
            None => {
                let piece = substring(s, start, n);
                proof {
                    lemma_views_push(out@, piece);
                    assert(piece@ =~= t);
                    assert(s@.skip(n as int) =~= Seq::<char>::empty());
                    assert(views(out@.push(piece)) + lines_spec(s@.skip(n as int)) =~= views(
                        out@,
                    ) + lines_spec(t));
                }
                out.push(piece);
                start = n;
            },
        }
    }
    assert(s@.skip(start as int) =~= Seq::<char>::empty());
    assert(views(out@) + lines_spec(s@.skip(start as int)) =~= views(out@));
    out
}

/// `char::is_whitespace`: the characters with Unicode's White_Space property.
pub open spec fn is_whitespace(c: char) -> bool {
    ||| ('\u{9}' <= c && c <= '\u{d}')
    ||| c == ' '
    ||| c == '\u{85}'
    ||| c == '\u{a0}'
    ||| c == '\u{1680}'
    ||| ('\u{2000}' <= c && c <= '\u{200a}')
    ||| c == '\u{2028}'
    ||| c == '\u{2029}'
    ||| c == '\u{202f}'
    ||| c == '\u{205f}'
    ||| c == '\u{3000}'
}

/// `char::is_whitespace`.
pub fn char_is_whitespace(c: char) -> (r: bool)
    ensures
        r == is_whitespace(c),
{
    ('\u{9}' <= c && c <= '\u{d}') || c == ' ' || c == '\u{85}' || c == '\u{a0}' || c == '\u{1680}'
        || ('\u{2000}' <= c && c <= '\u{200a}') || c == '\u{2028}' || c == '\u{2029}' || c
        == '\u{202f}' || c == '\u{205f}' || c == '\u{3000}'
}

/// Index of the first whitespace character of `s`.
pub open spec fn find_whitespace(s: Seq<char>) -> Option<int>
    decreases s.len(),
{
    if s.len() == 0 {
        None
    } else if is_whitespace(s[0]) {
        Some(0)
    } else {
        match find_whitespace(s.drop_first()) {
            Some(i) => Some(i + 1),
            None => None,
        }
    }
}

/// `find_whitespace` gives the first whitespace character, or tells there
/// is none.
pub proof fn lemma_find_whitespace(s: Seq<char>)
    ensures
        match find_whitespace(s) {
            Some(i) => 0 <= i < s.len() && is_whitespace(s[i]) && forall|j: int|
                0 <= j < i ==> !is_whitespace(#[trigger] s[j]),
            None => forall|j: int| 0 <= j < s.len() ==> !is_whitespace(#[trigger] s[j]),
        },
    decreases s.len(),
{
    if s.len() > 0 && !is_whitespace(s[0]) {
        lemma_find_whitespace(s.drop_first());
        match find_whitespace(s.drop_first()) {
            Some(i) => {
                assert forall|j: int| 0 <= j < i + 1 implies !is_whitespace(#[trigger] s[j]) by {
                    if j > 0 {
                        assert(s[j] == s.drop_first()[j - 1]);
                    }
                }
            },
            None => {
                assert forall|j: int| 0 <= j < s.len() implies !is_whitespace(#[trigger] s[j]) by {
                    if j > 0 {
                        assert(s[j] == s.drop_first()[j - 1]);
                    }
                }
            },
        }
    }
}

/// `str::split_whitespace`: the maximal runs of non-whitespace characters.
pub open spec fn words_spec(s: Seq<char>) -> Seq<Seq<char>>
    decreases s.len(),
{
    if s.len() == 0 {
        seq![]
    } else if is_whitespace(s[0]) {
        words_spec(s.drop_first())
    } else {
        match find_whitespace(s) {
            Some(i) => if 0 < i < s.len() {
                seq![s.take(i)] + words_spec(s.skip(i))
            } else {
                seq![s]
            },
            None => seq![s],
        }
    }
}

/// `s.split_whitespace()`.
pub fn split_whitespace(s: &str) -> (r: Vec<String>)
    ensures
        views(r@) == words_spec(s@),
{
    let n = s.unicode_len();
    let mut pos: usize = 0;
    let mut out: Vec<String> = Vec::new();
    assert(s@.skip(0) =~= s@);
    assert(views(out@) =~= Seq::<Seq<char>>::empty());
    while pos < n
        invariant
            pos <= n,
            n == s@.len(),
            views(out@) + words_spec(s@.skip(pos as int)) == words_spec(s@),
        decreases n - pos,
    {
        let ghost t = s@.skip(pos as int);
        if char_is_whitespace(s.get_char(pos)) {
            assert(t.drop_first() =~= s@.skip(pos + 1));
            pos = pos + 1;
        } else {
            let mut j = pos + 1;
            while j < n && !char_is_whitespace(s.get_char(j))
                invariant
                    pos < j <= n,
                    n == s@.len(),
                    forall|k: int| pos <= k < j ==> !is_whitespace(#[trigger] s@[k]),
                decreases n - j,
            {
                j = j + 1;
            }
            let piece = substring(s, pos, j);
            proof {
                lemma_find_whitespace(t);
                assert forall|k: int| 0 <= k < j - pos implies !is_whitespace(#[trigger] t[k]) by {
                    assert(t[k] == s@[k + pos]);
                }
                if j < n {
                    assert(t[j - pos] == s@[j as int]);
                    assert(find_whitespace(t) == Some((j - pos) as int));
                } else {
                    assert(find_whitespace(t) is None);
                }
                lemma_views_push(out@, piece);
                assert(piece@ =~= t.take(j - pos));
                assert(t.skip(j - pos) =~= s@.skip(j as int));
                if j == n {
                    assert(piece@ =~= t);
                    assert(s@.skip(j as int) =~= Seq::<char>::empty());
                }
                assert(views(out@.push(piece)) + words_spec(s@.skip(j as int)) =~= views(out@)
                    + words_spec(t));
            }
            out.push(piece);
            pos = j;
        }
    }
    assert(s@.skip(pos as int) =~= Seq::<char>::empty());
    assert(views(out@) + words_spec(s@.skip(pos as int)) =~= views(out@));
    out
}

/// The pieces joined with `sep` between them, as `join` gives them.
pub open spec fn join_spec(pieces: Seq<Seq<char>>, sep: Seq<char>) -> Seq<char>
    decreases pieces.len(),
{
    if pieces.len() == 0 {
        seq![]
    } else if pieces.len() == 1 {
        pieces[0]
    } else {
        join_spec(pieces.drop_last(), sep) + sep + pieces.last()
    }
}

/// `pieces.join(sep)`.
pub fn join(pieces: &Vec<String>, sep: &str) -> (r: String)
    ensures
        r@ == join_spec(views(pieces@), sep@),
{
    let mut r = String::new();
    let n = pieces.len();
    let mut i: usize = 0;
    while i < n
        invariant
            i <= n,
            n == pieces@.len(),
            r@ == join_spec(views(pieces@).take(i as int), sep@),
        decreases n - i,
    {
        let ghost vs = views(pieces@);
        assert(vs.take(i + 1).drop_last() =~= vs.take(i as int));
        if i > 0 {
            r.append(sep);
        } else {
            assert(vs.take(0) =~= Seq::<Seq<char>>::empty());
        }
        r.append(pieces[i].as_str());
        assert(r@ =~= join_spec(vs.take(i + 1), sep@));
        i = i + 1;
    }
    assert(views(pieces@).take(n as int) =~= views(pieces@));
    r
}


/// `a == b` on text.
pub fn str_eq(a: &str, b: &str) -> (r: bool)
    ensures
        r == (a@ == b@),
{
    let n = a.unicode_len();
    if n != b.unicode_len() {
        return false;
    }
    let mut i: usize = 0;
    while i < n
        invariant
            i <= n,
            n == a@.len(),
            n == b@.len(),
            forall|k: int| 0 <= k < i ==> a@[k] == b@[k],
        decreases n - i,
    {
        if a.get_char(i) != b.get_char(i) {
            return false;
        }
        i = i + 1;
    }
    assert(a@ =~= b@);
    true
}

// ---------------------------------------------------------------------------
// IPv4 addresses
// ---------------------------------------------------------------------------

/// An octet of a dotted IPv4 address as `Ipv4Addr` reads it: one to three
/// decimal digits, without a leading zero unless it is alone, at most 255.
pub open spec fn ipv4_octet(p: Seq<char>) -> Option<u8> {
    if 1 <= p.len() <= 3 && all_digits(p) && !(p.len() > 1 && p[0] == '0') && digits_value(p)
        <= 255 {
        Some(digits_value(p) as u8)
    } else {
        None
    }
}

/// What `str::parse::<Ipv4Addr>` gives: four octets separated by `.`.
pub open spec fn ipv4_spec(s: Seq<char>) -> Option<Seq<u8>> {
    let ps = split_char_spec(s, '.');
    if ps.len() == 4 && ipv4_octet(ps[0]) is Some && ipv4_octet(ps[1]) is Some && ipv4_octet(
        ps[2],
    ) is Some && ipv4_octet(ps[3]) is Some {
        Some(
            seq![
                ipv4_octet(ps[0])->0,
                ipv4_octet(ps[1])->0,
                ipv4_octet(ps[2])->0,
                ipv4_octet(ps[3])->0,
            ],
        )
    } else {
        None
    }
}

/// How `Ipv4Addr` is displayed: its four octets in decimal, separated by `.`.
pub open spec fn ipv4_text(o: Seq<u8>) -> Seq<char> {
    decimal(o[0] as nat) + seq!['.'] + decimal(o[1] as nat) + seq!['.'] + decimal(o[2] as nat)
        + seq!['.'] + decimal(o[3] as nat)
}

/// The address written in `s` read as an IPv4 address and displayed again,
/// or `0.0.0.0` when `s` is not one.
pub open spec fn ipv4_or_unspecified(s: Seq<char>) -> Seq<char> {
    match ipv4_spec(s) {
        Some(o) => ipv4_text(o),
        None => seq!['0', '.', '0', '.', '0', '.', '0'],
    }
}

/// One octet of a dotted IPv4 address.
fn parse_ipv4_octet(p: &str) -> (r: Option<u8>)
    ensures
        r == ipv4_octet(p@),
{
    let n = p.unicode_len();
    if n < 1 || n > 3 {
        return None;
    }
    let first = p.get_char(0);
    if first == '+' || (n > 1 && first == '0') {
        return None;
    }
    let r = parse_u8(p);
    proof {
        assert(unsigned_digits(p@) == p@);
    }
    r
}

/// `str::parse::<Ipv4Addr>`, the octets in order.
pub fn parse_ipv4(s: &str) -> (r: Option<Vec<u8>>)
    ensures
        match ipv4_spec(s@) {
            Some(o) => r matches Some(v) && v@ == o,
            None => r is None,
        },
{
    let pieces = split_char(s, '.');
    if pieces.len() != 4 {
        return None;
    }
    proof {
        assert(views(pieces@)[0] == pieces@[0]@);
        assert(views(pieces@)[1] == pieces@[1]@);
        assert(views(pieces@)[2] == pieces@[2]@);
        assert(views(pieces@)[3] == pieces@[3]@);
    }
    let a = match parse_ipv4_octet(pieces[0].as_str()) {
        Some(v) => v,
        None => {
            return None;
        },
    };
    let b = match parse_ipv4_octet(pieces[1].as_str()) {
        Some(v) => v,
        None => {
            return None;
        },
    };
    let c = match parse_ipv4_octet(pieces[2].as_str()) {
        Some(v) => v,
        None => {
            return None;
        },
    };
    let d = match parse_ipv4_octet(pieces[3].as_str()) {
        Some(v) => v,
        None => {
            return None;
        },
    };
    let mut v: Vec<u8> = Vec::new();
    v.push(a);
    v.push(b);
    v.push(c);
    v.push(d);
    assert(v@ =~= seq![a, b, c, d]);
    Some(v)
}

/// The address written in `s` as `Ipv4Addr` displays it, or `0.0.0.0` when
/// `s` is not an IPv4 address.
pub fn ipv4_or_unspecified_text(s: &str) -> (r: String)
    ensures
        r@ == ipv4_or_unspecified(s@),
{
    proof {
        reveal_strlit(".");
        reveal_strlit("0.0.0.0");
    }
    match parse_ipv4(s) {
        Some(o) => {
            let mut r = String::new();
            append_decimal(&mut r, o[0] as u64);
            r.append(".");
            append_decimal(&mut r, o[1] as u64);
            r.append(".");
            append_decimal(&mut r, o[2] as u64);
            r.append(".");
            append_decimal(&mut r, o[3] as u64);
            assert(r@ =~= ipv4_text(o@));
            r
        },
        None => {
            let r = String::from_str("0.0.0.0");
            assert(r@ =~= seq!['0', '.', '0', '.', '0', '.', '0']);
            r
        },
    }
}

} // verus!
