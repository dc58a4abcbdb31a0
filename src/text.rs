use vstd::prelude::*;

verus! {

/// Relies on `String::push`: appends one character at the end.
pub assume_specification[ String::push ](s: &mut String, ch: char)
    ensures
        final(s)@ == old(s)@.push(ch),
;

/// Relies on `String::pop`: removes and returns the last character, if any.
pub assume_specification[ String::pop ](s: &mut String) -> (r: Option<char>)
    ensures
        old(s)@.len() == 0 ==> r is None && final(s)@ == old(s)@,
        old(s)@.len() > 0 ==> r == Some(old(s)@.last()) && final(s)@ == old(s)@.drop_last(),
;

/// Whether `c` has the Unicode White_Space property, as
/// `char::is_whitespace` tells.
pub open spec fn is_white_space(c: char) -> bool {
    ||| '\u{9}' <= c <= '\u{d}'
    ||| c == ' '
    ||| c == '\u{85}'
    ||| c == '\u{a0}'
    ||| c == '\u{1680}'
    ||| '\u{2000}' <= c <= '\u{200a}'
    ||| c == '\u{2028}'
    ||| c == '\u{2029}'
    ||| c == '\u{202f}'
    ||| c == '\u{205f}'
    ||| c == '\u{3000}'
}

/// `s` without its leading white space.
pub open spec fn trim_start_of(s: Seq<char>) -> Seq<char>
    decreases s.len(),
{
    if s.len() > 0 && is_white_space(s[0]) {
        trim_start_of(s.drop_first())
    } else {
        s
    }
}

/// `s` without its trailing white space.
pub open spec fn trim_end_of(s: Seq<char>) -> Seq<char>
    decreases s.len(),
{
    if s.len() > 0 && is_white_space(s.last()) {
        trim_end_of(s.drop_last())
    } else {
        s
    }
}

/// `s` without leading and trailing white space.
pub open spec fn trimmed(s: Seq<char>) -> Seq<char> {
    trim_end_of(trim_start_of(s))
}

/// Relies on `str::trim`: it removes the leading and trailing characters for
/// which `char::is_whitespace` holds, that is those of Unicode's White_Space.
#[verifier::external_body]
pub(crate) fn trim_text(s: &str) -> (r: String)
    ensures
        r@ == trimmed(s@),
{
    s.trim().to_string()
}

/// A text that neither begins nor ends with white space is its own trimmed
/// form.
pub proof fn lemma_trimmed_plain(s: Seq<char>)
    requires
        s.len() > 0,
        !is_white_space(s[0]),
        !is_white_space(s.last()),
    ensures
        trimmed(s) == s,
{
}

/// The pieces of `s` between occurrences of `sep`, as `str::split` gives them.
pub open spec fn split_on(s: Seq<char>, sep: char) -> Seq<Seq<char>>
    decreases s.len(),
{
    if s.len() == 0 {
        seq![Seq::empty()]
    } else {
        let before = split_on(s.drop_last(), sep);
        if s.last() == sep {
            before.push(Seq::empty())
        } else {
            before.update(before.len() - 1, before.last().push(s.last()))
        }
    }
}

proof fn lemma_split_on_nonempty(s: Seq<char>, sep: char)
    ensures
        split_on(s, sep).len() >= 1,
    decreases s.len(),
{
    if s.len() > 0 {
        lemma_split_on_nonempty(s.drop_last(), sep);
    }
}

/// A line that a line feed ended, without the carriage return that may
/// stand before that line feed.
pub open spec fn strip_cr(line: Seq<char>) -> Seq<char> {
    if line.len() > 0 && line.last() == '\r' {
        line.drop_last()
    } else {
        line
    }
}

/// The lines of `s`, as `str::lines` gives them: split at line feeds, with no
/// empty line after a final line feed. A carriage return goes only where it
/// stands just before a line feed: a last line without a line feed keeps it.
pub open spec fn lines_of(s: Seq<char>) -> Seq<Seq<char>> {
    let pieces = split_on(s, '\n');
    let ended = pieces.drop_last().map_values(|l: Seq<char>| strip_cr(l));
    if pieces.last().len() == 0 {
        ended
    } else {
        ended.push(pieces.last())
    }
}

/// Splits `s` at every `sep`.
pub fn split_text(s: &str, sep: char) -> (r: Vec<String>)
    ensures
        r@.len() == split_on(s@, sep).len(),
        forall|i: int| 0 <= i < r@.len() ==> #[trigger] r@[i]@ == split_on(s@, sep)[i],
{
    let n = s.unicode_len();
    let mut done: Vec<String> = Vec::new();
    let mut cur = String::new();
    let mut i: usize = 0;
    while i < n
        invariant
            n == s@.len(),
            i <= n,
            done@.len() + 1 == split_on(s@.subrange(0, i as int), sep).len(),
            forall|k: int| 0 <= k < done@.len() ==> #[trigger] done@[k]@ == split_on(s@.subrange(0, i as int), sep)[k],
            cur@ == split_on(s@.subrange(0, i as int), sep).last(),
        decreases n - i,
    {
        let c = s.get_char(i);
        proof {
            let p = s@.subrange(0, i as int);
            let q = s@.subrange(0, i + 1);
            assert(q.drop_last() == p);
            assert(q.last() == c);
            lemma_split_on_nonempty(p, sep);
        }
        if c == sep {
            let piece = cur;
            done.push(piece);
            cur = String::new();
        } else {
            cur.push(c);
        }
        i = i + 1;
    }
    proof {
        assert(s@.subrange(0, n as int) == s@);
    }
    done.push(cur);
    done
}

/// Splits `s` into lines.
pub fn text_lines(s: &str) -> (r: Vec<String>)
    ensures
        r@.len() == lines_of(s@).len(),
        forall|i: int| 0 <= i < r@.len() ==> #[trigger] r@[i]@ == lines_of(s@)[i],
{
    let pieces = split_text(s, '\n');
    let ghost all = split_on(s@, '\n');
    proof {
        lemma_split_on_nonempty(s@, '\n');
    }
    let ended = pieces.len() - 1;
    let mut r: Vec<String> = Vec::new();
    let mut i: usize = 0;
    while i < ended
        invariant
            ended + 1 == pieces@.len(),
            pieces@.len() == all.len(),
            all == split_on(s@, '\n'),
            forall|k: int| 0 <= k < pieces@.len() ==> #[trigger] pieces@[k]@ == all[k],
            i <= ended,
            r@.len() == i,
            forall|k: int| 0 <= k < i ==> #[trigger] r@[k]@ == strip_cr(all[k]),
        decreases ended - i,
    {
        let mut line = pieces[i].clone();
        let len = line.as_str().unicode_len();
        if len > 0 && line.as_str().get_char(len - 1) == '\r' {
            line.pop();
        }
        r.push(line);
        i = i + 1;
    }
    let last = pieces[ended].clone();
    if last.as_str().unicode_len() > 0 {
        r.push(last);
    }
    proof {
        let e = all.drop_last().map_values(|l: Seq<char>| strip_cr(l));
        assert(all.last() == all[ended as int]);
        assert forall|k: int| 0 <= k < e.len() implies #[trigger] r@[k]@ == e[k] by {
            assert(all.drop_last()[k] == all[k]);
        }
    }
    r
}

/// The value of a text of decimal digits.
pub open spec fn digits_value(s: Seq<char>) -> nat
    decreases s.len(),
{
    if s.len() == 0 {
        0
    } else {
        digits_value(s.drop_last()) * 10 + ((s.last() as u32 - '0' as u32) as nat)
    }
}

pub open spec fn is_digit(c: char) -> bool {
    '0' <= c <= '9'
}

pub open spec fn all_digits(s: Seq<char>) -> bool {
    forall|i: int| 0 <= i < s.len() ==> #[trigger] is_digit(s[i])
}

/// What `str::parse::<usize>` accepts: an optional `+` and then at least one
/// digit, of a value that fits in `usize`.
pub open spec fn parsed_usize(s: Seq<char>) -> Option<nat> {
    let d = if s.len() > 0 && s[0] == '+' {
        s.drop_first()
    } else {
        s
    };
    if d.len() > 0 && all_digits(d) && digits_value(d) <= usize::MAX {
        Some(digits_value(d))
    } else {
        None
    }
}

proof fn lemma_digits_value_grows(s: Seq<char>, j: int)
    requires
        0 <= j <= s.len(),
        all_digits(s),
    ensures
        digits_value(s.subrange(0, j)) <= digits_value(s),
    decreases s.len() - j,
{
    if j < s.len() {
        let t = s.subrange(0, j + 1);
        assert(t.drop_last() == s.subrange(0, j));
        assert(is_digit(t.last()));
        lemma_digits_value_grows(s, j + 1);
    } else {
        assert(s.subrange(0, j) == s);
    }
}

/// Reads a decimal count, as `str::parse::<usize>` would.
pub fn parse_usize(s: &str) -> (r: Option<usize>)
    ensures
        match parsed_usize(s@) {
            Some(v) => r == Some(v as usize),
            None => r is None,
        },
{
    let n = s.unicode_len();
    let mut start: usize = 0;
    if n > 0 && s.get_char(0) == '+' {
        start = 1;
    }
    let ghost d = s@.subrange(start as int, n as int);
    proof {
        if start == 1 {
            assert(d == s@.drop_first());
        } else {
            assert(d == s@);
        }
        assert(d == (if s@.len() > 0 && s@[0] == '+' { s@.drop_first() } else { s@ }));
    }
    if start == n {
        return None;
    }
    let mut value: usize = 0;
    let mut i: usize = start;
    while i < n
        invariant
            n == s@.len(),
            start <= i <= n,
            d == s@.subrange(start as int, n as int),
            d == (if s@.len() > 0 && s@[0] == '+' { s@.drop_first() } else { s@ }),
            all_digits(s@.subrange(start as int, i as int)),
            value as nat == digits_value(s@.subrange(start as int, i as int)),
        decreases n - i,
    {
        let c = s.get_char(i);
        let ghost p = s@.subrange(start as int, i as int);
        let ghost q = s@.subrange(start as int, i + 1);
        proof {
            assert(q.drop_last() == p);
            assert(q.last() == c);
            assert(d.subrange(0, i - start) == p);
            assert(d.subrange(0, i + 1 - start) == q);
        }
        if !('0' <= c && c <= '9') {
            proof {
                assert(d[i - start] == c);
                assert(!is_digit(d[i - start]));
                assert(!all_digits(d));
            }
            return None;
        }
        let digit = (c as u32 - '0' as u32) as usize;
        if value > (usize::MAX - digit) / 10 {
            proof {
                assert forall|k: int| 0 <= k < q.len() implies #[trigger] is_digit(q[k]) by {
                    if k < p.len() {
                        assert(is_digit(p[k]));
                    }
                }
                assert(digits_value(q) > usize::MAX) by (nonlinear_arith)
                    requires
                        digits_value(q) == value * 10 + digit,
                        value > (usize::MAX - digit) / 10,
                        digit <= 9;
                if all_digits(d) {
                    lemma_digits_value_grows(d, i + 1 - start);
                    assert(digits_value(d) > usize::MAX);
                }
            }
            return None;
        }
        value = value * 10 + digit;
        i = i + 1;
        proof {
            assert forall|k: int| 0 <= k < q.len() implies #[trigger] is_digit(q[k]) by {
                if k < p.len() {
                    assert(is_digit(p[k]));
                }
            }
        }
    }
    proof {
        assert(s@.subrange(start as int, i as int) == d);
    }
    Some(value)
}

/// Whether two texts hold the same characters.
pub fn same_text(a: &str, b: &str) -> (r: bool)
    ensures
        r == (a@ == b@),
{
    let n = a.unicode_len();
    if n != b.unicode_len() {
        return false;
    }
    let mut i: usize = 0;
    while i < n
        invariant
            n == a@.len(),
            n == b@.len(),
            i <= n,
            forall|k: int| 0 <= k < i ==> a@[k] == b@[k],
        decreases n - i,
    {
        if a.get_char(i) != b.get_char(i) {
            return false;
        }
        i = i + 1;
    }
    proof {
        assert(a@ == b@);
    }
    true
}

/// The decimal digit for `d`, which is below ten.
pub open spec fn digit_char(d: nat) -> char {
    ('0' as u32 + d) as char
}

/// The decimal writing of `n`, without leading zeros.
pub open spec fn decimal_digits(n: nat) -> Seq<char>
    decreases n,
{
    if n < 10 {
        seq![digit_char(n)]
    } else {
        decimal_digits(n / 10).push(digit_char(n % 10))
    }
}

/// Writes `n` in decimal.
pub fn decimal_text(n: usize) -> (r: String)
    ensures
        r@ == decimal_digits(n as nat),
    decreases n,
{
    if n < 10 {
        let mut r = String::new();
        r.push(char_of_digit(n as u32));
        r
    } else {
        let mut r = decimal_text(n / 10);
        r.push(char_of_digit((n % 10) as u32));
        r
    }
}

fn char_of_digit(d: u32) -> (c: char)
    requires
        d < 10,
    ensures
        c == digit_char(d as nat),
{
    if d == 0 { '0' } else if d == 1 { '1' } else if d == 2 { '2' } else if d == 3 { '3' }
    else if d == 4 { '4' } else if d == 5 { '5' } else if d == 6 { '6' } else if d == 7 { '7' }
    else if d == 8 { '8' } else { '9' }
}

} // verus!
