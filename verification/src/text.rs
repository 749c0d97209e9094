//! Verified text utilities used to interpret command output: trimming,
//! line splitting, decimal parsing and decimal rendering.
use vstd::prelude::*;

verus! {

/// Whether a character counts as blank space when command output is trimmed.
pub open spec fn is_blank_char(c: char) -> bool {
    c == ' ' || c == '\t' || c == '\n' || c == '\r'
}

/// Runtime test matching `is_blank_char`.
pub fn blank_char(c: char) -> (b: bool)
    ensures
        b == is_blank_char(c),
{
    c == ' ' || c == '\t' || c == '\n' || c == '\r'
}

/// The text with its leading blank characters removed.
pub open spec fn trim_front(s: Seq<char>) -> Seq<char>
    decreases s.len(),
{
    if s.len() > 0 && is_blank_char(s[0]) {
        trim_front(s.drop_first())
    } else {
        s
    }
}

/// The text with its trailing blank characters removed.
pub open spec fn trim_back(s: Seq<char>) -> Seq<char>
    decreases s.len(),
{
    if s.len() > 0 && is_blank_char(s.last()) {
        trim_back(s.drop_last())
    } else {
        s
    }
}

/// The text with blank characters removed from both ends.
pub open spec fn trimmed(s: Seq<char>) -> Seq<char> {
    trim_back(trim_front(s))
}

proof fn lemma_trim_front_skip(s: Seq<char>, k: int)
    requires
        0 <= k <= s.len(),
        forall|j: int| 0 <= j < k ==> is_blank_char(s[j]),
    ensures
        trim_front(s) == trim_front(s.skip(k)),
    decreases k,
{
    if k == 0 {
        assert(s.skip(0) =~= s);
    } else {
        assert(s.drop_first() =~= s.skip(1));
        assert(s.skip(1).skip(k - 1) =~= s.skip(k));
        lemma_trim_front_skip(s.skip(1), k - 1);
    }
}

proof fn lemma_trim_back_take(s: Seq<char>, k: int)
    requires
        0 <= k <= s.len(),
        forall|j: int| k <= j < s.len() ==> is_blank_char(s[j]),
    ensures
        trim_back(s) == trim_back(s.take(k)),
    decreases s.len(),
{
    if k == s.len() {
        assert(s.take(k) =~= s);
    } else {
        assert(is_blank_char(s.last()));
        assert(s.drop_last() =~= s.take(s.len() - 1));
        assert(s.take(s.len() - 1).take(k) =~= s.take(k));
        lemma_trim_back_take(s.take(s.len() - 1), k);
    }
}

/// Copy of `s` with blank characters removed from both ends.
pub fn trim(s: &str) -> (r: String)
    ensures
        r@ == trimmed(s@),
{
    let n = s.unicode_len();
    let mut start: usize = 0;
    while start < n && blank_char(s.get_char(start))
        invariant
            n == s@.len(),
            0 <= start <= n,
            forall|j: int| 0 <= j < start ==> is_blank_char(s@[j]),
        decreases n - start,
    {
        start = start + 1;
    }
    let mut end: usize = n;
    while end > start && blank_char(s.get_char(end - 1))
        invariant
            n == s@.len(),
            start <= end <= n,
            forall|j: int| end <= j < n ==> is_blank_char(s@[j]),
        decreases end,
    {
        end = end - 1;
    }
    proof {
        lemma_trim_front_skip(s@, start as int);
        let f = s@.skip(start as int);
        if start < n {
            assert(!is_blank_char(f[0]));
        }
        assert(trim_front(s@) == f);
        lemma_trim_back_take(f, end - start);
        let t = f.take(end - start);
        if end > start {
            assert(t.last() == s@[end - 1]);
            assert(!is_blank_char(t.last()));
        }
        assert(trim_back(f) == t);
        assert(t =~= s@.subrange(start as int, end as int));
    }
    let cut = s.substring_char(start, end);
    cut.to_owned()
}

/// Whether the text holds nothing but blank characters.
pub open spec fn is_blank_text(s: Seq<char>) -> bool {
    trimmed(s).len() == 0
}

proof fn lemma_trim_front_len(s: Seq<char>)
    ensures
        trim_front(s).len() <= s.len(),
        trim_front(s).len() > 0 ==> !is_blank_char(trim_front(s)[0]),
    decreases s.len(),
{
    if s.len() > 0 && is_blank_char(s[0]) {
        lemma_trim_front_len(s.drop_first());
    }
}

proof fn lemma_trim_back_blank(s: Seq<char>)
    ensures
        trim_back(s).len() == 0 ==> forall|j: int| 0 <= j < s.len() ==> is_blank_char(s[j]),
        trim_back(s).len() > 0 ==> exists|j: int| 0 <= j < s.len() && !is_blank_char(s[j]),
    decreases s.len(),
{
    if s.len() > 0 && is_blank_char(s.last()) {
        lemma_trim_back_blank(s.drop_last());
        if trim_back(s).len() == 0 {
            assert forall|j: int| 0 <= j < s.len() implies is_blank_char(s[j]) by {
                if j < s.len() - 1 {
                    assert(is_blank_char(s.drop_last()[j]));
                }
            }
        } else {
            let j = choose|j: int| 0 <= j < s.drop_last().len() && !is_blank_char(
                s.drop_last()[j],
            );
            assert(s[j] == s.drop_last()[j]);
        }
    } else if s.len() > 0 {
        assert(!is_blank_char(s[s.len() - 1]));
    }
}

/// A text is blank exactly when every character in it is blank space.
pub proof fn lemma_blank_text(s: Seq<char>)
    ensures
        is_blank_text(s) <==> forall|j: int| 0 <= j < s.len() ==> is_blank_char(s[j]),
    decreases s.len(),
{
    lemma_trim_back_blank(trim_front(s));
    if s.len() > 0 && is_blank_char(s[0]) {
        lemma_blank_text(s.drop_first());
        if is_blank_text(s) {
            assert forall|j: int| 0 <= j < s.len() implies is_blank_char(s[j]) by {
                if j > 0 {
                    assert(is_blank_char(s.drop_first()[j - 1]));
                }
            }
        }
    } else if s.len() > 0 {
        assert(trim_front(s) == s);
        if is_blank_text(s) {
            assert(is_blank_char(s[0]));
        }
    }
}

/// Whether the text holds nothing but blank characters, decided at runtime.
pub fn blank_text(s: &str) -> (b: bool)
    ensures
        b == is_blank_text(s@),
{
    let n = s.unicode_len();
    let mut i: usize = 0;
    while i < n
        invariant
            n == s@.len(),
            0 <= i <= n,
            forall|j: int| 0 <= j < i ==> is_blank_char(s@[j]),
        decreases n - i,
    {
        if !blank_char(s.get_char(i)) {
            proof {
                lemma_blank_text(s@);
            }
            return false;
        }
        i = i + 1;
    }
    proof {
        lemma_blank_text(s@);
    }
    true
}

/// Index of the first line-feed character, or the length when there is none.
pub open spec fn newline_pos(s: Seq<char>) -> int
    decreases s.len(),
{
    if s.len() == 0 {
        0
    } else if s[0] == '\n' {
        0
    } else {
        1 + newline_pos(s.drop_first())
    }
}

proof fn lemma_newline_pos(s: Seq<char>)
    ensures
        0 <= newline_pos(s) <= s.len(),
        forall|j: int| 0 <= j < newline_pos(s) ==> s[j] != '\n',
        newline_pos(s) < s.len() ==> s[newline_pos(s)] == '\n',
    decreases s.len(),
{
    if s.len() > 0 && s[0] != '\n' {
        lemma_newline_pos(s.drop_first());
        assert forall|j: int| 0 <= j < newline_pos(s) implies s[j] != '\n' by {
            if j > 0 {
                assert(s.drop_first()[j - 1] != '\n');
            }
        }
    }
}

proof fn lemma_newline_pos_is(s: Seq<char>, i: int)
    requires
        0 <= i <= s.len(),
        forall|j: int| 0 <= j < i ==> s[j] != '\n',
        i < s.len() ==> s[i] == '\n',
    ensures
        newline_pos(s) == i,
    decreases i,
{
    if i > 0 {
        lemma_newline_pos_is(s.drop_first(), i - 1);
    }
}

/// A line with its single trailing carriage return removed, if one is there.
pub open spec fn strip_cr(l: Seq<char>) -> Seq<char> {
    if l.len() > 0 && l.last() == '\r' {
        l.drop_last()
    } else {
        l
    }
}

/// The lines of a text, split at line feeds; a carriage return just before a
/// line feed belongs to the terminator, and a final terminator is optional.
pub open spec fn line_split(s: Seq<char>) -> Seq<Seq<char>>
    decreases s.len() via line_split_decreases

{
    if s.len() == 0 {
        Seq::empty()
    } else {
        let i = newline_pos(s);
        if i >= s.len() {
            seq![s]
        } else {
            seq![strip_cr(s.take(i))] + line_split(s.skip(i + 1))
        }
    }
}

#[via_fn]
proof fn line_split_decreases(s: Seq<char>) {
    lemma_newline_pos(s);
}

/// The lines of `s`, split as `line_split` describes.
pub fn split_lines(s: &str) -> (r: Vec<String>)
    ensures
        r.deep_view() == line_split(s@),
    decreases s@.len(),
{
    let n = s.unicode_len();
    if n == 0 {
        let r: Vec<String> = Vec::new();
        proof {
            assert(r.deep_view() =~= line_split(s@));
        }
        return r;
    }
    let mut i: usize = 0;
    while i < n && s.get_char(i) != '\n'
        invariant
            n == s@.len(),
            0 <= i <= n,
            forall|j: int| 0 <= j < i ==> s@[j] != '\n',
        decreases n - i,
    {
        i = i + 1;
    }
    proof {
        lemma_newline_pos_is(s@, i as int);
    }
    if i >= n {
        let mut r: Vec<String> = Vec::new();
        r.push(s.to_owned());
        proof {
            assert(r.deep_view() =~= line_split(s@));
        }
        r
    } else {
        let head_end: usize = if i > 0 && s.get_char(i - 1) == '\r' {
            i - 1
        } else {
            i
        };
        let head = s.substring_char(0, head_end).to_owned();
        proof {
            let t = s@.take(i as int);
            if i > 0 {
                assert(t.last() == s@[i - 1]);
            }
            assert(head@ =~= strip_cr(t));
        }
        let rest = s.substring_char(i + 1, n);
        let mut tail = split_lines(rest);
        let mut r: Vec<String> = Vec::new();
        r.push(head);
        r.append(&mut tail);
        proof {
            assert(r.deep_view() =~= line_split(s@));
        }
        r
    }
}

/// Why a piece of text failed to parse as a signed 32-bit decimal integer.
#[derive(Clone, Copy, Debug, PartialEq, Eq, Structural)]
pub enum ParseIntFailure {
    /// The text was empty.
    Empty,
    /// A character was neither a digit nor a leading sign.
    InvalidDigit,
    /// The value rose above the largest representable value.
    TooLarge,
    /// The value fell below the smallest representable value.
    TooSmall,
}

/// Whether the character is a decimal digit.
pub open spec fn is_digit(c: char) -> bool {
    '0' <= c && c <= '9'
}

/// Numeric value of a decimal digit character.
pub open spec fn digit_val(c: char) -> int {
    (c as u32) - 48
}

/// Folds the digits of `s` from position `i` onward into `acc`, reporting the
/// first failure met: a non-digit character, or a value outside the signed
/// 32-bit range. A negative number is accumulated downward so that the
/// smallest representable value is reached without overshooting.
pub open spec fn fold_digits(s: Seq<char>, i: int, acc: int, neg: bool) -> Result<
    int,
    ParseIntFailure,
>
    decreases s.len() - i,
{
    if i < 0 || i >= s.len() {
        Ok(acc)
    } else if !is_digit(s[i]) {
        Err(ParseIntFailure::InvalidDigit)
    } else {
        let a = if neg {
            acc * 10 - digit_val(s[i])
        } else {
            acc * 10 + digit_val(s[i])
        };
        if a > 0x7fff_ffff {
            Err(ParseIntFailure::TooLarge)
        } else if a < -0x8000_0000 {
            Err(ParseIntFailure::TooSmall)
        } else {
            fold_digits(s, i + 1, a, neg)
        }
    }
}

/// The signed 32-bit integer a text denotes: an optional sign followed by at
/// least one digit, with the value in range; otherwise the failure met first.
pub open spec fn parse_int_spec(s: Seq<char>) -> Result<int, ParseIntFailure> {
    if s.len() == 0 {
        Err(ParseIntFailure::Empty)
    } else if s[0] == '+' || s[0] == '-' {
        if s.len() == 1 {
            Err(ParseIntFailure::InvalidDigit)
        } else {
            fold_digits(s, 1, 0, s[0] == '-')
        }
    } else {
        fold_digits(s, 0, 0, false)
    }
}

/// The value of a parse result, seen as a mathematical integer.
pub open spec fn parse_result_model(r: Result<i32, ParseIntFailure>) -> Result<
    int,
    ParseIntFailure,
> {
    match r {
        Ok(v) => Ok(v as int),
        Err(f) => Err(f),
    }
}

/// Parses `s` as a signed 32-bit decimal integer, exactly as `parse_int_spec`
/// describes.
pub fn parse_int(s: &str) -> (r: Result<i32, ParseIntFailure>)
    ensures
        parse_result_model(r) == parse_int_spec(s@),
{
    let n = s.unicode_len();
    if n == 0 {
        return Err(ParseIntFailure::Empty);
    }
    let first = s.get_char(0);
    let neg = first == '-';
    let mut i: usize = if first == '-' || first == '+' {
        1
    } else {
        0
    };
    if i >= n {
        return Err(ParseIntFailure::InvalidDigit);
    }
    let ghost start = i as int;
    let mut acc: i32 = 0;
    while i < n
        invariant
            n == s@.len(),
            start <= i <= n,
            parse_int_spec(s@) == fold_digits(s@, start, 0, neg),
            fold_digits(s@, start, 0, neg) == fold_digits(s@, i as int, acc as int, neg),
            neg ==> acc <= 0,
            !neg ==> acc >= 0,
        decreases n - i,
    {
        let c = s.get_char(i);
        if c < '0' || c > '9' {
            return Err(ParseIntFailure::InvalidDigit);
        }
        let d = c as u32 - 48;
        let wide: i64 = if neg {
            acc as i64 * 10 - d as i64
        } else {
            acc as i64 * 10 + d as i64
        };
        if wide > 0x7fff_ffff {
            return Err(ParseIntFailure::TooLarge);
        }
        if wide < -0x8000_0000 {
            return Err(ParseIntFailure::TooSmall);
        }
        acc = wide as i32;
        i = i + 1;
    }
    Ok(acc)
}

/// Decimal digits of a nonnegative number, most significant first.
pub open spec fn dec_digits(n: int) -> Seq<char>
    decreases n,
{
    if n < 10 {
        seq![digit_char(n)]
    } else {
        dec_digits(n / 10) + seq![digit_char(n % 10)]
    }
}

/// The character for one decimal digit.
pub open spec fn digit_char(d: int) -> char {
    if d == 0 {
        '0'
    } else if d == 1 {
        '1'
    } else if d == 2 {
        '2'
    } else if d == 3 {
        '3'
    } else if d == 4 {
        '4'
    } else if d == 5 {
        '5'
    } else if d == 6 {
        '6'
    } else if d == 7 {
        '7'
    } else if d == 8 {
        '8'
    } else {
        '9'
    }
}

/// Decimal notation of an integer: a minus sign for a negative value, then
/// the digits of its magnitude.
pub open spec fn dec_int(v: int) -> Seq<char> {
    if v < 0 {
        seq!['-'] + dec_digits(-v)
    } else {
        dec_digits(v)
    }
}

fn digit_str(d: u32) -> (r: &'static str)
    requires
        d < 10,
    ensures
        r@ =~= seq![digit_char(d as int)],
{
    proof {
        reveal_strlit("0");
        reveal_strlit("1");
        reveal_strlit("2");
        reveal_strlit("3");
        reveal_strlit("4");
        reveal_strlit("5");
        reveal_strlit("6");
        reveal_strlit("7");
        reveal_strlit("8");
        reveal_strlit("9");
    }
    if d == 0 {
        "0"
    } else if d == 1 {
        "1"
    } else if d == 2 {
        "2"
    } else if d == 3 {
        "3"
    } else if d == 4 {
        "4"
    } else if d == 5 {
        "5"
    } else if d == 6 {
        "6"
    } else if d == 7 {
        "7"
    } else if d == 8 {
        "8"
    } else {
        "9"
    }
}

/// Decimal notation of a nonnegative number.
pub fn decimal_string(n: u32) -> (r: String)
    ensures
        r@ == dec_digits(n as int),
    decreases n,
{
    if n < 10 {
        String::from_str(digit_str(n))
    } else {
        decimal_string(n / 10).concat(digit_str(n % 10))
    }
}

/// Decimal notation of a signed number.
pub fn int_string(v: i32) -> (r: String)
    ensures
        r@ == dec_int(v as int),
{
    if v >= 0 {
        decimal_string(v as u32)
    } else {
        let wide: i64 = -(v as i64);
        let mag: u32 = wide as u32;
        let r = String::from_str("-").concat(decimal_string(mag).as_str());
        proof {
            reveal_strlit("-");
            assert(r@ =~= dec_int(v as int));
        }
        r
    }
}

} // verus!
