//! Character-exact text helpers shared by the supervisor and the worker:
//! bounded truncation for the transport limit, whitespace trimming,
//! case-insensitive comparison, and decimal formatting and parsing for
//! configuration values and identifiers.

use vstd::prelude::*;
use vstd::string::StrSliceExecFns;

verus! {

/// Relies on String::push: appends exactly the given character.
#[verifier::external_body]
pub(crate) fn push_char(s: &mut String, c: char)
    ensures
        final(s)@ == old(s)@.push(c),
{
    s.push(c)
}

/// Relies on SystemTime::now and its distance from the Unix epoch, taken in
/// whole seconds; a clock before the epoch yields zero. The result depends
/// on the wall clock, so nothing more than its sign is promised.
#[verifier::external_body]
pub fn current_unix_timestamp() -> (r: i64)
    ensures
        r >= 0,
{
    std::time::SystemTime::now()
        .duration_since(std::time::UNIX_EPOCH)
        .map(|d| d.as_secs() as i64)
        .unwrap_or(0)
}

/// Keep at most the first `max_chars` characters of `input`.
pub fn truncate_for_telegram(input: &str, max_chars: usize) -> (r: String)
    ensures
        r@ == input@.take(spec_min_usize(max_chars as int, input@.len() as int)),
{
    let len = input.unicode_len();
    let end = if max_chars < len {
        max_chars
    } else {
        len
    };
    let out = input.substring_char(0, end).to_owned();
    assert(out@ =~= input@.take(end as int));
    out
}

pub open spec fn spec_min_usize(a: int, b: int) -> int {
    if a < b {
        a
    } else {
        b
    }
}

/// Character-for-character string equality.
pub fn str_eq(a: &str, b: &str) -> (r: bool)
    ensures
        r <==> a@ == b@,
{
    let a_len = a.unicode_len();
    let b_len = b.unicode_len();
    if a_len != b_len {
        return false;
    }
    let mut i: usize = 0;
    while i < a_len
        invariant
            a_len == a@.len(),
            b_len == b@.len(),
            a_len == b_len,
            i <= a_len,
            forall|j: int| 0 <= j < i ==> a@[j] == b@[j],
        decreases a_len - i,
    {
        if a.get_char(i) != b.get_char(i) {
            return false;
        }
        i += 1;
    }
    assert(a@ =~= b@);
    true
}

/// ASCII upper-case letters folded to lower case, every other character as
/// its own code point.
pub open spec fn spec_lower_code(c: char) -> u32 {
    if 65 <= c as u32 <= 90 {
        (c as u32 + 32) as u32
    } else {
        c as u32
    }
}

pub open spec fn spec_eq_ignore_ascii_case(a: Seq<char>, b: Seq<char>) -> bool {
    &&& a.len() == b.len()
    &&& forall|i: int| 0 <= i < a.len() ==> spec_lower_code(a[i]) == spec_lower_code(b[i])
}

/// Equality up to ASCII case, as the flag parsing of the configuration uses
/// it for values such as `true` and `TRUE`.
pub fn eq_ignore_ascii_case_str(a: &str, b: &str) -> (r: bool)
    ensures
        r == spec_eq_ignore_ascii_case(a@, b@),
{
    let a_len = a.unicode_len();
    let b_len = b.unicode_len();
    if a_len != b_len {
        return false;
    }
    let mut i: usize = 0;
    while i < a_len
        invariant
            a_len == a@.len(),
            b_len == b@.len(),
            a_len == b_len,
            i <= a_len,
            forall|j: int| 0 <= j < i ==> spec_lower_code(a@[j]) == spec_lower_code(b@[j]),
        decreases a_len - i,
    {
        let ca = a.get_char(i) as u32;
        let cb = b.get_char(i) as u32;
        let la = if 65 <= ca && ca <= 90 {
            ca + 32
        } else {
            ca
        };
        let lb = if 65 <= cb && cb <= 90 {
            cb + 32
        } else {
            cb
        };
        if la != lb {
            return false;
        }
        i += 1;
    }
    true
}

/// The Unicode white-space code points, as `char::is_whitespace` and so
/// `str::trim` see them.
pub open spec fn spec_is_whitespace(c: char) -> bool {
    ||| c as u32 == 9
    ||| c as u32 == 10
    ||| c as u32 == 11
    ||| c as u32 == 12
    ||| c as u32 == 13
    ||| c as u32 == 32
    ||| c as u32 == 0x85
    ||| c as u32 == 0xA0
    ||| c as u32 == 0x1680
    ||| (0x2000 <= c as u32 && c as u32 <= 0x200A)
    ||| c as u32 == 0x2028
    ||| c as u32 == 0x2029
    ||| c as u32 == 0x202F
    ||| c as u32 == 0x205F
    ||| c as u32 == 0x3000
}

pub fn is_whitespace_char(c: char) -> (r: bool)
    ensures
        r == spec_is_whitespace(c),
{
    let u = c as u32;
    u == 9 || u == 10 || u == 11 || u == 12 || u == 13 || u == 32 || u == 0x85 || u == 0xA0 || u
        == 0x1680 || (0x2000 <= u && u <= 0x200A) || u == 0x2028 || u == 0x2029 || u == 0x202F || u
        == 0x205F || u == 0x3000
}

pub open spec fn spec_trim_front(s: Seq<char>) -> Seq<char>
    decreases s.len(),
{
    if s.len() > 0 && spec_is_whitespace(s[0]) {
        spec_trim_front(s.drop_first())
    } else {
        s
    }
}

pub open spec fn spec_trim_back(s: Seq<char>) -> Seq<char>
    decreases s.len(),
{
    if s.len() > 0 && spec_is_whitespace(s.last()) {
        spec_trim_back(s.drop_last())
    } else {
        s
    }
}

/// The text with leading and trailing white space removed, as `str::trim`
/// leaves it.
pub open spec fn spec_trim(s: Seq<char>) -> Seq<char> {
    spec_trim_back(spec_trim_front(s))
}

proof fn lemma_trim_front_skip(s: Seq<char>, k: int)
    requires
        0 <= k <= s.len(),
        forall|j: int| 0 <= j < k ==> spec_is_whitespace(#[trigger] s[j]),
        k == s.len() || !spec_is_whitespace(s[k]),
    ensures
        spec_trim_front(s) == s.skip(k),
    decreases k,
{
    if k == 0 {
        assert(s.skip(0) =~= s);
    } else {
        let t = s.drop_first();
        assert(forall|j: int| 0 <= j < k - 1 ==> spec_is_whitespace(#[trigger] t[j]));
        lemma_trim_front_skip(t, k - 1);
        assert(t.skip(k - 1) =~= s.skip(k));
    }
}

proof fn lemma_trim_back_take(s: Seq<char>, k: int)
    requires
        0 <= k <= s.len(),
        forall|j: int| k <= j < s.len() ==> spec_is_whitespace(#[trigger] s[j]),
        k == 0 || !spec_is_whitespace(s[k - 1]),
    ensures
        spec_trim_back(s) == s.take(k),
    decreases s.len() - k,
{
    if k == s.len() {
        assert(s.take(k) =~= s);
        if s.len() > 0 {
            assert(!spec_is_whitespace(s.last()));
        }
    } else {
        let t = s.drop_last();
        assert(spec_is_whitespace(s.last()));
        assert(forall|j: int| k <= j < t.len() ==> spec_is_whitespace(#[trigger] t[j]));
        lemma_trim_back_take(t, k);
        assert(t.take(k) =~= s.take(k));
    }
}

/// `str::trim`, character for character.
pub fn trim_str(s: &str) -> (r: String)
    ensures
        r@ == spec_trim(s@),
{
    let len = s.unicode_len();
    let mut start: usize = 0;
    while start < len && is_whitespace_char(s.get_char(start))
        invariant
            len == s@.len(),
            start <= len,
            forall|j: int| 0 <= j < start ==> spec_is_whitespace(#[trigger] s@[j]),
        decreases len - start,
    {
        start += 1;
    }
    let mut end: usize = len;
    while end > start && is_whitespace_char(s.get_char(end - 1))
        invariant
            len == s@.len(),
            start <= end <= len,
            forall|j: int| end <= j < len ==> spec_is_whitespace(#[trigger] s@[j]),
        decreases end,
    {
        end -= 1;
    }
    let out = s.substring_char(start, end).to_owned();
    proof {
        lemma_trim_front_skip(s@, start as int);
        let mid = s@.skip(start as int);
        assert(forall|j: int|
            end - start <= j < mid.len() ==> spec_is_whitespace(#[trigger] mid[j]));
        if end > start {
            assert(mid[end - start - 1] == s@[end - 1]);
        }
        lemma_trim_back_take(mid, end - start);
        assert(mid.take(end - start) =~= s@.subrange(start as int, end as int));
    }
    out
}

/// Every line break replaced by a space, as history lines are flattened
/// for the prompt.
pub open spec fn spec_replace_newlines(s: Seq<char>) -> Seq<char> {
    s.map_values(
        |c: char|
            if c == '\n' {
                ' '
            } else {
                c
            },
    )
}

pub fn replace_newlines(s: &str) -> (r: String)
    ensures
        r@ == spec_replace_newlines(s@),
{
    let len = s.unicode_len();
    let mut out = String::new();
    let mut i: usize = 0;
    while i < len
        invariant
            len == s@.len(),
            i <= len,
            out@ == spec_replace_newlines(s@.take(i as int)),
        decreases len - i,
    {
        let c = s.get_char(i);
        if c == '\n' {
            push_char(&mut out, ' ');
        } else {
            push_char(&mut out, c);
        }
        proof {
            assert(spec_replace_newlines(s@.take(i + 1)) =~= spec_replace_newlines(
                s@.take(i as int),
            ).push(
                if s@[i as int] == '\n' {
                    ' '
                } else {
                    s@[i as int]
                },
            ));
        }
        i += 1;
    }
    proof {
        assert(s@.take(len as int) =~= s@);
    }
    out
}

/// Character of a single decimal digit.
pub open spec fn spec_digit_char(d: int) -> char {
    if d == 0 {
        '0'
    } else if d == 1 {
        '1'
    } else if d == 2 {
        '2'
    } else if d == 3 {
        '3'
    } else if d == 4 {
        '4'
    } else if d == 5 {
        '5'
    } else if d == 6 {
        '6'
    } else if d == 7 {
        '7'
    } else if d == 8 {
        '8'
    } else {
        '9'
    }
}

/// Decimal representation of a natural number, most significant digit
/// first, with no leading zeros (a single `0` for zero).
pub open spec fn spec_decimal(n: nat) -> Seq<char>
    decreases n,
{
    if n < 10 {
        seq![spec_digit_char(n as int)]
    } else {
        spec_decimal(n / 10).push(spec_digit_char((n % 10) as int))
    }
}

fn digit_char(d: u64) -> (c: char)
    requires
        d < 10,
    ensures
        c == spec_digit_char(d as int),
{
    if d == 0 {
        '0'
    } else if d == 1 {
        '1'
    } else if d == 2 {
        '2'
    } else if d == 3 {
        '3'
    } else if d == 4 {
        '4'
    } else if d == 5 {
        '5'
    } else if d == 6 {
        '6'
    } else if d == 7 {
        '7'
    } else if d == 8 {
        '8'
    } else {
        '9'
    }
}

/// Decimal rendering of an unsigned number.
pub fn format_u64(n: u64) -> (s: String)
    ensures
        s@ == spec_decimal(n as nat),
    decreases n,
{
    if n < 10 {
        let mut s = String::new();
        push_char(&mut s, digit_char(n));
        assert(s@ =~= spec_decimal(n as nat));
        s
    } else {
        let mut s = format_u64(n / 10);
        push_char(&mut s, digit_char(n % 10));
        s
    }
}

/// Decimal rendering padded on the left with zeros to at least `width`
/// characters, as the fixed-width worker instance identifiers use it.
pub open spec fn spec_zero_padded(n: nat, width: nat) -> Seq<char> {
    if spec_decimal(n).len() >= width {
        spec_decimal(n)
    } else {
        Seq::new((width - spec_decimal(n).len()) as nat, |i: int| '0') + spec_decimal(n)
    }
}

pub fn format_u64_padded(n: u64, width: usize) -> (s: String)
    ensures
        s@ == spec_zero_padded(n as nat, width as nat),
{
    let digits = format_u64(n);
    let digit_count = digits.as_str().unicode_len();
    if digit_count >= width {
        assert(digits@ =~= spec_zero_padded(n as nat, width as nat));
        return digits;
    }
    let mut s = String::new();
    let mut i: usize = 0;
    while i < width - digit_count
        invariant
            digit_count == spec_decimal(n as nat).len(),
            digit_count < width,
            i <= width - digit_count,
            s@ =~= Seq::new(i as nat, |j: int| '0'),
        decreases width - digit_count - i,
    {
        push_char(&mut s, '0');
        assert(s@ =~= Seq::new((i + 1) as nat, |j: int| '0'));
        i += 1;
    }
    let out = s.concat(digits.as_str());
    assert(out@ =~= spec_zero_padded(n as nat, width as nat));
    out
}

pub open spec fn spec_is_digit(c: char) -> bool {
    48 <= c as u32 <= 57
}

pub open spec fn spec_digit_of(c: char) -> nat {
    (c as u32 - 48) as nat
}

pub open spec fn spec_all_digits(s: Seq<char>) -> bool {
    &&& s.len() > 0
    &&& forall|i: int| 0 <= i < s.len() ==> spec_is_digit(#[trigger] s[i])
}

/// Value of a sequence of decimal digit characters, read left to right.
pub open spec fn spec_digits_value(s: Seq<char>) -> nat
    decreases s.len(),
{
    if s.len() == 0 {
        0
    } else {
        spec_digits_value(s.drop_last()) * 10 + spec_digit_of(s.last())
    }
}

/// The digit characters of an unsigned decimal literal: everything after
/// an optional leading plus sign.
pub open spec fn spec_unsigned_body(s: Seq<char>) -> Seq<char> {
    if s.len() > 0 && s[0] == '+' {
        s.drop_first()
    } else {
        s
    }
}

/// Whether `str::parse::<u64>` accepts the text.
pub open spec fn spec_parses_as_u64(s: Seq<char>) -> bool {
    &&& spec_all_digits(spec_unsigned_body(s))
    &&& spec_digits_value(spec_unsigned_body(s)) <= u64::MAX
}

/// A longer run of digits never has a smaller value.
proof fn lemma_digits_value_prefix(s: Seq<char>, i: int)
    requires
        0 <= i <= s.len(),
    ensures
        spec_digits_value(s.take(i)) <= spec_digits_value(s),
    decreases s.len() - i,
{
    if i < s.len() {
        lemma_digits_value_prefix(s, i + 1);
        assert(s.take(i + 1).drop_last() =~= s.take(i));
        assert(spec_digits_value(s.take(i + 1)) == spec_digits_value(s.take(i)) * 10
            + spec_digit_of(s.take(i + 1).last()));
        assert(spec_digits_value(s.take(i)) * 10 >= spec_digits_value(s.take(i))) by (nonlinear_arith);
    } else {
        assert(s.take(i) =~= s);
    }
}

/// Parse an unsigned 64-bit decimal, exactly as `str::parse::<u64>` does:
/// an optional leading plus, then only digits, and a value in range.
pub fn parse_u64(s: &str) -> (r: Option<u64>)
    ensures
        match r {
            Some(v) => spec_parses_as_u64(s@) && v == spec_digits_value(spec_unsigned_body(s@)),
            None => !spec_parses_as_u64(s@),
        },
{
    let len = s.unicode_len();
    let start: usize = if len > 0 && s.get_char(0) == '+' {
        1
    } else {
        0
    };
    let ghost body = spec_unsigned_body(s@);
    assert(body =~= s@.skip(start as int));
    if len == start {
        return None;
    }
    let mut acc: u64 = 0;
    let mut i: usize = start;
    while i < len
        invariant
            len == s@.len(),
            start <= i <= len,
            body == s@.skip(start as int),
            body == spec_unsigned_body(s@),
            forall|j: int| start <= j < i ==> spec_is_digit(#[trigger] s@[j]),
            acc == spec_digits_value(body.take(i - start)),
        decreases len - i,
    {
        let c = s.get_char(i);
        let code = c as u32;
        if code < 48 || code > 57 {
            assert(!spec_is_digit(body[i - start]));
            return None;
        }
        let d = (code - 48) as u64;
        if acc > (u64::MAX - d) / 10 {
            proof {
                let t = body.take(i - start + 1);
                assert(t.drop_last() =~= body.take(i - start));
                assert(t.last() == s@[i as int]);
                assert(acc * 10 + d > u64::MAX) by (nonlinear_arith)
                    requires
                        acc > (u64::MAX - d) / 10,
                        d <= 9,
                ;
                lemma_digits_value_prefix(body, i - start + 1);
            }
            return None;
        }
        proof {
            assert(acc * 10 + d <= u64::MAX) by (nonlinear_arith)
                requires
                    acc <= (u64::MAX - d) / 10,
                    d <= 9,
            ;
            let t = body.take(i - start + 1);
            assert(t.drop_last() =~= body.take(i - start));
            assert(t.last() == s@[i as int]);
        }
        acc = acc * 10 + d;
        i += 1;
    }
    assert(body.take(i - start) =~= body);
    Some(acc)
}

/// Whether `str::parse::<usize>` accepts the text.
pub open spec fn spec_parses_as_usize(s: Seq<char>) -> bool {
    &&& spec_all_digits(spec_unsigned_body(s))
    &&& spec_digits_value(spec_unsigned_body(s)) <= usize::MAX
}

/// Parse an unsigned machine-word decimal, exactly as `str::parse::<usize>`
/// does.
pub fn parse_usize(s: &str) -> (r: Option<usize>)
    ensures
        match r {
            Some(v) => spec_parses_as_usize(s@) && v == spec_digits_value(spec_unsigned_body(s@)),
            None => !spec_parses_as_usize(s@),
        },
{
    match parse_u64(s) {
        Some(v) => {
            if v <= usize::MAX as u64 {
                Some(v as usize)
            } else {
                None
            }
        },
        None => None,
    }
}

/// The magnitude digits and sign of a signed decimal literal.
pub open spec fn spec_signed_negative(s: Seq<char>) -> bool {
    s.len() > 0 && s[0] == '-'
}

pub open spec fn spec_signed_body(s: Seq<char>) -> Seq<char> {
    if s.len() > 0 && (s[0] == '+' || s[0] == '-') {
        s.drop_first()
    } else {
        s
    }
}

/// Whether `str::parse::<i64>` accepts the text.
pub open spec fn spec_parses_as_i64(s: Seq<char>) -> bool {
    &&& spec_all_digits(spec_signed_body(s))
    &&& if spec_signed_negative(s) {
        spec_digits_value(spec_signed_body(s)) <= 0x8000_0000_0000_0000
    } else {
        spec_digits_value(spec_signed_body(s)) <= i64::MAX
    }
}

pub open spec fn spec_i64_value(s: Seq<char>) -> int {
    if spec_signed_negative(s) {
        -(spec_digits_value(spec_signed_body(s)) as int)
    } else {
        spec_digits_value(spec_signed_body(s)) as int
    }
}

/// Parse a signed 64-bit decimal, exactly as `str::parse::<i64>` does: an
/// optional sign, then only digits, and a value in range.
pub fn parse_i64(s: &str) -> (r: Option<i64>)
    ensures
        match r {
            Some(v) => spec_parses_as_i64(s@) && v as int == spec_i64_value(s@),
            None => !spec_parses_as_i64(s@),
        },
{
    let len = s.unicode_len();
    let negative = len > 0 && s.get_char(0) == '-';
    let has_sign = len > 0 && (s.get_char(0) == '+' || s.get_char(0) == '-');
    let start: usize = if has_sign {
        1
    } else {
        0
    };
    let ghost body = spec_signed_body(s@);
    assert(body =~= s@.skip(start as int));
    if len == start {
        return None;
    }
    let limit: u64 = if negative {
        0x8000_0000_0000_0000
    } else {
        0x7fff_ffff_ffff_ffff
    };
    let mut acc: u64 = 0;
    let mut i: usize = start;
    while i < len
        invariant
            len == s@.len(),
            start <= i <= len,
            body == s@.skip(start as int),
            body == spec_signed_body(s@),
            negative == spec_signed_negative(s@),
            limit == if negative {
                0x8000_0000_0000_0000u64
            } else {
                0x7fff_ffff_ffff_ffffu64
            },
            forall|j: int| start <= j < i ==> spec_is_digit(#[trigger] s@[j]),
            acc == spec_digits_value(body.take(i - start)),
            acc <= limit,
        decreases len - i,
    {
        let c = s.get_char(i);
        let code = c as u32;
        if code < 48 || code > 57 {
            assert(!spec_is_digit(body[i - start]));
            return None;
        }
        let d = (code - 48) as u64;
        if acc > (limit - d) / 10 {
            proof {
                let t = body.take(i - start + 1);
                assert(t.drop_last() =~= body.take(i - start));
                assert(t.last() == s@[i as int]);
                assert(acc * 10 + d > limit) by (nonlinear_arith)
                    requires
                        acc > (limit - d) / 10,
                        d <= 9,
                        limit >= 10,
                ;
                lemma_digits_value_prefix(body, i - start + 1);
            }
            return None;
        }
        proof {
            assert(acc * 10 + d <= limit) by (nonlinear_arith)
                requires
                    acc <= (limit - d) / 10,
                    d <= 9,
            ;
            let t = body.take(i - start + 1);
            assert(t.drop_last() =~= body.take(i - start));
            assert(t.last() == s@[i as int]);
        }
        acc = acc * 10 + d;
        i += 1;
    }
    assert(body.take(i - start) =~= body);
    if negative {
        if acc == 0x8000_0000_0000_0000 {
            Some(i64::MIN)
        } else {
            Some(-(acc as i64))
        }
    } else {
        Some(acc as i64)
    }
}

} // verus!
