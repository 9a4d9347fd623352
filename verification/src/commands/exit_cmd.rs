//! The `exit` builtin and the decimal reading of its status code.
use vstd::prelude::*;

use crate::commands::{InvalidArgsError, InvalidArgsErrorView};
use crate::execution::ExecutionResult;
use crate::text;

verus! {

/// The `exit` builtin, carrying the status code it was given.
#[derive(Debug, PartialEq, Eq, Structural)]
pub struct ExitCmd {
    code: i32,
}

impl View for ExitCmd {
    type V = i32;

    closed spec fn view(&self) -> i32 {
        self.code
    }
}

pub open spec fn is_digit(c: char) -> bool {
    '0' <= c && c <= '9'
}

pub open spec fn all_digits(s: Seq<char>) -> bool {
    forall|i: int| 0 <= i < s.len() ==> #[trigger] is_digit(s[i])
}

/// The number that a string of decimal digits denotes.
pub open spec fn decimal_value(s: Seq<char>) -> int
    decreases s.len(),
{
    if s.len() == 0 {
        0
    } else {
        decimal_value(s.drop_last()) * 10 + (s.last() as int - '0' as int)
    }
}

/// What `str::parse::<i32>` accepts: an optional `+` or `-`, then one or more
/// ASCII digits, denoting a number in the range of `i32`.
pub open spec fn spec_parse_i32(s: Seq<char>) -> Option<i32> {
    let signed = s.len() > 0 && (s[0] == '-' || s[0] == '+');
    let digits = if signed {
        s.drop_first()
    } else {
        s
    };
    let magnitude = decimal_value(digits);
    let value = if s.len() > 0 && s[0] == '-' {
        -magnitude
    } else {
        magnitude
    };
    if digits.len() == 0 || !all_digits(digits) {
        None
    } else if i32::MIN <= value && value <= i32::MAX {
        Some(value as i32)
    } else {
        None
    }
}

/// What the arguments of `exit` read as: no argument is status 0, one
/// argument must be a decimal `i32`, more are too many.
pub open spec fn spec_exit_from(args: Seq<Seq<char>>) -> Result<i32, InvalidArgsErrorView> {
    if args.len() == 0 {
        Ok(0)
    } else if args.len() == 1 {
        match spec_parse_i32(args[0]) {
            Some(code) => Ok(code),
            None => Err(InvalidArgsErrorView::InvalidFormat { value: args[0] }),
        }
    } else {
        Err(InvalidArgsErrorView::TooManyArgs)
    }
}

pub open spec fn exit_result_view(r: Result<ExitCmd, InvalidArgsError>) -> Result<
    i32,
    InvalidArgsErrorView,
> {
    match r {
        Ok(cmd) => Ok(cmd@),
        Err(e) => Err(e@),
    }
}

proof fn lemma_decimal_value_nonneg(s: Seq<char>)
    requires
        all_digits(s),
    ensures
        decimal_value(s) >= 0,
    decreases s.len(),
{
    if s.len() > 0 {
        let p = s.drop_last();
        assert(all_digits(p)) by {
            assert forall|i: int| 0 <= i < p.len() implies #[trigger] is_digit(p[i]) by {
                assert(p[i] == s[i]);
            }
        }
        assert(is_digit(s[s.len() - 1]));
        lemma_decimal_value_nonneg(p);
    }
}

/// Appending digits never makes a decimal number smaller.
proof fn lemma_decimal_value_prefix(s: Seq<char>, k: int)
    requires
        all_digits(s),
        0 <= k <= s.len(),
    ensures
        decimal_value(s.take(k)) <= decimal_value(s),
    decreases s.len(),
{
    if k < s.len() {
        let p = s.drop_last();
        assert(all_digits(p)) by {
            assert forall|i: int| 0 <= i < p.len() implies #[trigger] is_digit(p[i]) by {
                assert(p[i] == s[i]);
            }
        }
        assert(is_digit(s[s.len() - 1]));
        lemma_decimal_value_prefix(p, k);
        assert(p.take(k) =~= s.take(k));
        lemma_decimal_value_nonneg(p);
    } else {
        assert(s.take(k) =~= s);
    }
}

/// Reads a decimal `i32` as `str::parse::<i32>` does.
pub fn parse_i32(s: &str) -> (res: Option<i32>)
    ensures
        res == spec_parse_i32(s@),
{
    let n = s.unicode_len();
    if n == 0 {
        return None;
    }
    let first = s.get_char(0);
    let negative = first == '-';
    let start: usize = if first == '-' || first == '+' {
        1
    } else {
        0
    };
    let ghost digits = s@.subrange(start as int, n as int);
    assert(start == 1 ==> digits =~= s@.drop_first());
    assert(start == 0 ==> digits =~= s@);
    if start == n {
        return None;
    }
    let mut acc: i64 = 0;
    let mut i: usize = start;
    while i < n
        invariant
            n == s@.len(),
            n > 0,
            start <= i <= n,
            start == (if s@[0] == '-' || s@[0] == '+' { 1int } else { 0int }),
            start == 1 ==> digits == s@.drop_first(),
            start == 0 ==> digits == s@,
            digits == s@.subrange(start as int, n as int),
            all_digits(digits.take(i - start)),
            acc == decimal_value(digits.take(i - start)),
            0 <= acc <= 2147483648,
        decreases n - i,
    {
        let c = s.get_char(i);
        assert(digits[i - start] == c);
        if !('0' <= c && c <= '9') {
            assert(!is_digit(digits[i - start]));
            return None;
        }
        let d = (c as u32 - '0' as u32) as i64;
        let ghost before = digits.take(i - start);
        let ghost after = digits.take(i - start + 1);
        assert(after.drop_last() =~= before);
        assert(after.last() == c);
        acc = acc * 10 + d;
        assert(all_digits(after)) by {
            assert forall|j: int| 0 <= j < after.len() implies #[trigger] is_digit(after[j]) by {
                if j < after.len() - 1 {
                    assert(after[j] == before[j]);
                }
            }
        }
        if acc > 2147483648 {
            proof {
                if all_digits(digits) {
                    lemma_decimal_value_prefix(digits, i - start + 1);
                }
            }
            return None;
        }
        i = i + 1;
    }
    assert(digits.take(n - start) =~= digits);
    if negative {
        Some((-acc) as i32)
    } else if acc <= 2147483647 {
        Some(acc as i32)
    } else {
        None
    }
}

impl ExitCmd {
    pub fn new(code: i32) -> (res: Self)
        ensures
            res@ == code,
    {
        Self { code }
    }

    /// Reads the arguments of `exit`.
    pub fn try_from_slice(value: &[String]) -> (res: Result<Self, InvalidArgsError>)
        ensures
            exit_result_view(res) == spec_exit_from(text::views(value@)),
    {
        if value.len() == 0 {
            Ok(Self::new(0))
        } else if value.len() == 1 {
            match parse_i32(value[0].as_str()) {
                Some(code) => Ok(Self::new(code)),
                None => Err(InvalidArgsError::InvalidFormat { value: value[0].clone() }),
            }
        } else {
            Err(InvalidArgsError::TooManyArgs)
        }
    }

    /// Reads the arguments of `exit`.
    pub fn try_from(value: Vec<String>) -> (res: Result<Self, InvalidArgsError>)
        ensures
            exit_result_view(res) == spec_exit_from(text::views(value@)),
    {
        Self::try_from_slice(value.as_slice())
    }

    /// `exit` ends the shell; it writes nothing.
    pub fn execute(&self, output: &mut String, error: &mut String) -> (res: ExecutionResult)
        ensures
            res == ExecutionResult::Exit,
            final(output)@ == old(output)@,
            final(error)@ == old(error)@,
    {
        ExecutionResult::Exit
    }
}

/// A single ASCII digit reads as its value.
pub proof fn lemma_parse_i32_digit(c: char)
    requires
        '0' <= c <= '9',
    ensures
        spec_parse_i32(seq![c]) == Some((c as int - '0' as int) as i32),
{
    let s = seq![c];
    assert(s.drop_last() =~= Seq::<char>::empty());
    assert(is_digit(s[0]));
    assert(decimal_value(s.drop_last()) == 0);
    assert(decimal_value(s) == c as int - '0' as int);
}

/// Appending an ASCII digit to an unsigned or `+`-signed number multiplies
/// it by ten and adds the digit, as long as that fits in `i32`; past
/// `i32::MAX` the text is refused.
pub proof fn lemma_parse_i32_append_digit(s: Seq<char>, c: char, v: i32)
    requires
        spec_parse_i32(s) == Some(v),
        s[0] != '-',
        '0' <= c <= '9',
    ensures
        v * 10 + (c as int - '0' as int) <= i32::MAX ==> spec_parse_i32(s.push(c)) == Some(
            (v * 10 + (c as int - '0' as int)) as i32,
        ),
        v * 10 + (c as int - '0' as int) > i32::MAX ==> spec_parse_i32(s.push(c)) is None,
{
    let t = s.push(c);
    assert(t[0] == s[0]);
    let signed = s[0] == '+';
    let ds = if signed {
        s.drop_first()
    } else {
        s
    };
    let dt = if signed {
        t.drop_first()
    } else {
        t
    };
    assert(dt =~= ds.push(c));
    assert(dt.drop_last() =~= ds);
    assert(all_digits(dt)) by {
        assert forall|j: int| 0 <= j < dt.len() implies #[trigger] is_digit(dt[j]) by {
            if j < ds.len() {
                assert(dt[j] == ds[j]);
            }
        }
    }
    assert(all_digits(ds));
    lemma_decimal_value_nonneg(ds);
    assert(v == decimal_value(ds));
    assert(decimal_value(dt) == decimal_value(ds) * 10 + (c as int - '0' as int));
}

/// A leading `-` before a number that starts with a digit negates it.
pub proof fn lemma_parse_i32_negate(s: Seq<char>, v: i32)
    requires
        s.len() > 0,
        '0' <= s[0] <= '9',
        spec_parse_i32(s) == Some(v),
    ensures
        spec_parse_i32(seq!['-'] + s) == Some((-v) as i32),
{
    let t = seq!['-'] + s;
    assert(t.drop_first() =~= s);
    lemma_decimal_value_nonneg(s);
}

/// A leading `+` before a number that starts with a digit changes nothing.
pub proof fn lemma_parse_i32_plus(s: Seq<char>)
    requires
        s.len() > 0,
        '0' <= s[0] <= '9',
    ensures
        spec_parse_i32(seq!['+'] + s) == spec_parse_i32(s),
{
    let t = seq!['+'] + s;
    assert(t.drop_first() =~= s);
}

/// Any character other than an ASCII digit, except a sign in front, makes
/// the text unreadable; so does a text with no digits at all.
pub proof fn lemma_parse_i32_rejects(s: Seq<char>, i: int)
    requires
        0 <= i < s.len(),
        !('0' <= s[i] <= '9'),
        !(i == 0 && (s[0] == '-' || s[0] == '+')),
    ensures
        spec_parse_i32(s) is None,
{
    if s[0] == '-' || s[0] == '+' {
        assert(s.drop_first()[i - 1] == s[i]);
        assert(!is_digit(s.drop_first()[i - 1]));
    } else {
        assert(!is_digit(s[i]));
    }
}

/// The empty text and a bare sign are unreadable.
pub proof fn lemma_parse_i32_no_digits()
    ensures
        spec_parse_i32(Seq::<char>::empty()) is None,
        spec_parse_i32(seq!['-']) is None,
        spec_parse_i32(seq!['+']) is None,
{
    assert(seq!['-'].drop_first().len() == 0);
    assert(seq!['+'].drop_first().len() == 0);
}

/// `exit` with one argument stops with the status that argument reads as.
pub proof fn lemma_exit_status(arg: Seq<char>, v: i32)
    requires
        spec_parse_i32(arg) == Some(v),
    ensures
        spec_exit_from(seq![arg]) == Ok::<i32, InvalidArgsErrorView>(v),
{
}

} // verus!
