//! Character-level helpers on which the parsers of this library are built.
use vstd::prelude::*;
use vstd::std_specs::iter::IteratorSpec;

verus! {

/// Index of the last occurrence of `c` in `s`, or `-1` where `s` holds none.
pub open spec fn last_index_of(s: Seq<char>, c: char) -> int
    decreases s.len(),
{
    if s.len() == 0 {
        -1
    } else if s.last() == c {
        s.len() - 1
    } else {
        last_index_of(s.drop_last(), c)
    }
}

/// Index of the first occurrence of `c` in `s`, or `s.len()` where `s`
/// holds none.
pub open spec fn first_index_of(s: Seq<char>, c: char) -> int
    decreases s.len(),
{
    if s.len() == 0 {
        0
    } else if s.first() == c {
        0
    } else {
        1 + first_index_of(s.drop_first(), c)
    }
}

/// How many times `c` occurs in `s`.
pub open spec fn occurrences(s: Seq<char>, c: char) -> nat
    decreases s.len(),
{
    if s.len() == 0 {
        0
    } else {
        occurrences(s.drop_last(), c) + if s.last() == c {
            1nat
        } else {
            0nat
        }
    }
}

/// `c` is one of the ten decimal digits.
pub open spec fn is_digit(c: char) -> bool {
    '0' <= c <= '9'
}

/// The number that the digit `c` stands for.
pub open spec fn digit_value(c: char) -> nat {
    (c as int - '0' as int) as nat
}

/// `s` is a run of one or more decimal digits.
pub open spec fn is_decimal(s: Seq<char>) -> bool {
    &&& s.len() > 0
    &&& forall|i: int| 0 <= i < s.len() ==> is_digit(#[trigger] s[i])
}

/// The number that the digits of `s` write in base ten.
pub open spec fn decimal_value(s: Seq<char>) -> nat
    decreases s.len(),
{
    if s.len() == 0 {
        0
    } else {
        decimal_value(s.drop_last()) * 10 + digit_value(s.last())
    }
}

/// What `last_index_of` finds is an occurrence, and nothing occurs after it.
pub proof fn lemma_last_index_of(s: Seq<char>, c: char)
    ensures
        -1 <= last_index_of(s, c) < s.len(),
        last_index_of(s, c) >= 0 ==> s[last_index_of(s, c)] == c,
        forall|j: int| last_index_of(s, c) < j < s.len() ==> s[j] != c,
    decreases s.len(),
{
    if s.len() > 0 && s.last() != c {
        lemma_last_index_of(s.drop_last(), c);
        assert forall|j: int| last_index_of(s, c) < j < s.len() implies s[j] != c by {
            if j < s.len() - 1 {
                assert(s.drop_last()[j] == s[j]);
            }
        }
    }
}

/// An occurrence of `c` with no later occurrence is the one that
/// `last_index_of` finds.
pub proof fn lemma_last_index_is(s: Seq<char>, c: char, i: int)
    requires
        0 <= i < s.len(),
        s[i] == c,
        forall|j: int| i < j < s.len() ==> s[j] != c,
    ensures
        last_index_of(s, c) == i,
    decreases s.len(),
{
    if s.last() != c {
        assert(i < s.len() - 1);
        assert(s.drop_last()[i] == s[i]);
        assert forall|j: int| i < j < s.drop_last().len() implies s.drop_last()[j] != c by {
            assert(s.drop_last()[j] == s[j]);
        }
        lemma_last_index_is(s.drop_last(), c, i);
    }
}

/// An index before which `c` does not occur, and which holds `c` or is the
/// end of `s`, is the one that `first_index_of` finds.
pub proof fn lemma_first_index_is(s: Seq<char>, c: char, i: int)
    requires
        0 <= i <= s.len(),
        i < s.len() ==> s[i] == c,
        forall|j: int| 0 <= j < i ==> s[j] != c,
    ensures
        first_index_of(s, c) == i,
    decreases s.len(),
{
    if s.len() > 0 && i > 0 {
        assert(s[0] != c);
        assert forall|j: int| 0 <= j < i - 1 implies s.drop_first()[j] != c by {
            assert(s.drop_first()[j] == s[j + 1]);
        }
        if i < s.len() {
            assert(s.drop_first()[i - 1] == s[i]);
        }
        lemma_first_index_is(s.drop_first(), c, i - 1);
    }
}

/// The occurrences in a text of two parts are those in the parts.
pub proof fn lemma_occurrences_concat(a: Seq<char>, b: Seq<char>, c: char)
    ensures
        occurrences(a + b, c) == occurrences(a, c) + occurrences(b, c),
    decreases b.len(),
{
    if b.len() == 0 {
        assert(a + b =~= a);
    } else {
        lemma_occurrences_concat(a, b.drop_last(), c);
        assert((a + b).drop_last() =~= a + b.drop_last());
        assert((a + b).last() == b.last());
    }
}

/// A text with all its `c` at the index `p` holds one `c` at most.
pub proof fn lemma_occurrences_single(s: Seq<char>, c: char, p: int)
    requires
        forall|i: int| 0 <= i < s.len() && s[i] == c ==> i == p,
    ensures
        occurrences(s, c) <= 1,
        !s.contains(c) ==> occurrences(s, c) == 0,
    decreases s.len(),
{
    if s.len() > 0 {
        let rest = s.drop_last();
        assert forall|i: int| 0 <= i < rest.len() && rest[i] == c implies i == p by {
            assert(rest[i] == s[i]);
        }
        lemma_occurrences_single(rest, c, p);
        if s.last() == c {
            assert(s[s.len() - 1] == c);
            assert(!rest.contains(c)) by {
                assert forall|i: int| 0 <= i < rest.len() implies rest[i] != c by {
                    assert(rest[i] == s[i]);
                }
            }
        } else if !s.contains(c) {
            assert forall|i: int| 0 <= i < rest.len() implies rest[i] != c by {
                assert(rest[i] == s[i]);
                assert(s.contains(s[i]));
            }
        }
    }
}

/// A text with all its `c` at the indices `p` and `q` holds two `c` at
/// most.
pub proof fn lemma_occurrences_pair(s: Seq<char>, c: char, p: int, q: int)
    requires
        forall|i: int| 0 <= i < s.len() && s[i] == c ==> i == p || i == q,
    ensures
        occurrences(s, c) <= 2,
    decreases s.len(),
{
    if s.len() > 0 {
        let rest = s.drop_last();
        let last = s.len() - 1;
        if s.last() == c {
            assert(s[last] == c);
            let other = if last == p {
                q
            } else {
                p
            };
            assert forall|i: int| 0 <= i < rest.len() && rest[i] == c implies i == other by {
                assert(rest[i] == s[i]);
            }
            lemma_occurrences_single(rest, c, other);
        } else {
            assert forall|i: int| 0 <= i < rest.len() && rest[i] == c implies i == p || i
                == q by {
                assert(rest[i] == s[i]);
            }
            lemma_occurrences_pair(rest, c, p, q);
        }
    }
}

/// A number is at least the number that any shorter prefix of its digits
/// writes.
pub proof fn lemma_decimal_prefix(s: Seq<char>, k: int)
    requires
        0 <= k <= s.len(),
    ensures
        decimal_value(s.subrange(0, k)) <= decimal_value(s),
    decreases s.len() - k,
{
    if k == s.len() {
        assert(s.subrange(0, k) =~= s);
    } else {
        lemma_decimal_prefix(s, k + 1);
        assert(s.subrange(0, k + 1).drop_last() =~= s.subrange(0, k));
    }
}

/// The characters of `s`, in order, as a vector that can be indexed in
/// constant time.
pub fn chars_of(s: &str) -> (chars: Vec<char>)
    ensures
        chars@ == s@,
{
    let mut out: Vec<char> = Vec::new();
    let mut it = s.chars();
    loop
        invariant
            it.obeys_prophetic_iter_laws(),
            it.decrease() is Some,
            out@ + it.remaining() == s@,
        ensures
            out@ == s@,
        decreases it.decrease()->0,
    {
        match it.next() {
            Some(c) => {
                out.push(c);
            },
            None => {
                break;
            },
        }
    }
    out
}

/// Counts the occurrences of `c`.
pub fn count_char(chars: &Vec<char>, c: char) -> (count: usize)
    ensures
        count == occurrences(chars@, c),
{
    let mut count: usize = 0;
    let mut i: usize = 0;
    while i < chars.len()
        invariant
            i <= chars@.len(),
            count <= i,
            count == occurrences(chars@.subrange(0, i as int), c),
        decreases chars@.len() - i,
    {
        proof {
            assert(chars@.subrange(0, i + 1).drop_last() =~= chars@.subrange(0, i as int));
        }
        if chars[i] == c {
            count = count + 1;
        }
        i = i + 1;
    }
    proof {
        assert(chars@.subrange(0, i as int) =~= chars@);
    }
    count
}

/// Finds the last occurrence of `c` among the first `end` characters.
pub fn rfind(chars: &Vec<char>, end: usize, c: char) -> (found: Option<usize>)
    requires
        end <= chars@.len(),
    ensures
        match found {
            Some(i) => i as int == last_index_of(chars@.subrange(0, end as int), c),
            None => last_index_of(chars@.subrange(0, end as int), c) == -1,
        },
{
    let ghost s = chars@.subrange(0, end as int);
    let mut i: usize = end;
    while i > 0
        invariant
            i <= end <= chars@.len(),
            s == chars@.subrange(0, end as int),
            forall|j: int| i <= j < end ==> chars@[j] != c,
        decreases i,
    {
        i = i - 1;
        if chars[i] == c {
            proof {
                lemma_last_index_is(s, c, i as int);
            }
            return Some(i);
        }
    }
    proof {
        lemma_last_index_of(s, c);
    }
    None
}

/// Finds the first occurrence of `c` at or after `start`. The index it
/// returns counts from `start`.
pub fn find_from(chars: &Vec<char>, start: usize, c: char) -> (offset: usize)
    requires
        start <= chars@.len(),
    ensures
        offset as int == first_index_of(chars@.subrange(start as int, chars@.len() as int), c),
        start + offset <= chars@.len(),
{
    let ghost s = chars@.subrange(start as int, chars@.len() as int);
    let mut i: usize = start;
    while i < chars.len()
        invariant
            start <= i <= chars@.len(),
            s == chars@.subrange(start as int, chars@.len() as int),
            forall|j: int| start <= j < i ==> chars@[j] != c,
        decreases chars@.len() - i,
    {
        if chars[i] == c {
            proof {
                lemma_first_index_is(s, c, i - start);
            }
            return i - start;
        }
        i = i + 1;
    }
    proof {
        lemma_first_index_is(s, c, i - start);
    }
    i - start
}

/// Why a run of characters is not a number in range.
#[derive(Clone, Copy, Debug, PartialEq, Eq, Structural)]
pub enum NumberError {
    /// The run is empty or holds a character that is no digit.
    NotDecimal,
    /// The digits write a number above the largest one allowed.
    TooLarge,
}

/// What `parse_decimal` returns for the characters `s` and the bound `max`.
pub open spec fn parse_decimal_spec(s: Seq<char>, max: nat) -> Result<nat, NumberError> {
    if !is_decimal(s) {
        Err(NumberError::NotDecimal)
    } else if decimal_value(s) > max {
        Err(NumberError::TooLarge)
    } else {
        Ok(decimal_value(s))
    }
}

/// Reads the characters from `start` to `end` as a decimal number of at most
/// `max`. Only the ten digits are accepted: no sign, no blank.
pub fn parse_decimal(
    chars: &Vec<char>,
    start: usize,
    end: usize,
    max: u64,
) -> (number: Result<u64, NumberError>)
    requires
        start <= end <= chars@.len(),
    ensures
        match number {
            Ok(n) => parse_decimal_spec(chars@.subrange(start as int, end as int), max as nat)
                == Ok::<nat, NumberError>(n as nat),
            Err(e) => parse_decimal_spec(chars@.subrange(start as int, end as int), max as nat)
                == Err::<nat, NumberError>(e),
        },
{
    let ghost s = chars@.subrange(start as int, end as int);
    if start == end {
        return Err(NumberError::NotDecimal);
    }
    let mut k: usize = start;
    while k < end
        invariant
            start <= k <= end <= chars@.len(),
            s == chars@.subrange(start as int, end as int),
            forall|j: int| 0 <= j < k - start ==> is_digit(#[trigger] s[j]),
        decreases end - k,
    {
        let c = chars[k];
        if c < '0' || c > '9' {
            assert(!is_digit(s[k - start]));
            return Err(NumberError::NotDecimal);
        }
        k = k + 1;
    }
    let mut acc: u64 = 0;
    let mut i: usize = start;
    while i < end
        invariant
            start <= i <= end <= chars@.len(),
            s == chars@.subrange(start as int, end as int),
            is_decimal(s),
            acc == decimal_value(s.subrange(0, i - start)),
            acc <= max,
        decreases end - i,
    {
        let c = chars[i];
        assert(is_digit(s[i - start]));
        let d: u64 = (c as u32 - '0' as u32) as u64;
        proof {
            assert(s.subrange(0, i - start + 1).drop_last() =~= s.subrange(0, i - start));
            assert(s.subrange(0, i - start + 1).last() == c);
            assert(d == digit_value(c));
            lemma_decimal_prefix(s, i - start + 1);
        }
        if d > max || acc > (max - d) / 10 {
            return Err(NumberError::TooLarge);
        }
        acc = acc * 10 + d;
        i = i + 1;
    }
    proof {
        assert(s.subrange(0, end - start) =~= s);
    }
    Ok(acc)
}

/// The digit that writes `d`, for `d` below ten.
pub open spec fn digit_char(d: nat) -> char {
    if d == 0 {
        '0'
    } else if d == 1 {
        '1'
    } else if d == 2 {
        '2'
    } else if d == 3 {
        '3'
    } else if d == 4 {
        '4'
    } else if d == 5 {
        '5'
    } else if d == 6 {
        '6'
    } else if d == 7 {
        '7'
    } else if d == 8 {
        '8'
    } else {
        '9'
    }
}

/// The digits that write `n` in base ten, without leading zeros.
pub open spec fn decimal_text(n: nat) -> Seq<char>
    decreases n,
{
    if n < 10 {
        seq![digit_char(n)]
    } else {
        decimal_text(n / 10).push(digit_char(n % 10))
    }
}

/// What is written with `decimal_text` is read back by `decimal_value`.
pub proof fn lemma_decimal_round_trip(n: nat)
    ensures
        is_decimal(decimal_text(n)),
        decimal_value(decimal_text(n)) == n,
    decreases n,
{
    if n < 10 {
        assert(decimal_text(n).drop_last() =~= Seq::<char>::empty());
        assert(decimal_value(decimal_text(n)) == decimal_value(Seq::<char>::empty()) * 10
            + digit_value(digit_char(n)));
    } else {
        lemma_decimal_round_trip(n / 10);
        let head = decimal_text(n / 10);
        assert(decimal_text(n).drop_last() =~= head);
        assert(decimal_text(n).last() == digit_char(n % 10));
        assert forall|i: int| 0 <= i < decimal_text(n).len() implies is_digit(
            #[trigger] decimal_text(n)[i],
        ) by {
            if i < head.len() {
                assert(decimal_text(n)[i] == head[i]);
            }
        }
    }
}

/// The one-character string that writes a digit.
fn digit_str(d: u64) -> (text: &'static str)
    requires
        d < 10,
    ensures
        text@ == seq![digit_char(d as nat)],
{
    proof {
        reveal_strlit("0");
        reveal_strlit("1");
        reveal_strlit("2");
        reveal_strlit("3");
        reveal_strlit("4");
        reveal_strlit("5");
        reveal_strlit("6");
        reveal_strlit("7");
        reveal_strlit("8");
        reveal_strlit("9");
    }
    let text = match d {
        0 => "0",
        1 => "1",
        2 => "2",
        3 => "3",
        4 => "4",
        5 => "5",
        6 => "6",
        7 => "7",
        8 => "8",
        _ => "9",
    };
    assert(text@ =~= seq![digit_char(d as nat)]);
    text
}

/// Writes `n` in base ten.
pub fn decimal_string(n: u64) -> (text: String)
    ensures
        text@ == decimal_text(n as nat),
    decreases n,
{
    if n < 10 {
        digit_str(n).to_owned()
    } else {
        let mut text = decimal_string(n / 10);
        text.append(digit_str(n % 10));
        assert(text@ =~= decimal_text((n / 10) as nat).push(digit_char((n % 10) as nat)));
        text
    }
}

/// Number of times `c` stands at the start of `s` without a break.
pub open spec fn leading_run(s: Seq<char>, c: char) -> nat
    decreases s.len(),
{
    if s.len() == 0 || s.first() != c {
        0
    } else {
        1 + leading_run(s.drop_first(), c)
    }
}

/// Number of times `c` stands at the end of `s` without a break.
pub open spec fn trailing_run(s: Seq<char>, c: char) -> nat
    decreases s.len(),
{
    if s.len() == 0 || s.last() != c {
        0
    } else {
        1 + trailing_run(s.drop_last(), c)
    }
}

/// `s` without the occurrences of `c` at its start and at its end.
pub open spec fn trimmed(s: Seq<char>, c: char) -> Seq<char> {
    if leading_run(s, c) == s.len() {
        Seq::empty()
    } else {
        s.subrange(leading_run(s, c) as int, s.len() - trailing_run(s, c))
    }
}

/// A run of `c` at the start of `s` that ends at `i` is the leading run.
pub proof fn lemma_leading_run_is(s: Seq<char>, c: char, i: int)
    requires
        0 <= i <= s.len(),
        forall|j: int| 0 <= j < i ==> s[j] == c,
        i < s.len() ==> s[i] != c,
    ensures
        leading_run(s, c) == i,
    decreases s.len(),
{
    if i > 0 {
        assert(s[0] == c);
        assert forall|j: int| 0 <= j < i - 1 implies s.drop_first()[j] == c by {
            assert(s.drop_first()[j] == s[j + 1]);
        }
        if i < s.len() {
            assert(s.drop_first()[i - 1] == s[i]);
        }
        lemma_leading_run_is(s.drop_first(), c, i - 1);
    }
}

/// A run of `c` at the end of `s` that starts at `i` is the trailing run.
pub proof fn lemma_trailing_run_is(s: Seq<char>, c: char, i: int)
    requires
        0 <= i <= s.len(),
        forall|j: int| i <= j < s.len() ==> s[j] == c,
        i > 0 ==> s[i - 1] != c,
    ensures
        trailing_run(s, c) == s.len() - i,
    decreases s.len(),
{
    if i < s.len() {
        assert(s[s.len() - 1] == c);
        assert forall|j: int| i <= j < s.drop_last().len() implies s.drop_last()[j] == c by {
            assert(s.drop_last()[j] == s[j]);
        }
        if i > 0 {
            assert(s.drop_last()[i - 1] == s[i - 1]);
        }
        lemma_trailing_run_is(s.drop_last(), c, i);
    }
}

/// Takes the occurrences of `c` off both ends of `s`.
pub fn trim_char(s: &str, c: char) -> (text: String)
    ensures
        text@ == trimmed(s@, c),
{
    let chars = chars_of(s);
    let len = chars.len();
    let mut start: usize = 0;
    while start < len && chars[start] == c
        invariant
            start <= len == chars@.len(),
            forall|j: int| 0 <= j < start ==> chars@[j] == c,
        decreases len - start,
    {
        start = start + 1;
    }
    proof {
        lemma_leading_run_is(chars@, c, start as int);
    }
    if start == len {
        return String::new();
    }
    let mut end: usize = len;
    while end > 0 && chars[end - 1] == c
        invariant
            end <= len == chars@.len(),
            forall|j: int| end <= j < len ==> chars@[j] == c,
        decreases end,
    {
        end = end - 1;
    }
    proof {
        lemma_trailing_run_is(chars@, c, end as int);
    }
    s.substring_char(start, end).to_owned()
}

} // verus!
