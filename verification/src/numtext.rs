//! Decimal text form of the persisted counter.
//!
//! The persistence tick writes the counter as its plain decimal digits, and
//! startup reads the same file back.  Both directions are defined here against
//! one mathematical description of decimal notation, so the round trip is a
//! proved identity.

use vstd::prelude::*;

verus! {

/// The character for one decimal digit value.
pub open spec fn spec_digit(d: nat) -> char
    recommends
        d < 10,
{
    if d == 0 {
        '0'
    } else if d == 1 {
        '1'
    } else if d == 2 {
        '2'
    } else if d == 3 {
        '3'
    } else if d == 4 {
        '4'
    } else if d == 5 {
        '5'
    } else if d == 6 {
        '6'
    } else if d == 7 {
        '7'
    } else if d == 8 {
        '8'
    } else {
        '9'
    }
}

/// The value of one decimal digit character; 10 marks a non-digit.
pub open spec fn spec_digit_value(c: char) -> nat {
    if c == '0' {
        0
    } else if c == '1' {
        1
    } else if c == '2' {
        2
    } else if c == '3' {
        3
    } else if c == '4' {
        4
    } else if c == '5' {
        5
    } else if c == '6' {
        6
    } else if c == '7' {
        7
    } else if c == '8' {
        8
    } else if c == '9' {
        9
    } else {
        10
    }
}

/// Whether `c` is a decimal digit.
pub open spec fn is_digit(c: char) -> bool {
    spec_digit_value(c) < 10
}

/// The canonical decimal text of `n`: most significant digit first, no sign,
/// no leading zero except for the number 0 itself.
pub open spec fn spec_decimal(n: nat) -> Seq<char>
    decreases n,
{
    if n < 10 {
        seq![spec_digit(n)]
    } else {
        spec_decimal(n / 10).push(spec_digit(n % 10))
    }
}

/// Whether `s` is a non-empty string of decimal digits.
pub open spec fn is_decimal_text(s: Seq<char>) -> bool {
    s.len() > 0 && forall|i: int| 0 <= i < s.len() ==> is_digit(#[trigger] s[i])
}

/// The number that the digit string `s` denotes (most significant first).
pub open spec fn spec_decimal_value(s: Seq<char>) -> nat
    decreases s.len(),
{
    if s.len() == 0 {
        0
    } else {
        spec_decimal_value(s.drop_last()) * 10 + spec_digit_value(s.last())
    }
}

/// A digit's character denotes that digit.
proof fn lemma_digit_round_trip(d: nat)
    requires
        d < 10,
    ensures
        is_digit(spec_digit(d)),
        spec_digit_value(spec_digit(d)) == d,
{
}

/// The one-character string for a digit value.
fn digit_str(d: u32) -> (r: &'static str)
    requires
        d < 10,
    ensures
        r@ == seq![spec_digit(d as nat)],
{
    proof {
        reveal_strlit("0");
        reveal_strlit("1");
        reveal_strlit("2");
        reveal_strlit("3");
        reveal_strlit("4");
        reveal_strlit("5");
        reveal_strlit("6");
        reveal_strlit("7");
        reveal_strlit("8");
        reveal_strlit("9");
        assert("0"@ =~= seq!['0']);
        assert("1"@ =~= seq!['1']);
        assert("2"@ =~= seq!['2']);
        assert("3"@ =~= seq!['3']);
        assert("4"@ =~= seq!['4']);
        assert("5"@ =~= seq!['5']);
        assert("6"@ =~= seq!['6']);
        assert("7"@ =~= seq!['7']);
        assert("8"@ =~= seq!['8']);
        assert("9"@ =~= seq!['9']);
    }
    if d == 0 {
        "0"
    } else if d == 1 {
        "1"
    } else if d == 2 {
        "2"
    } else if d == 3 {
        "3"
    } else if d == 4 {
        "4"
    } else if d == 5 {
        "5"
    } else if d == 6 {
        "6"
    } else if d == 7 {
        "7"
    } else if d == 8 {
        "8"
    } else {
        "9"
    }
}

/// The decimal text of `n`, exactly as `spec_decimal` describes it.
pub fn format_u32(n: u32) -> (r: String)
    ensures
        r@ == spec_decimal(n as nat),
    decreases n,
{
    if n < 10 {
        digit_str(n).to_owned()
    } else {
        let mut s = format_u32(n / 10);
        s.append(digit_str(n % 10));
        proof {
            assert(spec_decimal((n / 10) as nat) + seq![spec_digit((n % 10) as nat)] =~= spec_decimal(
                (n / 10) as nat,
            ).push(spec_digit((n % 10) as nat)));
        }
        s
    }
}

/// A longer digit prefix never denotes a smaller number.
proof fn lemma_decimal_value_take_monotonic(s: Seq<char>, i: int, j: int)
    requires
        0 <= i <= j <= s.len(),
    ensures
        spec_decimal_value(s.take(i)) <= spec_decimal_value(s.take(j)),
    decreases j - i,
{
    if i < j {
        lemma_decimal_value_take_monotonic(s, i, j - 1);
        assert(s.take(j).drop_last() =~= s.take(j - 1));
    }
}

/// Parse a non-empty string of decimal digits.  `None` exactly when the text
/// is empty, holds a non-digit character, or denotes a number above
/// `u32::MAX`.
pub fn parse_u32(s: &str) -> (r: Option<u32>)
    ensures
        r is Some <==> is_decimal_text(s@) && spec_decimal_value(s@) <= u32::MAX,
        r matches Some(v) ==> v == spec_decimal_value(s@),
{
    let n = s.unicode_len();
    if n == 0 {
        return None;
    }
    let mut acc: u64 = 0;
    let mut i: usize = 0;
    while i < n
        invariant
            0 < n == s@.len(),
            i <= n,
            forall|j: int| 0 <= j < i ==> is_digit(#[trigger] s@[j]),
            acc == spec_decimal_value(s@.take(i as int)),
            acc <= u32::MAX,
        decreases n - i,
    {
        let c = s.get_char(i);
        let d: u64 = match c {
            '0' => 0,
            '1' => 1,
            '2' => 2,
            '3' => 3,
            '4' => 4,
            '5' => 5,
            '6' => 6,
            '7' => 7,
            '8' => 8,
            '9' => 9,
            _ => {
                proof {
                    assert(!is_digit(s@[i as int]));
                }
                return None;
            },
        };
        proof {
            assert(d == spec_digit_value(s@[i as int]));
            assert(s@.take(i + 1).drop_last() =~= s@.take(i as int));
            assert(s@.take(i + 1).last() == s@[i as int]);
        }
        acc = acc * 10 + d;
        if acc > u32::MAX as u64 {
            proof {
                lemma_decimal_value_take_monotonic(s@, i + 1, n as int);
                assert(s@.take(n as int) =~= s@);
            }
            return None;
        }
        i = i + 1;
    }
    proof {
        assert(s@.take(n as int) =~= s@);
    }
    Some(acc as u32)
}

/// The canonical decimal text of `n` is a digit string.
proof fn lemma_decimal_text_valid(n: nat)
    ensures
        is_decimal_text(spec_decimal(n)),
    decreases n,
{
    if n < 10 {
        lemma_digit_round_trip(n);
    } else {
        lemma_decimal_text_valid(n / 10);
        let s = spec_decimal(n / 10);
        let t = spec_decimal(n);
        lemma_digit_round_trip(n % 10);
        assert forall|i: int| 0 <= i < t.len() implies is_digit(t[i]) by {
            if i < s.len() {
                assert(is_digit(s[i]));
            } else {
                assert(t[i] == spec_digit(n % 10));
            }
        }
    }
}

/// The canonical decimal text of `n` denotes `n`.
proof fn lemma_decimal_value_of_decimal(n: nat)
    ensures
        spec_decimal_value(spec_decimal(n)) == n,
    decreases n,
{
    if n < 10 {
        let t = seq![spec_digit(n)];
        assert(spec_decimal(n) == t);
        assert(t.drop_last() =~= Seq::<char>::empty());
        assert(t.last() == spec_digit(n));
        lemma_digit_round_trip(n);
        assert(spec_decimal_value(t) == spec_decimal_value(Seq::<char>::empty()) * 10 + n);
    } else {
        lemma_decimal_value_of_decimal(n / 10);
        let s = spec_decimal(n / 10);
        let t = spec_decimal(n);
        assert(t == s.push(spec_digit(n % 10)));
        assert(t.drop_last() =~= s);
        assert(t.last() == spec_digit(n % 10));
        lemma_digit_round_trip(n % 10);
        assert(spec_decimal_value(t) == (n / 10) * 10 + n % 10);
    }
}

/// Law: the persisted-counter round trip is the identity.  The decimal text
/// written for a counter value `n` is a valid digit string, and parsing it
/// back yields exactly `n` — so a persistence tick followed by a restart
/// restores the counter that was written.
pub proof fn lemma_decimal_round_trip(n: u32)
    ensures
        is_decimal_text(spec_decimal(n as nat)),
        spec_decimal_value(spec_decimal(n as nat)) == n,
{
    lemma_decimal_text_valid(n as nat);
    lemma_decimal_value_of_decimal(n as nat);
}

/// The starting counter, from the persisted file's content if the file
/// existed.  With no file the counter starts at zero.  A file whose text is
/// not a digit string, or denotes a number above the counter's range, gives
/// no starting value; the caller treats that as fatal.
pub fn initial_count(saved: Option<&str>) -> (r: Option<u32>)
    ensures
        saved is None ==> r == Some(0u32),
        saved matches Some(s) ==> {
            &&& (r is Some <==> is_decimal_text(s@) && spec_decimal_value(s@) <= u32::MAX)
            &&& (r matches Some(v) ==> v == spec_decimal_value(s@))
        },
{
    match saved {
        None => Some(0),
        Some(s) => parse_u32(s),
    }
}

} // verus!
