use vstd::prelude::*;

verus! {

/// The character of a decimal digit `d` (`0 <= d < 10`).
pub open spec fn digit_char(d: nat) -> char {
    if d == 0 {
        '0'
    } else if d == 1 {
        '1'
    } else if d == 2 {
        '2'
    } else if d == 3 {
        '3'
    } else if d == 4 {
        '4'
    } else if d == 5 {
        '5'
    } else if d == 6 {
        '6'
    } else if d == 7 {
        '7'
    } else if d == 8 {
        '8'
    } else {
        '9'
    }
}

/// The decimal representation of `n`, without leading zeros.
pub open spec fn decimal_digits(n: nat) -> Seq<char>
    decreases n,
{
    if n < 10 {
        seq![digit_char(n)]
    } else {
        decimal_digits(n / 10).push(digit_char(n % 10))
    }
}

/// The prefix that every speaker key starts with.
pub open spec fn speaker_key_prefix() -> Seq<char> {
    seq!['s', 'p', 'e', 'a', 'k', 'e', 'r', '_']
}

/// The speaker index written in decimal, zero-padded to a width of two
/// (a minus sign counts toward the width).
pub open spec fn padded_index(index: int) -> Seq<char> {
    if index < 0 {
        seq!['-'] + decimal_digits((-index) as nat)
    } else if index < 10 {
        seq!['0'] + decimal_digits(index as nat)
    } else {
        decimal_digits(index as nat)
    }
}

/// The key under which the cluster `index` is stored in transcripts:
/// `speaker_00`, `speaker_01`, ..., `speaker_10`, ...
pub open spec fn speaker_key_text(index: i32) -> Seq<char> {
    speaker_key_prefix() + padded_index(index as int)
}

proof fn lemma_digit_char_injective(a: nat, b: nat)
    requires
        a < 10,
        b < 10,
        digit_char(a) == digit_char(b),
    ensures
        a == b,
{
}

proof fn lemma_decimal_digits_shape(n: nat)
    ensures
        decimal_digits(n).len() >= 1,
        n >= 10 ==> decimal_digits(n).len() >= 2,
        n > 0 ==> decimal_digits(n)[0] != '0',
        forall|i: int| 0 <= i < decimal_digits(n).len() ==> #[trigger] decimal_digits(n)[i] != '-',
    decreases n,
{
    if n >= 10 {
        lemma_decimal_digits_shape(n / 10);
        let d = decimal_digits(n);
        assert forall|i: int| 0 <= i < d.len() implies #[trigger] d[i] != '-' by {
            if i < d.len() - 1 {
                assert(d[i] == decimal_digits(n / 10)[i]);
            }
        }
    }
}

proof fn lemma_decimal_digits_injective(a: nat, b: nat)
    requires
        decimal_digits(a) == decimal_digits(b),
    ensures
        a == b,
    decreases a,
{
    lemma_decimal_digits_shape(a);
    lemma_decimal_digits_shape(b);
    if a < 10 && b < 10 {
        assert(decimal_digits(a)[0] == decimal_digits(b)[0]);
        lemma_digit_char_injective(a, b);
    } else if a >= 10 && b >= 10 {
        let da = decimal_digits(a);
        let db = decimal_digits(b);
        assert(da.last() == db.last());
        lemma_digit_char_injective(a % 10, b % 10);
        assert(da.drop_last() =~= decimal_digits(a / 10));
        assert(db.drop_last() =~= decimal_digits(b / 10));
        lemma_decimal_digits_injective(a / 10, b / 10);
    } else {
        assert(decimal_digits(a).len() != decimal_digits(b).len());
    }
}

/// Distinct clusters get distinct keys, so a stored key names exactly one cluster.
pub proof fn lemma_speaker_key_injective(a: i32, b: i32)
    requires
        speaker_key_text(a) == speaker_key_text(b),
    ensures
        a == b,
{
    let pa = padded_index(a as int);
    let pb = padded_index(b as int);
    assert(pa =~= speaker_key_text(a).subrange(8, speaker_key_text(a).len() as int));
    assert(pb =~= speaker_key_text(b).subrange(8, speaker_key_text(b).len() as int));
    assert(pa == pb);
    if a < 0 && b < 0 {
        assert(pa.subrange(1, pa.len() as int) =~= decimal_digits((-a) as nat));
        assert(pb.subrange(1, pb.len() as int) =~= decimal_digits((-b) as nat));
        lemma_decimal_digits_injective((-a) as nat, (-b) as nat);
    } else if a >= 0 && b >= 0 {
        lemma_decimal_digits_shape(a as nat);
        lemma_decimal_digits_shape(b as nat);
        if a < 10 && b < 10 {
            assert(pa[1] == pb[1]);
            assert(pa[1] == decimal_digits(a as nat)[0]);
            assert(pb[1] == decimal_digits(b as nat)[0]);
            lemma_digit_char_injective(a as nat, b as nat);
        } else if a >= 10 && b >= 10 {
            lemma_decimal_digits_injective(a as nat, b as nat);
        } else if a < 10 {
            assert(pa[0] == '0');
            assert(pb[0] == decimal_digits(b as nat)[0]);
        } else {
            assert(pb[0] == '0');
            assert(pa[0] == decimal_digits(a as nat)[0]);
        }
    } else if a < 0 {
        lemma_decimal_digits_shape(b as nat);
        assert(pa[0] == '-');
        assert(pb[0] != '-');
    } else {
        lemma_decimal_digits_shape(a as nat);
        assert(pb[0] == '-');
        assert(pa[0] != '-');
    }
}

/// `c` is one of the ASCII digits `0` to `9`.
pub open spec fn is_ascii_digit(c: char) -> bool {
    48 <= (c as u32) <= 57
}

/// The number that a string of ASCII digits stands for, read in base ten.
pub open spec fn decimal_value(s: Seq<char>) -> int
    decreases s.len(),
{
    if s.len() == 0 {
        0
    } else {
        decimal_value(s.drop_last()) * 10 + ((s.last() as u32) - 48)
    }
}

proof fn lemma_digit_char_code(d: nat)
    requires
        d < 10,
    ensures
        (digit_char(d) as u32) == 48 + d,
{
}

proof fn lemma_decimal_digits_read_back(n: nat)
    ensures
        decimal_value(decimal_digits(n)) == n,
        forall|i: int|
            0 <= i < decimal_digits(n).len() ==> is_ascii_digit(#[trigger] decimal_digits(n)[i]),
    decreases n,
{
    reveal_with_fuel(decimal_value, 2);
    if n < 10 {
        lemma_digit_char_code(n);
        assert(decimal_digits(n).drop_last() =~= Seq::<char>::empty());
    } else {
        lemma_decimal_digits_read_back(n / 10);
        lemma_digit_char_code(n % 10);
        let d = decimal_digits(n);
        assert(d.drop_last() =~= decimal_digits(n / 10));
        assert forall|i: int| 0 <= i < d.len() implies is_ascii_digit(#[trigger] d[i]) by {
            if i < d.len() - 1 {
                assert(d[i] == decimal_digits(n / 10)[i]);
            }
        }
    }
}

proof fn lemma_leading_zero_keeps_value(s: Seq<char>)
    ensures
        decimal_value(seq!['0'] + s) == decimal_value(s),
    decreases s.len(),
{
    reveal_with_fuel(decimal_value, 2);
    if s.len() > 0 {
        lemma_leading_zero_keeps_value(s.drop_last());
        assert((seq!['0'] + s).drop_last() =~= seq!['0'] + s.drop_last());
        assert((seq!['0'] + s).last() == s.last());
    } else {
        assert((seq!['0'] + s).drop_last() =~= Seq::<char>::empty());
    }
}

/// A speaker key is `speaker_` followed by the index in base ten, as `{:02}`
/// formats it: the digits read back to the index; a non-negative index has at
/// least two digits, with no leading zero beyond that width; a negative index
/// is a minus sign and the digits of its magnitude, without leading zeros.
pub proof fn lemma_speaker_key_spells_the_index(index: i32)
    ensures
        speaker_key_text(index).len() >= 10,
        speaker_key_text(index).take(8) == "speaker_"@,
        ({
            let rest = speaker_key_text(index).skip(8);
            &&& index >= 0 ==> {
                &&& forall|i: int| 0 <= i < rest.len() ==> is_ascii_digit(#[trigger] rest[i])
                &&& decimal_value(rest) == index
                &&& rest.len() > 2 ==> rest[0] != '0'
            }
            &&& index < 0 ==> {
                &&& rest[0] == '-'
                &&& forall|i: int| 1 <= i < rest.len() ==> is_ascii_digit(#[trigger] rest[i])
                &&& decimal_value(rest.skip(1)) == -index
                &&& rest[1] != '0'
            }
        }),
{
    reveal_strlit("speaker_");
    let key = speaker_key_text(index);
    let rest = key.skip(8);
    assert(key.take(8) =~= "speaker_"@);
    assert(rest =~= padded_index(index as int));
    if index < 0 {
        let m = (-index) as nat;
        lemma_decimal_digits_read_back(m);
        lemma_decimal_digits_shape(m);
        assert(rest.skip(1) =~= decimal_digits(m));
        assert forall|i: int| 1 <= i < rest.len() implies is_ascii_digit(#[trigger] rest[i]) by {
            assert(rest[i] == decimal_digits(m)[i - 1]);
        }
    } else {
        let m = index as nat;
        lemma_decimal_digits_read_back(m);
        lemma_decimal_digits_shape(m);
        if index < 10 {
            lemma_leading_zero_keeps_value(decimal_digits(m));
            assert forall|i: int| 0 <= i < rest.len() implies is_ascii_digit(#[trigger] rest[i]) by {
                if i > 0 {
                    assert(rest[i] == decimal_digits(m)[i - 1]);
                }
            }
        }
    }
}

fn digit_str(d: u32) -> (s: &'static str)
    requires
        d < 10,
    ensures
        s@ == seq![digit_char(d as nat)],
{
    proof {
        reveal_strlit("0");
        reveal_strlit("1");
        reveal_strlit("2");
        reveal_strlit("3");
        reveal_strlit("4");
        reveal_strlit("5");
        reveal_strlit("6");
        reveal_strlit("7");
        reveal_strlit("8");
        reveal_strlit("9");
    }
    if d == 0 {
        "0"
    } else if d == 1 {
        "1"
    } else if d == 2 {
        "2"
    } else if d == 3 {
        "3"
    } else if d == 4 {
        "4"
    } else if d == 5 {
        "5"
    } else if d == 6 {
        "6"
    } else if d == 7 {
        "7"
    } else if d == 8 {
        "8"
    } else {
        "9"
    }
}

fn push_decimal(s: &mut String, n: u32)
    ensures
        final(s)@ == old(s)@ + decimal_digits(n as nat),
    decreases n,
{
    if n >= 10 {
        push_decimal(s, n / 10);
    }
    let d = digit_str(n % 10);
    s.append(d);
    proof {
        if n >= 10 {
            assert(decimal_digits(n as nat) == decimal_digits((n / 10) as nat).push(
                digit_char((n % 10) as nat),
            ));
        }
    }
}

/// Formats a 0-based cluster index the way it is stored in transcripts:
/// `speaker_` followed by the index zero-padded to two digits.
pub fn speaker_key(speaker_index: i32) -> (key: String)
    ensures
        key@ == speaker_key_text(speaker_index),
{
    proof {
        reveal_strlit("speaker_");
        reveal_strlit("-");
        reveal_strlit("0");
    }
    let mut key = String::from_str("speaker_");
    if speaker_index < 0 {
        key.append("-");
        let magnitude: u32 = (0i64 - (speaker_index as i64)) as u32;
        push_decimal(&mut key, magnitude);
    } else {
        if speaker_index < 10 {
            key.append("0");
        }
        push_decimal(&mut key, speaker_index as u32);
    }
    key
}

} // verus!
