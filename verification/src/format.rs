//! The text of the countdown label: minutes and seconds, each shown with at
//! least two digits, around a ratio sign (U+2236).
use vstd::prelude::*;

verus! {

/// The decimal digit `d` as a character.
pub open spec fn digit_char(d: nat) -> char {
    if d == 0 { '0' }
    else if d == 1 { '1' }
    else if d == 2 { '2' }
    else if d == 3 { '3' }
    else if d == 4 { '4' }
    else if d == 5 { '5' }
    else if d == 6 { '6' }
    else if d == 7 { '7' }
    else if d == 8 { '8' }
    else { '9' }
}

/// The decimal digits of `n`, most significant first, with no leading zero.
pub open spec fn decimal(n: nat) -> Seq<char>
    decreases n,
{
    if n < 10 {
        seq![digit_char(n)]
    } else {
        decimal(n / 10).push(digit_char(n % 10))
    }
}

/// The decimal digits of `n`, padded with zeros on the left to two characters.
pub open spec fn pad2(n: nat) -> Seq<char> {
    if n < 10 {
        seq!['0'] + decimal(n)
    } else {
        decimal(n)
    }
}

/// The character between minutes and seconds.
pub open spec fn separator() -> char {
    '\u{2236}'
}

/// The text of the label for `min` minutes and `sec` seconds.
pub open spec fn clock_text(min: nat, sec: nat) -> Seq<char> {
    pad2(min) + seq![separator()] + pad2(sec)
}

/// Whether `c` is one of the ten decimal digits '0' to '9'.
pub open spec fn is_digit(c: char) -> bool {
    '0' <= c <= '9'
}

/// The number that a string of decimal digits stands for, read by the
/// character codes of the digits.
pub open spec fn read_decimal(s: Seq<char>) -> int
    decreases s.len(),
{
    if s.len() == 0 {
        0
    } else {
        read_decimal(s.drop_last()) * 10 + (s.last() as int - '0' as int)
    }
}

/// Each digit is the character whose code is that of '0' plus its value.
pub proof fn lemma_digit_codes(d: nat)
    requires
        d < 10,
    ensures
        digit_char(d) as int == '0' as int + d,
        is_digit(digit_char(d)),
{
}

/// The decimal text of a number is made of digits only, and read back as a
/// base-10 number it is that number.
pub proof fn lemma_decimal_reads_back(n: nat)
    ensures
        read_decimal(decimal(n)) == n,
        forall|i: int| 0 <= i < decimal(n).len() ==> is_digit(#[trigger] decimal(n)[i]),
        decimal(n).len() >= 1,
    decreases n,
{
    if n < 10 {
        lemma_digit_codes(n);
        let s = seq![digit_char(n)];
        assert(s.drop_last() =~= Seq::<char>::empty());
        assert(decimal(n) == s);
        assert(read_decimal(s) == read_decimal(s.drop_last()) * 10 + (s.last() as int - '0' as int));
        assert(read_decimal(Seq::<char>::empty()) == 0);
    } else {
        lemma_decimal_reads_back(n / 10);
        lemma_digit_codes(n % 10);
        let s = decimal(n / 10).push(digit_char(n % 10));
        assert(s.drop_last() =~= decimal(n / 10));
        assert(n == (n / 10) * 10 + n % 10) by (nonlinear_arith);
        assert(decimal(n) == s);
        assert(s.last() == digit_char(n % 10));
        assert(read_decimal(s) == read_decimal(s.drop_last()) * 10 + (s.last() as int - '0' as int));
        assert forall|i: int| 0 <= i < s.len() implies is_digit(#[trigger] s[i]) by {
            if i < s.len() - 1 {
                assert(s[i] == decimal(n / 10)[i]);
            }
        }
    }
}

/// A padded number is at least two digits long, all digits, and reads back
/// as the number.
pub proof fn lemma_pad2_reads_back(n: nat)
    ensures
        read_decimal(pad2(n)) == n,
        forall|i: int| 0 <= i < pad2(n).len() ==> is_digit(#[trigger] pad2(n)[i]),
        pad2(n).len() >= 2,
{
    lemma_decimal_reads_back(n);
    if n < 10 {
        let s = seq!['0'] + decimal(n);
        assert(decimal(n) =~= seq![digit_char(n)]);
        assert(s =~= seq!['0', digit_char(n)]);
        assert(s.drop_last() =~= seq!['0']);
        assert(seq!['0'].drop_last() =~= Seq::<char>::empty());
        lemma_digit_codes(n);
        assert(pad2(n) == s);
        assert(read_decimal(seq!['0']) == read_decimal(seq!['0'].drop_last()) * 10 + ('0' as int - '0' as int));
        assert(read_decimal(seq!['0']) == 0);
        assert(s.last() == digit_char(n));
        assert(read_decimal(s) == read_decimal(s.drop_last()) * 10 + (s.last() as int - '0' as int));
    } else {
        assert(decimal(n) =~= decimal(n / 10).push(digit_char(n % 10)));
        lemma_decimal_reads_back(n / 10);
    }
}

/// The label splits at its one separator into the minutes and the seconds,
/// each written in decimal with at least two digits.
pub proof fn lemma_clock_text_reads_back(min: nat, sec: nat)
    ensures
        clock_text(min, sec) == pad2(min) + seq![separator()] + pad2(sec),
        read_decimal(pad2(min)) == min,
        read_decimal(pad2(sec)) == sec,
        !is_digit(separator()),
        clock_text(min, sec)[pad2(min).len() as int] == separator(),
        forall|i: int|
            0 <= i < clock_text(min, sec).len() && i != pad2(min).len() ==> is_digit(
                #[trigger] clock_text(min, sec)[i],
            ),
{
    lemma_pad2_reads_back(min);
    lemma_pad2_reads_back(sec);
    let t = clock_text(min, sec);
    let a = pad2(min);
    let b = pad2(sec);
    assert forall|i: int| 0 <= i < t.len() && i != a.len() implies is_digit(#[trigger] t[i]) by {
        if i < a.len() {
            assert(t[i] == a[i]);
        } else {
            assert(t[i] == b[i - a.len() - 1]);
        }
    }
}

fn digit_str(d: u32) -> (res: &'static str)
    requires
        d < 10,
    ensures
        res@ == seq![digit_char(d as nat)],
{
    if d == 0 {
        proof { reveal_strlit("0"); }
        "0"
    } else if d == 1 {
        proof { reveal_strlit("1"); }
        "1"
    } else if d == 2 {
        proof { reveal_strlit("2"); }
        "2"
    } else if d == 3 {
        proof { reveal_strlit("3"); }
        "3"
    } else if d == 4 {
        proof { reveal_strlit("4"); }
        "4"
    } else if d == 5 {
        proof { reveal_strlit("5"); }
        "5"
    } else if d == 6 {
        proof { reveal_strlit("6"); }
        "6"
    } else if d == 7 {
        proof { reveal_strlit("7"); }
        "7"
    } else if d == 8 {
        proof { reveal_strlit("8"); }
        "8"
    } else {
        proof { reveal_strlit("9"); }
        "9"
    }
}

fn push_decimal(s: &mut String, n: u32)
    ensures
        final(s)@ == old(s)@ + decimal(n as nat),
    decreases n,
{
    if n < 10 {
        s.append(digit_str(n));
    } else {
        push_decimal(s, n / 10);
        s.append(digit_str(n % 10));
        assert(decimal(n as nat) == decimal((n / 10) as nat).push(digit_char((n % 10) as nat)));
    }
}

fn push_pad2(s: &mut String, n: u32)
    ensures
        final(s)@ == old(s)@ + pad2(n as nat),
{
    if n < 10 {
        s.append(digit_str(0));
    }
    push_decimal(s, n);
}

/// The label text for `min` minutes and `sec` seconds: each number with at
/// least two digits, zero-padded, joined by a ratio sign.
pub fn format_clock(min: u32, sec: u32) -> (res: String)
    ensures
        res@ == clock_text(min as nat, sec as nat),
{
    let mut s = String::new();
    push_pad2(&mut s, min);
    proof { reveal_strlit("\u{2236}"); }
    s.append("\u{2236}");
    push_pad2(&mut s, sec);
    s
}

} // verus!
