//! Text helpers: comparison, repetition and lower-case hex.

use vstd::prelude::*;

verus! {

/// `unit` written `times` times in a row.
pub open spec fn repeated(unit: Seq<char>, times: nat) -> Seq<char>
    decreases times,
{
    if times == 0 {
        Seq::empty()
    } else {
        repeated(unit, (times - 1) as nat) + unit
    }
}

/// The lower-case hex digit of a value below 16.
pub open spec fn hex_digit(value: u8) -> char {
    if value < 10 {
        (('0' as u8) + value) as char
    } else {
        (('a' as u8) + (value - 10)) as char
    }
}

/// Two lower-case hex digits of a byte, high nibble first (`{:02x}`).
pub open spec fn byte_hex(byte: u8) -> Seq<char> {
    seq![hex_digit(byte / 16), hex_digit(byte % 16)]
}

/// The length of `repeated(unit, times)`.
pub proof fn lemma_repeated_len(unit: Seq<char>, times: nat)
    ensures
        repeated(unit, times).len() == unit.len() * times,
    decreases times,
{
    if times > 0 {
        lemma_repeated_len(unit, (times - 1) as nat);
        assert(unit.len() * times == unit.len() * (times - 1) + unit.len()) by (nonlinear_arith)
            requires times > 0;
    } else {
        assert(unit.len() * times == 0) by (nonlinear_arith)
            requires times == 0;
    }
}

/// Every character of `repeated(unit, times)` is a character of `unit`.
pub proof fn lemma_repeated_chars(unit: Seq<char>, times: nat, i: int)
    requires
        0 <= i < repeated(unit, times).len(),
    ensures
        unit.contains(repeated(unit, times)[i]),
    decreases times,
{
    lemma_repeated_len(unit, (times - 1) as nat);
    let prev = repeated(unit, (times - 1) as nat);
    if i < prev.len() {
        lemma_repeated_chars(unit, (times - 1) as nat, i);
    } else {
        assert(repeated(unit, times)[i] == unit[i - prev.len()]);
    }
}

/// Whether two strings hold the same characters.
pub fn same_text(a: &str, b: &str) -> (equal: bool)
    ensures
        equal == (a@ == b@),
{
    let n = a.unicode_len();
    if n != b.unicode_len() {
        return false;
    }
    let mut i: usize = 0;
    while i < n
        invariant
            n == a@.len(),
            n == b@.len(),
            i <= n,
            forall|j: int| 0 <= j < i ==> a@[j] == b@[j],
        decreases n - i,
    {
        if a.get_char(i) != b.get_char(i) {
            return false;
        }
        i = i + 1;
    }
    assert(a@ =~= b@);
    true
}

/// `unit` written `times` times in a row.
pub fn repeat_text(unit: &str, times: usize) -> (text: String)
    ensures
        text@ == repeated(unit@, times as nat),
{
    let mut text = String::new();
    let mut i: usize = 0;
    while i < times
        invariant
            i <= times,
            text@ == repeated(unit@, i as nat),
        decreases times - i,
    {
        text.append(unit);
        i = i + 1;
    }
    text
}

/// One lower-case hex digit.
pub fn hex_digit_text(value: u8) -> (digit: &'static str)
    requires
        value < 16,
    ensures
        digit@ == seq![hex_digit(value)],
{
    proof {
        reveal_strlit("0");
        reveal_strlit("1");
        reveal_strlit("2");
        reveal_strlit("3");
        reveal_strlit("4");
        reveal_strlit("5");
        reveal_strlit("6");
        reveal_strlit("7");
        reveal_strlit("8");
        reveal_strlit("9");
        reveal_strlit("a");
        reveal_strlit("b");
        reveal_strlit("c");
        reveal_strlit("d");
        reveal_strlit("e");
        reveal_strlit("f");
    }
    let digit = match value {
        0 => "0",
        1 => "1",
        2 => "2",
        3 => "3",
        4 => "4",
        5 => "5",
        6 => "6",
        7 => "7",
        8 => "8",
        9 => "9",
        10 => "a",
        11 => "b",
        12 => "c",
        13 => "d",
        14 => "e",
        _ => "f",
    };
    assert(digit@ =~= seq![hex_digit(value)]);
    digit
}

/// Two lower-case hex digits of a byte (`format!("{byte:02x}")`).
pub fn byte_hex_text(byte: u8) -> (text: String)
    ensures
        text@ == byte_hex(byte),
{
    let mut text = String::new();
    text.append(hex_digit_text(byte / 16));
    text.append(hex_digit_text(byte % 16));
    assert(text@ =~= byte_hex(byte));
    text
}

} // verus!
