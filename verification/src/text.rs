//! Small text helpers: comparing strings, writing numbers in decimal and
//! hexadecimal, replacing characters.

use vstd::prelude::*;

verus! {

/// The character of decimal digit `d`.
pub open spec fn digit_char(d: int) -> char {
    if d == 0 { '0' }
    else if d == 1 { '1' }
    else if d == 2 { '2' }
    else if d == 3 { '3' }
    else if d == 4 { '4' }
    else if d == 5 { '5' }
    else if d == 6 { '6' }
    else if d == 7 { '7' }
    else if d == 8 { '8' }
    else { '9' }
}

/// The character of lower-case hexadecimal digit `d`.
pub open spec fn hex_char(d: int) -> char {
    seq!['0', '1', '2', '3', '4', '5', '6', '7', '8', '9', 'a', 'b', 'c', 'd', 'e', 'f'][d]
}

/// `n` written in decimal, without leading zeros.
pub open spec fn decimal(n: u8) -> Seq<char> {
    if n < 10 {
        seq![digit_char(n as int)]
    } else if n < 100 {
        seq![digit_char((n / 10) as int), digit_char((n % 10) as int)]
    } else {
        seq![digit_char((n / 100) as int), digit_char(((n / 10) % 10) as int), digit_char((n % 10) as int)]
    }
}

/// The value of decimal digit `c`.
pub open spec fn digit_value(c: char) -> int {
    (c as int) - ('0' as int)
}

/// The number written by the decimal digits `s`.
pub open spec fn decimal_value(s: Seq<char>) -> int
    decreases s.len(),
{
    if s.len() == 0 {
        0
    } else {
        decimal_value(s.drop_last()) * 10 + digit_value(s.last())
    }
}

/// Reading back the decimal text of `n` gives `n`.
pub proof fn lemma_decimal_value(n: u8)
    ensures
        decimal_value(decimal(n)) == n,
{
    let s = decimal(n);
    assert(forall|d: int| 0 <= d < 10 ==> #[trigger] digit_value(digit_char(d)) == d);
    reveal_with_fuel(decimal_value, 4);
    if n < 10 {
        assert(s.drop_last().len() == 0);
    } else if n < 100 {
        assert(s.drop_last().drop_last().len() == 0);
        assert(s.drop_last().last() == s[0]);
        assert(digit_value(s[0]) == n / 10);
        assert(digit_value(s[1]) == n % 10);
    } else {
        assert(s.drop_last().drop_last().drop_last().len() == 0);
        assert(s.drop_last().drop_last().last() == s[0]);
        assert(s.drop_last().last() == s[1]);
        assert(digit_value(s[0]) == n / 100);
        assert(digit_value(s[1]) == (n / 10) % 10);
        assert(digit_value(s[2]) == n % 10);
    }
}

/// `b` as two lower-case hexadecimal digits.
pub open spec fn hex_byte(b: u8) -> Seq<char> {
    seq![hex_char((b / 16) as int), hex_char((b % 16) as int)]
}

/// Two numbers with the same decimal text are equal.
pub proof fn lemma_decimal_injective(a: u8, b: u8)
    requires
        decimal(a) == decimal(b),
    ensures
        a == b,
{
    let da = decimal(a);
    let db = decimal(b);
    assert(da.len() == db.len());
    if a < 10 {
        assert(da[0] == db[0]);
    } else if a < 100 {
        assert(da[0] == db[0]);
        assert(da[1] == db[1]);
        assert(a / 10 == b / 10);
        assert(a % 10 == b % 10);
    } else {
        assert(da[0] == db[0]);
        assert(da[1] == db[1]);
        assert(da[2] == db[2]);
        assert(a / 100 == b / 100);
        assert((a / 10) % 10 == (b / 10) % 10);
        assert(a % 10 == b % 10);
    }
}

/// The one-character text of decimal digit `d`.
fn digit_str(d: u8) -> (res: &'static str)
    requires
        d < 10,
    ensures
        res@ == seq![digit_char(d as int)],
{
    proof {
        reveal_strlit("0");
        reveal_strlit("1");
        reveal_strlit("2");
        reveal_strlit("3");
        reveal_strlit("4");
        reveal_strlit("5");
        reveal_strlit("6");
        reveal_strlit("7");
        reveal_strlit("8");
        reveal_strlit("9");
    }
    match d {
        0 => "0",
        1 => "1",
        2 => "2",
        3 => "3",
        4 => "4",
        5 => "5",
        6 => "6",
        7 => "7",
        8 => "8",
        _ => "9",
    }
}

/// The one-character text of lower-case hexadecimal digit `d`.
fn hex_str(d: u8) -> (res: &'static str)
    requires
        d < 16,
    ensures
        res@ == seq![hex_char(d as int)],
{
    if d < 10 {
        digit_str(d)
    } else {
        proof {
            reveal_strlit("a");
            reveal_strlit("b");
            reveal_strlit("c");
            reveal_strlit("d");
            reveal_strlit("e");
            reveal_strlit("f");
        }
        match d {
            10 => "a",
            11 => "b",
            12 => "c",
            13 => "d",
            14 => "e",
            _ => "f",
        }
    }
}

/// `n` written in decimal, as `n.to_string()` writes it.
pub fn u8_to_decimal(n: u8) -> (res: String)
    ensures
        res@ == decimal(n),
{
    let mut res = String::new();
    if n >= 100 {
        res.append(digit_str(n / 100));
    }
    if n >= 10 {
        res.append(digit_str((n / 10) % 10));
    }
    res.append(digit_str(n % 10));
    assert(res@ =~= decimal(n));
    res
}

/// `n` written in decimal, without leading zeros.
pub open spec fn nat_decimal(n: nat) -> Seq<char>
    decreases n,
{
    if n < 10 {
        seq![digit_char(n as int)]
    } else {
        nat_decimal(n / 10) + seq![digit_char((n % 10) as int)]
    }
}

/// `x` written in decimal, with a `-` before a negative number.
pub open spec fn int_decimal(x: int) -> Seq<char> {
    if x < 0 {
        seq!['-'] + nat_decimal((-x) as nat)
    } else {
        nat_decimal(x as nat)
    }
}

/// `n` written in decimal.
pub fn u64_to_decimal(n: u64) -> (res: String)
    ensures
        res@ == nat_decimal(n as nat),
    decreases n,
{
    if n < 10 {
        let mut res = String::new();
        res.append(digit_str(n as u8));
        assert(res@ =~= nat_decimal(n as nat));
        res
    } else {
        let mut res = u64_to_decimal(n / 10);
        res.append(digit_str((n % 10) as u8));
        assert(res@ =~= nat_decimal(n as nat));
        res
    }
}

/// `x` written in decimal, as `x.to_string()` writes it.
pub fn i32_to_decimal(x: i32) -> (res: String)
    ensures
        res@ == int_decimal(x as int),
{
    if x < 0 {
        let magnitude: u64 = (0i64 - (x as i64)) as u64;
        let mut res = String::new();
        let minus = "-";
        proof {
            reveal_strlit("-");
        }
        assert(minus@ =~= seq!['-']);
        res.append(minus);
        res.append(u64_to_decimal(magnitude).as_str());
        res
    } else {
        u64_to_decimal(x as u64)
    }
}

/// `b` as two lower-case hexadecimal digits, as `format!("{:02x}", b)` writes it.
pub fn byte_to_hex(b: u8) -> (res: String)
    ensures
        res@ == hex_byte(b),
{
    let mut res = String::new();
    res.append(hex_str(b / 16));
    res.append(hex_str(b % 16));
    assert(res@ =~= hex_byte(b));
    res
}

/// Whether `a` and `b` hold the same characters.
pub fn str_equals(a: &str, b: &str) -> (res: bool)
    ensures
        res == (a@ == b@),
{
    let n = a.unicode_len();
    if n != b.unicode_len() {
        return false;
    }
    let mut i: usize = 0;
    while i < n
        invariant
            n == a@.len() == b@.len(),
            0 <= i <= n,
            forall|j: int| 0 <= j < i ==> a@[j] == b@[j],
        decreases n - i,
    {
        if a.get_char(i) != b.get_char(i) {
            return false;
        }
        i = i + 1;
    }
    assert(a@ =~= b@);
    true
}

/// `s` with every `from` replaced by `to`.
pub open spec fn replace_char(s: Seq<char>, from: char, to: char) -> Seq<char> {
    s.map_values(|c: char| if c == from { to } else { c })
}

/// `s` with every `'_'` replaced by `'-'`, as `s.replace('_', "-")` gives it.
pub fn underscores_to_hyphens(s: &str) -> (res: String)
    ensures
        res@ == replace_char(s@, '_', '-'),
{
    let n = s.unicode_len();
    let mut res = String::new();
    let mut i: usize = 0;
    while i < n
        invariant
            n == s@.len(),
            0 <= i <= n,
            res@ == replace_char(s@.take(i as int), '_', '-'),
        decreases n - i,
    {
        let c = s.get_char(i);
        let ghost mapped = if c == '_' { '-' } else { c };
        let ghost before = res@;
        if c == '_' {
            let piece = "-";
            proof {
                reveal_strlit("-");
            }
            assert(piece@ =~= seq!['-']);
            res.append(piece);
        } else {
            let piece = s.substring_char(i, i + 1);
            assert(piece@ =~= seq![c]);
            res.append(piece);
        }
        assert(res@ =~= before.push(mapped));
        assert(s@.take(i + 1) =~= s@.take(i as int).push(c));
        assert(replace_char(s@.take(i + 1), '_', '-') =~= replace_char(
            s@.take(i as int),
            '_',
            '-',
        ).push(mapped));
        i = i + 1;
    }
    assert(s@.take(n as int) =~= s@);
    res
}

} // verus!
