//! Small verified string helpers: comparison, truncation, padding and
//! number formatting.
use vstd::prelude::*;

verus! {

/// `true` exactly when the two strings hold the same characters.
pub fn str_eq(a: &str, b: &str) -> (res: bool)
    ensures
        res == (a@ == b@),
{
    let n = a.unicode_len();
    if n != b.unicode_len() {
        return false;
    }
    let mut i: usize = 0;
    while i < n
        invariant
            n == a@.len(),
            n == b@.len(),
            0 <= i <= n,
            forall|j: int| 0 <= j < i ==> a@[j] == b@[j],
        decreases n - i,
    {
        if a.get_char(i) != b.get_char(i) {
            return false;
        }
        i = i + 1;
    }
    assert(a@ =~= b@);
    true
}


/// The first `width` characters of `s`, or all of `s` when it is shorter.
pub open spec fn trimmed(s: Seq<char>, width: int) -> Seq<char> {
    if width < s.len() {
        s.take(width)
    } else {
        s
    }
}

/// At most `width` characters of `text`, from its start.
pub fn trim_to_width(text: &str, width: usize) -> (res: String)
    ensures
        res@ == trimmed(text@, width as int),
{
    let n = text.unicode_len();
    if width < n {
        let prefix = text.substring_char(0, width);
        assert(prefix@ =~= text@.take(width as int));
        prefix.to_owned()
    } else {
        text.to_owned()
    }
}

/// `n` spaces.
pub open spec fn spaces_spec(n: nat) -> Seq<char> {
    Seq::new(n, |_i: int| ' ')
}

/// A string of `n` spaces.
pub fn spaces(n: usize) -> (res: String)
    ensures
        res@ == spaces_spec(n as nat),
{
    let mut res = String::new();
    let mut i: usize = 0;
    while i < n
        invariant
            0 <= i <= n,
            res@ == spaces_spec(i as nat),
        decreases n - i,
    {
        proof {
            reveal_strlit(" ");
        }
        res.append(" ");
        assert(res@ =~= spaces_spec((i + 1) as nat));
        i = i + 1;
    }
    res
}

/// The digit character for `d` in base sixteen, upper case.
pub open spec fn hex_char(d: int) -> char {
    if d < 10 {
        ('0' as int + d) as char
    } else {
        ('A' as int + d - 10) as char
    }
}

/// The one-character string for digit `d` in base sixteen, upper case.
fn hex_digit(d: u8) -> (res: &'static str)
    requires
        d < 16,
    ensures
        res@ == seq![hex_char(d as int)],
{
    match d {
        0 => { proof { reveal_strlit("0"); } "0" },
        1 => { proof { reveal_strlit("1"); } "1" },
        2 => { proof { reveal_strlit("2"); } "2" },
        3 => { proof { reveal_strlit("3"); } "3" },
        4 => { proof { reveal_strlit("4"); } "4" },
        5 => { proof { reveal_strlit("5"); } "5" },
        6 => { proof { reveal_strlit("6"); } "6" },
        7 => { proof { reveal_strlit("7"); } "7" },
        8 => { proof { reveal_strlit("8"); } "8" },
        9 => { proof { reveal_strlit("9"); } "9" },
        10 => { proof { reveal_strlit("A"); } "A" },
        11 => { proof { reveal_strlit("B"); } "B" },
        12 => { proof { reveal_strlit("C"); } "C" },
        13 => { proof { reveal_strlit("D"); } "D" },
        14 => { proof { reveal_strlit("E"); } "E" },
        _ => { proof { reveal_strlit("F"); } "F" },
    }
}

/// A byte as two upper-case hexadecimal digits.
pub open spec fn hex_byte(b: u8) -> Seq<char> {
    seq![hex_char(b as int / 16), hex_char(b as int % 16)]
}

/// The bytes in upper-case hexadecimal, separated by a comma and a space.
pub open spec fn hex_list_items(bytes: Seq<u8>) -> Seq<char>
    decreases bytes.len(),
{
    if bytes.len() == 0 {
        Seq::empty()
    } else if bytes.len() == 1 {
        hex_byte(bytes[0])
    } else {
        hex_list_items(bytes.drop_last()) + seq![',', ' '] + hex_byte(bytes.last())
    }
}

/// A byte list in brackets, each byte as two upper-case hexadecimal digits:
/// `[E0, 2A]`.
pub open spec fn hex_list(bytes: Seq<u8>) -> Seq<char> {
    seq!['['] + hex_list_items(bytes) + seq![']']
}

/// Formats bytes as a bracketed list of two-digit upper-case hexadecimal
/// numbers, separated by `", "`.
pub fn format_hex_bytes(bytes: &[u8]) -> (res: String)
    ensures
        res@ == hex_list(bytes@),
{
    let mut body = String::new();
    let mut i: usize = 0;
    while i < bytes.len()
        invariant
            0 <= i <= bytes@.len(),
            body@ == hex_list_items(bytes@.take(i as int)),
        decreases bytes.len() - i,
    {
        let b = bytes[i];
        let ghost before = body@;
        if i > 0 {
            proof {
                reveal_strlit(", ");
            }
            body.append(", ");
        }
        body.append(hex_digit(b / 16));
        body.append(hex_digit(b % 16));
        proof {
            let t = bytes@.take(i + 1);
            assert(t.drop_last() =~= bytes@.take(i as int));
            assert(t.last() == b);
            if i == 0 {
                assert(body@ =~= hex_byte(b));
            } else {
                assert(body@ =~= before + seq![',', ' '] + hex_byte(b));
            }
        }
        i = i + 1;
    }
    assert(bytes@.take(bytes@.len() as int) =~= bytes@);
    let mut res = String::new();
    proof {
        reveal_strlit("[");
        reveal_strlit("]");
    }
    res.append("[");
    res.append(body.as_str());
    res.append("]");
    assert(res@ =~= hex_list(bytes@));
    res
}

/// The decimal digits of `n`, without leading zeros.
pub open spec fn decimal(n: nat) -> Seq<char>
    decreases n,
{
    if n < 10 {
        seq![hex_char(n as int)]
    } else {
        decimal(n / 10) + seq![hex_char((n % 10) as int)]
    }
}

/// `n` in decimal.
pub fn format_decimal(n: u64) -> (res: String)
    ensures
        res@ == decimal(n as nat),
    decreases n,
{
    if n < 10 {
        hex_digit(n as u8).to_owned()
    } else {
        let mut res = format_decimal(n / 10);
        res.append(hex_digit((n % 10) as u8));
        res
    }
}


/// Cutting to a width keeps a prefix of the text that is no longer than the
/// width, and keeps the whole text when it fits.
pub proof fn law_trimmed_is_prefix(s: Seq<char>, width: nat)
    ensures
        trimmed(s, width as int).len() <= width,
        trimmed(s, width as int).len() <= s.len(),
        trimmed(s, width as int) =~= s.take(trimmed(s, width as int).len() as int),
        s.len() <= width ==> trimmed(s, width as int) == s,
{
}

} // verus!
