//! Trigger-key names: parsing a configured name into a virtual-key code and
//! writing a code back as a name.

use vstd::prelude::*;

use crate::config::{ZoomConfig, VK_C};

verus! {

/// Uppercase hexadecimal digits, by value.
pub open spec fn hex_digit_chars() -> Seq<char> {
    seq!['0', '1', '2', '3', '4', '5', '6', '7', '8', '9', 'A', 'B', 'C', 'D', 'E', 'F']
}

/// The letters `A` to `Z`, in order.
pub open spec fn letter_chars() -> Seq<char> {
    seq![
        'A', 'B', 'C', 'D', 'E', 'F', 'G', 'H', 'I', 'J', 'K', 'L', 'M',
        'N', 'O', 'P', 'Q', 'R', 'S', 'T', 'U', 'V', 'W', 'X', 'Y', 'Z',
    ]
}

/// Value of `c` as a digit in any radix up to 36 (`0-9`, then `a-z` or
/// `A-Z`); 36 for a character that is no digit at all.
pub open spec fn digit_value(c: char) -> int {
    let v = c as u32 as int;
    if 48 <= v <= 57 {
        v - 48
    } else if 65 <= v <= 90 {
        v - 55
    } else if 97 <= v <= 122 {
        v - 87
    } else {
        36
    }
}

/// Every character of `s` is a digit in `radix`.
pub open spec fn all_digits(s: Seq<char>, radix: int) -> bool {
    forall|i: int| 0 <= i < s.len() ==> digit_value(#[trigger] s[i]) < radix
}

/// The number that the digits `s` denote in `radix`.
pub open spec fn digits_value(s: Seq<char>, radix: int) -> int
    decreases s.len(),
{
    if s.len() == 0 {
        0
    } else {
        digits_value(s.drop_last(), radix) * radix + digit_value(s.last())
    }
}

/// An optional `+` or `-` followed by one or more digits in `radix`, and the
/// number it denotes.
pub open spec fn signed_value(s: Seq<char>, radix: int) -> Option<int> {
    if s.len() > 0 && (s[0] == '+' || s[0] == '-') {
        let d = s.drop_first();
        if d.len() > 0 && all_digits(d, radix) {
            Some(
                if s[0] == '-' {
                    -digits_value(d, radix)
                } else {
                    digits_value(d, radix)
                },
            )
        } else {
            None
        }
    } else if s.len() > 0 && all_digits(s, radix) {
        Some(digits_value(s, radix))
    } else {
        None
    }
}

/// The `i32` that `s` spells in `radix`, if it spells one within range.
pub open spec fn parsed_i32(s: Seq<char>, radix: int) -> Option<i32> {
    match signed_value(s, radix) {
        Some(v) => if i32::MIN <= v <= i32::MAX {
            Some(v as i32)
        } else {
            None
        },
        None => None,
    }
}

/// Relies on `i32::from_str_radix` with radix 16: an optional sign and
/// hexadecimal digits of either case, rejected when empty, when another
/// character occurs, or when the value is out of range.
#[verifier::external_body]
fn parse_hex_i32(s: &str) -> (r: Option<i32>)
    ensures
        r == parsed_i32(s@, 16),
{
    i32::from_str_radix(s, 16).ok()
}

/// Relies on `str::parse::<i32>`: an optional sign and decimal digits,
/// rejected when empty, when another character occurs, or when the value is
/// out of range.
#[verifier::external_body]
fn parse_decimal_i32(s: &str) -> (r: Option<i32>)
    ensures
        r == parsed_i32(s@, 10),
{
    s.parse::<i32>().ok()
}

/// What `str::to_uppercase` makes of a character sequence.
pub uninterp spec fn upper_of(s: Seq<char>) -> Seq<char>;

/// `c` with an ASCII lowercase letter replaced by its capital.
pub open spec fn ascii_upper_char(c: char) -> char {
    if 'a' <= c <= 'z' {
        ((c as u32 - 32) as u32) as char
    } else {
        c
    }
}

/// `s` with each ASCII lowercase letter replaced by its capital.
pub open spec fn ascii_upper(s: Seq<char>) -> Seq<char> {
    Seq::new(s.len(), |i: int| ascii_upper_char(s[i]))
}

/// Relies on `str::to_uppercase`: the result depends on the characters
/// alone, and on ASCII text it capitalises the letters one for one.
#[verifier::external_body]
fn uppercase(s: &str) -> (r: String)
    ensures
        r@ == upper_of(s@),
        vstd::utf8::is_ascii_chars(s@) ==> r@ == ascii_upper(s@),
{
    s.to_uppercase()
}

/// The virtual-key code named by an uppercase key name; `C` for a name that
/// is not known.
pub open spec fn key_name_code(u: Seq<char>) -> i32 {
    if u.len() == 1 && ('A' <= u[0] <= 'Z' || '0' <= u[0] <= '9') {
        u[0] as u32 as i32
    } else if u.len() == 2 && u[0] == 'F' && '1' <= u[1] <= '9' {
        (0x6F + digit_value(u[1])) as i32
    } else if u.len() == 3 && u[0] == 'F' && u[1] == '1' && '0' <= u[2] <= '2' {
        (0x79 + digit_value(u[2])) as i32
    } else if u == "CTRL"@ || u == "CONTROL"@ {
        0x11
    } else if u == "SHIFT"@ {
        0x10
    } else if u == "ALT"@ || u == "MENU"@ {
        0x12
    } else if u == "SPACE"@ {
        0x20
    } else if u == "TAB"@ {
        0x09
    } else if u == "ENTER"@ || u == "RETURN"@ {
        0x0D
    } else if u == "ESCAPE"@ || u == "ESC"@ {
        0x1B
    } else if u == "BACKSPACE"@ || u == "BACK"@ {
        0x08
    } else {
        VK_C
    }
}

/// The key code an uppercase setting denotes: a single digit names a digit
/// key; otherwise a `0X`-prefixed hexadecimal code, else a decimal code,
/// else a key name.
pub open spec fn key_code_spec(u: Seq<char>) -> i32 {
    if u.len() == 1 && '0' <= u[0] <= '9' {
        key_name_code(u)
    } else if u.len() >= 2 && u[0] == '0' && u[1] == 'X' && parsed_i32(u.subrange(2, u.len() as int), 16) is Some {
        parsed_i32(u.subrange(2, u.len() as int), 16)->0
    } else if parsed_i32(u, 10) is Some {
        parsed_i32(u, 10)->0
    } else {
        key_name_code(u)
    }
}

/// A trigger-key setting in capitals, as `parse_key` sees it.
pub open spec fn setting_upper(s: Seq<char>) -> Seq<char> {
    if vstd::utf8::is_ascii_chars(s) {
        ascii_upper(s)
    } else {
        upper_of(s)
    }
}

/// The key code a trigger-key setting denotes, case ignored.
pub open spec fn key_of_setting(s: Seq<char>) -> i32 {
    key_code_spec(setting_upper(s))
}

/// An uppercase setting of the form `0X` and an `i32` in hexadecimal.
pub open spec fn is_hex_code(u: Seq<char>) -> bool {
    u.len() >= 2 && u[0] == '0' && u[1] == 'X' && parsed_i32(u.subrange(2, u.len() as int), 16) is Some
}

/// One of the uppercase key names that `key_name_code` knows.
pub open spec fn is_key_name(u: Seq<char>) -> bool {
    ||| u.len() == 1 && ('A' <= u[0] <= 'Z' || '0' <= u[0] <= '9')
    ||| u.len() == 2 && u[0] == 'F' && '1' <= u[1] <= '9'
    ||| u.len() == 3 && u[0] == 'F' && u[1] == '1' && '0' <= u[2] <= '2'
    ||| u == "CTRL"@ || u == "CONTROL"@ || u == "SHIFT"@ || u == "ALT"@ || u == "MENU"@
    ||| u == "SPACE"@ || u == "TAB"@ || u == "ENTER"@ || u == "RETURN"@
    ||| u == "ESCAPE"@ || u == "ESC"@ || u == "BACKSPACE"@ || u == "BACK"@
}

/// `CTRL` and `CONTROL`, in any case, select the same key, and a setting
/// that is neither a number nor a known key name selects the letter `C`.
pub proof fn law_key_name_mapping(s: Seq<char>)
    ensures
        setting_upper(s) == "CTRL"@ || setting_upper(s) == "CONTROL"@ ==> key_of_setting(s)
            == 0x11,
        !is_hex_code(setting_upper(s)) && parsed_i32(setting_upper(s), 10) is None
            && !is_key_name(setting_upper(s)) ==> key_of_setting(s) == VK_C,
{
    let u = setting_upper(s);
    if u == "CTRL"@ || u == "CONTROL"@ {
        reveal_strlit("CTRL");
        reveal_strlit("CONTROL");
        assert(!all_digits(u, 10)) by {
            assert(digit_value(u[0]) >= 10);
        };
    }
}

/// Whether two strings hold the same characters.
fn same_text(a: &str, b: &str) -> (r: bool)
    ensures
        r == (a@ == b@),
{
    let n = a.unicode_len();
    if n != b.unicode_len() {
        return false;
    }
    let mut i: usize = 0;
    while i < n
        invariant
            n == a@.len(),
            n == b@.len(),
            i <= n,
            forall|k: int| 0 <= k < i ==> a@[k] == b@[k],
        decreases n - i,
    {
        if a.get_char(i) != b.get_char(i) {
            return false;
        }
        i = i + 1;
    }
    assert(a@ =~= b@);
    true
}

/// Digit value of a character known to be `0` to `9`.
fn decimal_digit(c: char) -> (r: i32)
    requires
        '0' <= c <= '9',
    ensures
        r == digit_value(c),
        0 <= r <= 9,
{
    (c as u32 - 48) as i32
}

/// The virtual-key code for an uppercase key name.
pub fn key_name_to_code(u: &str) -> (r: i32)
    ensures
        r == key_name_code(u@),
{
    let n = u.unicode_len();
    if n == 1 {
        let c = u.get_char(0);
        if ('A' <= c && c <= 'Z') || ('0' <= c && c <= '9') {
            return c as u32 as i32;
        }
    }
    if n == 2 && u.get_char(0) == 'F' {
        let d = u.get_char(1);
        if '1' <= d && d <= '9' {
            return 0x6F + decimal_digit(d);
        }
    }
    if n == 3 && u.get_char(0) == 'F' && u.get_char(1) == '1' {
        let d = u.get_char(2);
        if '0' <= d && d <= '2' {
            return 0x79 + decimal_digit(d);
        }
    }
    if same_text(u, "CTRL") || same_text(u, "CONTROL") {
        0x11
    } else if same_text(u, "SHIFT") {
        0x10
    } else if same_text(u, "ALT") || same_text(u, "MENU") {
        0x12
    } else if same_text(u, "SPACE") {
        0x20
    } else if same_text(u, "TAB") {
        0x09
    } else if same_text(u, "ENTER") || same_text(u, "RETURN") {
        0x0D
    } else if same_text(u, "ESCAPE") || same_text(u, "ESC") {
        0x1B
    } else if same_text(u, "BACKSPACE") || same_text(u, "BACK") {
        0x08
    } else {
        VK_C
    }
}

/// The key code that an already uppercased setting denotes.
pub fn key_code_from_upper(u: &str) -> (r: i32)
    ensures
        r == key_code_spec(u@),
{
    let n = u.unicode_len();
    if n == 1 {
        let c = u.get_char(0);
        if '0' <= c && c <= '9' {
            return key_name_to_code(u);
        }
    }
    if n >= 2 && u.get_char(0) == '0' && u.get_char(1) == 'X' {
        let rest = u.substring_char(2, n);
        match parse_hex_i32(rest) {
            Some(code) => {
                return code;
            },
            None => {},
        }
    }
    match parse_decimal_i32(u) {
        Some(code) => code,
        None => key_name_to_code(u),
    }
}

/// Digits of `n` in `radix` (uppercase letters above nine), without
/// leading zeros.
pub open spec fn radix_text(n: nat, radix: nat) -> Seq<char>
    decreases n
    via radix_text_decreases
{
    if n < radix || radix < 2 {
        seq![hex_digit_chars()[n as int]]
    } else {
        radix_text(n / radix, radix).push(hex_digit_chars()[(n % radix) as int])
    }
}

#[via_fn]
proof fn radix_text_decreases(n: nat, radix: nat) {
    if !(n < radix || radix < 2) {
        assert(n / radix < n) by (nonlinear_arith)
            requires
                n >= radix >= 2,
        ;
    }
}

/// Uppercase hexadecimal digits of `n`, padded to at least two.
pub open spec fn hex_text2(n: nat) -> Seq<char> {
    if n < 16 {
        seq!['0', hex_digit_chars()[n as int]]
    } else {
        radix_text(n, 16)
    }
}

/// The name under which a key code is written to the settings file: a
/// key name (a digit for the digit keys), the decimal number for a negative
/// code, else `0x` and at least two uppercase hexadecimal digits.
pub open spec fn key_name_of(code: i32) -> Seq<char> {
    if 0x41 <= code <= 0x5A {
        seq![letter_chars()[code - 0x41]]
    } else if 0x70 <= code <= 0x78 {
        seq!['F', hex_digit_chars()[code - 0x6F]]
    } else if 0x79 <= code <= 0x7B {
        seq!['F', '1', hex_digit_chars()[code - 0x79]]
    } else if code == 0x11 {
        "CTRL"@
    } else if code == 0x10 {
        "SHIFT"@
    } else if code == 0x12 {
        "ALT"@
    } else if code == 0x20 {
        "SPACE"@
    } else if code == 0x09 {
        "TAB"@
    } else if code == 0x0D {
        "ENTER"@
    } else if code == 0x1B {
        "ESC"@
    } else if 0x30 <= code <= 0x39 {
        seq![hex_digit_chars()[code - 0x30]]
    } else if code < 0 {
        seq!['-'] + radix_text((-code) as nat, 10)
    } else {
        seq!['0', 'x'] + hex_text2(code as nat)
    }
}

/// A one-character string holding `table[i]`.
fn char_at(table: &str, i: usize) -> (r: String)
    requires
        i < table@.len() <= 26,
    ensures
        r@ == seq![table@[i as int]],
{
    let s = table.substring_char(i, i + 1);
    assert(s@ =~= seq![table@[i as int]]);
    String::from_str(s)
}

/// One uppercase hexadecimal digit.
fn hex_digit(d: u32) -> (r: String)
    requires
        d < 16,
    ensures
        r@ == seq![hex_digit_chars()[d as int]],
{
    proof {
        reveal_strlit("0123456789ABCDEF");
        assert("0123456789ABCDEF"@ =~= hex_digit_chars());
    }
    char_at("0123456789ABCDEF", d as usize)
}

/// Digits of `n` in `radix`, without leading zeros.
fn radix_string(n: u32, radix: u32) -> (r: String)
    requires
        2 <= radix <= 16,
    ensures
        r@ == radix_text(n as nat, radix as nat),
    decreases n,
{
    if n < radix {
        hex_digit(n)
    } else {
        assert(n / radix < n) by (nonlinear_arith)
            requires
                n >= radix >= 2,
        ;
        let mut s = radix_string(n / radix, radix);
        let d = hex_digit(n % radix);
        s.append(d.as_str());
        assert(s@ =~= radix_text(n as nat, radix as nat));
        s
    }
}

impl ZoomConfig {
    /// Parses a trigger-key setting, ignoring case: a single digit names a
    /// digit key; otherwise a `0x`-prefixed hexadecimal code, a decimal
    /// code, or a key name (a letter, `F1` to `F12`, a modifier or one of a
    /// few other keys). Anything else selects the letter `C`.
    pub fn parse_key(value: &str) -> (r: i32)
        ensures
            r == key_of_setting(value@),
    {
        let upper = uppercase(value);
        key_code_from_upper(upper.as_str())
    }

    /// Writes a key code as the name the settings file uses for it; a code
    /// without a name is written as a number that `parse_key` reads back.
    pub fn key_to_string(key_code: i32) -> (r: String)
        ensures
            r@ == key_name_of(key_code),
    {
        if 0x41 <= key_code && key_code <= 0x5A {
            proof {
                reveal_strlit("ABCDEFGHIJKLMNOPQRSTUVWXYZ");
                assert("ABCDEFGHIJKLMNOPQRSTUVWXYZ"@ =~= letter_chars());
            }
            char_at("ABCDEFGHIJKLMNOPQRSTUVWXYZ", (key_code - 0x41) as usize)
        } else if 0x70 <= key_code && key_code <= 0x78 {
            let mut s = String::from_str("F");
            let d = hex_digit((key_code - 0x6F) as u32);
            s.append(d.as_str());
            proof {
                reveal_strlit("F");
            }
            assert(s@ =~= key_name_of(key_code));
            s
        } else if 0x79 <= key_code && key_code <= 0x7B {
            let mut s = String::from_str("F1");
            let d = hex_digit((key_code - 0x79) as u32);
            s.append(d.as_str());
            proof {
                reveal_strlit("F1");
            }
            assert(s@ =~= key_name_of(key_code));
            s
        } else if key_code == 0x11 {
            String::from_str("CTRL")
        } else if key_code == 0x10 {
            String::from_str("SHIFT")
        } else if key_code == 0x12 {
            String::from_str("ALT")
        } else if key_code == 0x20 {
            String::from_str("SPACE")
        } else if key_code == 0x09 {
            String::from_str("TAB")
        } else if key_code == 0x0D {
            String::from_str("ENTER")
        } else if key_code == 0x1B {
            String::from_str("ESC")
        } else if 0x30 <= key_code && key_code <= 0x39 {
            hex_digit((key_code - 0x30) as u32)
        } else if key_code < 0 {
            let mut s = String::from_str("-");
            let digits = radix_string((-(key_code as i64)) as u32, 10);
            s.append(digits.as_str());
            proof {
                reveal_strlit("-");
            }
            assert(s@ =~= key_name_of(key_code));
            s
        } else {
            let bits = key_code as u32;
            let mut s = String::from_str("0x");
            if bits < 16 {
                s.append("0");
            }
            let digits = radix_string(bits, 16);
            s.append(digits.as_str());
            proof {
                reveal_strlit("0x");
                reveal_strlit("0");
            }
            assert(s@ =~= key_name_of(key_code));
            s
        }
    }
}

proof fn lemma_hex_digit_value(d: int)
    requires
        0 <= d < 16,
    ensures
        digit_value(hex_digit_chars()[d]) == d,
        '0' <= hex_digit_chars()[d] <= 'F',
        ascii_upper_char(hex_digit_chars()[d]) == hex_digit_chars()[d],
{
    let c = hex_digit_chars();
    assert(c[0] == '0' && c[1] == '1' && c[2] == '2' && c[3] == '3');
    assert(c[4] == '4' && c[5] == '5' && c[6] == '6' && c[7] == '7');
    assert(c[8] == '8' && c[9] == '9' && c[10] == 'A' && c[11] == 'B');
    assert(c[12] == 'C' && c[13] == 'D' && c[14] == 'E' && c[15] == 'F');
}

proof fn lemma_radix_text(n: nat, radix: nat)
    requires
        2 <= radix <= 16,
    ensures
        radix_text(n, radix).len() > 0,
        all_digits(radix_text(n, radix), radix as int),
        digits_value(radix_text(n, radix), radix as int) == n,
        vstd::utf8::is_ascii_chars(radix_text(n, radix)),
        ascii_upper(radix_text(n, radix)) == radix_text(n, radix),
        '0' <= radix_text(n, radix)[0] <= 'F',
    decreases n,
{
    let t = radix_text(n, radix);
    if n < radix {
        lemma_hex_digit_value(n as int);
        assert(t.drop_last() =~= Seq::<char>::empty());
        assert(digits_value(Seq::<char>::empty(), radix as int) == 0);
        assert(t.last() == hex_digit_chars()[n as int]);
    } else {
        lemma_radix_text(n / radix, radix);
        lemma_hex_digit_value((n % radix) as int);
        let p = radix_text(n / radix, radix);
        assert(t.drop_last() =~= p);
        assert(t.last() == hex_digit_chars()[(n % radix) as int]);
        assert(t[0] == p[0]);
        assert(digits_value(t, radix as int) == digits_value(p, radix as int) * radix + (n
            % radix) as int);
        assert(n == (n / radix) * radix + n % radix) by (nonlinear_arith)
            requires
                radix >= 2,
        ;
    }
    assert(ascii_upper(t) =~= t) by {
        assert forall|i: int| 0 <= i < t.len() implies ascii_upper_char(t[i]) == t[i] by {
            if n >= radix && i < t.len() - 1 {
                assert(t[i] == radix_text(n / radix, radix)[i]);
                assert(ascii_upper(radix_text(n / radix, radix))[i] == radix_text(
                    n / radix,
                    radix,
                )[i]);
            }
        };
    };
}

proof fn lemma_hex_text2(n: nat)
    requires
        n <= i32::MAX,
    ensures
        parsed_i32(hex_text2(n), 16) == Some(n as i32),
        vstd::utf8::is_ascii_chars(hex_text2(n)),
        ascii_upper(hex_text2(n)) == hex_text2(n),
{
    let t = hex_text2(n);
    if n < 16 {
        lemma_hex_digit_value(n as int);
        let z = seq!['0'];
        assert(t.drop_last() =~= z);
        assert(t.last() == hex_digit_chars()[n as int]);
        assert(z.drop_last() =~= Seq::<char>::empty());
        assert(z.last() == '0');
        assert(digits_value(Seq::<char>::empty(), 16) == 0);
        assert(digits_value(z, 16) == 0);
        assert(digits_value(t, 16) == n);
        assert(ascii_upper(t) =~= t);
    } else {
        lemma_radix_text(n, 16);
    }
}

proof fn lemma_letter_round_trip(k: i32)
    requires
        0x41 <= k <= 0x5A,
    ensures
        key_of_setting(key_name_of(k)) == k,
{
    let s = key_name_of(k);
    let l = letter_chars();
    let c = l[k - 0x41];
    assert(c as u32 == k) by {
        assert(l[0] == 'A' && l[1] == 'B' && l[2] == 'C' && l[3] == 'D' && l[4] == 'E');
        assert(l[5] == 'F' && l[6] == 'G' && l[7] == 'H' && l[8] == 'I' && l[9] == 'J');
        assert(l[10] == 'K' && l[11] == 'L' && l[12] == 'M' && l[13] == 'N' && l[14] == 'O');
        assert(l[15] == 'P' && l[16] == 'Q' && l[17] == 'R' && l[18] == 'S' && l[19] == 'T');
        assert(l[20] == 'U' && l[21] == 'V' && l[22] == 'W' && l[23] == 'X' && l[24] == 'Y');
        assert(l[25] == 'Z');
    };
    assert(vstd::utf8::is_ascii_chars(s));
    assert(ascii_upper(s) =~= s);
    assert(!all_digits(s, 10)) by {
        assert(digit_value(s[0]) >= 10);
    };
}

proof fn lemma_function_key_round_trip(k: i32)
    requires
        0x70 <= k <= 0x7B,
    ensures
        key_of_setting(key_name_of(k)) == k,
{
    let s = key_name_of(k);
    if k <= 0x78 {
        lemma_hex_digit_value(k - 0x6F);
    } else {
        lemma_hex_digit_value(k - 0x79);
    }
    assert(vstd::utf8::is_ascii_chars(s));
    assert(ascii_upper(s) =~= s);
    assert(!all_digits(s, 10)) by {
        assert(digit_value(s[0]) >= 10);
    };
}

proof fn lemma_named_key_round_trip(k: i32)
    requires
        k == 0x11 || k == 0x10 || k == 0x12 || k == 0x20 || k == 0x09 || k == 0x0D || k == 0x1B,
    ensures
        key_of_setting(key_name_of(k)) == k,
{
    let s = key_name_of(k);
    reveal_strlit("CTRL");
    reveal_strlit("SHIFT");
    reveal_strlit("ALT");
    reveal_strlit("SPACE");
    reveal_strlit("TAB");
    reveal_strlit("ENTER");
    reveal_strlit("ESC");
    reveal_strlit("CONTROL");
    reveal_strlit("MENU");
    reveal_strlit("RETURN");
    reveal_strlit("ESCAPE");
    reveal_strlit("BACKSPACE");
    reveal_strlit("BACK");
    assert(vstd::utf8::is_ascii_chars(s));
    assert(ascii_upper(s) =~= s);
    assert(!all_digits(s, 10)) by {
        assert(digit_value(s[0]) >= 10);
    };
}

proof fn lemma_hex_key_round_trip(k: i32)
    requires
        k >= 0,
        !(0x41 <= k <= 0x5A),
        !(0x70 <= k <= 0x7B),
        !(k == 0x11 || k == 0x10 || k == 0x12 || k == 0x20 || k == 0x09 || k == 0x0D || k == 0x1B),
        !(0x30 <= k <= 0x39),
    ensures
        key_of_setting(key_name_of(k)) == k,
{
    let s = key_name_of(k);
    let t = hex_text2(k as nat);
    lemma_hex_text2(k as nat);
    assert(s == seq!['0', 'x'] + t);
    assert(vstd::utf8::is_ascii_chars(s));
    let u = ascii_upper(s);
    assert(u =~= seq!['0', 'X'] + t);
    assert(u.subrange(2, u.len() as int) =~= t);
}

proof fn lemma_digit_key_round_trip(k: i32)
    requires
        0x30 <= k <= 0x39,
    ensures
        key_of_setting(key_name_of(k)) == k,
{
    let s = key_name_of(k);
    let c = hex_digit_chars();
    let d = c[k - 0x30];
    assert(d as u32 == k && '0' <= d <= '9') by {
        assert(c[0] == '0' && c[1] == '1' && c[2] == '2' && c[3] == '3' && c[4] == '4');
        assert(c[5] == '5' && c[6] == '6' && c[7] == '7' && c[8] == '8' && c[9] == '9');
    };
    assert(s == seq![d]);
    assert(vstd::utf8::is_ascii_chars(s));
    assert(ascii_upper(s) =~= s);
    assert(setting_upper(s) == s);
    assert(key_name_code(s) == k);
    assert(key_code_spec(s) == k);
}

proof fn lemma_negative_key_round_trip(k: i32)
    requires
        k < 0,
    ensures
        key_of_setting(key_name_of(k)) == k,
{
    let s = key_name_of(k);
    let n = (-k) as nat;
    let t = radix_text(n, 10);
    lemma_radix_text(n, 10);
    assert(s == seq!['-'] + t);
    assert(vstd::utf8::is_ascii_chars(s));
    assert(ascii_upper(s) =~= s);
    assert(s.drop_first() =~= t);
    assert(signed_value(s, 10) == Some(k as int));
}

/// Writing a key code as a name and parsing the name back gives the code.
pub proof fn law_key_name_round_trip(k: i32)
    ensures
        key_of_setting(key_name_of(k)) == k,
{
    if 0x41 <= k <= 0x5A {
        lemma_letter_round_trip(k);
    } else if 0x70 <= k <= 0x7B {
        lemma_function_key_round_trip(k);
    } else if k == 0x11 || k == 0x10 || k == 0x12 || k == 0x20 || k == 0x09 || k == 0x0D
        || k == 0x1B {
        lemma_named_key_round_trip(k);
    } else if 0x30 <= k <= 0x39 {
        lemma_digit_key_round_trip(k);
    } else if k < 0 {
        lemma_negative_key_round_trip(k);
    } else {
        lemma_hex_key_round_trip(k);
    }
}

} // verus!
