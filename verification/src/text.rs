//! Small text builders shared by the player and the import plugin:
//! percent-encoding, hexadecimal and decimal rendering, and the IEEE CRC-32.
use vstd::prelude::*;
use vstd::string::StringSliceAdditionalSpecFns;
use vstd::string::StrSliceExecFns;

verus! {

/// The character of a hexadecimal digit `n` (`0 <= n < 16`), in upper case.
pub open spec fn hex_upper(n: int) -> char {
    if n < 10 {
        (48 + n) as char
    } else {
        (55 + n) as char
    }
}

/// The character of a hexadecimal digit `n` (`0 <= n < 16`), in lower case.
pub open spec fn hex_lower(n: int) -> char {
    if n < 10 {
        (48 + n) as char
    } else {
        (87 + n) as char
    }
}

/// The character of a decimal digit `n` (`0 <= n < 10`).
pub open spec fn digit_char(n: int) -> char {
    (48 + n) as char
}

/// Bytes that survive percent-encoding unchanged: ASCII letters, digits and `-_.~`.
pub open spec fn is_unreserved(b: u8) -> bool {
    ||| 48 <= b <= 57
    ||| 65 <= b <= 90
    ||| 97 <= b <= 122
    ||| b == 45
    ||| b == 95
    ||| b == 46
    ||| b == 126
}

/// The encoding of one byte: itself when unreserved, else `%` and two upper-case hex digits.
pub open spec fn percent_encoded_byte(b: u8) -> Seq<char> {
    if is_unreserved(b) {
        seq![b as char]
    } else {
        seq!['%', hex_upper(b as int / 16), hex_upper(b as int % 16)]
    }
}

/// The percent-encoding of a byte string.
pub open spec fn percent_encoded(bytes: Seq<u8>) -> Seq<char>
    decreases bytes.len(),
{
    if bytes.len() == 0 {
        Seq::empty()
    } else {
        percent_encoded(bytes.drop_last()) + percent_encoded_byte(bytes.last())
    }
}

/// Two upper-case hex digits per byte.
pub open spec fn hex_upper_bytes(bytes: Seq<u8>) -> Seq<char>
    decreases bytes.len(),
{
    if bytes.len() == 0 {
        Seq::empty()
    } else {
        hex_upper_bytes(bytes.drop_last()) + seq![
            hex_upper(bytes.last() as int / 16),
            hex_upper(bytes.last() as int % 16),
        ]
    }
}

/// Upper-case hex has two digits per byte.
pub proof fn lemma_hex_upper_len(bytes: Seq<u8>)
    ensures
        hex_upper_bytes(bytes).len() == 2 * bytes.len(),
    decreases bytes.len(),
{
    if bytes.len() > 0 {
        lemma_hex_upper_len(bytes.drop_last());
    }
}

/// Hex text, digit by digit: byte `k` is written at `2k` (its high digit) and
/// `2k + 1` (its low digit), in either case.
pub proof fn lemma_hex_digits(bytes: Seq<u8>)
    ensures
        hex_lower_bytes(bytes).len() == 2 * bytes.len(),
        hex_upper_bytes(bytes).len() == 2 * bytes.len(),
        forall|k: int|
            0 <= k < bytes.len() ==> #[trigger] hex_lower_bytes(bytes)[2 * k] == hex_lower(
                bytes[k] as int / 16,
            ) && hex_lower_bytes(bytes)[2 * k + 1] == hex_lower(bytes[k] as int % 16),
        forall|k: int|
            0 <= k < bytes.len() ==> #[trigger] hex_upper_bytes(bytes)[2 * k] == hex_upper(
                bytes[k] as int / 16,
            ) && hex_upper_bytes(bytes)[2 * k + 1] == hex_upper(bytes[k] as int % 16),
    decreases bytes.len(),
{
    if bytes.len() > 0 {
        let init = bytes.drop_last();
        lemma_hex_digits(init);
        assert forall|k: int| 0 <= k < bytes.len() implies #[trigger] hex_lower_bytes(bytes)[2 * k]
            == hex_lower(bytes[k] as int / 16) && hex_lower_bytes(bytes)[2 * k + 1] == hex_lower(
            bytes[k] as int % 16,
        ) by {
            if k < init.len() {
                assert(hex_lower_bytes(init)[2 * k] == hex_lower(init[k] as int / 16));
            }
        }
        assert forall|k: int| 0 <= k < bytes.len() implies #[trigger] hex_upper_bytes(bytes)[2 * k]
            == hex_upper(bytes[k] as int / 16) && hex_upper_bytes(bytes)[2 * k + 1] == hex_upper(
            bytes[k] as int % 16,
        ) by {
            if k < init.len() {
                assert(hex_upper_bytes(init)[2 * k] == hex_upper(init[k] as int / 16));
            }
        }
    }
}

/// Where `c` last occurs in `s`, and that it occurs nowhere after.
pub proof fn lemma_last_index_of(s: Seq<char>, c: char)
    ensures
        match last_index_of(s, c) {
            Some(i) => 0 <= i < s.len() && s[i] == c && forall|j: int| i < j < s.len() ==> s[j] != c,
            None => forall|j: int| 0 <= j < s.len() ==> s[j] != c,
        },
    decreases s.len(),
{
    if s.len() > 0 {
        lemma_last_index_of(s.drop_last(), c);
        if s.last() != c {
            assert forall|j: int| 0 <= j < s.len() - 1 implies s[j] == s.drop_last()[j] by {}
        }
    }
}

/// Two lower-case hex digits per byte.
pub open spec fn hex_lower_bytes(bytes: Seq<u8>) -> Seq<char>
    decreases bytes.len(),
{
    if bytes.len() == 0 {
        Seq::empty()
    } else {
        hex_lower_bytes(bytes.drop_last()) + seq![
            hex_lower(bytes.last() as int / 16),
            hex_lower(bytes.last() as int % 16),
        ]
    }
}

/// The shortest decimal rendering of `n`.
pub open spec fn decimal(n: nat) -> Seq<char>
    decreases n,
{
    if n < 10 {
        seq![digit_char(n as int)]
    } else {
        decimal(n / 10).push(digit_char((n % 10) as int))
    }
}

/// The decimal rendering of `n`, padded with a leading zero to two digits.
pub open spec fn decimal_pad2(n: nat) -> Seq<char> {
    if n < 10 {
        seq!['0'] + decimal(n)
    } else {
        decimal(n)
    }
}

/// The eight lower-case hex digits of a 32-bit value, most significant first.
pub open spec fn hex8_lower(v: u32) -> Seq<char> {
    Seq::new(8, |i: int| hex_lower(((v as int) / pow16(7 - i)) % 16))
}

/// `16` raised to `e`.
pub open spec fn pow16(e: int) -> int
    decreases e,
{
    if e <= 0 {
        1
    } else {
        16 * pow16(e - 1)
    }
}

/// Every power of sixteen is positive.
pub proof fn lemma_pow16_positive(e: int)
    ensures
        pow16(e) >= 1,
    decreases e,
{
    if e > 0 {
        lemma_pow16_positive(e - 1);
    }
}

/// Appends one character to a string (`String::push`).
#[verifier::external_body]
pub(crate) fn push_char(s: &mut String, c: char)
    ensures
        final(s)@ == old(s)@.push(c),
{
    s.push(c)
}

/// The length of a byte slice; Rust never lets a slice exceed `isize::MAX` bytes.
#[verifier::external_body]
pub(crate) fn byte_len(bytes: &[u8]) -> (n: usize)
    ensures
        n == bytes@.len(),
        n <= usize::MAX / 2,
{
    bytes.len()
}

/// The character of an ASCII byte.
pub fn ascii_char(b: u8) -> (c: char)
    requires
        b < 128,
    ensures
        c == b as char,
{
    b as char
}

/// The upper-case hex digit of `n`.
pub fn hex_upper_char(n: u8) -> (c: char)
    requires
        n < 16,
    ensures
        c == hex_upper(n as int),
{
    if n < 10 {
        ascii_char(48 + n)
    } else {
        ascii_char(55 + n)
    }
}

/// The lower-case hex digit of `n`.
pub fn hex_lower_char(n: u8) -> (c: char)
    requires
        n < 16,
    ensures
        c == hex_lower(n as int),
{
    if n < 10 {
        ascii_char(48 + n)
    } else {
        ascii_char(87 + n)
    }
}

/// Appends the percent-encoding of `bytes` to `out`.
pub fn push_percent_encoded(out: &mut String, bytes: &[u8])
    ensures
        final(out)@ == old(out)@ + percent_encoded(bytes@),
{
    let ghost start = out@;
    let mut i: usize = 0;
    while i < bytes.len()
        invariant
            i <= bytes@.len(),
            out@ == start + percent_encoded(bytes@.take(i as int)),
        decreases bytes@.len() - i,
    {
        let b = bytes[i];
        assert(bytes@.take(i as int + 1).drop_last() == bytes@.take(i as int));
        if (48 <= b && b <= 57) || (65 <= b && b <= 90) || (97 <= b && b <= 122) || b == 45 || b
            == 95 || b == 46 || b == 126 {
            push_char(out, ascii_char(b));
        } else {
            push_char(out, '%');
            push_char(out, hex_upper_char(b / 16));
            push_char(out, hex_upper_char(b % 16));
        }
        i = i + 1;
    }
    assert(bytes@.take(bytes@.len() as int) == bytes@);
}

/// The percent-encoding of the UTF-8 bytes of `input`.
pub fn percent_encode(input: &str) -> (out: String)
    ensures
        out@ == percent_encoded(input.spec_bytes()),
{
    let mut out = String::new();
    push_percent_encoded(&mut out, input.as_bytes());
    assert(out@ == Seq::<char>::empty() + percent_encoded(input.spec_bytes()));
    out
}

/// Appends two hex digits per byte (upper case) to `out`.
pub fn push_hex_upper(out: &mut String, bytes: &[u8])
    ensures
        final(out)@ == old(out)@ + hex_upper_bytes(bytes@),
{
    let ghost start = out@;
    let mut i: usize = 0;
    while i < bytes.len()
        invariant
            i <= bytes@.len(),
            out@ == start + hex_upper_bytes(bytes@.take(i as int)),
        decreases bytes@.len() - i,
    {
        let b = bytes[i];
        assert(bytes@.take(i as int + 1).drop_last() == bytes@.take(i as int));
        push_char(out, hex_upper_char(b / 16));
        push_char(out, hex_upper_char(b % 16));
        i = i + 1;
    }
    assert(bytes@.take(bytes@.len() as int) == bytes@);
}

/// Appends two hex digits per byte (lower case) to `out`.
pub fn push_hex_lower(out: &mut String, bytes: &[u8])
    ensures
        final(out)@ == old(out)@ + hex_lower_bytes(bytes@),
{
    let ghost start = out@;
    let mut i: usize = 0;
    while i < bytes.len()
        invariant
            i <= bytes@.len(),
            out@ == start + hex_lower_bytes(bytes@.take(i as int)),
        decreases bytes@.len() - i,
    {
        let b = bytes[i];
        assert(bytes@.take(i as int + 1).drop_last() == bytes@.take(i as int));
        push_char(out, hex_lower_char(b / 16));
        push_char(out, hex_lower_char(b % 16));
        i = i + 1;
    }
    assert(bytes@.take(bytes@.len() as int) == bytes@);
}

/// Appends the decimal rendering of `n` to `out`.
pub fn push_decimal(out: &mut String, n: u64)
    ensures
        final(out)@ == old(out)@ + decimal(n as nat),
    decreases n,
{
    if n >= 10 {
        push_decimal(out, n / 10);
    }
    push_char(out, ascii_char((n % 10) as u8 + 48));
}

/// Appends the decimal rendering of `n`, padded to two digits, to `out`.
pub fn push_decimal_pad2(out: &mut String, n: u64)
    ensures
        final(out)@ == old(out)@ + decimal_pad2(n as nat),
{
    if n < 10 {
        push_char(out, '0');
    }
    push_decimal(out, n);
}

/// Appends the eight lower-case hex digits of `v` to `out`.
pub fn push_hex8_lower(out: &mut String, v: u32)
    ensures
        final(out)@ == old(out)@ + hex8_lower(v),
{
    let ghost start = out@;
    let mut i: u32 = 0;
    let mut div: u32 = 0x1000_0000;
    assert(pow16(7) == 0x1000_0000) by {
        reveal_with_fuel(pow16, 8);
    }
    while i < 8
        invariant
            i <= 8,
            div as int == pow16(7 - i as int),
            div >= 1,
            out@ == start + hex8_lower(v).take(i as int),
        decreases 8 - i,
    {
        let d = ((v / div) % 16) as u8;
        push_char(out, hex_lower_char(d));
        assert(hex8_lower(v).take(i as int + 1) == hex8_lower(v).take(i as int).push(
            hex_lower(((v as int) / pow16(7 - i as int)) % 16),
        ));
        i = i + 1;
        if i < 8 {
            assert(pow16(8 - i as int) == 16 * pow16(7 - i as int));
            proof {
                lemma_pow16_positive(7 - i as int);
            }
            div = div / 16;
        }
    }
    assert(hex8_lower(v).take(8) == hex8_lower(v));
}

/// The reflected IEEE polynomial of CRC-32.
pub open spec fn crc_poly() -> u32 {
    0xedb8_8320
}

/// One bit step of the reflected CRC-32 register.
pub open spec fn crc_bit_step(crc: u32) -> u32 {
    (crc >> 1) ^ (if crc & 1 != 0 { crc_poly() } else { 0 })
}

/// `k` bit steps of the CRC-32 register.
pub open spec fn crc_bit_steps(crc: u32, k: nat) -> u32
    decreases k,
{
    if k == 0 {
        crc
    } else {
        crc_bit_steps(crc_bit_step(crc), (k - 1) as nat)
    }
}

/// The register after feeding one byte.
pub open spec fn crc_byte_step(crc: u32, byte: u8) -> u32 {
    crc_bit_steps(crc ^ (byte as u32), 8)
}

/// The register after feeding a byte string.
pub open spec fn crc_register(crc: u32, bytes: Seq<u8>) -> u32
    decreases bytes.len(),
{
    if bytes.len() == 0 {
        crc
    } else {
        crc_byte_step(crc_register(crc, bytes.drop_last()), bytes.last())
    }
}

/// The IEEE CRC-32 of a byte string (initial value and final xor `0xffffffff`).
pub open spec fn crc32(bytes: Seq<u8>) -> u32 {
    crc_register(0xffff_ffff, bytes) ^ 0xffff_ffff
}

/// The IEEE CRC-32 of `bytes`, computed bit by bit.
pub fn crc32_value(bytes: &[u8]) -> (r: u32)
    ensures
        r == crc32(bytes@),
{
    let mut crc: u32 = 0xffff_ffff;
    let mut i: usize = 0;
    while i < bytes.len()
        invariant
            i <= bytes@.len(),
            crc == crc_register(0xffff_ffff, bytes@.take(i as int)),
        decreases bytes@.len() - i,
    {
        assert(bytes@.take(i as int + 1).drop_last() == bytes@.take(i as int));
        let ghost before = crc;
        crc = crc ^ (bytes[i] as u32);
        let mut k: u32 = 0;
        while k < 8
            invariant
                k <= 8,
                crc_bit_steps(crc, (8 - k) as nat) == crc_byte_step(before, bytes@[i as int]),
            decreases 8 - k,
        {
            let next = (crc >> 1) ^ (if crc & 1 != 0 { 0xedb8_8320u32 } else { 0u32 });
            assert(next == crc_bit_step(crc));
            crc = next;
            k = k + 1;
        }
        i = i + 1;
    }
    assert(bytes@.take(bytes@.len() as int) == bytes@);
    crc ^ 0xffff_ffff
}

/// Whether two strings hold the same characters.
pub fn str_eq(a: &str, b: &str) -> (r: bool)
    ensures
        r == (a@ == b@),
{
    let x = a.as_bytes();
    let y = b.as_bytes();
    proof {
        vstd::utf8::encode_utf8_decode_utf8(a@);
        vstd::utf8::encode_utf8_decode_utf8(b@);
    }
    if x.len() != y.len() {
        return false;
    }
    let mut i: usize = 0;
    while i < x.len()
        invariant
            x@ == a.spec_bytes(),
            y@ == b.spec_bytes(),
            x@.len() == y@.len(),
            i <= x@.len(),
            forall|j: int| 0 <= j < i ==> x@[j] == y@[j],
        decreases x@.len() - i,
    {
        if x[i] != y[i] {
            return false;
        }
        i = i + 1;
    }
    assert(x@ =~= y@);
    true
}

/// A character with ASCII capitals made small.
pub open spec fn lower_char(c: char) -> char {
    if 'A' <= c <= 'Z' {
        ((c as u32) + 32) as char
    } else {
        c
    }
}

/// A string with ASCII capitals made small.
pub open spec fn ascii_lowercase(s: Seq<char>) -> Seq<char> {
    s.map_values(|c: char| lower_char(c))
}

/// `s` with ASCII capitals made small.
pub fn to_ascii_lowercase(s: &str) -> (r: String)
    ensures
        r@ == ascii_lowercase(s@),
{
    let n = s.unicode_len();
    let mut out = String::new();
    let mut i: usize = 0;
    while i < n
        invariant
            n == s@.len(),
            i <= n,
            out@ == ascii_lowercase(s@.take(i as int)),
        decreases n - i,
    {
        let c = s.get_char(i);
        let l = if 'A' <= c && c <= 'Z' {
            ascii_char((c as u8) + 32)
        } else {
            c
        };
        push_char(&mut out, l);
        assert(ascii_lowercase(s@.take(i as int + 1)) =~= ascii_lowercase(s@.take(i as int)).push(
            lower_char(c),
        ));
        i = i + 1;
    }
    assert(s@.take(n as int) =~= s@);
    out
}

/// `s` with every leading copy of `p` removed.
pub open spec fn strip_all_prefix(s: Seq<char>, p: Seq<char>) -> Seq<char>
    decreases s.len(),
{
    if p.len() > 0 && s.len() >= p.len() && s.take(p.len() as int) == p {
        strip_all_prefix(s.skip(p.len() as int), p)
    } else {
        s
    }
}

/// Whether `s` begins with `p`.
pub fn starts_with(s: &str, p: &str) -> (r: bool)
    ensures
        r == (s@.len() >= p@.len() && s@.take(p@.len() as int) == p@),
{
    let n = s.unicode_len();
    let m = p.unicode_len();
    if n < m {
        return false;
    }
    let mut i: usize = 0;
    while i < m
        invariant
            n == s@.len(),
            m == p@.len(),
            m <= n,
            i <= m,
            forall|j: int| 0 <= j < i ==> s@[j] == p@[j],
        decreases m - i,
    {
        if s.get_char(i) != p.get_char(i) {
            assert(s@.take(m as int)[i as int] != p@[i as int]);
            return false;
        }
        i = i + 1;
    }
    assert(s@.take(m as int) =~= p@);
    true
}

/// `s` with every leading copy of `p` removed (`str::trim_start_matches`).
pub fn trim_start_matches<'a>(s: &'a str, p: &str) -> (r: &'a str)
    requires
        p@.len() > 0,
    ensures
        r@ == strip_all_prefix(s@, p@),
{
    let mut cur = s;
    let m = p.unicode_len();
    while starts_with(cur, p)
        invariant
            m == p@.len(),
            m > 0,
            strip_all_prefix(cur@, p@) == strip_all_prefix(s@, p@),
        decreases cur@.len(),
    {
        let n = cur.unicode_len();
        cur = cur.substring_char(m, n);
    }
    cur
}


/// Whether a character is white space in Unicode (`char::is_whitespace`).
pub open spec fn is_whitespace(c: char) -> bool {
    let u = c as u32;
    ||| 9 <= u <= 13
    ||| u == 32
    ||| u == 0x85
    ||| u == 0xa0
    ||| u == 0x1680
    ||| 0x2000 <= u <= 0x200a
    ||| u == 0x2028
    ||| u == 0x2029
    ||| u == 0x202f
    ||| u == 0x205f
    ||| u == 0x3000
}

/// `s` without leading white space.
pub open spec fn trim_start_spec(s: Seq<char>) -> Seq<char>
    decreases s.len(),
{
    if s.len() > 0 && is_whitespace(s[0]) {
        trim_start_spec(s.skip(1))
    } else {
        s
    }
}

/// `s` without trailing white space.
pub open spec fn trim_end_spec(s: Seq<char>) -> Seq<char>
    decreases s.len(),
{
    if s.len() > 0 && is_whitespace(s.last()) {
        trim_end_spec(s.drop_last())
    } else {
        s
    }
}

/// `s` without leading and trailing white space.
pub open spec fn trimmed(s: Seq<char>) -> Seq<char> {
    trim_end_spec(trim_start_spec(s))
}

/// Whether a character is white space in Unicode.
pub fn is_whitespace_char(c: char) -> (r: bool)
    ensures
        r == is_whitespace(c),
{
    let u = c as u32;
    (9 <= u && u <= 13) || u == 32 || u == 0x85 || u == 0xa0 || u == 0x1680 || (0x2000 <= u && u
        <= 0x200a) || u == 0x2028 || u == 0x2029 || u == 0x202f || u == 0x205f || u == 0x3000
}

/// `s` without leading and trailing white space (`str::trim`).
pub fn trim<'a>(s: &'a str) -> (r: &'a str)
    ensures
        r@ == trimmed(s@),
{
    let mut cur = s;
    while cur.unicode_len() > 0 && is_whitespace_char(cur.get_char(0))
        invariant
            trim_start_spec(cur@) == trim_start_spec(s@),
        decreases cur@.len(),
    {
        let n = cur.unicode_len();
        cur = cur.substring_char(1, n);
    }
    let ghost start = cur@;
    assert(trim_start_spec(s@) == start);
    while cur.unicode_len() > 0 && is_whitespace_char(cur.get_char(cur.unicode_len() - 1))
        invariant
            trim_end_spec(cur@) == trim_end_spec(start),
        decreases cur@.len(),
    {
        let n = cur.unicode_len();
        cur = cur.substring_char(0, n - 1);
    }
    cur
}


/// Whether every character is an ASCII digit.
pub open spec fn all_digits(s: Seq<char>) -> bool {
    forall|i: int| 0 <= i < s.len() ==> '0' <= #[trigger] s[i] <= '9'
}

/// The number that a string of ASCII digits writes.
pub open spec fn digits_value(s: Seq<char>) -> nat
    decreases s.len(),
{
    if s.len() == 0 {
        0
    } else {
        digits_value(s.drop_last()) * 10 + ((s.last() as u32) - 48) as nat
    }
}

/// What `str::parse` gives for an unsigned integer type whose largest value is
/// `max`: an optional `+`, then one or more ASCII digits, whose value fits.
pub open spec fn parsed_unsigned(s: Seq<char>, max: nat) -> Option<nat> {
    let d = if s.len() > 0 && s[0] == '+' {
        s.skip(1)
    } else {
        s
    };
    if d.len() > 0 && all_digits(d) && digits_value(d) <= max {
        Some(digits_value(d))
    } else {
        None
    }
}

/// More digits never write a smaller number.
pub proof fn lemma_digits_value_grows(s: Seq<char>, k: int)
    requires
        0 <= k <= s.len(),
        all_digits(s),
    ensures
        digits_value(s.take(k)) <= digits_value(s),
    decreases s.len() - k,
{
    if k < s.len() {
        lemma_digits_value_grows(s, k + 1);
        assert(s.take(k + 1).drop_last() =~= s.take(k));
    } else {
        assert(s.take(k) =~= s);
    }
}

/// Parses an unsigned decimal number no larger than `max`, as `str::parse` does.
pub fn parse_unsigned(s: &str, max: u64) -> (r: Option<u64>)
    ensures
        match r {
            Some(v) => parsed_unsigned(s@, max as nat) == Some(v as nat),
            None => parsed_unsigned(s@, max as nat) is None,
        },
{
    let n = s.unicode_len();
    let start: usize = if n > 0 && s.get_char(0) == '+' {
        1
    } else {
        0
    };
    let ghost d = if s@.len() > 0 && s@[0] == '+' {
        s@.skip(1)
    } else {
        s@
    };
    assert(d =~= s@.subrange(start as int, n as int));
    if start == n {
        return None;
    }
    let mut value: u64 = 0;
    let mut i: usize = start;
    while i < n
        invariant
            start <= i <= n,
            n == s@.len(),
            d =~= s@.subrange(start as int, n as int),
            d == (if s@.len() > 0 && s@[0] == '+' {
                s@.skip(1)
            } else {
                s@
            }),
            all_digits(d.take(i - start)),
            value as nat == digits_value(d.take(i - start)),
            value <= max,
        decreases n - i,
    {
        let c = s.get_char(i);
        assert(d[i - start] == c);
        if !('0' <= c && c <= '9') {
            assert(!all_digits(d));
            assert(parsed_unsigned(s@, max as nat) is None);
            return None;
        }
        let digit = (c as u32 - 48) as u64;
        assert(d.take(i - start + 1).drop_last() =~= d.take(i - start));
        if digit > max || value > (max - digit) / 10 {
            proof {
                assert(value * 10 + digit > max) by (nonlinear_arith)
                    requires
                        digit > max || value > (max - digit) / 10,
                        digit <= 9,
                ;
                if all_digits(d) {
                    lemma_digits_value_grows(d, i - start + 1);
                }
            }
            assert(parsed_unsigned(s@, max as nat) is None);
            return None;
        }
        assert(value * 10 + digit <= max) by (nonlinear_arith)
            requires
                value <= (max - digit) / 10,
                digit <= max,
        ;
        value = value * 10 + digit;
        assert(all_digits(d.take(i - start + 1)));
        i = i + 1;
    }
    assert(d.take(n - start) =~= d);
    Some(value)
}


/// The position of the last `c` in `s`, if any.
pub open spec fn last_index_of(s: Seq<char>, c: char) -> Option<int>
    decreases s.len(),
{
    if s.len() == 0 {
        None
    } else if s.last() == c {
        Some(s.len() - 1)
    } else {
        last_index_of(s.drop_last(), c)
    }
}

/// Finds the last `c` in `s`.
pub fn rfind_char(s: &str, c: char) -> (r: Option<usize>)
    ensures
        match r {
            Some(i) => i < s@.len() && s@[i as int] == c && last_index_of(s@, c) == Some(i as int),
            None => last_index_of(s@, c) is None,
        },
{
    let mut k = s.unicode_len();
    assert(s@.take(k as int) =~= s@);
    while k > 0
        invariant
            k <= s@.len(),
            last_index_of(s@, c) == last_index_of(s@.take(k as int), c),
        decreases k,
    {
        assert(s@.take(k as int).drop_last() =~= s@.take(k as int - 1));
        if s.get_char(k - 1) == c {
            return Some(k - 1);
        }
        k = k - 1;
    }
    None
}

} // verus!
