use vstd::prelude::*;

use crate::net::name::{append_decimal, decimal_chars, digit_char};

verus! {

/// The lowercase hexadecimal digit `d`.
pub open spec fn hex_digit_char(d: nat) -> char {
    if d < 10 {
        digit_char(d)
    } else if d == 10 {
        'a'
    } else if d == 11 {
        'b'
    } else if d == 12 {
        'c'
    } else if d == 13 {
        'd'
    } else if d == 14 {
        'e'
    } else {
        'f'
    }
}

/// The two lowercase hexadecimal digits of byte `b`.
pub open spec fn hex2_chars(b: u8) -> Seq<char> {
    seq![hex_digit_char(b as nat / 16), hex_digit_char(b as nat % 16)]
}

fn hex_digit_str(d: u8) -> (s: &'static str)
    requires
        d < 16,
    ensures
        s@ == seq![hex_digit_char(d as nat)],
{
    proof {
        reveal_strlit("0");
        reveal_strlit("1");
        reveal_strlit("2");
        reveal_strlit("3");
        reveal_strlit("4");
        reveal_strlit("5");
        reveal_strlit("6");
        reveal_strlit("7");
        reveal_strlit("8");
        reveal_strlit("9");
        reveal_strlit("a");
        reveal_strlit("b");
        reveal_strlit("c");
        reveal_strlit("d");
        reveal_strlit("e");
        reveal_strlit("f");
    }
    if d == 0 {
        "0"
    } else if d == 1 {
        "1"
    } else if d == 2 {
        "2"
    } else if d == 3 {
        "3"
    } else if d == 4 {
        "4"
    } else if d == 5 {
        "5"
    } else if d == 6 {
        "6"
    } else if d == 7 {
        "7"
    } else if d == 8 {
        "8"
    } else if d == 9 {
        "9"
    } else if d == 10 {
        "a"
    } else if d == 11 {
        "b"
    } else if d == 12 {
        "c"
    } else if d == 13 {
        "d"
    } else if d == 14 {
        "e"
    } else {
        "f"
    }
}

/// Appends the two lowercase hexadecimal digits of `b`.
pub fn append_hex2(s: &mut String, b: u8)
    ensures
        final(s)@ == old(s)@ + hex2_chars(b),
{
    s.append(hex_digit_str(b / 16));
    s.append(hex_digit_str(b % 16));
    assert(s@ =~= old(s)@ + hex2_chars(b));
}

/// The lowercase hexadecimal representation of `n`, without leading zeros.
pub open spec fn hex_chars(n: nat) -> Seq<char>
    decreases n,
{
    if n < 16 {
        seq![hex_digit_char(n)]
    } else {
        hex_chars(n / 16).push(hex_digit_char(n % 16))
    }
}

/// Appends `n` in lowercase hexadecimal, without leading zeros.
pub fn append_hex(s: &mut String, n: usize)
    ensures
        final(s)@ == old(s)@ + hex_chars(n as nat),
    decreases n,
{
    if n >= 16 {
        append_hex(s, n / 16);
    }
    s.append(hex_digit_str((n % 16) as u8));
    assert(s@ =~= old(s)@ + hex_chars(n as nat));
}

/// The decimal representation of a byte.
pub open spec fn u8_text(x: u8) -> Seq<char> {
    decimal_chars(x as nat)
}

/// The decimal representation of a 16-bit number.
pub open spec fn u16_text(x: u16) -> Seq<char> {
    decimal_chars(x as nat)
}

/// The decimal representation of a size.
pub open spec fn usize_text(x: usize) -> Seq<char> {
    decimal_chars(x as nat)
}

/// Appends a byte in decimal.
pub fn append_u8(s: &mut String, x: u8)
    ensures
        final(s)@ == old(s)@ + u8_text(x),
{
    append_decimal(s, x as usize);
}

/// Appends a 16-bit number in decimal.
pub fn append_u16(s: &mut String, x: u16)
    ensures
        final(s)@ == old(s)@ + u16_text(x),
{
    append_decimal(s, x as usize);
}

/// Appends a size in decimal.
pub fn append_usize(s: &mut String, x: usize)
    ensures
        final(s)@ == old(s)@ + usize_text(x),
{
    append_decimal(s, x);
}

/// The text of a boolean.
pub open spec fn bool_text(b: bool) -> Seq<char> {
    if b {
        "true"@
    } else {
        "false"@
    }
}

/// Appends the text of a boolean.
pub fn append_bool(s: &mut String, b: bool)
    ensures
        final(s)@ == old(s)@ + bool_text(b),
{
    if b {
        s.append("true");
    } else {
        s.append("false");
    }
}

/// The ASCII code of the lowercase hexadecimal digit `d`.
pub open spec fn hex_digit_byte(d: nat) -> u8 {
    if d < 10 {
        (0x30 + d) as u8
    } else {
        (0x61 + d - 10) as u8
    }
}

/// `n` copies of byte `b`.
pub open spec fn repeat_byte(b: u8, n: nat) -> Seq<u8> {
    Seq::new(n, |_i: int| b)
}

/// The line drawn above and below a dump.
pub open spec fn dump_border() -> Seq<u8> {
    seq![0x2bu8] + repeat_byte(0x2d, 6) + seq![0x2bu8] + repeat_byte(0x2d, 49) + seq![0x2bu8]
        + repeat_byte(0x2d, 18) + seq![0x2bu8, 0x0au8]
}

/// The hexadecimal representation of `n`, in lowercase and without leading zeros.
pub open spec fn hex_bytes(n: nat) -> Seq<u8>
    decreases n,
{
    if n < 16 {
        seq![hex_digit_byte(n)]
    } else {
        hex_bytes(n / 16).push(hex_digit_byte(n % 16))
    }
}

/// `s` right-aligned in a field of `w` bytes.
pub open spec fn pad_left(s: Seq<u8>, w: nat) -> Seq<u8> {
    if s.len() >= w {
        s
    } else {
        repeat_byte(0x20, (w - s.len()) as nat) + s
    }
}

/// The hexadecimal cell of byte `i` of `data`: its two digits and a space, or three spaces past
/// the end of `data`.
pub open spec fn hex_cell(data: Seq<u8>, i: int) -> Seq<u8> {
    if i < data.len() {
        seq![hex_digit_byte(data[i] as nat / 16), hex_digit_byte(data[i] as nat % 16), 0x20u8]
    } else {
        repeat_byte(0x20, 3)
    }
}

/// The character cell of byte `i` of `data`: the byte itself when it is a graphic ASCII
/// character, a dot otherwise, and a space past the end of `data`.
pub open spec fn char_cell(data: Seq<u8>, i: int) -> u8 {
    if i < data.len() {
        if 0x21 <= data[i] <= 0x7e {
            data[i]
        } else {
            0x2e
        }
    } else {
        0x20
    }
}

/// The hexadecimal cells of the `k` bytes from offset `o`.
pub open spec fn hex_cells(data: Seq<u8>, o: int, k: nat) -> Seq<u8>
    decreases k,
{
    if k == 0 {
        Seq::empty()
    } else {
        hex_cells(data, o, (k - 1) as nat) + hex_cell(data, o + k - 1)
    }
}

/// The character cells of the `k` bytes from offset `o`.
pub open spec fn char_cells(data: Seq<u8>, o: int, k: nat) -> Seq<u8>
    decreases k,
{
    if k == 0 {
        Seq::empty()
    } else {
        char_cells(data, o, (k - 1) as nat).push(char_cell(data, o + k - 1))
    }
}

/// The line of a dump that shows the 16 bytes from offset `o`: the offset, the bytes in
/// hexadecimal, then the bytes as characters.
pub open spec fn dump_line(data: Seq<u8>, o: nat) -> Seq<u8> {
    seq![0x7cu8, 0x20u8] + pad_left(hex_bytes(o), 4) + seq![0x20u8, 0x7cu8, 0x20u8] + hex_cells(
        data,
        o as int,
        16,
    ) + seq![0x7cu8, 0x20u8] + char_cells(data, o as int, 16) + seq![0x20u8, 0x7cu8, 0x0au8]
}

/// The first `k` lines of a dump.
pub open spec fn dump_lines(data: Seq<u8>, k: nat) -> Seq<u8>
    decreases k,
{
    if k == 0 {
        Seq::empty()
    } else {
        dump_lines(data, (k - 1) as nat) + dump_line(data, (16 * (k - 1)) as nat)
    }
}

/// The text of the dump of `data`: a border, one line per 16 bytes, a border.
pub open spec fn debugdump_spec(data: Seq<u8>) -> Seq<u8> {
    dump_border() + dump_lines(data, ((data.len() + 15) / 16) as nat) + dump_border()
}

fn push_repeat(out: &mut Vec<u8>, b: u8, n: usize)
    ensures
        final(out)@ == old(out)@ + repeat_byte(b, n as nat),
{
    let mut k: usize = 0;
    while k < n
        invariant
            k <= n,
            out@ == old(out)@ + repeat_byte(b, k as nat),
        decreases n - k,
    {
        out.push(b);
        k = k + 1;
        assert(out@ =~= old(out)@ + repeat_byte(b, k as nat));
    }
}

fn hex_digit(d: u8) -> (c: u8)
    requires
        d < 16,
    ensures
        c == hex_digit_byte(d as nat),
{
    if d < 10 {
        0x30 + d
    } else {
        0x61 + d - 10
    }
}

fn push_hex(out: &mut Vec<u8>, n: usize)
    ensures
        final(out)@ == old(out)@ + hex_bytes(n as nat),
    decreases n,
{
    if n >= 16 {
        push_hex(out, n / 16);
    }
    let d = (n % 16) as u8;
    out.push(hex_digit(d));
    assert(out@ =~= old(out)@ + hex_bytes(n as nat));
}

fn push_border(out: &mut Vec<u8>)
    ensures
        final(out)@ == old(out)@ + dump_border(),
{
    out.push(0x2b);
    push_repeat(out, 0x2d, 6);
    out.push(0x2b);
    push_repeat(out, 0x2d, 49);
    out.push(0x2b);
    push_repeat(out, 0x2d, 18);
    out.push(0x2b);
    out.push(0x0a);
    assert(out@ =~= old(out)@ + dump_border());
}

fn push_offset(out: &mut Vec<u8>, o: usize)
    ensures
        final(out)@ == old(out)@ + pad_left(hex_bytes(o as nat), 4),
{
    let mut digits: Vec<u8> = Vec::new();
    push_hex(&mut digits, o);
    assert(digits@ =~= hex_bytes(o as nat));
    if digits.len() < 4 {
        push_repeat(out, 0x20, 4 - digits.len());
    }
    let ghost prefix = old(out)@;
    let mut k: usize = 0;
    while k < digits.len()
        invariant
            k <= digits@.len(),
            out@ == prefix + pad_left(digits@, 4).subrange(
                0,
                pad_left(digits@, 4).len() - digits@.len() + k,
            ),
        decreases digits@.len() - k,
    {
        out.push(digits[k]);
        k = k + 1;
        assert(pad_left(digits@, 4).subrange(0, pad_left(digits@, 4).len() - digits@.len() + k)
            =~= pad_left(digits@, 4).subrange(
            0,
            pad_left(digits@, 4).len() - digits@.len() + k - 1,
        ).push(digits@[k - 1]));
    }
    assert(pad_left(digits@, 4).subrange(0, pad_left(digits@, 4).len() as int) =~= pad_left(
        digits@,
        4,
    ));
}

fn push_hex_cells(out: &mut Vec<u8>, data: &[u8], o: usize)
    requires
        o + 16 <= usize::MAX,
    ensures
        final(out)@ == old(out)@ + hex_cells(data@, o as int, 16),
{
    let ghost prefix = old(out)@;
    let mut k: usize = 0;
    while k < 16
        invariant
            k <= 16,
            o + 16 <= usize::MAX,
            out@ == prefix + hex_cells(data@, o as int, k as nat),
        decreases 16 - k,
    {
        if o + k < data.len() {
            let b = data[o + k];
            out.push(hex_digit(b / 16));
            out.push(hex_digit(b % 16));
            out.push(0x20);
        } else {
            push_repeat(out, 0x20, 3);
        }
        k = k + 1;
        assert(out@ =~= prefix + hex_cells(data@, o as int, k as nat));
    }
}

fn push_char_cells(out: &mut Vec<u8>, data: &[u8], o: usize)
    requires
        o + 16 <= usize::MAX,
    ensures
        final(out)@ == old(out)@ + char_cells(data@, o as int, 16),
{
    let ghost prefix = old(out)@;
    let mut k: usize = 0;
    while k < 16
        invariant
            k <= 16,
            o + 16 <= usize::MAX,
            out@ == prefix + char_cells(data@, o as int, k as nat),
        decreases 16 - k,
    {
        if o + k < data.len() {
            let b = data[o + k];
            if 0x21 <= b && b <= 0x7e {
                out.push(b);
            } else {
                out.push(0x2e);
            }
        } else {
            out.push(0x20);
        }
        k = k + 1;
        assert(out@ =~= prefix + char_cells(data@, o as int, k as nat));
    }
}

fn push_line(out: &mut Vec<u8>, data: &[u8], o: usize)
    requires
        o + 16 <= usize::MAX,
    ensures
        final(out)@ == old(out)@ + dump_line(data@, o as nat),
{
    out.push(0x7c);
    out.push(0x20);
    push_offset(out, o);
    out.push(0x20);
    out.push(0x7c);
    out.push(0x20);
    push_hex_cells(out, data, o);
    out.push(0x7c);
    out.push(0x20);
    push_char_cells(out, data, o);
    out.push(0x20);
    out.push(0x7c);
    out.push(0x0a);
    assert(out@ =~= old(out)@ + dump_line(data@, o as nat));
}

/// The text of a hexadecimal dump of `data`, in ASCII: between two borders, one line per 16
/// bytes with the offset, the bytes in hexadecimal, and the bytes as characters.
pub fn debugdump(data: &[u8]) -> (text: Vec<u8>)
    requires
        data@.len() + 32 <= usize::MAX,
    ensures
        text@ == debugdump_spec(data@),
{
    let mut out: Vec<u8> = Vec::new();
    push_border(&mut out);
    let rows = (data.len() + 15) / 16;
    let mut r: usize = 0;
    while r < rows
        invariant
            r <= rows,
            rows == (data@.len() + 15) / 16,
            data@.len() + 32 <= usize::MAX,
            out@ == dump_border() + dump_lines(data@, r as nat),
        decreases rows - r,
    {
        assert(16 * r + 16 <= data@.len() + 15 + 16) by (nonlinear_arith)
            requires
                r < rows,
                rows == (data@.len() + 15) / 16,
        ;
        push_line(&mut out, data, 16 * r);
        r = r + 1;
        assert(out@ =~= dump_border() + dump_lines(data@, r as nat));
    }
    push_border(&mut out);
    out
}

} // verus!
