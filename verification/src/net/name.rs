use vstd::prelude::*;

verus! {

/// The decimal digit `d`.
pub open spec fn digit_char(d: nat) -> char {
    if d == 0 {
        '0'
    } else if d == 1 {
        '1'
    } else if d == 2 {
        '2'
    } else if d == 3 {
        '3'
    } else if d == 4 {
        '4'
    } else if d == 5 {
        '5'
    } else if d == 6 {
        '6'
    } else if d == 7 {
        '7'
    } else if d == 8 {
        '8'
    } else {
        '9'
    }
}

/// The decimal representation of `n`.
pub open spec fn decimal_chars(n: nat) -> Seq<char>
    decreases n,
{
    if n < 10 {
        seq![digit_char(n)]
    } else {
        decimal_chars(n / 10).push(digit_char(n % 10))
    }
}

/// The name of the device registered as the `n`-th: "net" and `n` in decimal.
pub open spec fn device_name_spec(n: nat) -> Seq<char> {
    seq!['n', 'e', 't'] + decimal_chars(n)
}

fn digit_str(d: usize) -> (s: &'static str)
    requires
        d < 10,
    ensures
        s@ == seq![digit_char(d as nat)],
{
    proof {
        reveal_strlit("0");
        reveal_strlit("1");
        reveal_strlit("2");
        reveal_strlit("3");
        reveal_strlit("4");
        reveal_strlit("5");
        reveal_strlit("6");
        reveal_strlit("7");
        reveal_strlit("8");
        reveal_strlit("9");
    }
    if d == 0 {
        "0"
    } else if d == 1 {
        "1"
    } else if d == 2 {
        "2"
    } else if d == 3 {
        "3"
    } else if d == 4 {
        "4"
    } else if d == 5 {
        "5"
    } else if d == 6 {
        "6"
    } else if d == 7 {
        "7"
    } else if d == 8 {
        "8"
    } else {
        "9"
    }
}

/// Appends `n` in decimal.
pub fn append_decimal(s: &mut String, n: usize)
    ensures
        final(s)@ == old(s)@ + decimal_chars(n as nat),
    decreases n,
{
    if n >= 10 {
        append_decimal(s, n / 10);
    }
    s.append(digit_str(n % 10));
    assert(old(s)@ + decimal_chars(n as nat) =~= s@);
}

/// The name of the device registered as the `n`-th.
pub fn device_name(n: usize) -> (name: String)
    ensures
        name@ == device_name_spec(n as nat),
{
    proof {
        reveal_strlit("net");
    }
    let mut name = String::from_str("net");
    append_decimal(&mut name, n);
    assert(name@ =~= device_name_spec(n as nat));
    name
}

/// Different indices give different names.
pub proof fn lemma_device_name_injective(a: nat, b: nat)
    requires
        device_name_spec(a) == device_name_spec(b),
    ensures
        a == b,
{
    assert(decimal_chars(a) =~= device_name_spec(a).subrange(3, device_name_spec(a).len() as int));
    assert(decimal_chars(b) =~= device_name_spec(b).subrange(3, device_name_spec(b).len() as int));
    lemma_decimal_chars_injective(a, b);
}

proof fn lemma_digit_char_injective(a: nat, b: nat)
    requires
        a < 10,
        b < 10,
        digit_char(a) == digit_char(b),
    ensures
        a == b,
{
}

proof fn lemma_decimal_chars_injective(a: nat, b: nat)
    requires
        decimal_chars(a) == decimal_chars(b),
    ensures
        a == b,
    decreases a + b,
{
    if a < 10 && b < 10 {
        assert(decimal_chars(a) == seq![digit_char(a)]);
        assert(decimal_chars(b) == seq![digit_char(b)]);
        assert(seq![digit_char(a)][0] == digit_char(a));
        assert(seq![digit_char(b)][0] == digit_char(b));
        lemma_digit_char_injective(a, b);
    } else if a >= 10 && b >= 10 {
        let da = decimal_chars(a);
        let db = decimal_chars(b);
        assert(da.last() == db.last());
        lemma_digit_char_injective(a % 10, b % 10);
        assert(decimal_chars(a / 10) =~= da.drop_last());
        assert(decimal_chars(b / 10) =~= db.drop_last());
        lemma_decimal_chars_injective(a / 10, b / 10);
    } else if a < 10 {
        lemma_decimal_chars_len(b / 10);
        assert(decimal_chars(b).len() >= 2);
    } else {
        lemma_decimal_chars_len(a / 10);
        assert(decimal_chars(a).len() >= 2);
    }
}

proof fn lemma_decimal_chars_len(n: nat)
    ensures
        decimal_chars(n).len() >= 1,
    decreases n,
{
    if n >= 10 {
        lemma_decimal_chars_len(n / 10);
    }
}

} // verus!
