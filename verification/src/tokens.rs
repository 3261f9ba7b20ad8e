use vstd::prelude::*;

verus! {

/// The character for one decimal digit.
pub open spec fn dec_digit(d: nat) -> char {
    if d == 0 {
        '0'
    } else if d == 1 {
        '1'
    } else if d == 2 {
        '2'
    } else if d == 3 {
        '3'
    } else if d == 4 {
        '4'
    } else if d == 5 {
        '5'
    } else if d == 6 {
        '6'
    } else if d == 7 {
        '7'
    } else if d == 8 {
        '8'
    } else {
        '9'
    }
}

/// The decimal rendering of a natural number, most significant digit first.
pub open spec fn dec_of_nat(n: nat) -> Seq<char>
    decreases n,
{
    if n < 10 {
        seq![dec_digit(n)]
    } else {
        dec_of_nat(n / 10).push(dec_digit(n % 10))
    }
}

/// The decimal rendering of an integer: a leading '-' for negative values.
pub open spec fn dec_of_int(n: int) -> Seq<char> {
    if n < 0 {
        seq!['-'] + dec_of_nat((-n) as nat)
    } else {
        dec_of_nat(n as nat)
    }
}

/// The token for a flag field: `--name`.
pub open spec fn spec_flag_token(name: Seq<char>) -> Seq<char> {
    seq!['-', '-'] + name
}

/// The token for a field with a textual payload: `--name=value`.
pub open spec fn spec_kv_token(name: Seq<char>, value: Seq<char>) -> Seq<char> {
    seq!['-', '-'] + name + seq!['='] + value
}

/// The character sequences of a sequence of tokens.
pub open spec fn token_views(tokens: Seq<String>) -> Seq<Seq<char>> {
    tokens.map_values(|t: String| t@)
}

/// Appending one token appends its character sequence to the views.
pub proof fn lemma_token_views_push(tokens: Seq<String>, t: String)
    ensures
        token_views(tokens.push(t)) == token_views(tokens).push(t@),
{
    assert(token_views(tokens.push(t)) =~= token_views(tokens).push(t@));
}

/// Relies on `String::push`: appends exactly the one character.
pub assume_specification[ String::push ](s: &mut String, c: char)
    ensures
        final(s)@ == old(s)@ + seq![c],
;

/// The character for a decimal digit below ten.
fn dec_digit_char(d: u64) -> (c: char)
    requires
        d < 10,
    ensures
        c == dec_digit(d as nat),
{
    match d {
        0 => '0',
        1 => '1',
        2 => '2',
        3 => '3',
        4 => '4',
        5 => '5',
        6 => '6',
        7 => '7',
        8 => '8',
        _ => '9',
    }
}

/// Appends the decimal rendering of `n`.
fn push_dec_u64(n: u64, s: &mut String)
    ensures
        final(s)@ == old(s)@ + dec_of_nat(n as nat),
    decreases n,
{
    if n >= 10 {
        push_dec_u64(n / 10, s);
    }
    let c = dec_digit_char(n % 10);
    s.push(c);
    proof {
        if n < 10 {
            assert(s@ =~= old(s)@ + dec_of_nat(n as nat));
        } else {
            assert(s@ =~= old(s)@ + dec_of_nat(n as nat));
        }
    }
}

/// The decimal rendering of an unsigned 64-bit integer.
pub fn u64_string(n: u64) -> (s: String)
    ensures
        s@ == dec_of_nat(n as nat),
{
    let mut s = String::new();
    push_dec_u64(n, &mut s);
    proof {
        assert(s@ =~= dec_of_nat(n as nat));
    }
    s
}

/// The decimal rendering of a signed 64-bit integer.
pub fn i64_string(n: i64) -> (s: String)
    ensures
        s@ == dec_of_int(n as int),
{
    let mut s = String::new();
    if n < 0 {
        s.push('-');
        let magnitude: u64 = (-(n as i128)) as u64;
        push_dec_u64(magnitude, &mut s);
    } else {
        push_dec_u64(n as u64, &mut s);
    }
    proof {
        assert(s@ =~= dec_of_int(n as int));
    }
    s
}

/// A string holding the one character.
pub fn char_string(c: char) -> (s: String)
    ensures
        s@ == seq![c],
{
    let mut s = String::new();
    s.push(c);
    proof {
        assert(s@ =~= seq![c]);
    }
    s
}

/// The token `--name`.
pub fn flag_token(name: &str) -> (t: String)
    ensures
        t@ == spec_flag_token(name@),
{
    let mut t = String::from_str("--");
    proof {
        reveal_strlit("--");
        assert(t@ =~= seq!['-', '-']);
    }
    t.append(name);
    t
}

/// The token `--name=value`.
pub fn kv_token(name: &str, value: &str) -> (t: String)
    ensures
        t@ == spec_kv_token(name@, value@),
{
    let mut t = flag_token(name);
    t.push('=');
    t.append(value);
    proof {
        assert(t@ =~= spec_kv_token(name@, value@));
    }
    t
}

} // verus!
