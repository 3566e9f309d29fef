use vstd::prelude::*;

verus! {

/// The value of `c` as a digit: `0`-`9`, then `a`-`z` or `A`-`Z` for ten
/// to thirty-five; 36 for any other character.
pub open spec fn digit_value(c: char) -> nat {
    if '0' <= c && c <= '9' {
        (c as int - '0' as int) as nat
    } else if 'a' <= c && c <= 'z' {
        (c as int - 'a' as int + 10) as nat
    } else if 'A' <= c && c <= 'Z' {
        (c as int - 'A' as int + 10) as nat
    } else {
        36
    }
}

/// The value of the digit string `d` in base `radix`, most significant first.
pub open spec fn digits_value(d: Seq<char>, radix: nat) -> nat
    decreases d.len(),
{
    if d.len() == 0 {
        0
    } else {
        digits_value(d.drop_last(), radix) * radix + digit_value(d.last())
    }
}

/// The unsigned number `s` spells in base `radix`: an optional `+`, then
/// one or more digits of that base, with a value that fits in a `usize`.
pub open spec fn radix_value(s: Seq<char>, radix: nat) -> Option<nat> {
    let d = if s.len() > 0 && s[0] == '+' {
        s.drop_first()
    } else {
        s
    };
    if d.len() > 0 && (forall|i: int| 0 <= i < d.len() ==> digit_value(#[trigger] d[i]) < radix)
        && digits_value(d, radix) <= usize::MAX {
        Some(digits_value(d, radix))
    } else {
        None
    }
}

/// `s` starts with `0x` or `0X`.
pub open spec fn has_hex_prefix(s: Seq<char>) -> bool {
    s.len() >= 2 && s[0] == '0' && (s[1] == 'x' || s[1] == 'X')
}

/// The number `s` spells: hexadecimal after a `0x` or `0X` prefix, decimal
/// otherwise.
pub open spec fn usize_value(s: Seq<char>) -> Option<nat> {
    if has_hex_prefix(s) {
        radix_value(s.subrange(2, s.len() as int), 16)
    } else {
        radix_value(s, 10)
    }
}

/// `s` begins with `p`.
pub open spec fn starts_with(s: Seq<char>, p: Seq<char>) -> bool {
    p.len() <= s.len() && s.subrange(0, p.len() as int) == p
}

/// Relies on `str::strip_prefix`: the rest of `s` after `prefix`, if `s`
/// starts with it.
#[verifier::external_body]
fn strip_prefix<'a>(s: &'a str, prefix: &str) -> (r: Option<&'a str>)
    ensures
        r is Some <==> starts_with(s@, prefix@),
        r matches Some(rest) ==> rest@ == s@.subrange(prefix@.len() as int, s@.len() as int),
{
    s.strip_prefix(prefix)
}

/// Relies on `usize::from_str_radix`: an optional `+` and digits of the
/// base, whose value must fit; the error is rendered as its message.
#[verifier::external_body]
fn usize_from_str_radix(s: &str, radix: u32) -> (r: Result<usize, String>)
    requires
        2 <= radix <= 36,
    ensures
        r is Ok <==> radix_value(s@, radix as nat) is Some,
        r matches Ok(v) ==> radix_value(s@, radix as nat) == Some(v as nat),
{
    usize::from_str_radix(s, radix).map_err(|e| e.to_string())
}

/// Reads a size or offset given as hexadecimal with a `0x` or `0X` prefix,
/// or as decimal.
pub fn parse_usize(s: &str) -> (r: Result<usize, String>)
    ensures
        r is Ok <==> usize_value(s@) is Some,
        r matches Ok(v) ==> usize_value(s@) == Some(v as nat),
{
    proof {
        reveal_strlit("0x");
        reveal_strlit("0X");
    }
    let hex = match strip_prefix(s, "0x") {
        Some(rest) => Some(rest),
        None => strip_prefix(s, "0X"),
    };
    proof {
        if s@.len() >= 2 {
            let p = s@.subrange(0, 2);
            assert(p[0] == s@[0] && p[1] == s@[1]);
            if has_hex_prefix(s@) {
                assert(p =~= "0x"@ || p =~= "0X"@);
            }
            if p == "0x"@ || p == "0X"@ {
                assert(p[0] == '0' && (p[1] == 'x' || p[1] == 'X'));
            }
        }
    }
    match hex {
        Some(digits) => usize_from_str_radix(digits, 16),
        None => usize_from_str_radix(s, 10),
    }
}

} // verus!
