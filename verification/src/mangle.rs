//! Symbol mangling: maps a package identifier and a logical export name to
//! the exact linker-visible symbol that the plugin host resolves by string
//! match.
use vstd::prelude::*;

verus! {

/// The ASCII digit for a value below ten.
pub open spec fn digit_char(d: nat) -> char {
    if d == 0 {
        '0'
    } else if d == 1 {
        '1'
    } else if d == 2 {
        '2'
    } else if d == 3 {
        '3'
    } else if d == 4 {
        '4'
    } else if d == 5 {
        '5'
    } else if d == 6 {
        '6'
    } else if d == 7 {
        '7'
    } else if d == 8 {
        '8'
    } else {
        '9'
    }
}

/// The ordinary base-10 rendering of `n`: no leading zeros, no sign, no
/// separator.
pub open spec fn decimal_rep(n: nat) -> Seq<char>
    decreases n,
{
    if n < 10 {
        seq![digit_char(n)]
    } else {
        decimal_rep(n / 10).push(digit_char(n % 10))
    }
}

/// The mangled symbol for `pkg` and `logical_name`: the fixed namespace
/// markers `hex` (length 3), `plugin` (length 6) and `internal` (length 8),
/// each identifier prefixed by its decimal length, and the fixed `Ev`
/// suffix.
pub open spec fn mangle_spec(pkg: Seq<char>, logical_name: Seq<char>) -> Seq<char> {
    "_ZN3hex6plugin"@ + decimal_rep(pkg.len()) + pkg + "8internal"@ + decimal_rep(
        logical_name.len(),
    ) + logical_name + "Ev"@
}

fn append_digit(s: &mut String, d: usize)
    requires
        d < 10,
    ensures
        final(s)@ == old(s)@ + seq![digit_char(d as nat)],
{
    proof {
        reveal_strlit("0");
        reveal_strlit("1");
        reveal_strlit("2");
        reveal_strlit("3");
        reveal_strlit("4");
        reveal_strlit("5");
        reveal_strlit("6");
        reveal_strlit("7");
        reveal_strlit("8");
        reveal_strlit("9");
    }
    if d == 0 {
        s.append("0");
        assert(s@ =~= old(s)@ + seq![digit_char(d as nat)]);
    } else if d == 1 {
        s.append("1");
        assert(s@ =~= old(s)@ + seq![digit_char(d as nat)]);
    } else if d == 2 {
        s.append("2");
        assert(s@ =~= old(s)@ + seq![digit_char(d as nat)]);
    } else if d == 3 {
        s.append("3");
        assert(s@ =~= old(s)@ + seq![digit_char(d as nat)]);
    } else if d == 4 {
        s.append("4");
        assert(s@ =~= old(s)@ + seq![digit_char(d as nat)]);
    } else if d == 5 {
        s.append("5");
        assert(s@ =~= old(s)@ + seq![digit_char(d as nat)]);
    } else if d == 6 {
        s.append("6");
        assert(s@ =~= old(s)@ + seq![digit_char(d as nat)]);
    } else if d == 7 {
        s.append("7");
        assert(s@ =~= old(s)@ + seq![digit_char(d as nat)]);
    } else if d == 8 {
        s.append("8");
        assert(s@ =~= old(s)@ + seq![digit_char(d as nat)]);
    } else {
        s.append("9");
        assert(s@ =~= old(s)@ + seq![digit_char(d as nat)]);
    }
}

/// Appends the decimal rendering of `n` to `s`.
fn push_decimal(s: &mut String, n: usize)
    ensures
        final(s)@ == old(s)@ + decimal_rep(n as nat),
    decreases n,
{
    if n >= 10 {
        push_decimal(s, n / 10);
    }
    append_digit(s, n % 10);
    assert(s@ =~= old(s)@ + decimal_rep(n as nat));
}

/// Mangles one export: the sole string transformation the host's loader
/// depends on, so the result is pinned down character for character.
pub fn mangle(pkg: &str, logical_name: &str) -> (r: String)
    requires
        pkg@.len() > 0,
        logical_name@.len() > 0,
    ensures
        r@ == mangle_spec(pkg@, logical_name@),
{
    let mut s = String::new();
    s.append("_ZN3hex6plugin");
    push_decimal(&mut s, pkg.unicode_len());
    s.append(pkg);
    s.append("8internal");
    push_decimal(&mut s, logical_name.unicode_len());
    s.append(logical_name);
    s.append("Ev");
    assert(s@ =~= mangle_spec(pkg@, logical_name@));
    s
}

} // verus!
