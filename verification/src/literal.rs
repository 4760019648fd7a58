//! Metadata literals: how a plugin's name, author and description are
//! embedded in generated source as string literals, and how the bytes a
//! generated getter serves relate back to the original literal.
use vstd::prelude::*;

verus! {

/// How one character of a metadata literal appears inside the quotes of a
/// generated string literal: quotes, backslashes and the common control
/// characters are escaped, everything else is kept verbatim.
pub open spec fn escape_char(c: char) -> Seq<char> {
    if c == '\\' {
        seq!['\\', '\\']
    } else if c == '"' {
        seq!['\\', '"']
    } else if c == '\n' {
        seq!['\\', 'n']
    } else if c == '\r' {
        seq!['\\', 'r']
    } else if c == '\t' {
        seq!['\\', 't']
    } else if c == '\0' {
        seq!['\\', '0']
    } else {
        seq![c]
    }
}

/// The escaped form of a whole literal.
pub open spec fn escape_seq(s: Seq<char>) -> Seq<char>
    decreases s.len(),
{
    if s.len() == 0 {
        Seq::<char>::empty()
    } else {
        escape_char(s[0]) + escape_seq(s.drop_first())
    }
}

/// The character denoted by the escape code `c` (the character after a
/// backslash), if it is one this generator emits.
pub open spec fn unescape_code(c: char) -> Option<char> {
    if c == '\\' {
        Some('\\')
    } else if c == '"' {
        Some('"')
    } else if c == 'n' {
        Some('\n')
    } else if c == 'r' {
        Some('\r')
    } else if c == 't' {
        Some('\t')
    } else if c == '0' {
        Some('\0')
    } else {
        None
    }
}

/// Reads the body of a string literal back into the character sequence it
/// denotes; `None` when the body is not well formed (a trailing backslash,
/// an unknown escape code, or a bare quote).
pub open spec fn unescape_seq(s: Seq<char>) -> Option<Seq<char>>
    decreases s.len(),
{
    if s.len() == 0 {
        Some(Seq::<char>::empty())
    } else if s[0] == '\\' {
        if s.len() < 2 {
            None
        } else {
            match (unescape_code(s[1]), unescape_seq(s.skip(2))) {
                (Some(c), Some(rest)) => Some(seq![c] + rest),
                _ => None,
            }
        }
    } else if s[0] == '"' {
        None
    } else {
        match unescape_seq(s.drop_first()) {
            Some(rest) => Some(seq![s[0]] + rest),
            None => None,
        }
    }
}

/// What reading a buffer as a null-terminated string yields: everything up
/// to the first null, or the whole buffer if it holds none.
pub open spec fn c_read(s: Seq<char>) -> Seq<char>
    decreases s.len(),
{
    if s.len() == 0 {
        Seq::<char>::empty()
    } else if s[0] == '\0' {
        Seq::<char>::empty()
    } else {
        seq![s[0]] + c_read(s.drop_first())
    }
}

proof fn lemma_escape_snoc(t: Seq<char>, c: char)
    ensures
        escape_seq(t.push(c)) == escape_seq(t) + escape_char(c),
    decreases t.len(),
{
    if t.len() == 0 {
        assert(t.push(c)[0] == c);
        assert(t.push(c).drop_first() =~= Seq::<char>::empty());
        assert(escape_seq(t.push(c)) == escape_char(c) + escape_seq(Seq::<char>::empty()));
        assert(escape_seq(t.push(c)) =~= escape_seq(t) + escape_char(c));
    } else {
        lemma_escape_snoc(t.drop_first(), c);
        assert(t.push(c).drop_first() =~= t.drop_first().push(c));
        assert(escape_seq(t.push(c)) =~= escape_seq(t) + escape_char(c));
    }
}

/// Round trip for the escaped form: reading the literal body this generator
/// emits yields exactly the metadata literal that went in.
pub proof fn lemma_unescape_escape(s: Seq<char>)
    ensures
        unescape_seq(escape_seq(s)) == Some(s),
    decreases s.len(),
{
    if s.len() == 0 {
        assert(escape_seq(s) =~= Seq::<char>::empty());
        assert(unescape_seq(escape_seq(s)) == Some(s));
    } else {
        let c = s[0];
        let rest = s.drop_first();
        lemma_unescape_escape(rest);
        let e = escape_seq(s);
        assert(e =~= escape_char(c) + escape_seq(rest));
        if c == '\\' || c == '"' || c == '\n' || c == '\r' || c == '\t' || c == '\0' {
            assert(escape_char(c).len() == 2);
            assert(e[0] == '\\');
            assert(unescape_code(e[1]) == Some(c));
            assert(e.skip(2) =~= escape_seq(rest));
            assert(unescape_seq(e).unwrap() =~= s);
        } else {
            assert(e[0] == c);
            assert(e.drop_first() =~= escape_seq(rest));
            assert(unescape_seq(e).unwrap() =~= s);
        }
    }
}

/// Round trip for null termination: a literal without an embedded null,
/// followed by one terminating null, reads back as exactly that literal.
pub proof fn lemma_c_read_terminated(s: Seq<char>)
    requires
        !s.contains('\0'),
    ensures
        c_read(s.push('\0')) == s,
    decreases s.len(),
{
    let p = s.push('\0');
    if s.len() == 0 {
        assert(p[0] == '\0');
        assert(c_read(p) =~= s);
    } else {
        if s[0] == '\0' {
            assert(s.contains('\0')) by { assert(s[0] == '\0'); }
        }
        assert(!s.drop_first().contains('\0')) by {
            if s.drop_first().contains('\0') {
                let i = choose|i: int| 0 <= i < s.drop_first().len() && s.drop_first()[i] == '\0';
                assert(s[i + 1] == '\0');
                assert(s.contains('\0'));
            }
        }
        lemma_c_read_terminated(s.drop_first());
        assert(p.drop_first() =~= s.drop_first().push('\0'));
        assert(p[0] == s[0]);
        assert(c_read(p) =~= s);
    }
}

/// The full round trip behind each generated getter: the emitted literal
/// body decodes back to the metadata literal, and the null-terminated
/// buffer built from that literal reads back as the literal itself.
pub proof fn lemma_getter_round_trip(lit: Seq<char>)
    requires
        !lit.contains('\0'),
    ensures
        unescape_seq(escape_seq(lit)) == Some(lit),
        c_read(lit.push('\0')) == lit,
{
    lemma_unescape_escape(lit);
    lemma_c_read_terminated(lit);
}

/// Relies on `String::push` of std: appends exactly the one character.
#[verifier::external_body]
pub(crate) fn push_char(s: &mut String, c: char)
    ensures
        final(s)@ == old(s)@ + seq![c],
{
    s.push(c);
}

/// Escapes a metadata literal for embedding between the quotes of a
/// generated string literal.
pub fn escape_literal(s: &str) -> (r: String)
    ensures
        r@ == escape_seq(s@),
{
    let n = s.unicode_len();
    let mut r = String::new();
    let mut i: usize = 0;
    while i < n
        invariant
            n == s@.len(),
            i <= n,
            r@ == escape_seq(s@.take(i as int)),
        decreases n - i,
    {
        let c = s.get_char(i);
        if c == '\\' {
            r.append("\\\\");
            proof {
                reveal_strlit("\\\\");
                assert(("\\\\")@ =~= escape_char(c));
            }
        } else if c == '"' {
            r.append("\\\"");
            proof {
                reveal_strlit("\\\"");
                assert(("\\\"")@ =~= escape_char(c));
            }
        } else if c == '\n' {
            r.append("\\n");
            proof {
                reveal_strlit("\\n");
                assert(("\\n")@ =~= escape_char(c));
            }
        } else if c == '\r' {
            r.append("\\r");
            proof {
                reveal_strlit("\\r");
                assert(("\\r")@ =~= escape_char(c));
            }
        } else if c == '\t' {
            r.append("\\t");
            proof {
                reveal_strlit("\\t");
                assert(("\\t")@ =~= escape_char(c));
            }
        } else if c == '\0' {
            r.append("\\0");
            proof {
                reveal_strlit("\\0");
                assert(("\\0")@ =~= escape_char(c));
            }
        } else {
            push_char(&mut r, c);
            proof {
                assert(seq![c] =~= escape_char(c));
            }
        }
        proof {
            lemma_escape_snoc(s@.take(i as int), c);
            assert(s@.take(i + 1) =~= s@.take(i as int).push(c));
        }
        i = i + 1;
    }
    proof {
        assert(s@.take(n as int) =~= s@);
    }
    r
}

/// Reads the body of a string literal back into the characters it denotes;
/// the inverse of `escape_literal` on everything that function emits.
pub fn unescape_literal(s: &str) -> (r: Option<String>)
    ensures
        r is Some <==> unescape_seq(s@) is Some,
        r matches Some(v) ==> Some(v@) == unescape_seq(s@),
{
    let n = s.unicode_len();
    let mut out = String::new();
    let mut i: usize = 0;
    proof {
        assert(s@.skip(0) =~= s@);
    }
    while i < n
        invariant
            n == s@.len(),
            i <= n,
            unescape_seq(s@) == (match unescape_seq(s@.skip(i as int)) {
                Some(t) => Some(out@ + t),
                None => None,
            }),
        decreases n - i,
    {
        let c = s.get_char(i);
        proof {
            assert(s@.skip(i as int)[0] == c);
        }
        if c == '\\' {
            if i + 1 == n {
                proof {
                    assert(s@.skip(i as int).len() == 1);
                }
                return None;
            }
            let code = s.get_char(i + 1);
            proof {
                assert(s@.skip(i as int)[1] == code);
                assert(s@.skip(i as int).skip(2) =~= s@.skip(i + 2));
            }
            let decoded: char;
            if code == '\\' {
                decoded = '\\';
            } else if code == '"' {
                decoded = '"';
            } else if code == 'n' {
                decoded = '\n';
            } else if code == 'r' {
                decoded = '\r';
            } else if code == 't' {
                decoded = '\t';
            } else if code == '0' {
                decoded = '\0';
            } else {
                proof {
                    assert(unescape_code(code) is None);
                }
                return None;
            }
            push_char(&mut out, decoded);
            proof {
                assert(unescape_code(code) == Some(decoded));
            }
            i = i + 2;
        } else if c == '"' {
            return None;
        } else {
            push_char(&mut out, c);
            proof {
                assert(s@.skip(i as int).drop_first() =~= s@.skip(i + 1));
            }
            i = i + 1;
        }
    }
    proof {
        assert(s@.skip(n as int) =~= Seq::<char>::empty());
    }
    Some(out)
}

/// Reads a buffer as a null-terminated string: everything up to the first
/// null, or the whole buffer if it holds none.
pub fn read_null_terminated(s: &str) -> (r: String)
    ensures
        r@ == c_read(s@),
{
    let n = s.unicode_len();
    let mut out = String::new();
    let mut i: usize = 0;
    proof {
        assert(s@.skip(0) =~= s@);
        assert(c_read(s@) =~= Seq::<char>::empty() + c_read(s@));
    }
    while i < n
        invariant
            n == s@.len(),
            i <= n,
            c_read(s@) == out@ + c_read(s@.skip(i as int)),
        decreases n - i,
    {
        let c = s.get_char(i);
        proof {
            assert(s@.skip(i as int)[0] == c);
        }
        if c == '\0' {
            proof {
                assert(c_read(s@.skip(i as int)) =~= Seq::<char>::empty());
                assert(c_read(s@) =~= out@);
            }
            return out;
        }
        push_char(&mut out, c);
        proof {
            assert(s@.skip(i as int).drop_first() =~= s@.skip(i + 1));
        }
        i = i + 1;
    }
    proof {
        assert(s@.skip(n as int) =~= Seq::<char>::empty());
        assert(c_read(s@) =~= out@);
    }
    out
}

} // verus!
