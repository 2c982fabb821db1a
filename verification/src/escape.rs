use vstd::prelude::*;
use vstd::string::StrSliceExecFns;
use vstd::string::StringExecFns;

verus! {

/// The escaped form of a single character, for embedding between single
/// quotes in a generated script: a backslash is doubled, a single quote
/// and a newline become their two-character escape sequences, and every
/// other character stands unchanged.
pub open spec fn escape_char(c: char) -> Seq<char> {
    if c == '\\' {
        seq!['\\', '\\']
    } else if c == '\'' {
        seq!['\\', '\'']
    } else if c == '\n' {
        seq!['\\', 'n']
    } else {
        seq![c]
    }
}

/// The escaped form of a string: each character escaped in turn.
/// Backslashes are handled by `escape_char` before quotes and newlines
/// ever introduce one, so no character is escaped twice.
pub open spec fn escape_seq(s: Seq<char>) -> Seq<char>
    decreases s.len(),
{
    if s.len() == 0 {
        Seq::<char>::empty()
    } else {
        escape_char(s[0]) + escape_seq(s.drop_first())
    }
}

/// What a backslash followed by the character `c` denotes when the
/// embedding interpreter reads the escaped text back: the three sequences
/// the escaper emits map back to their characters, and an unrecognized
/// pair is kept as it stands.
pub open spec fn unescape_pair(c: char) -> Seq<char> {
    if c == '\\' {
        seq!['\\']
    } else if c == '\'' {
        seq!['\'']
    } else if c == 'n' {
        seq!['\n']
    } else {
        seq!['\\', c]
    }
}

/// The interpretation of escaped text: a backslash and its follower are
/// read as one escape sequence, every other character as itself, and a
/// trailing lone backslash is kept.
pub open spec fn unescape_seq(s: Seq<char>) -> Seq<char>
    decreases s.len(),
{
    if s.len() == 0 {
        Seq::<char>::empty()
    } else if s[0] == '\\' && s.len() >= 2 {
        unescape_pair(s[1]) + unescape_seq(s.skip(2))
    } else {
        seq![s[0]] + unescape_seq(s.skip(1))
    }
}

/// Escaping a single character gives that character's escaped form.
pub proof fn lemma_escape_singleton(c: char)
    ensures
        escape_seq(seq![c]) == escape_char(c),
{
    assert(seq![c].len() == 1);
    assert(seq![c][0] == c);
    assert(seq![c].drop_first() =~= Seq::<char>::empty());
    assert(escape_seq(Seq::<char>::empty()) =~= Seq::<char>::empty());
    assert(escape_seq(seq![c]) == escape_char(c) + escape_seq(seq![c].drop_first()));
    assert(escape_char(c) + Seq::<char>::empty() =~= escape_char(c));
}

/// Escaping distributes over concatenation.
pub proof fn lemma_escape_append(a: Seq<char>, b: Seq<char>)
    ensures
        escape_seq(a + b) == escape_seq(a) + escape_seq(b),
    decreases a.len(),
{
    if a.len() == 0 {
        assert(a + b =~= b);
        assert(escape_seq(a) + escape_seq(b) =~= escape_seq(b));
    } else {
        assert((a + b).drop_first() =~= a.drop_first() + b);
        lemma_escape_append(a.drop_first(), b);
        assert(escape_char(a[0]) + (escape_seq(a.drop_first()) + escape_seq(b)) =~= (escape_char(
            a[0],
        ) + escape_seq(a.drop_first())) + escape_seq(b));
    }
}

/// Law: escaping is content-preserving. For every string — in particular
/// one holding backslashes, single quotes or newlines — the escaped form,
/// once re-embedded and interpreted, reproduces the original exactly.
pub proof fn lemma_escape_round_trip(s: Seq<char>)
    ensures
        unescape_seq(escape_seq(s)) == s,
    decreases s.len(),
{
    if s.len() == 0 {
        assert(unescape_seq(escape_seq(s)) =~= s);
    } else {
        let c = s[0];
        let rest = escape_seq(s.drop_first());
        lemma_escape_round_trip(s.drop_first());
        if c == '\\' || c == '\'' || c == '\n' {
            let e = escape_char(c);
            assert(escape_seq(s) == e + rest);
            assert((e + rest)[0] == '\\');
            assert((e + rest).skip(2) =~= rest);
            assert(unescape_pair((e + rest)[1]) =~= seq![c]);
            assert(seq![c] + s.drop_first() =~= s);
        } else {
            assert(escape_seq(s) == seq![c] + rest);
            assert((seq![c] + rest)[0] == c);
            assert((seq![c] + rest).skip(1) =~= rest);
            assert(seq![c] + s.drop_first() =~= s);
        }
    }
}

/// Escapes a string for safe embedding between single quotes in a
/// generated script: backslashes first, then single quotes, then
/// newlines, in that fixed order.
pub(crate) fn escape_py(s: &str) -> (r: String)
    ensures
        r@ == escape_seq(s@),
{
    let n = s.unicode_len();
    let mut out = String::new();
    let mut i: usize = 0;
    while i < n
        invariant
            0 <= i <= n,
            n == s@.len(),
            out@ == escape_seq(s@.take(i as int)),
        decreases n - i,
    {
        let c = s.get_char(i);
        if c == '\\' {
            out.append("\\\\");
            proof {
                reveal_strlit("\\\\");
            }
        } else if c == '\'' {
            out.append("\\'");
            proof {
                reveal_strlit("\\'");
            }
        } else if c == '\n' {
            out.append("\\n");
            proof {
                reveal_strlit("\\n");
            }
        } else {
            out.push(c);
        }
        proof {
            lemma_escape_append(s@.take(i as int), seq![s@[i as int]]);
            assert(s@.take(i + 1 as int) =~= s@.take(i as int) + seq![s@[i as int]]);
            lemma_escape_singleton(s@[i as int]);
            assert(out@ =~= escape_seq(s@.take(i + 1 as int)));
        }
        i += 1;
    }
    proof {
        assert(s@.take(n as int) =~= s@);
    }
    out
}

} // verus!
