//! Text handed to macOS: AppleScript string literals and the script that asks
//! an application to quit.

use vstd::prelude::*;
use vstd::string::*;

use crate::text::push_char;

verus! {

/// How one character is written inside an AppleScript string literal:
/// backslash and double quote get a backslash before them.
pub open spec fn escape_char(c: char) -> Seq<char> {
    if c == '\\' {
        seq!['\\', '\\']
    } else if c == '"' {
        seq!['\\', '"']
    } else {
        seq![c]
    }
}

/// The body of an AppleScript string literal that holds `s`.
pub open spec fn escaped(s: Seq<char>) -> Seq<char>
    decreases s.len(),
{
    if s.len() == 0 {
        Seq::empty()
    } else {
        escape_char(s[0]) + escaped(s.drop_first())
    }
}

/// `s` as an AppleScript string literal, quotes included.
pub open spec fn apple_script_literal(s: Seq<char>) -> Seq<char> {
    seq!['"'] + escaped(s) + seq!['"']
}

/// What AppleScript reads for a backslash followed by `c`: `\t`, `\n` and
/// `\r` stand for tab, line feed and return; before any other character the
/// backslash only keeps that character as it is.
pub open spec fn escape_meaning(c: char) -> char {
    if c == 't' {
        '\t'
    } else if c == 'n' {
        '\n'
    } else if c == 'r' {
        '\r'
    } else {
        c
    }
}

/// What AppleScript reads from the body of a string literal.
pub open spec fn unescaped(body: Seq<char>) -> Seq<char>
    decreases body.len(),
{
    if body.len() == 0 {
        Seq::empty()
    } else if body[0] == '\\' && body.len() >= 2 {
        seq![escape_meaning(body[1])] + unescaped(body.skip(2))
    } else {
        seq![body[0]] + unescaped(body.skip(1))
    }
}

/// The script that asks the application `name` to quit.
pub open spec fn quit_script(name: Seq<char>) -> Seq<char> {
    "tell application "@ + apple_script_literal(name) + " to quit"@
}

/// Escaping a concatenation escapes each part.
pub proof fn lemma_escaped_concat(a: Seq<char>, b: Seq<char>)
    ensures
        escaped(a + b) == escaped(a) + escaped(b),
    decreases a.len(),
{
    if a.len() == 0 {
        assert(a + b =~= b);
        assert(escaped(a) + escaped(b) =~= escaped(b));
    } else {
        lemma_escaped_concat(a.drop_first(), b);
        assert((a + b).drop_first() =~= a.drop_first() + b);
        assert(escaped(a + b) == escape_char(a[0]) + escaped(a.drop_first() + b));
        assert(escape_char(a[0]) + (escaped(a.drop_first()) + escaped(b)) =~= (escape_char(a[0])
            + escaped(a.drop_first())) + escaped(b));
    }
}

/// Reading back the body that escaping writes gives the original text:
/// an AppleScript literal built by [`apple_script_string`] stands for exactly
/// the value it was built from.
pub proof fn lemma_unescape_escaped(s: Seq<char>)
    ensures
        unescaped(escaped(s)) == s,
    decreases s.len(),
{
    if s.len() == 0 {
    } else {
        let rest = escaped(s.drop_first());
        lemma_unescape_escaped(s.drop_first());
        let e = escaped(s);
        assert(e == escape_char(s[0]) + rest);
        if s[0] == '\\' || s[0] == '"' {
            assert(e[0] == '\\');
            assert(e[1] == s[0]);
            assert(e.skip(2) =~= rest);
        } else {
            assert(e[0] == s[0]);
            assert(e.skip(1) =~= rest);
        }
        assert(s =~= seq![s[0]] + s.drop_first());
    }
}

/// Two different values never give the same AppleScript literal.
pub proof fn lemma_apple_script_literal_injective(a: Seq<char>, b: Seq<char>)
    requires
        apple_script_literal(a) == apple_script_literal(b),
    ensures
        a == b,
{
    let la = apple_script_literal(a);
    let lb = apple_script_literal(b);
    assert(la.subrange(1, la.len() - 1) =~= escaped(a));
    assert(lb.subrange(1, lb.len() - 1) =~= escaped(b));
    lemma_unescape_escaped(a);
    lemma_unescape_escaped(b);
}

/// `value` as an AppleScript string literal: in double quotes, with each
/// backslash and double quote preceded by a backslash.
pub fn apple_script_string(value: &str) -> (s: String)
    ensures
        s@ == apple_script_literal(value@),
        no_special_chars(value@) ==> s@ == seq!['"'] + value@ + seq!['"'],
{
    proof {
        lemma_plain_text_kept(value@);
    }
    let mut s = String::new();
    push_char(&mut s, '"');
    let ghost start = s@;
    for c in it: value.chars()
        invariant
            it.seq() == value@,
            start == seq!['"'],
            s@ == start + escaped(value@.take(it.index() as int)),
    {
        let ghost before = value@.take(it.index() as int);
        proof {
            lemma_escaped_concat(before, seq![c]);
            assert(value@.take(it.index() + 1) =~= before + seq![c]);
            assert(escaped(seq![c]) =~= escape_char(c)) by {
                assert(seq![c].drop_first() =~= Seq::<char>::empty());
                assert(escaped(seq![c].drop_first()) == Seq::<char>::empty());
                assert(seq![c][0] == c);
            }
        }
        if c == '\\' {
            push_char(&mut s, '\\');
            push_char(&mut s, '\\');
        } else if c == '"' {
            push_char(&mut s, '\\');
            push_char(&mut s, '"');
        } else {
            push_char(&mut s, c);
        }
        assert(s@ =~= start + escaped(value@.take(it.index() + 1)));
    }
    assert(value@.take(value@.len() as int) =~= value@);
    push_char(&mut s, '"');
    assert(s@ =~= apple_script_literal(value@));
    s
}

/// The AppleScript that asks the application `name` to quit.
pub fn quit_app_script(name: &str) -> (s: String)
    ensures
        s@ == quit_script(name@),
        no_special_chars(name@) ==> s@ == "tell application \""@ + name@ + "\" to quit"@,
{
    proof {
        lemma_plain_text_kept(name@);
        reveal_strlit("tell application ");
        reveal_strlit("tell application \"");
        reveal_strlit(" to quit");
        reveal_strlit("\" to quit");
        assert("tell application "@ + (seq!['"'] + name@ + seq!['"']) + " to quit"@
            =~= "tell application \""@ + name@ + "\" to quit"@);
    }
    let mut s = String::from_str("tell application ");
    let literal = apple_script_string(name);
    s.append(literal.as_str());
    s.append(" to quit");
    s
}

/// Whether a text holds neither a backslash nor a double quote.
pub open spec fn no_special_chars(s: Seq<char>) -> bool {
    forall|i: int| 0 <= i < s.len() ==> s[i] != '\\' && s[i] != '"'
}

/// Only backslash and double quote are escaped: every other character stands
/// for itself, so text without them is quoted as it is.
pub proof fn lemma_plain_text_kept(s: Seq<char>)
    ensures
        forall|c: char| c != '\\' && c != '"' ==> #[trigger] escape_char(c) == seq![c],
        no_special_chars(s) ==> escaped(s) == s,
        no_special_chars(s) ==> apple_script_literal(s) == seq!['"'] + s + seq!['"'],
    decreases s.len(),
{
    if s.len() > 0 && no_special_chars(s) {
        lemma_plain_text_kept(s.drop_first());
        assert(no_special_chars(s.drop_first()));
        assert(escape_char(s[0]) == seq![s[0]]);
        assert(seq![s[0]] + s.drop_first() =~= s);
    } else if s.len() == 0 {
        assert(escaped(s) =~= s);
    }
}

} // verus!
