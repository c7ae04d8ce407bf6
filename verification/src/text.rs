//! Text helpers: comparing texts, and writing a text as a Rust string literal.

use vstd::prelude::*;
use vstd::string::*;

verus! {

/// Whether two texts hold the same characters.
pub fn same_text(a: &str, b: &str) -> (same: bool)
    ensures
        same == (a@ == b@),
{
    let n = a.unicode_len();
    if n != b.unicode_len() {
        return false;
    }
    let mut i: usize = 0;
    while i < n
        invariant
            n == a@.len(),
            n == b@.len(),
            i <= n,
            forall|k: int| 0 <= k < i ==> a@[k] == b@[k],
        decreases n - i,
    {
        if a.get_char(i) != b.get_char(i) {
            return false;
        }
        i += 1;
    }
    proof {
        assert(a@ =~= b@);
    }
    true
}

/// How one character is written inside a string literal: a backslash and a
/// quote get a backslash in front, a line feed, a carriage return and a tab
/// get their letter, every other character stands for itself.
pub open spec fn escape_char(c: char) -> Seq<char> {
    if c == '\\' {
        seq!['\\', '\\']
    } else if c == '"' {
        seq!['\\', '"']
    } else if c == '\n' {
        seq!['\\', 'n']
    } else if c == '\r' {
        seq!['\\', 'r']
    } else if c == '\t' {
        seq!['\\', 't']
    } else {
        seq![c]
    }
}

/// The characters of `text`, each written as `escape_char` says.
pub open spec fn escape_text(text: Seq<char>) -> Seq<char>
    decreases text.len(),
{
    if text.len() == 0 {
        Seq::<char>::empty()
    } else {
        escape_text(text.drop_last()) + escape_char(text.last())
    }
}

/// The string literal that denotes `text`: its escaped characters between
/// two quotes.
pub open spec fn string_literal(text: Seq<char>) -> Seq<char> {
    seq!['"'] + escape_text(text) + seq!['"']
}

/// The character that the letter after a backslash stands for, if any.
pub open spec fn unescape_letter(letter: char) -> Option<char> {
    if letter == '\\' {
        Some('\\')
    } else if letter == '"' {
        Some('"')
    } else if letter == 'n' {
        Some('\n')
    } else if letter == 'r' {
        Some('\r')
    } else if letter == 't' {
        Some('\t')
    } else {
        None
    }
}

/// Reads the inside of a string literal back, front to back. `None` where a
/// quote or a carriage return stands bare, or a backslash is followed by
/// nothing or by a letter that `unescape_letter` does not know.
pub open spec fn unescape_text(body: Seq<char>) -> Option<Seq<char>>
    decreases body.len(),
{
    if body.len() == 0 {
        Some(Seq::<char>::empty())
    } else if body[0] == '\\' {
        if body.len() < 2 {
            None
        } else {
            match (unescape_letter(body[1]), unescape_text(body.skip(2))) {
                (Some(c), Some(rest)) => Some(seq![c] + rest),
                _ => None,
            }
        }
    } else if body[0] == '"' || body[0] == '\r' {
        None
    } else {
        match unescape_text(body.skip(1)) {
            Some(rest) => Some(seq![body[0]] + rest),
            None => None,
        }
    }
}

/// Escaping goes through a concatenation piece by piece.
pub proof fn lemma_escape_text_concat(a: Seq<char>, b: Seq<char>)
    ensures
        escape_text(a + b) == escape_text(a) + escape_text(b),
    decreases b.len(),
{
    if b.len() > 0 {
        lemma_escape_text_concat(a, b.drop_last());
        assert((a + b).drop_last() =~= a + b.drop_last());
    }
}

/// Every text is read back from its escaped form, unchanged: the literal
/// written for a text denotes that text and no other.
pub proof fn lemma_unescape_escape(text: Seq<char>)
    ensures
        unescape_text(escape_text(text)) == Some(text),
    decreases text.len(),
{
    if text.len() > 0 {
        let c = text[0];
        let rest = text.skip(1);
        lemma_escape_text_concat(seq![c], rest);
        assert(escape_text(seq![c].drop_last()) =~= Seq::<char>::empty());
        lemma_unescape_escape(rest);
        let body = escape_char(c) + escape_text(rest);
        if escape_char(c).len() == 2 {
            assert(body.skip(2) =~= escape_text(rest));
        } else {
            assert(body.skip(1) =~= escape_text(rest));
        }
        assert(seq![c] + rest =~= text);
    }
}

/// Two texts with the same literal are the same text.
pub proof fn lemma_string_literal_injective(a: Seq<char>, b: Seq<char>)
    requires
        string_literal(a) == string_literal(b),
    ensures
        a == b,
{
    let la = string_literal(a);
    let lb = string_literal(b);
    assert(la.subrange(1, la.len() - 1) =~= escape_text(a));
    assert(lb.subrange(1, lb.len() - 1) =~= escape_text(b));
    lemma_unescape_escape(a);
    lemma_unescape_escape(b);
}

/// Writes `text` as a string literal.
pub fn quote_text(text: &str) -> (quoted: String)
    ensures
        quoted@ == string_literal(text@),
{
    let n = text.unicode_len();
    let mut out = String::new();
    out.append("\"");
    proof {
        reveal_strlit("\"");
    }
    let mut i: usize = 0;
    while i < n
        invariant
            n == text@.len(),
            i <= n,
            out@ == seq!['"'] + escape_text(text@.take(i as int)),
        decreases n - i,
    {
        let c = text.get_char(i);
        if c == '\\' {
            out.append("\\\\");
            proof {
                reveal_strlit("\\\\");
            }
        } else if c == '"' {
            out.append("\\\"");
            proof {
                reveal_strlit("\\\"");
            }
        } else if c == '\n' {
            out.append("\\n");
            proof {
                reveal_strlit("\\n");
            }
        } else if c == '\r' {
            out.append("\\r");
            proof {
                reveal_strlit("\\r");
            }
        } else if c == '\t' {
            out.append("\\t");
            proof {
                reveal_strlit("\\t");
            }
        } else {
            let one = text.substring_char(i, i + 1);
            out.append(one);
        }
        proof {
            assert(text@.take(i + 1).drop_last() =~= text@.take(i as int));
        }
        i += 1;
    }
    out.append("\"");
    proof {
        reveal_strlit("\"");
        assert(text@.take(n as int) =~= text@);
    }
    out
}

} // verus!
