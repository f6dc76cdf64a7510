//! Escaping of markup-significant characters in richly rendered replies.

use vstd::prelude::*;
use vstd::string::StrSliceExecFns;
use crate::text::push_char;

verus! {

/// A character that carries markup meaning in rendered replies and must be
/// escaped before sending.
pub open spec fn is_markup_char(c: char) -> bool {
    ||| c == '\\'
    ||| c == '_'
    ||| c == '*'
    ||| c == '['
    ||| c == ']'
    ||| c == '('
    ||| c == ')'
    ||| c == '~'
    ||| c == '`'
    ||| c == '>'
    ||| c == '#'
    ||| c == '+'
    ||| c == '-'
    ||| c == '='
    ||| c == '|'
    ||| c == '{'
    ||| c == '}'
    ||| c == '.'
    ||| c == '!'
}

/// `s` with every markup-significant character preceded by a backslash.
pub open spec fn spec_escape(s: Seq<char>) -> Seq<char>
    decreases s.len(),
{
    if s.len() == 0 {
        Seq::empty()
    } else if is_markup_char(s.last()) {
        spec_escape(s.drop_last()) + seq!['\\', s.last()]
    } else {
        spec_escape(s.drop_last()) + seq![s.last()]
    }
}

/// Whether `c` must be escaped.
fn is_markup(c: char) -> (b: bool)
    ensures
        b == is_markup_char(c),
{
    c == '\\' || c == '_' || c == '*' || c == '[' || c == ']' || c == '(' || c == ')'
        || c == '~' || c == '`' || c == '>' || c == '#' || c == '+' || c == '-' || c == '='
        || c == '|' || c == '{' || c == '}' || c == '.' || c == '!'
}

/// Escapes every markup-significant character of `s` with a backslash.
pub fn escape(s: &str) -> (r: String)
    ensures
        r@ == spec_escape(s@),
{
    let n = s.unicode_len();
    let mut r = String::new();
    let mut i: usize = 0;
    while i < n
        invariant
            i <= n,
            n == s@.len(),
            r@ == spec_escape(s@.take(i as int)),
        decreases n - i,
    {
        let c = s.get_char(i);
        if is_markup(c) {
            push_char(&mut r, '\\');
        }
        push_char(&mut r, c);
        proof {
            let pre = s@.take(i as int);
            let cur = s@.take(i + 1);
            assert(cur.drop_last() =~= pre);
            assert(cur.last() == s@[i as int]);
            if is_markup_char(c) {
                assert(r@ =~= spec_escape(pre) + seq!['\\', c]);
            } else {
                assert(r@ =~= spec_escape(pre) + seq![c]);
            }
        }
        i += 1;
    }
    proof {
        assert(s@.take(n as int) =~= s@);
    }
    r
}

} // verus!
