//! Quoting of words for a POSIX shell.

use crate::text::chars_of;
use vstd::prelude::*;
use vstd::string::*;

verus! {

/// What stands for one character inside single quotes: a single quote
/// closes the quoted run, stands between double quotes and opens a new run;
/// any other character stands for itself.
pub open spec fn quoted_char(c: char) -> Seq<char> {
    if c == '\'' {
        seq!['\'', '"', '\'', '"', '\'']
    } else {
        seq![c]
    }
}

/// `value` as one word of a shell command: between single quotes, each of
/// its characters quoted.
pub open spec fn shell_quoted(value: Seq<char>) -> Seq<char> {
    seq!['\''] + value.flat_map(|c: char| quoted_char(c)) + seq!['\'']
}

/// `value` as one word of a shell command.
pub fn shell_escape(value: &str) -> (word: String)
    ensures
        word@ == shell_quoted(value@),
{
    let ghost quote = |c: char| quoted_char(c);
    let chars = chars_of(value);
    let len = chars.len();
    let mut word = "'".to_owned();
    let mut copied: usize = 0;
    let mut i: usize = 0;
    proof {
        reveal_strlit("'");
        assert("'"@ =~= seq!['\'']);
        assert(value@.take(0).flat_map(quote) =~= Seq::<char>::empty());
        assert(word@ + value@.subrange(0, 0) =~= word@);
    }
    while i < len
        invariant
            copied <= i <= len,
            len == value@.len(),
            chars@ == value@,
            quote == |c: char| quoted_char(c),
            word@ + value@.subrange(copied as int, i as int) == seq!['\''] + value@.take(
                i as int,
            ).flat_map(quote),
        decreases len - i,
    {
        proof {
            value@.lemma_flat_map_take_append(quote, i as int);
        }
        let ghost run = value@.subrange(copied as int, i as int);
        if chars[i] == '\'' {
            proof {
                reveal_strlit("'\"'\"'");
                assert("'\"'\"'"@ =~= quoted_char('\''));
            }
            word.append(value.substring_char(copied, i));
            word.append("'\"'\"'");
            copied = i + 1;
            assert(word@ + value@.subrange(copied as int, i + 1) =~= seq!['\''] + value@.take(
                i as int,
            ).flat_map(quote) + quoted_char('\''));
        } else {
            assert(word@ + value@.subrange(copied as int, i + 1) =~= word@ + run + quoted_char(
                value@[i as int],
            ));
        }
        i = i + 1;
    }
    proof {
        reveal_strlit("'");
        assert(value@.take(len as int) == value@);
    }
    word.append(value.substring_char(copied, len));
    word.append("'");
    word
}

} // verus!
