//! Decoding the escape sequences of a separator given on the command line.

use vstd::prelude::*;

verus! {

/// The character that a backslash followed by `c` stands for, where the pair
/// is an escape sequence.
pub open spec fn escape_code(c: char) -> Option<char> {
    if c == 't' {
        Some('\t')
    } else if c == 'n' {
        Some('\n')
    } else if c == 'r' {
        Some('\r')
    } else if c == '\\' {
        Some('\\')
    } else {
        None
    }
}

/// The text `s` with its escape sequences decoded, read from left to right.
/// A backslash and the character after it are taken together: they give one
/// character where they form an escape sequence and stay as they are where
/// they do not. A backslash at the very end stays.
pub open spec fn unescaped(s: Seq<char>) -> Seq<char>
    decreases s.len(),
{
    if s.len() == 0 {
        Seq::empty()
    } else if s[0] != '\\' {
        seq![s[0]] + unescaped(s.skip(1))
    } else if s.len() == 1 {
        seq!['\\']
    } else {
        match escape_code(s[1]) {
            Some(c) => seq![c] + unescaped(s.skip(2)),
            None => seq!['\\', s[1]] + unescaped(s.skip(2)),
        }
    }
}

/// What is still to be decoded in the middle of a scan: the backslash that
/// was read and is waiting for its partner, if any, then the unread text.
pub open spec fn pending_text(pending: bool, rest: Seq<char>) -> Seq<char> {
    if pending {
        seq!['\\'] + rest
    } else {
        rest
    }
}

/// Parse the escape sequences (`\t`, `\n`, `\r`, `\\`) in a string.
pub fn unescape(string: String) -> (res: String)
    ensures
        res@ == unescaped(string@),
{
    let mut res = String::new();
    let mut pending = false;
    proof {
        assert(string@.skip(0) == string@);
        assert(res@ + unescaped(string@) == unescaped(string@));
    }
    for ch in it: string.as_str().chars()
        invariant
            it.seq() == string@,
            res@ + unescaped(pending_text(pending, string@.skip(it.index()))) == unescaped(
                string@,
            ),
    {
        let ghost rest = string@.skip(it.index());
        let ghost before = pending_text(pending, rest);
        proof {
            assert(rest[0] == ch);
            assert(rest.skip(1) == string@.skip(it.index() + 1));
        }
        if pending {
            proof {
                assert(before.skip(2) == rest.skip(1));
            }
            if ch == 't' {
                res.push('\t');
            } else if ch == 'n' {
                res.push('\n');
            } else if ch == 'r' {
                res.push('\r');
            } else if ch == '\\' {
                res.push('\\');
            } else {
                res.push('\\');
                res.push(ch);
            }
            pending = false;
        } else if ch == '\\' {
            pending = true;
            proof {
                assert(pending_text(true, rest.skip(1)) == before);
            }
        } else {
            proof {
                assert(before.skip(1) == rest.skip(1));
            }
            res.push(ch);
        }
    }
    if pending {
        res.push('\\');
    }
    res
}

} // verus!
