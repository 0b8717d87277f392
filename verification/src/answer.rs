//! The interactive confirmation gate's value type and the interpretation of
//! the line the user typed.  Reading the line is the surrounding program's
//! job; deciding what the line means is done here.

use vstd::prelude::*;
use vstd::string::*;

verus! {

/// The result of a single yes/no confirmation.  Ephemeral: scoped to one
/// interaction.
#[derive(Clone, Copy, Debug, PartialEq, Eq, Structural)]
pub enum Answer {
    Yes,
    No,
}

/// The characters stripped from either end of the typed line: exactly the
/// Unicode white-space characters — tab through carriage return, space, the
/// next line and no-break space controls, the Ogham space mark, the typeset
/// spaces, the line and paragraph separators, the narrow no-break space, the
/// medium mathematical space and the ideographic space.
pub open spec fn is_line_space(c: char) -> bool {
    ||| ('\u{0009}' <= c && c <= '\u{000D}')
    ||| c == ' '
    ||| c == '\u{0085}'
    ||| c == '\u{00A0}'
    ||| c == '\u{1680}'
    ||| ('\u{2000}' <= c && c <= '\u{200A}')
    ||| c == '\u{2028}'
    ||| c == '\u{2029}'
    ||| c == '\u{202F}'
    ||| c == '\u{205F}'
    ||| c == '\u{3000}'
}

/// ASCII lowercasing of a single character.
pub open spec fn lower_char(c: char) -> char {
    if 'A' <= c && c <= 'Z' {
        ((c as u8) + 32) as char
    } else {
        c
    }
}

/// The line with leading blanks removed.
pub open spec fn trim_front(s: Seq<char>) -> Seq<char>
    decreases s.len(),
{
    if s.len() > 0 && is_line_space(s[0]) {
        trim_front(s.drop_first())
    } else {
        s
    }
}

/// The line with trailing blanks removed.
pub open spec fn trim_back(s: Seq<char>) -> Seq<char>
    decreases s.len(),
{
    if s.len() > 0 && is_line_space(s.last()) {
        trim_back(s.drop_last())
    } else {
        s
    }
}

/// The line with blanks removed from both ends.
pub open spec fn trimmed(s: Seq<char>) -> Seq<char> {
    trim_back(trim_front(s))
}

/// Whether a trimmed line spells "y" or "yes", ignoring ASCII case.
pub open spec fn is_yes_word(t: Seq<char>) -> bool {
    ||| (t.len() == 1 && lower_char(t[0]) == 'y')
    ||| (t.len() == 3 && lower_char(t[0]) == 'y' && lower_char(t[1]) == 'e' && lower_char(
        t[2],
    ) == 's')
}

/// What a typed line means: `Yes` exactly when, after trimming blanks, it
/// spells "y" or "yes" in any ASCII case; anything else, the empty line
/// included, means `No`.
pub open spec fn spec_answer(line: Seq<char>) -> Answer {
    if is_yes_word(trimmed(line)) {
        Answer::Yes
    } else {
        Answer::No
    }
}

fn line_space(c: char) -> (b: bool)
    ensures
        b == is_line_space(c),
{
    ('\u{0009}' <= c && c <= '\u{000D}') || c == ' ' || c == '\u{0085}' || c == '\u{00A0}' || c
        == '\u{1680}' || ('\u{2000}' <= c && c <= '\u{200A}') || c == '\u{2028}' || c
        == '\u{2029}' || c == '\u{202F}' || c == '\u{205F}' || c == '\u{3000}'
}

fn lower(c: char) -> (r: char)
    ensures
        r == lower_char(c),
{
    if 'A' <= c && c <= 'Z' {
        ((c as u8) + 32) as char
    } else {
        c
    }
}

/// Interprets one line of user input as a confirmation answer.
pub fn parse_answer(line: &str) -> (a: Answer)
    ensures
        a == spec_answer(line@),
{
    let n: usize = line.unicode_len();
    proof {
        assert(line@.subrange(0, n as int) =~= line@);
    }
    let mut start: usize = 0;
    while start < n && line_space(line.get_char(start))
        invariant
            start <= n,
            n == line@.len(),
            trim_front(line@) == trim_front(line@.subrange(start as int, n as int)),
        decreases n - start,
    {
        proof {
            let cur = line@.subrange(start as int, n as int);
            assert(cur.drop_first() =~= line@.subrange(start as int + 1, n as int));
        }
        start = start + 1;
    }
    proof {
        let cur = line@.subrange(start as int, n as int);
        assert(trim_front(cur) == cur);
        assert(trim_front(line@) == line@.subrange(start as int, n as int));
    }
    let mut end: usize = n;
    while end > start && line_space(line.get_char(end - 1))
        invariant
            start <= end <= n,
            n == line@.len(),
            trim_front(line@) == line@.subrange(start as int, n as int),
            trim_back(line@.subrange(start as int, n as int)) == trim_back(
                line@.subrange(start as int, end as int),
            ),
        decreases end,
    {
        proof {
            let cur = line@.subrange(start as int, end as int);
            assert(cur.drop_last() =~= line@.subrange(start as int, end as int - 1));
        }
        end = end - 1;
    }
    proof {
        let cur = line@.subrange(start as int, end as int);
        assert(trim_back(cur) == cur);
        assert(trimmed(line@) == line@.subrange(start as int, end as int));
    }
    let ghost t = line@.subrange(start as int, end as int);
    let len: usize = end - start;
    if len == 1 {
        let c0 = lower(line.get_char(start));
        if c0 == 'y' {
            Answer::Yes
        } else {
            Answer::No
        }
    } else if len == 3 {
        let c0 = lower(line.get_char(start));
        let c1 = lower(line.get_char(start + 1));
        let c2 = lower(line.get_char(start + 2));
        if c0 == 'y' && c1 == 'e' && c2 == 's' {
            Answer::Yes
        } else {
            Answer::No
        }
    } else {
        Answer::No
    }
}

} // verus!
