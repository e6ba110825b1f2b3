//! The lexer's scanners: each reads one kind of token (or comment) from a
//! vector of characters, as the functions of `spec` say.
use vstd::prelude::*;

use crate::lexer::chars::{push_char, CharClass};
use crate::lexer::spec::{scan_block, scan_line, scan_number, scan_quoted, scan_word};

verus! {

/// Skips a block comment (see `scan_block`), starting after its `/*`.
pub fn exec_scan_block(s: &Vec<char>, j0: usize, line0: usize, col0: usize) -> (r: (
    usize,
    usize,
    usize,
))
    requires
        s@.len() < usize::MAX,
        j0 <= s@.len(),
        line0 <= j0 + 1,
        col0 <= j0,
    ensures
        (r.0 as nat, r.1 as nat, r.2 as nat) == scan_block(
            s@,
            j0 as nat,
            line0 as nat,
            col0 as nat,
            0,
        ),
        j0 <= r.0 <= s@.len(),
        r.1 <= r.0 + 1,
        r.2 <= r.0,
{
    let mut j = j0;
    let mut line = line0;
    let mut col = col0;
    let mut nested: usize = 0;
    while j < s.len()
        invariant
            s@.len() < usize::MAX,
            j0 <= j <= s@.len(),
            line <= j + 1,
            col <= j,
            nested <= j,
            scan_block(s@, j as nat, line as nat, col as nat, nested as nat) == scan_block(
                s@,
                j0 as nat,
                line0 as nat,
                col0 as nat,
                0,
            ),
        decreases s@.len() - j,
    {
        let c = s[j];
        if c == '\n' {
            j = j + 1;
            line = line + 1;
            col = 0;
        } else if c == '/' && j + 1 < s.len() && s[j + 1] == '*' {
            j = j + 2;
            col = col + 2;
            nested = nested + 1;
        } else if c == '*' && j + 1 < s.len() && s[j + 1] == '/' {
            if nested > 0 {
                j = j + 2;
                col = col + 2;
                nested = nested - 1;
            } else {
                return (j + 2, line, col + 2);
            }
        } else {
            j = j + 1;
            col = col + 1;
        }
    }
    (j, line, col)
}

/// Skips a line comment (see `scan_line`), starting after its `//`;
/// `None` when no new line ends it.
pub fn exec_scan_line(s: &Vec<char>, j0: usize, col0: usize) -> (r: Option<(usize, usize)>)
    requires
        s@.len() < usize::MAX,
        j0 <= s@.len(),
        col0 <= j0,
    ensures
        r is None <==> scan_line(s@, j0 as nat, col0 as nat) is None,
        r matches Some((j, c)) ==> scan_line(s@, j0 as nat, col0 as nat) == Some(
            (j as nat, c as nat),
        ) && j0 <= j < s@.len() && c <= j,
{
    let mut j = j0;
    let mut col = col0;
    while j < s.len() && s[j] != '\n'
        invariant
            s@.len() < usize::MAX,
            j0 <= j <= s@.len(),
            col <= j,
            scan_line(s@, j as nat, col as nat) == scan_line(s@, j0 as nat, col0 as nat),
        decreases s@.len() - j,
    {
        j = j + 1;
        col = col + 1;
    }
    if j < s.len() {
        Some((j, col))
    } else {
        None
    }
}

/// Reads a quoted text (see `scan_quoted`), starting after its opening
/// character. Gives the index, line and column reached, the text, and
/// whether it stopped at a template hole.
pub fn exec_scan_quoted(
    s: &Vec<char>,
    j0: usize,
    line0: usize,
    col0: usize,
    escaped0: bool,
    quote: char,
    brace: bool,
) -> (r: (usize, usize, usize, String, bool))
    requires
        s@.len() < usize::MAX,
        j0 <= s@.len(),
        line0 <= j0 + 1,
        col0 <= j0,
    ensures
        ({
            let q = scan_quoted(s@, j0 as nat, line0 as nat, col0 as nat, Seq::empty(), escaped0, quote, brace);
            &&& q.j == r.0
            &&& q.line == r.1
            &&& q.col == r.2
            &&& q.text == r.3@
            &&& q.hit_brace == r.4
        }),
        j0 <= r.0 <= s@.len(),
        r.1 <= r.0 + 1,
        r.2 <= r.0,
{
    let mut j = j0;
    let mut line = line0;
    let mut col = col0;
    let mut escaped = escaped0;
    let mut text = String::new();
    while j < s.len()
        invariant
            s@.len() < usize::MAX,
            j0 <= j <= s@.len(),
            line <= j + 1,
            col <= j,
            scan_quoted(s@, j as nat, line as nat, col as nat, text@, escaped, quote, brace)
                == scan_quoted(s@, j0 as nat, line0 as nat, col0 as nat, Seq::empty(), escaped0, quote, brace),
        decreases s@.len() - j,
    {
        let c = s[j];
        if c == '\\' {
            push_char(&mut text, c);
            escaped = true;
            j = j + 1;
            col = col + 1;
        } else if !escaped && c == quote {
            return (j + 1, line, col + 1, text, false);
        } else if !escaped && brace && c == '{' {
            return (j + 1, line, col + 1, text, true);
        } else {
            push_char(&mut text, c);
            escaped = false;
            if c == '\n' {
                line = line + 1;
                col = 0;
            } else {
                col = col + 1;
            }
            j = j + 1;
        }
    }
    (j, line, col, text, false)
}

/// Reads the rest of a number whose first digit `first` has been read (see
/// `scan_number`).
pub fn exec_scan_number(s: &Vec<char>, k: &Vec<CharClass>, j0: usize, col0: usize, first: char) -> (r: (
    usize,
    usize,
    String,
))
    requires
        s@.len() < usize::MAX,
        k@.len() == s@.len(),
        j0 <= s@.len(),
        col0 <= j0,
    ensures
        (r.0 as nat, r.1 as nat, r.2@) == scan_number(
            s@,
            k@,
            j0 as nat,
            col0 as nat,
            seq![first],
            true,
            true,
            false,
        ),
        j0 <= r.0 <= s@.len(),
        r.1 <= r.0,
{
    let mut j = j0;
    let mut col = col0;
    let mut text = String::new();
    push_char(&mut text, first);
    assert(text@ =~= seq![first]);
    let mut allow_period = true;
    let mut allow_e = true;
    let mut prev_period = false;
    while j < s.len()
        invariant
            s@.len() < usize::MAX,
            j0 <= j <= s@.len(),
            col <= j,
            k@.len() == s@.len(),
            scan_number(s@, k@, j as nat, col as nat, text@, allow_period, allow_e, prev_period)
                == scan_number(s@, k@, j0 as nat, col0 as nat, seq![first], true, true, false),
        ensures
            j0 <= j <= s@.len(),
            col <= j,
            scan_number(s@, k@, j0 as nat, col0 as nat, seq![first], true, true, false) == (
                j as nat,
                col as nat,
                text@,
            ),
        decreases s@.len() - j,
    {
        let p = s[j];
        if !k[j].numeric {
            if p == '.' && !allow_period {
                break;
            } else if p == 'e' && !allow_e {
                break;
            } else if p == '.' {
                allow_period = false;
                prev_period = true;
                j = j + 1;
            } else if p == 'e' && !prev_period {
                allow_period = false;
                allow_e = false;
                push_char(&mut text, p);
                j = j + 1;
                col = col + 1;
            } else {
                break;
            }
        } else {
            if prev_period {
                push_char(&mut text, '.');
            }
            prev_period = false;
            push_char(&mut text, p);
            j = j + 1;
            col = col + 1;
        }
    }
    (j, col, text)
}

/// Reads the rest of a word whose first character `first` has been read
/// (see `scan_word`).
pub fn exec_scan_word(s: &Vec<char>, k: &Vec<CharClass>, j0: usize, col0: usize, first: char, underscore: bool) -> (r: (
    usize,
    usize,
    String,
))
    requires
        s@.len() < usize::MAX,
        k@.len() == s@.len(),
        j0 <= s@.len(),
        col0 <= j0,
    ensures
        (r.0 as nat, r.1 as nat, r.2@) == scan_word(s@, k@, j0 as nat, col0 as nat, seq![first], underscore),
        j0 <= r.0 <= s@.len(),
        r.1 <= r.0,
{
    let mut j = j0;
    let mut col = col0;
    let mut text = String::new();
    push_char(&mut text, first);
    assert(text@ =~= seq![first]);
    while j < s.len() && (k[j].alphanumeric || (underscore && s[j] == '_'))
        invariant
            s@.len() < usize::MAX,
            j0 <= j <= s@.len(),
            col <= j,
            k@.len() == s@.len(),
            scan_word(s@, k@, j as nat, col as nat, text@, underscore) == scan_word(
                s@,
                k@,
                j0 as nat,
                col0 as nat,
                seq![first],
                underscore,
            ),
        decreases s@.len() - j,
    {
        push_char(&mut text, s[j]);
        j = j + 1;
        col = col + 1;
    }
    (j, col, text)
}

} // verus!
