//! Which configuration texts are handed to the TOML parser.
//!
//! `boml` faults on a few inputs it could otherwise parse or reject: it
//! slices the text behind `\x`, `\u` and `\U` escapes of basic strings by
//! bytes and panics when the slice ends inside a multi-byte character; it
//! copies a number token into a fixed buffer of 768 bytes; it reads a
//! fraction of a second of nine or more digits with an arithmetic that
//! overflows; it asserts that the hour of a date-time is followed by `:`;
//! and it recurses once per nested array or inline table and once per
//! comment line of a run of comment lines. The scan below follows `boml`'s
//! view of the text (code, comments, basic and literal strings, single- and
//! multi-line) and refuses a text only where one of these faults could be
//! reached. Wherever the scan and `boml` could part ways, `boml` has already
//! stopped with a parse error.
use vstd::prelude::*;
use crate::text::{is_digit, all_digits};

verus! {

/// Deepest nesting of arrays and inline tables a configuration text may
/// hold.
pub const MAX_TOML_DEPTH: usize = 256;

/// Most comment lines a configuration text may hold in one run of comments
/// and white space.
pub const MAX_TOML_COMMENT_RUN: usize = 16384;

/// Longest number token, in UTF-8 bytes.
pub const MAX_TOML_RUN_BYTES: usize = 768;

/// The number of bytes of `c` in UTF-8.
pub open spec fn utf8_len(c: char) -> nat {
    if c <= '\u{7f}' {
        1
    } else if c <= '\u{7ff}' {
        2
    } else if c <= '\u{ffff}' {
        3
    } else {
        4
    }
}

/// A character at which the TOML parser ends a number token: ASCII
/// whitespace, `,`, `]`, `}` or `#`.
pub open spec fn ends_number(c: char) -> bool {
    c == ' ' || c == '\t' || c == '\n' || c == '\x0C' || c == '\r' || c == ',' || c == ']' || c == '}'
        || c == '#'
}

/// Every character of `s` is ASCII.
pub open spec fn all_ascii(s: Seq<char>) -> bool {
    forall|j: int| 0 <= j < s.len() ==> #[trigger] s[j] <= '\u{7f}'
}

/// How many hexadecimal digits the escape letter `c` takes.
pub open spec fn escape_width(c: char) -> int {
    if c == 'x' {
        2
    } else if c == 'u' {
        4
    } else if c == 'U' {
        8
    } else {
        0
    }
}

/// A backslash at `i` followed by `x`, `u` or `U` has only ASCII characters
/// where its hexadecimal digits would stand.
pub open spec fn escape_ok_at(s: Seq<char>, i: int) -> bool {
    (i + 1 < s.len() && s[i] == '\\') ==> all_ascii(
        s.subrange(i + 2, if i + 2 + escape_width(s[i + 1]) <= s.len() { i + 2 + escape_width(s[i + 1]) } else { s.len() as int }),
    )
}

/// A `.` at `i` that follows `:` and two digits is not followed by nine
/// digits.
pub open spec fn fraction_ok_at(s: Seq<char>, i: int) -> bool {
    (3 <= i && i + 10 <= s.len() && s[i - 3] == ':' && is_digit(s[i - 2]) && is_digit(s[i - 1]) && s[i] == '.')
        ==> !all_digits(s.subrange(i + 1, i + 10))
}

/// A `T`, `t` or space at `j` between a date's day and two digits is
/// followed by `:` after those digits.
pub open spec fn hour_ok_at(s: Seq<char>, j: int) -> bool {
    (3 <= j && j + 3 <= s.len() && s[j - 3] == '-' && is_digit(s[j - 2]) && is_digit(s[j - 1])
        && (s[j] == 'T' || s[j] == 't' || s[j] == ' ') && is_digit(s[j + 1]) && is_digit(s[j + 2]))
        ==> (j + 3 < s.len() && s[j + 3] == ':')
}

/// Where the scan is: in code, in a comment, in a basic or literal string
/// (single- or multi-line), or just after the closing quotes of a
/// multi-line string, where up to the given number of further quotes still
/// belong to it.
#[derive(Clone, Copy, PartialEq, Eq, Structural, Debug)]
pub enum LexMode {
    Code,
    Comment,
    Basic,
    MultiBasic,
    Literal,
    MultiLiteral,
    ClosingBasic(u8),
    ClosingLiteral(u8),
}

/// The state of the scan before a character: where it is, how many
/// characters it passes over as part of what came before, how deep arrays
/// and inline tables are nested, and how many comments the current run of
/// comments and white space holds.
pub struct Scan {
    pub mode: LexMode,
    pub skip: nat,
    pub depth: nat,
    pub comments: nat,
}

/// Three `q` characters start at `i`.
pub open spec fn triple(s: Seq<char>, i: int, q: char) -> bool {
    0 <= i && i + 2 < s.len() && s[i] == q && s[i + 1] == q && s[i + 2] == q
}

/// The character `c` is read as code: outside comments and strings, and
/// not a quote that still closes a multi-line string.
pub open spec fn is_code(st: Scan, c: char) -> bool {
    st.skip == 0 && match st.mode {
        LexMode::Code => true,
        LexMode::ClosingBasic(k) => !(k > 0 && c == '"'),
        LexMode::ClosingLiteral(k) => !(k > 0 && c == '\''),
        _ => false,
    }
}

/// ASCII white space as `boml` skips it between tokens.
pub open spec fn is_toml_space(c: char) -> bool {
    c == ' ' || c == '\t' || c == '\n' || c == '\r'
}

/// Where the scan is after the character at `i`, and how many characters it
/// then passes over.
pub open spec fn next_mode(st: Scan, s: Seq<char>, i: int) -> (LexMode, nat) {
    let c = s[i];
    if st.skip > 0 {
        (st.mode, (st.skip - 1) as nat)
    } else {
        match st.mode {
            LexMode::Comment => if c == '\n' { (LexMode::Code, 0) } else { (LexMode::Comment, 0) },
            LexMode::Basic => if c == '\\' {
                (LexMode::Basic, 1)
            } else if c == '"' {
                (LexMode::Code, 0)
            } else {
                (LexMode::Basic, 0)
            },
            LexMode::MultiBasic => if c == '\\' {
                (LexMode::MultiBasic, 1)
            } else if triple(s, i, '"') {
                (LexMode::ClosingBasic(2), 2)
            } else {
                (LexMode::MultiBasic, 0)
            },
            LexMode::Literal => if c == '\'' { (LexMode::Code, 0) } else { (LexMode::Literal, 0) },
            LexMode::MultiLiteral => if triple(s, i, '\'') {
                (LexMode::ClosingLiteral(2), 2)
            } else {
                (LexMode::MultiLiteral, 0)
            },
            LexMode::ClosingBasic(k) if k > 0 && c == '"' => (LexMode::ClosingBasic((k - 1) as u8), 0),
            LexMode::ClosingLiteral(k) if k > 0 && c == '\'' => (LexMode::ClosingLiteral((k - 1) as u8), 0),
            _ => if c == '#' {
                (LexMode::Comment, 0)
            } else if c == '"' {
                if triple(s, i, '"') { (LexMode::MultiBasic, 2) } else { (LexMode::Basic, 0) }
            } else if c == '\'' {
                if triple(s, i, '\'') { (LexMode::MultiLiteral, 2) } else { (LexMode::Literal, 0) }
            } else {
                (LexMode::Code, 0)
            },
        }
    }
}

/// The scan state after the character at `i`.
pub open spec fn scan_step(st: Scan, s: Seq<char>, i: int) -> Scan {
    let c = s[i];
    let (mode, skip) = next_mode(st, s, i);
    let code = is_code(st, c);
    Scan {
        mode,
        skip,
        depth: if code && (c == '[' || c == '{') {
            st.depth + 1
        } else if code && (c == ']' || c == '}') {
            if st.depth > 0 { (st.depth - 1) as nat } else { 0 }
        } else {
            st.depth
        },
        comments: if code && c == '#' {
            st.comments + 1
        } else if code && !is_toml_space(c) {
            0
        } else {
            st.comments
        },
    }
}

/// The scan state before the character at `n`.
pub open spec fn scan(s: Seq<char>, n: int) -> Scan
    decreases n,
{
    if n <= 0 {
        Scan { mode: LexMode::Code, skip: 0, depth: 0, comments: 0 }
    } else {
        scan_step(scan(s, n - 1), s, n - 1)
    }
}

/// The UTF-8 length of the characters from `i` up to the first one that
/// ends a number token.
pub open spec fn run_from(s: Seq<char>, i: int) -> nat
    decreases s.len() - i,
{
    if i < 0 || i >= s.len() || ends_number(s[i]) {
        0
    } else {
        utf8_len(s[i]) + run_from(s, i + 1)
    }
}

/// A number token may start at `i`: a digit or sign where `boml` reads a
/// value, after `=`, `[`, `,` or white space.
pub open spec fn number_start(s: Seq<char>, i: int) -> bool {
    &&& 0 <= i < s.len()
    &&& (is_digit(s[i]) || s[i] == '+' || s[i] == '-')
    &&& (i == 0 || s[i - 1] == '=' || s[i - 1] == '[' || s[i - 1] == ',' || is_toml_space(s[i - 1]))
}

/// The checks made at position `i`.
pub open spec fn position_ok(s: Seq<char>, i: int) -> bool {
    let st = scan(s, i);
    let c = s[i];
    &&& is_code(st, c) ==> {
        &&& fraction_ok_at(s, i)
        &&& hour_ok_at(s, i)
        &&& number_start(s, i) ==> run_from(s, i) <= MAX_TOML_RUN_BYTES
    }
    &&& (st.skip == 0 && (st.mode == LexMode::Basic || st.mode == LexMode::MultiBasic)) ==> escape_ok_at(s, i)
    &&& scan(s, i + 1).depth <= MAX_TOML_DEPTH
    &&& scan(s, i + 1).comments <= MAX_TOML_COMMENT_RUN
}

/// A configuration text that is handed to the TOML parser.
pub open spec fn toml_input_ok(s: Seq<char>) -> bool {
    forall|i: int| 0 <= i < s.len() ==> #[trigger] position_ok(s, i)
}

/// The number of bytes of `c` in UTF-8.
fn char_utf8_len(c: char) -> (r: usize)
    ensures
        r == utf8_len(c),
{
    if c <= '\u{7f}' {
        1
    } else if c <= '\u{7ff}' {
        2
    } else if c <= '\u{ffff}' {
        3
    } else {
        4
    }
}

/// Whether the characters of `s` from `a` to `b` are all ASCII.
fn ascii_between(s: &str, n: usize, a: usize, b: usize) -> (r: bool)
    requires
        n == s@.len(),
        a <= b <= n,
    ensures
        r == all_ascii(s@.subrange(a as int, b as int)),
{
    let mut j: usize = a;
    while j < b
        invariant
            n == s@.len(),
            a <= j <= b <= n,
            forall|k: int| a <= k < j ==> #[trigger] s@[k] <= '\u{7f}',
        decreases b - j,
    {
        if s.get_char(j) > '\u{7f}' {
            assert(s@.subrange(a as int, b as int)[j - a] == s@[j as int]);
            return false;
        }
        j = j + 1;
    }
    assert forall|k: int| 0 <= k < b - a implies #[trigger] s@.subrange(a as int, b as int)[k] <= '\u{7f}' by {
        assert(s@.subrange(a as int, b as int)[k] == s@[a + k]);
    }
    true
}

/// Whether the characters of `s` from `a` to `b` are all decimal digits.
fn digits_between(s: &str, n: usize, a: usize, b: usize) -> (r: bool)
    requires
        n == s@.len(),
        a <= b <= n,
    ensures
        r == all_digits(s@.subrange(a as int, b as int)),
{
    let mut j: usize = a;
    while j < b
        invariant
            n == s@.len(),
            a <= j <= b <= n,
            forall|k: int| a <= k < j ==> is_digit(#[trigger] s@[k]),
        decreases b - j,
    {
        let c = s.get_char(j);
        if !('0' <= c && c <= '9') {
            assert(s@.subrange(a as int, b as int)[j - a] == s@[j as int]);
            return false;
        }
        j = j + 1;
    }
    assert forall|k: int| 0 <= k < b - a implies is_digit(#[trigger] s@.subrange(a as int, b as int)[k]) by {
        assert(s@.subrange(a as int, b as int)[k] == s@[a + k]);
    }
    true
}

/// Whether `c` is an ASCII decimal digit.
fn digit(c: char) -> (r: bool)
    ensures
        r == is_digit(c),
{
    '0' <= c && c <= '9'
}

/// Whether `c` is white space as `boml` skips it between tokens.
fn toml_space(c: char) -> (r: bool)
    ensures
        r == is_toml_space(c),
{
    c == ' ' || c == '\t' || c == '\n' || c == '\r'
}

/// Whether three `q` characters start at `i`.
fn triple_at(s: &str, n: usize, i: usize, q: char) -> (r: bool)
    requires
        n == s@.len(),
        i < n,
    ensures
        r == triple(s@, i as int, q),
{
    n - i > 2 && s.get_char(i) == q && s.get_char(i + 1) == q && s.get_char(i + 2) == q
}

/// Whether the run of characters from `i` that do not end a number token
/// takes at most `MAX_TOML_RUN_BYTES` bytes.
fn run_within(s: &str, n: usize, i: usize) -> (r: bool)
    requires
        n == s@.len(),
        i < n,
    ensures
        r == (run_from(s@, i as int) <= MAX_TOML_RUN_BYTES),
{
    let mut j: usize = i;
    let mut acc: usize = 0;
    while j < n
        invariant
            n == s@.len(),
            i <= j <= n,
            acc <= MAX_TOML_RUN_BYTES,
            run_from(s@, i as int) == acc + run_from(s@, j as int),
        decreases n - j,
    {
        let c = s.get_char(j);
        if c == ' ' || c == '\t' || c == '\n' || c == '\x0C' || c == '\r' || c == ',' || c == ']' || c == '}'
            || c == '#' {
            return true;
        }
        acc = acc + char_utf8_len(c);
        if acc > MAX_TOML_RUN_BYTES {
            return false;
        }
        j = j + 1;
    }
    true
}

/// Whether a number token may start at `i`.
fn number_start_at(s: &str, n: usize, i: usize) -> (r: bool)
    requires
        n == s@.len(),
        i < n,
    ensures
        r == number_start(s@, i as int),
{
    let c = s.get_char(i);
    if !(digit(c) || c == '+' || c == '-') {
        return false;
    }
    if i == 0 {
        return true;
    }
    let p = s.get_char(i - 1);
    p == '=' || p == '[' || p == ',' || toml_space(p)
}

/// The checks on the code character at `i`: a fraction of at most eight
/// digits, a date-time hour followed by `:`, and a number token of at most
/// `MAX_TOML_RUN_BYTES` bytes.
fn code_checks(s: &str, n: usize, i: usize) -> (r: bool)
    requires
        n == s@.len(),
        i < n,
    ensures
        r == (fraction_ok_at(s@, i as int) && hour_ok_at(s@, i as int)
            && (number_start(s@, i as int) ==> run_from(s@, i as int) <= MAX_TOML_RUN_BYTES)),
{
    let c = s.get_char(i);
    let fraction = if 3 <= i && n - i >= 10 && c == '.' && s.get_char(i - 3) == ':' && digit(s.get_char(i - 2))
        && digit(s.get_char(i - 1)) {
        !digits_between(s, n, i + 1, i + 10)
    } else {
        true
    };
    let hour = if 3 <= i && n - i >= 3 && (c == 'T' || c == 't' || c == ' ') && s.get_char(i - 3) == '-'
        && digit(s.get_char(i - 2)) && digit(s.get_char(i - 1)) && digit(s.get_char(i + 1)) && digit(
        s.get_char(i + 2),
    ) {
        n - i > 3 && s.get_char(i + 3) == ':'
    } else {
        true
    };
    let number = if number_start_at(s, n, i) { run_within(s, n, i) } else { true };
    fraction && hour && number
}

/// Whether the escape that a backslash at `i` may start has only ASCII
/// characters where its hexadecimal digits would stand.
fn escape_check(s: &str, n: usize, i: usize) -> (r: bool)
    requires
        n == s@.len(),
        i < n,
    ensures
        r == escape_ok_at(s@, i as int),
{
    if s.get_char(i) == '\\' && i + 1 < n {
        let e = s.get_char(i + 1);
        let w: usize = if e == 'x' { 2 } else if e == 'u' { 4 } else if e == 'U' { 8 } else { 0 };
        let end: usize = if n - (i + 2) >= w { i + 2 + w } else { n };
        ascii_between(s, n, i + 2, end)
    } else {
        true
    }
}

/// Whether the character `c` is read as code in the scan state given.
fn code_char(mode: LexMode, skip: usize, c: char) -> (r: bool)
    ensures
        r == is_code(Scan { mode, skip: skip as nat, depth: 0, comments: 0 }, c),
{
    skip == 0 && match mode {
        LexMode::Code => true,
        LexMode::ClosingBasic(k) => !(k > 0 && c == '"'),
        LexMode::ClosingLiteral(k) => !(k > 0 && c == '\''),
        _ => false,
    }
}

/// Where the scan is after the character at `i`, and how many characters it
/// then passes over.
fn next_mode_at(s: &str, n: usize, i: usize, mode: LexMode, skip: usize) -> (r: (LexMode, usize))
    requires
        n == s@.len(),
        i < n,
        skip <= 2,
    ensures
        (r.0, r.1 as nat) == next_mode(Scan { mode, skip: skip as nat, depth: 0, comments: 0 }, s@, i as int),
        r.1 <= 2,
{
    let c = s.get_char(i);
    if skip > 0 {
        return (mode, skip - 1);
    }
    match mode {
        LexMode::Comment => if c == '\n' { (LexMode::Code, 0) } else { (LexMode::Comment, 0) },
        LexMode::Basic => if c == '\\' {
            (LexMode::Basic, 1)
        } else if c == '"' {
            (LexMode::Code, 0)
        } else {
            (LexMode::Basic, 0)
        },
        LexMode::MultiBasic => if c == '\\' {
            (LexMode::MultiBasic, 1)
        } else if triple_at(s, n, i, '"') {
            (LexMode::ClosingBasic(2), 2)
        } else {
            (LexMode::MultiBasic, 0)
        },
        LexMode::Literal => if c == '\'' { (LexMode::Code, 0) } else { (LexMode::Literal, 0) },
        LexMode::MultiLiteral => if triple_at(s, n, i, '\'') {
            (LexMode::ClosingLiteral(2), 2)
        } else {
            (LexMode::MultiLiteral, 0)
        },
        LexMode::ClosingBasic(k) if k > 0 && c == '"' => (LexMode::ClosingBasic(k - 1), 0),
        LexMode::ClosingLiteral(k) if k > 0 && c == '\'' => (LexMode::ClosingLiteral(k - 1), 0),
        _ => if c == '#' {
            (LexMode::Comment, 0)
        } else if c == '"' {
            if triple_at(s, n, i, '"') { (LexMode::MultiBasic, 2) } else { (LexMode::Basic, 0) }
        } else if c == '\'' {
            if triple_at(s, n, i, '\'') { (LexMode::MultiLiteral, 2) } else { (LexMode::Literal, 0) }
        } else {
            (LexMode::Code, 0)
        },
    }
}

/// Whether `s` is a configuration text that is handed to the TOML parser.
pub fn toml_input_supported(s: &str) -> (r: bool)
    ensures
        r == toml_input_ok(s@),
{
    let n = s.unicode_len();
    let mut i: usize = 0;
    let mut mode = LexMode::Code;
    let mut skip: usize = 0;
    let mut depth: usize = 0;
    let mut comments: usize = 0;
    while i < n
        invariant
            n == s@.len(),
            i <= n,
            skip <= 2,
            depth <= MAX_TOML_DEPTH,
            comments <= MAX_TOML_COMMENT_RUN,
            scan(s@, i as int) == (Scan { mode, skip: skip as nat, depth: depth as nat, comments: comments as nat }),
            forall|j: int| 0 <= j < i ==> #[trigger] position_ok(s@, j),
        decreases n - i,
    {
        let c = s.get_char(i);
        let ghost st = scan(s@, i as int);
        let code = code_char(mode, skip, c);
        assert(code == is_code(st, c));
        if code && !code_checks(s, n, i) {
            assert(!position_ok(s@, i as int));
            return false;
        }
        if skip == 0 && (mode == LexMode::Basic || mode == LexMode::MultiBasic) && !escape_check(s, n, i) {
            assert(!position_ok(s@, i as int));
            return false;
        }
        let (m2, k2) = next_mode_at(s, n, i, mode, skip);
        if code && (c == '[' || c == '{') {
            depth = depth + 1;
        } else if code && (c == ']' || c == '}') {
            if depth > 0 {
                depth = depth - 1;
            }
        }
        if code && c == '#' {
            comments = comments + 1;
        } else if code && !toml_space(c) {
            comments = 0;
        }
        mode = m2;
        skip = k2;
        assert(scan(s@, i + 1) == scan_step(st, s@, i as int));
        assert(next_mode(st, s@, i as int) == next_mode(Scan { mode: st.mode, skip: st.skip, depth: 0, comments: 0 }, s@, i as int));
        if depth > MAX_TOML_DEPTH || comments > MAX_TOML_COMMENT_RUN {
            assert(!position_ok(s@, i as int));
            return false;
        }
        assert(position_ok(s@, i as int));
        i = i + 1;
    }
    true
}

} // verus!
