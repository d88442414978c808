//! Reading GDB's version, shared by the GDB and CUDA-GDB adapters.

use vstd::prelude::*;

verus! {

/// The word starts with an ASCII digit.
pub open spec fn starts_with_digit(w: Seq<char>) -> bool {
    w.len() > 0 && crate::number::is_digit(w[0])
}

/// The version after the first word `gdb` from index `i` on: the first word
/// after it that starts with a digit.
pub open spec fn version_after_gdb(ws: Seq<Seq<char>>, i: int) -> Option<Seq<char>>
    decreases ws.len() - i,
{
    if i < 0 || i >= ws.len() {
        None
    } else if ws[i] == "gdb"@ {
        first_numeric_word(ws, i + 1)
    } else {
        version_after_gdb(ws, i + 1)
    }
}

/// The version that the lines from index `k` on show: on the first line
/// that does not start with `exec:`, holds `GNU gdb`, and has a word
/// starting with a digit after the word `gdb`, that word.
pub open spec fn gdb_line_version(lines: Seq<Seq<char>>, k: int) -> Option<Seq<char>>
    decreases lines.len() - k,
{
    if k < 0 || k >= lines.len() {
        None
    } else if !crate::text::has_prefix(lines[k], "exec:"@) && crate::text::contains_seq(lines[k], "GNU gdb"@)
        && version_after_gdb(crate::text::words(lines[k]), 0) is Some {
        version_after_gdb(crate::text::words(lines[k]), 0)
    } else {
        gdb_line_version(lines, k + 1)
    }
}

/// The first word from index `i` on that starts with a digit.
pub open spec fn first_numeric_word(ws: Seq<Seq<char>>, i: int) -> Option<Seq<char>>
    decreases ws.len() - i,
{
    if i < 0 || i >= ws.len() {
        None
    } else if starts_with_digit(ws[i]) {
        Some(ws[i])
    } else {
        first_numeric_word(ws, i + 1)
    }
}

/// The version that `gdb --version` output shows: the one on a `GNU gdb`
/// line, or else the first word of the first line that starts with a digit.
pub open spec fn gdb_version_of(output: Seq<char>) -> Option<Seq<char>> {
    let ls = crate::text::lines_of(output);
    match gdb_line_version(ls, 0) {
        Some(v) => Some(v),
        None => if ls.len() == 0 {
            None
        } else {
            first_numeric_word(crate::text::words(ls[0]), 0)
        },
    }
}

/// Whether a word starts with an ASCII digit.
fn word_starts_with_digit(w: &Vec<char>) -> (r: bool)
    ensures
        r == starts_with_digit(w@),
{
    if w.len() == 0 {
        return false;
    }
    let u = w[0] as u32;
    48 <= u && u <= 57
}

/// The version after the first word `gdb` among the words.
fn find_version_after_gdb(ws: &Vec<Vec<char>>) -> (r: Option<Vec<char>>)
    ensures
        match r {
            Some(v) => version_after_gdb(crate::text::views(ws@), 0) == Some(v@),
            None => version_after_gdb(crate::text::views(ws@), 0) is None,
        },
{
    let ghost w = crate::text::views(ws@);
    let mut i: usize = 0;
    while i < ws.len()
        invariant
            i <= ws@.len(),
            w == crate::text::views(ws@),
            w.len() == ws@.len(),
            version_after_gdb(w, 0) == version_after_gdb(w, i as int),
        decreases ws@.len() - i,
    {
        assert(w[i as int] == ws@[i as int]@);
        if crate::text::eq_str(ws[i].as_slice(), "gdb") {
            return find_numeric_word(ws, i + 1);
        }
        i = i + 1;
    }
    None
}

/// The first word from index `start` on that starts with a digit.
fn find_numeric_word(ws: &Vec<Vec<char>>, start: usize) -> (r: Option<Vec<char>>)
    ensures
        match r {
            Some(v) => first_numeric_word(crate::text::views(ws@), start as int) == Some(v@),
            None => first_numeric_word(crate::text::views(ws@), start as int) is None,
        },
{
    let ghost w = crate::text::views(ws@);
    let mut i: usize = start;
    while i < ws.len()
        invariant
            start <= i,
            i <= ws@.len() || i == start,
            w == crate::text::views(ws@),
            w.len() == ws@.len(),
            first_numeric_word(w, start as int) == first_numeric_word(w, i as int),
        decreases ws@.len() - i,
    {
        assert(w[i as int] == ws@[i as int]@);
        if word_starts_with_digit(&ws[i]) {
            return Some(crate::text::to_vec(ws[i].as_slice()));
        }
        i = i + 1;
    }
    None
}

/// The version in `gdb --version` output.
pub fn parse_gdb_version(output: &str) -> (r: Option<String>)
    ensures
        match r {
            Some(v) => gdb_version_of(output@) == Some(v@),
            None => gdb_version_of(output@) is None,
        },
{
    let cs = crate::text::chars_of(output);
    let ls = crate::text::lines(cs.as_slice());
    let ghost l = crate::text::views(ls@);
    let gnu = crate::text::chars_of("GNU gdb");
    let mut k: usize = 0;
    while k < ls.len()
        invariant
            k <= ls@.len(),
            l == crate::text::views(ls@),
            l == crate::text::lines_of(output@),
            l.len() == ls@.len(),
            gnu@ == "GNU gdb"@,
            gdb_line_version(l, 0) == gdb_line_version(l, k as int),
        decreases ls@.len() - k,
    {
        let line = ls[k].as_slice();
        assert(l[k as int] == line@);
        if !crate::text::starts_with_str(line, "exec:") && crate::text::contains(line, gnu.as_slice()) {
            let ws = crate::text::split_whitespace(line);
            match find_version_after_gdb(&ws) {
                Some(v) => {
                    assert(crate::text::views(ws@) == crate::text::words(l[k as int]));
                    assert(gdb_line_version(l, k as int) == Some(v@));
                    return Some(crate::text::string_from(v.as_slice()));
                },
                None => {},
            }
        }
        k = k + 1;
    }
    if ls.len() == 0 {
        return None;
    }
    assert(l[0] == ls@[0]@);
    let ws = crate::text::split_whitespace(ls[0].as_slice());
    match find_numeric_word(&ws, 0) {
        Some(v) => Some(crate::text::string_from(v.as_slice())),
        None => None,
    }
}

/// Whether a GDB version supports DAP: major and minor read from the first
/// two `.`-separated parts, and at least 14.1. A version that does not
/// read so is not sufficient.
pub open spec fn version_sufficient(version: Seq<char>) -> bool {
    let parts = crate::text::pieces(version, '.');
    parts.len() >= 2 && match (
        crate::number::parse_unsigned(parts[0], u32::MAX as nat),
        crate::number::parse_unsigned(parts[1], u32::MAX as nat),
    ) {
        (Some(major), Some(minor)) => major > 14 || (major == 14 && minor >= 1),
        _ => false,
    }
}

/// Whether a GDB version supports DAP (14.1 or later).
pub fn is_gdb_version_sufficient(version: &str) -> (r: bool)
    ensures
        r == version_sufficient(version@),
{
    let cs = crate::text::chars_of(version);
    let parts = crate::text::split_on(cs.as_slice(), '.');
    let ghost p = crate::text::views(parts@);
    if parts.len() < 2 {
        return false;
    }
    assert(p[0] == parts@[0]@);
    assert(p[1] == parts@[1]@);
    let major = match crate::number::parse_u32(parts[0].as_slice()) {
        Some(m) => m,
        None => {
            return false;
        },
    };
    let minor = match crate::number::parse_u32(parts[1].as_slice()) {
        Some(m) => m,
        None => {
            return false;
        },
    };
    major > 14 || (major == 14 && minor >= 1)
}

} // verus!
