//! Reading `git status --porcelain` output: the status letter of each
//! changed or untracked file, keyed by the file's name.
//!
//! The marks are a list of (name, letter) pairs in which a later pair for
//! a name overrides an earlier one, as the entries of a map would.

use vstd::prelude::*;
use crate::pathops::{file_name_of, path_file_name};
use crate::text::{chars_between, lines, lines_of, to_chars, trim, trimmed};

verus! {

/// The status letter of a porcelain line: the index column, or the work
/// tree column when the index column is blank, or `?` when both are.
pub open spec fn status_letter(line: Seq<char>) -> char {
    if line[0] != ' ' {
        line[0]
    } else if line[1] != ' ' {
        line[1]
    } else {
        '?'
    }
}

/// Where the last ` -> ` in `s` starts, if it has one.
pub open spec fn last_arrow(s: Seq<char>) -> Option<int> {
    if exists|i: int| 0 <= i && i + 4 <= s.len() && #[trigger] s.subrange(i, i + 4) == " -> "@ {
        Some(
            choose|i: int|
                0 <= i && i + 4 <= s.len() && #[trigger] s.subrange(i, i + 4) == " -> "@ && forall|j: int|
                    i < j && j + 4 <= s.len() ==> #[trigger] s.subrange(j, j + 4) != " -> "@,
        )
    } else {
        None
    }
}

/// The number of bytes `c` takes in UTF-8.
pub open spec fn utf8_len(c: char) -> nat {
    if (c as u32) < 0x80 {
        1
    } else if (c as u32) < 0x800 {
        2
    } else if (c as u32) < 0x10000 {
        3
    } else {
        4
    }
}

/// The number of bytes `s` takes in UTF-8.
pub open spec fn byte_len(s: Seq<char>) -> nat
    decreases s.len(),
{
    if s.len() == 0 {
        0
    } else {
        utf8_len(s[0]) + byte_len(s.drop_first())
    }
}

/// Every character takes at least one byte.
proof fn lemma_byte_len_at_least_len(s: Seq<char>)
    ensures
        byte_len(s) >= s.len(),
    decreases s.len(),
{
    if s.len() > 0 {
        lemma_byte_len_at_least_len(s.drop_first());
    }
}

/// How many characters of `s` make up its first three bytes, when a
/// character ends exactly at the third byte.
pub open spec fn cut3(s: Seq<char>) -> Option<int> {
    if s.len() >= 1 && utf8_len(s[0]) == 3 {
        Some(1)
    } else if s.len() >= 2 && utf8_len(s[0]) + utf8_len(s[1]) == 3 {
        Some(2)
    } else if s.len() >= 3 && utf8_len(s[0]) + utf8_len(s[1]) + utf8_len(s[2]) == 3 {
        Some(3)
    } else {
        None
    }
}

/// Whether a porcelain line can be read: shorter than four bytes (it is
/// then skipped), or with a character ending at its third byte, where its
/// path starts. (`git status --porcelain` writes two ASCII status columns
/// and a space, so its lines always can.)
pub open spec fn porcelain_readable(line: Seq<char>) -> bool {
    byte_len(line) < 4 || cut3(line) is Some
}

/// Whether every line of `text` is a readable porcelain line.
pub open spec fn porcelain_text_readable(text: Seq<char>) -> bool {
    forall|i: int| 0 <= i < lines_of(text).len() ==> porcelain_readable(#[trigger] lines_of(text)[i])
}

/// The path a porcelain line is about: what follows its first three bytes,
/// trimmed, and for a rename the new name after ` -> `.
pub open spec fn porcelain_path(line: Seq<char>, start: int) -> Seq<char> {
    let p = trimmed(line.subrange(start, line.len() as int));
    match last_arrow(p) {
        Some(i) => p.subrange(i + 4, p.len() as int),
        None => p,
    }
}

/// The (name, letter) pair a porcelain line gives: the last component of
/// its path (or the path itself when it has none) and its status letter.
/// Lines shorter than four bytes give nothing.
pub open spec fn porcelain_entry(line: Seq<char>) -> Option<(Seq<char>, char)> {
    if byte_len(line) < 4 {
        None
    } else {
        match cut3(line) {
            Some(k) => {
                let name = porcelain_path(line, k);
                let base = match file_name_of(name) {
                    Some(b) => b,
                    None => name,
                };
                Some((base, status_letter(line)))
            },
            None => None,
        }
    }
}

/// The pairs the porcelain lines give, in order.
pub open spec fn porcelain_marks(lines: Seq<Seq<char>>) -> Seq<(Seq<char>, char)>
    decreases lines.len(),
{
    if lines.len() == 0 {
        Seq::empty()
    } else {
        let rest = porcelain_marks(lines.drop_last());
        match porcelain_entry(lines.last()) {
            Some(e) => rest.push(e),
            None => rest,
        }
    }
}

/// The views of a list of marks.
pub open spec fn mark_views(v: Seq<(String, char)>) -> Seq<(Seq<char>, char)> {
    v.map_values(|m: (String, char)| (m.0@, m.1))
}

/// The status letter the marks give `name`: that of its last pair.
pub open spec fn mark_of(marks: Seq<(Seq<char>, char)>, name: Seq<char>) -> Option<char>
    decreases marks.len(),
{
    if marks.len() == 0 {
        None
    } else if marks.last().0 == name {
        Some(marks.last().1)
    } else {
        mark_of(marks.drop_last(), name)
    }
}

/// The start of the last ` -> ` in `v`, if any.
fn find_last_arrow(v: &Vec<char>) -> (r: Option<usize>)
    ensures
        match r {
            Some(i) => last_arrow(v@) == Some(i as int) && i + 4 <= v@.len(),
            None => last_arrow(v@) is None,
        },
{
    let n = v.len();
    if n < 4 {
        proof {
            assert forall|i: int| 0 <= i && i + 4 <= v@.len() implies #[trigger] v@.subrange(i, i + 4) != " -> "@ by {}
        }
        return None;
    }
    let mut k: usize = n - 4 + 1;
    proof {
        reveal_strlit(" -> ");
    }
    while k > 0
        invariant
            k <= n - 3,
            n == v@.len(),
            n >= 4,
            forall|j: int| k <= j && j + 4 <= n ==> #[trigger] v@.subrange(j, j + 4) != " -> "@,
        decreases k,
    {
        proof {
            reveal_strlit(" -> ");
        }
        let i = k - 1;
        if v[i] == ' ' && v[i + 1] == '-' && v[i + 2] == '>' && v[i + 3] == ' ' {
            assert(v@.subrange(i as int, i + 4) =~= " -> "@);
            proof {
                let c = choose|c: int|
                    0 <= c && c + 4 <= v@.len() && #[trigger] v@.subrange(c, c + 4) == " -> "@ && forall|j: int|
                        c < j && j + 4 <= v@.len() ==> #[trigger] v@.subrange(j, j + 4) != " -> "@;
                if c < i {
                    assert(v@.subrange(i as int, i + 4) == " -> "@);
                } else if c > i {
                    assert(v@.subrange(c, c + 4) != " -> "@);
                }
            }
            return Some(i);
        }
        assert(v@.subrange(i as int, i + 4)[1] == v@[i + 1]);
        assert(v@.subrange(i as int, i + 4)[0] == v@[i as int]);
        assert(v@.subrange(i as int, i + 4)[2] == v@[i + 2]);
        assert(v@.subrange(i as int, i + 4)[3] == v@[i + 3]);
        k = i;
    }
    None
}

/// The number of bytes `c` takes in UTF-8.
fn char_utf8_len(c: char) -> (r: u64)
    ensures
        r == utf8_len(c),
{
    let n: u32 = c as u32;
    if n < 0x80 {
        1
    } else if n < 0x800 {
        2
    } else if n < 0x10000 {
        3
    } else {
        4
    }
}

/// Where the path of the porcelain line `v` starts (see `cut3`).
fn find_cut3(v: &Vec<char>) -> (r: Option<usize>)
    ensures
        match r {
            Some(k) => cut3(v@) == Some(k as int),
            None => cut3(v@) is None,
        },
{
    if v.len() >= 1 && char_utf8_len(v[0]) == 3 {
        return Some(1);
    }
    if v.len() >= 2 && char_utf8_len(v[0]) + char_utf8_len(v[1]) == 3 {
        return Some(2);
    }
    if v.len() >= 3 && char_utf8_len(v[0]) + char_utf8_len(v[1]) + char_utf8_len(v[2]) == 3 {
        return Some(3);
    }
    None
}

/// Whether `v` takes fewer than four bytes in UTF-8.
fn under_four_bytes(v: &Vec<char>) -> (r: bool)
    ensures
        r == (byte_len(v@) < 4),
{
    proof {
        lemma_byte_len_at_least_len(v@);
    }
    if v.len() >= 4 {
        return false;
    }
    let mut total: u64 = 0;
    let mut i: usize = v.len();
    proof {
        assert(v@.subrange(v@.len() as int, v@.len() as int) =~= Seq::<char>::empty());
    }
    while i > 0
        invariant
            i <= v@.len(),
            v@.len() < 4,
            total == byte_len(v@.subrange(i as int, v@.len() as int)),
            total <= 4 * (v@.len() - i),
        decreases i,
    {
        let j = i - 1;
        assert(v@.subrange(j as int, v@.len() as int).drop_first() =~= v@.subrange(i as int, v@.len() as int));
        total = total + char_utf8_len(v[j]);
        i = j;
    }
    assert(v@.subrange(0, v@.len() as int) =~= v@);
    total < 4
}

/// The (name, letter) pair of one readable porcelain line, if it gives one.
fn parse_porcelain_line(line: &str) -> (r: Option<(String, char)>)
    requires
        porcelain_readable(line@),
    ensures
        match r {
            Some(m) => porcelain_entry(line@) == Some((m.0@, m.1)),
            None => porcelain_entry(line@) is None,
        },
{
    let v = to_chars(line);
    if under_four_bytes(&v) {
        return None;
    }
    let k = match find_cut3(&v) {
        Some(k) => k,
        None => return None,
    };
    proof {
        if v@.len() < 2 {
            reveal_with_fuel(byte_len, 2);
            assert(v@.drop_first().len() == 0);
        }
    }
    let letter = if v[0] != ' ' {
        v[0]
    } else if v[1] != ' ' {
        v[1]
    } else {
        '?'
    };
    let rest = chars_between(&v, k, v.len());
    let p = trim(rest.as_str());
    let pv = to_chars(p.as_str());
    let found = find_last_arrow(&pv);
    let plen = pv.len();
    let name = match found {
        Some(i) => {
            assert(i + 4 <= plen);
            chars_between(&pv, i + 4, plen)
        },
        None => p,
    };
    let base = match path_file_name(name.as_str()) {
        Some(b) => b,
        None => name,
    };
    Some((base, letter))
}

/// Whether every line of `text` is a readable porcelain line (see
/// `porcelain_readable`).
pub fn porcelain_text_ok(text: &str) -> (r: bool)
    ensures
        r == porcelain_text_readable(text@),
{
    let all = lines(text);
    let mut i: usize = 0;
    while i < all.len()
        invariant
            i <= all@.len(),
            crate::text::views(all@) == lines_of(text@),
            forall|j: int| 0 <= j < i ==> porcelain_readable(#[trigger] lines_of(text@)[j]),
        decreases all.len() - i,
    {
        let v = to_chars(all[i].as_str());
        assert(all@[i as int]@ == lines_of(text@)[i as int]);
        if !under_four_bytes(&v) && find_cut3(&v).is_none() {
            assert(!porcelain_readable(lines_of(text@)[i as int]));
            return false;
        }
        i = i + 1;
    }
    true
}

/// The marks `git status --porcelain` output gives: for each line of four
/// or more bytes, the last component of the path it is about (the
/// new name of a rename) and its status letter.
pub fn parse_git_status(text: &str) -> (r: Vec<(String, char)>)
    requires
        porcelain_text_readable(text@),
    ensures
        mark_views(r@) == porcelain_marks(lines_of(text@)),
{
    let all = lines(text);
    let mut marks: Vec<(String, char)> = Vec::new();
    let mut i: usize = 0;
    while i < all.len()
        invariant
            i <= all@.len(),
            crate::text::views(all@) == lines_of(text@),
            porcelain_text_readable(text@),
            mark_views(marks@) == porcelain_marks(crate::text::views(all@).subrange(0, i as int)),
        decreases all.len() - i,
    {
        let ghost before = marks@;
        assert(all@[i as int]@ == lines_of(text@)[i as int]);
        let entry = parse_porcelain_line(all[i].as_str());
        match entry {
            Some(m) => marks.push(m),
            None => {},
        }
        proof {
            let w = crate::text::views(all@).subrange(0, i + 1);
            assert(w.drop_last() =~= crate::text::views(all@).subrange(0, i as int));
            assert(w.last() == all@[i as int]@);
            assert(mark_views(marks@) =~= porcelain_marks(w));
        }
        i = i + 1;
    }
    assert(crate::text::views(all@).subrange(0, all@.len() as int) =~= crate::text::views(all@));
    marks
}

/// The status letter the marks give `name` (that of its last pair).
pub fn git_mark(marks: &Vec<(String, char)>, name: &str) -> (r: Option<char>)
    ensures
        r == mark_of(mark_views(marks@), name@),
{
    let mut k = marks.len();
    assert(marks@.subrange(0, k as int) =~= marks@);
    while k > 0
        invariant
            k <= marks@.len(),
            mark_of(mark_views(marks@), name@) == mark_of(mark_views(marks@.subrange(0, k as int)), name@),
        decreases k,
    {
        let i = k - 1;
        let ghost s = marks@.subrange(0, k as int);
        assert(mark_views(s).last() == (marks@[i as int].0@, marks@[i as int].1));
        assert(mark_views(s).drop_last() =~= mark_views(marks@.subrange(0, i as int)));
        if crate::text::str_eq(marks[i].0.as_str(), name) {
            return Some(marks[i].1);
        }
        k = i;
    }
    None
}

} // verus!
