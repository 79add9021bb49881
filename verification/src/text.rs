//! Verified text utilities shared by the action modules: character-level
//! string building, output sanitizing, case-insensitive containment, and
//! UTF-16 encoding for the platform's wide-string interfaces.

use vstd::prelude::*;
use vstd::string::StrSliceExecFns;

verus! {

/// Relies on String::push: appends exactly one character.
#[verifier::external_body]
pub(crate) fn push_char(s: &mut String, c: char)
    ensures
        final(s)@ == old(s)@.push(c),
{
    s.push(c);
}

/// The ASCII whitespace characters trimmed from command output.
pub open spec fn spec_is_space(c: char) -> bool {
    c == ' ' || c == '\t' || c == '\n' || c == '\r'
}

fn is_space(c: char) -> (r: bool)
    ensures
        r == spec_is_space(c),
{
    c == ' ' || c == '\t' || c == '\n' || c == '\r'
}

/// The text with every carriage return dropped.
pub open spec fn spec_without_cr(s: Seq<char>) -> Seq<char> {
    s.filter(|c: char| c != '\r')
}

/// How many leading characters of `s` are whitespace.
pub open spec fn spec_lead_spaces(s: Seq<char>) -> int
    decreases s.len(),
{
    if s.len() == 0 || !spec_is_space(s[0]) {
        0
    } else {
        1 + spec_lead_spaces(s.subrange(1, s.len() as int))
    }
}

/// The text with leading and trailing ASCII whitespace dropped: the characters
/// from the first non-space through the last.
pub open spec fn spec_trimmed(s: Seq<char>) -> Seq<char> {
    let a = spec_lead_spaces(s);
    let b = s.len() - spec_lead_spaces(s.reverse());
    if a < b {
        s.subrange(a, b)
    } else {
        Seq::empty()
    }
}

/// Sanitized command output: every carriage return dropped — turning Windows
/// line endings into bare newlines — and surrounding whitespace trimmed.
pub open spec fn spec_sanitized(s: Seq<char>) -> Seq<char> {
    spec_trimmed(spec_without_cr(s))
}

proof fn lemma_filter_push(s: Seq<char>, c: char)
    ensures
        c != '\r' ==> s.push(c).filter(|x: char| x != '\r') == s.filter(|x: char| x != '\r').push(
            c,
        ),
        c == '\r' ==> s.push(c).filter(|x: char| x != '\r') == s.filter(|x: char| x != '\r'),
{
    reveal(Seq::filter);
    assert(s.push(c).drop_last() =~= s);
}

/// Drops every carriage return.
fn without_cr(s: &str) -> (r: String)
    ensures
        r@ == spec_without_cr(s@),
{
    let n = s.unicode_len();
    let mut out = String::new();
    let mut i: usize = 0;
    proof {
        reveal(Seq::filter);
        assert(s@.subrange(0, 0) =~= Seq::<char>::empty());
    }
    while i < n
        invariant
            i <= n,
            n == s@.len(),
            out@ == s@.subrange(0, i as int).filter(|c: char| c != '\r'),
        decreases n - i,
    {
        let c = s.get_char(i);
        proof {
            lemma_filter_push(s@.subrange(0, i as int), s@[i as int]);
            assert(s@.subrange(0, i as int).push(s@[i as int]) =~= s@.subrange(0, i + 1));
        }
        if c != '\r' {
            push_char(&mut out, c);
        }
        i = i + 1;
    }
    proof {
        assert(s@.subrange(0, n as int) =~= s@);
    }
    out
}

proof fn lemma_lead_spaces_bounds(s: Seq<char>)
    ensures
        0 <= spec_lead_spaces(s) <= s.len(),
        forall|j: int| 0 <= j < spec_lead_spaces(s) ==> spec_is_space(s[j]),
        spec_lead_spaces(s) < s.len() ==> !spec_is_space(s[spec_lead_spaces(s)]),
    decreases s.len(),
{
    if s.len() > 0 && spec_is_space(s[0]) {
        let t = s.subrange(1, s.len() as int);
        lemma_lead_spaces_bounds(t);
        assert forall|j: int| 0 <= j < spec_lead_spaces(s) implies spec_is_space(s[j]) by {
            if j > 0 {
                assert(spec_is_space(t[j - 1]));
            }
        }
    }
}

proof fn lemma_lead_spaces_step(s: Seq<char>, i: int)
    requires
        0 <= i <= s.len(),
        forall|j: int| 0 <= j < i ==> spec_is_space(s[j]),
    ensures
        i < s.len() && !spec_is_space(s[i]) ==> spec_lead_spaces(s) == i,
        i == s.len() ==> spec_lead_spaces(s) == i,
    decreases i + 1,
{
    if i > 0 {
        let t = s.subrange(1, s.len() as int);
        lemma_lead_spaces_step(t, i - 1);
        assert(forall|j: int| 0 <= j < i - 1 ==> t[j] == s[j + 1]);
    }
}

/// How many leading whitespace characters `s` has.
fn lead_spaces(s: &str) -> (r: usize)
    ensures
        r == spec_lead_spaces(s@),
        r <= s@.len(),
{
    let n = s.unicode_len();
    let mut i: usize = 0;
    while i < n
        invariant
            i <= n,
            n == s@.len(),
            forall|j: int| 0 <= j < i ==> spec_is_space(s@[j]),
        decreases n - i,
    {
        if !is_space(s.get_char(i)) {
            proof {
                lemma_lead_spaces_step(s@, i as int);
            }
            return i;
        }
        i = i + 1;
    }
    proof {
        lemma_lead_spaces_step(s@, n as int);
    }
    n
}

/// How many trailing whitespace characters `s` has, as the leading spaces of
/// its reversal.
fn trail_spaces(s: &str) -> (r: usize)
    ensures
        r == spec_lead_spaces(s@.reverse()),
        r <= s@.len(),
{
    let n = s.unicode_len();
    let mut i: usize = 0;
    while i < n
        invariant
            i <= n,
            n == s@.len(),
            forall|j: int| 0 <= j < i ==> spec_is_space(s@.reverse()[j]),
        decreases n - i,
    {
        if !is_space(s.get_char(n - 1 - i)) {
            proof {
                assert(s@.reverse()[i as int] == s@[n - 1 - i]);
                lemma_lead_spaces_step(s@.reverse(), i as int);
            }
            return i;
        }
        proof {
            assert(s@.reverse()[i as int] == s@[n - 1 - i]);
        }
        i = i + 1;
    }
    proof {
        lemma_lead_spaces_step(s@.reverse(), n as int);
    }
    n
}

/// Trims leading and trailing ASCII whitespace.
pub fn trimmed(s: &str) -> (r: String)
    ensures
        r@ == spec_trimmed(s@),
{
    let a = lead_spaces(s);
    let t = trail_spaces(s);
    let n = s.unicode_len();
    if a < n - t {
        s.substring_char(a, n - t).to_owned()
    } else {
        proof {
            lemma_lead_spaces_bounds(s@);
            lemma_lead_spaces_bounds(s@.reverse());
        }
        String::new()
    }
}

/// Normalizes command output: drops every carriage return and trims
/// surrounding whitespace.
pub fn sanitize_output_text(s: &str) -> (r: String)
    ensures
        r@ == spec_sanitized(s@),
{
    let no_cr = without_cr(s);
    trimmed(no_cr.as_str())
}

/// Whether `needle` occurs in `hay` ignoring ASCII case.
pub open spec fn spec_contains_ic(hay: Seq<char>, needle: Seq<char>) -> bool {
    exists|i: int|
        0 <= i <= hay.len() - needle.len() && #[trigger] crate::runner::spec_eq_ic(
            hay.subrange(i, i + needle.len()),
            needle,
        )
}

/// Looks for `needle` in `hay`, ignoring ASCII case.
pub fn contains_ic(hay: &str, needle: &str) -> (r: bool)
    ensures
        r == spec_contains_ic(hay@, needle@),
{
    let nh = hay.unicode_len();
    let nn = needle.unicode_len();
    if nn > nh {
        return false;
    }
    let mut i: usize = 0;
    while i <= nh - nn
        invariant
            nh == hay@.len(),
            nn == needle@.len(),
            nn <= nh,
            i <= nh - nn + 1,
            forall|j: int|
                0 <= j < i ==> !(#[trigger] crate::runner::spec_eq_ic(
                    hay@.subrange(j, j + needle@.len()),
                    needle@,
                )),
        decreases nh - nn - i + 1,
    {
        let window = hay.substring_char(i, i + nn);
        if crate::runner::str_eq_ignore_case(window, needle) {
            return true;
        }
        i = i + 1;
    }
    false
}

/// The UTF-16 code units of one character: the code point itself below
/// 0x10000, a surrogate pair above.
pub open spec fn spec_utf16_units(c: char) -> Seq<u16> {
    if (c as int) < 0x10000 {
        seq![(c as int) as u16]
    } else {
        seq![
            (0xD800 + ((c as int) - 0x10000) / 0x400) as u16,
            (0xDC00 + ((c as int) - 0x10000) % 0x400) as u16,
        ]
    }
}

/// The UTF-16 encoding of the first `i` characters.
pub open spec fn spec_utf16(s: Seq<char>, i: int) -> Seq<u16>
    decreases i,
{
    if i <= 0 {
        Seq::empty()
    } else {
        spec_utf16(s, i - 1) + spec_utf16_units(s[i - 1])
    }
}

/// Encodes a string as the null-terminated wide string Windows interfaces
/// take.
pub fn make_wide(s: &str) -> (r: Vec<u16>)
    ensures
        r@ == spec_utf16(s@, s@.len() as int).push(0u16),
{
    let n = s.unicode_len();
    let mut out: Vec<u16> = Vec::new();
    let mut i: usize = 0;
    proof {
        assert(out@ =~= spec_utf16(s@, 0));
    }
    while i < n
        invariant
            i <= n,
            n == s@.len(),
            out@ == spec_utf16(s@, i as int),
        decreases n - i,
    {
        let c = s.get_char(i);
        let cu = c as u32;
        if cu < 0x10000 {
            out.push(cu as u16);
            proof {
                assert(out@ =~= spec_utf16(s@, i + 1));
            }
        } else {
            let v = cu - 0x10000;
            out.push(0xD800u16 + (v / 0x400) as u16);
            out.push(0xDC00u16 + (v % 0x400) as u16);
            proof {
                assert(v / 0x400 < 0x400) by (nonlinear_arith)
                    requires
                        v == cu - 0x10000,
                        0x10000 <= cu < 0x110000,
                ;
                assert(out@ =~= spec_utf16(s@, i + 1));
            }
        }
        i = i + 1;
    }
    out.push(0u16);
    out
}


/// The position of the first newline at or after `from`, or the text's end.
pub open spec fn spec_line_end(s: Seq<char>, from: int) -> int
    decreases s.len() - from,
{
    if from >= s.len() {
        s.len() as int
    } else if s[from] == '\n' {
        from
    } else {
        spec_line_end(s, from + 1)
    }
}

proof fn lemma_line_end_bounds(s: Seq<char>, from: int)
    requires
        0 <= from <= s.len(),
    ensures
        from <= spec_line_end(s, from) <= s.len(),
    decreases s.len() - from,
{
    if from < s.len() && s[from] != '\n' {
        lemma_line_end_bounds(s, from + 1);
    }
}

/// One line without its trailing carriage return, if it carries one.
pub open spec fn spec_strip_cr(l: Seq<char>) -> Seq<char> {
    if l.len() > 0 && l[l.len() - 1] == '\r' {
        l.subrange(0, l.len() - 1)
    } else {
        l
    }
}

/// The lines of a text from position `from`: split at newlines, each without
/// a trailing carriage return, the way Windows command output is read.
pub open spec fn spec_lines_from(s: Seq<char>, from: int) -> Seq<Seq<char>>
    decreases s.len() + 1 - from,
    when 0 <= from
    via spec_lines_from_decreases
{
    if from >= s.len() {
        Seq::empty()
    } else {
        seq![spec_strip_cr(s.subrange(from, spec_line_end(s, from)))] + spec_lines_from(
            s,
            spec_line_end(s, from) + 1,
        )
    }
}

#[via_fn]
proof fn spec_lines_from_decreases(s: Seq<char>, from: int) {
    if from < s.len() {
        lemma_line_end_bounds(s, from);
    }
}

fn line_end(s: &str, from: usize) -> (r: usize)
    requires
        from <= s@.len(),
    ensures
        r == spec_line_end(s@, from as int),
        from <= r <= s@.len(),
{
    let n = s.unicode_len();
    let mut i: usize = from;
    while i < n
        invariant
            from <= i <= n,
            n == s@.len(),
            spec_line_end(s@, from as int) == spec_line_end(s@, i as int),
        decreases n - i,
    {
        if s.get_char(i) == '\n' {
            return i;
        }
        i = i + 1;
    }
    n
}

/// Splits a text into its lines, dropping each line's trailing carriage
/// return.
pub fn split_lines(s: &str) -> (r: Vec<String>)
    ensures
        r@.map_values(|l: String| l@) == spec_lines_from(s@, 0),
{
    let n = s.unicode_len();
    let mut out: Vec<String> = Vec::new();
    let mut from: usize = 0;
    proof {
        assert(out@.map_values(|l: String| l@) =~= Seq::<Seq<char>>::empty());
    }
    while from < n
        invariant
            from <= n,
            n == s@.len(),
            out@.map_values(|l: String| l@) + spec_lines_from(s@, from as int) =~= spec_lines_from(
                s@,
                0,
            ),
        decreases n - from,
    {
        let e = line_end(s, from);
        let end = if e > from && s.get_char(e - 1) == '\r' {
            e - 1
        } else {
            e
        };
        let ghost pre = out@;
        let line = s.substring_char(from, end).to_owned();
        out.push(line);
        proof {
            assert(spec_strip_cr(s@.subrange(from as int, e as int)) =~= s@.subrange(
                from as int,
                end as int,
            ));
            assert(out@.map_values(|l: String| l@) =~= pre.map_values(|l: String| l@).push(
                s@.subrange(from as int, end as int),
            ));
            assert(out@.map_values(|l: String| l@) + spec_lines_from(s@, e + 1)
                =~= spec_lines_from(s@, 0));
        }
        if e >= n {
            proof {
                assert(spec_lines_from(s@, e + 1) =~= Seq::<Seq<char>>::empty());
                assert(out@.map_values(|l: String| l@) =~= spec_lines_from(s@, 0));
            }
            return out;
        }
        from = e + 1;
    }
    proof {
        assert(spec_lines_from(s@, from as int) =~= Seq::<Seq<char>>::empty());
        assert(out@.map_values(|l: String| l@) =~= spec_lines_from(s@, 0));
    }
    out
}


/// The first position at or after `k` whose character is not whitespace, or
/// the text's end.
pub open spec fn spec_skip_spaces(s: Seq<char>, k: int) -> int
    decreases s.len() - k,
{
    if k >= s.len() {
        s.len() as int
    } else if spec_is_space(s[k]) {
        spec_skip_spaces(s, k + 1)
    } else {
        k
    }
}

proof fn lemma_skip_spaces_bounds(s: Seq<char>, k: int)
    requires
        0 <= k <= s.len(),
    ensures
        k <= spec_skip_spaces(s, k) <= s.len(),
    decreases s.len() - k,
{
    if k < s.len() && spec_is_space(s[k]) {
        lemma_skip_spaces_bounds(s, k + 1);
    }
}

/// Scans past whitespace.
pub fn skip_spaces(s: &str, k: usize) -> (r: usize)
    requires
        k <= s@.len(),
    ensures
        r == spec_skip_spaces(s@, k as int),
        k <= r <= s@.len(),
{
    let n = s.unicode_len();
    let mut i: usize = k;
    while i < n
        invariant
            k <= i <= n,
            n == s@.len(),
            spec_skip_spaces(s@, k as int) == spec_skip_spaces(s@, i as int),
        decreases n - i,
    {
        if !is_space(s.get_char(i)) {
            return i;
        }
        i = i + 1;
    }
    n
}

/// The leftmost position at or after `k` where `needle` occurs in `hay`,
/// ignoring ASCII case.
pub open spec fn spec_first_ic(hay: Seq<char>, needle: Seq<char>, k: int) -> Option<int>
    decreases hay.len() - k,
{
    if k < 0 || k > hay.len() - needle.len() {
        None
    } else if crate::runner::spec_eq_ic(hay.subrange(k, k + needle.len()), needle) {
        Some(k)
    } else {
        spec_first_ic(hay, needle, k + 1)
    }
}

/// A found occurrence lies inside the text.
pub proof fn lemma_first_ic_some(hay: Seq<char>, needle: Seq<char>, k: int, i: int)
    requires
        spec_first_ic(hay, needle, k) == Some(i),
    ensures
        k <= i,
        0 <= i,
        i + needle.len() <= hay.len(),
    decreases hay.len() - k,
{
    if !(k < 0 || k > hay.len() - needle.len()) {
        if !crate::runner::spec_eq_ic(hay.subrange(k, k + needle.len()), needle) {
            lemma_first_ic_some(hay, needle, k + 1, i);
        }
    }
}

/// Finds the leftmost occurrence of `needle` in `hay`, ignoring ASCII case.
pub fn first_ic_index(hay: &str, needle: &str) -> (r: Option<usize>)
    ensures
        match r {
            Some(i) => spec_first_ic(hay@, needle@, 0) == Some(i as int),
            None => spec_first_ic(hay@, needle@, 0) is None,
        },
{
    let nh = hay.unicode_len();
    let nn = needle.unicode_len();
    if nn > nh {
        return None;
    }
    let mut i: usize = 0;
    while i <= nh - nn
        invariant
            nh == hay@.len(),
            nn == needle@.len(),
            nn <= nh,
            i <= nh - nn + 1,
            spec_first_ic(hay@, needle@, 0) == spec_first_ic(hay@, needle@, i as int),
        decreases nh - nn - i + 1,
    {
        let window = hay.substring_char(i, i + nn);
        if crate::runner::str_eq_ignore_case(window, needle) {
            return Some(i);
        }
        i = i + 1;
    }
    None
}

} // verus!
