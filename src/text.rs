//! Small text rules: trimming, removal of a rewriting preamble that a
//! language model may add, and validation of shortcut strings.
use vstd::prelude::*;
use crate::chars::{is_space, eq_fold, char_is_space, chars_eq_fold, to_chars, from_chars};
use crate::samples::copy_range;

verus! {

/// `s` without its leading whitespace.
pub open spec fn trim_start(s: Seq<char>) -> Seq<char>
    decreases s.len(),
{
    if s.len() > 0 && is_space(s[0]) {
        trim_start(s.drop_first())
    } else {
        s
    }
}

/// `s` without its trailing whitespace.
pub open spec fn trim_end(s: Seq<char>) -> Seq<char>
    decreases s.len(),
{
    if s.len() > 0 && is_space(s.last()) {
        trim_end(s.drop_last())
    } else {
        s
    }
}

/// `s` without leading and trailing whitespace.
pub open spec fn trim(s: Seq<char>) -> Seq<char> {
    trim_end(trim_start(s))
}

/// Number of leading whitespace characters of `s[from..]`, counted from `from`.
fn skip_space(s: &Vec<char>, from: usize) -> (r: usize)
    requires
        from <= s@.len(),
    ensures
        from <= r <= s@.len(),
        trim_start(s@.subrange(from as int, s@.len() as int)) == s@.subrange(
            r as int,
            s@.len() as int,
        ),
{
    let mut i = from;
    while i < s.len() && char_is_space(s[i])
        invariant
            from <= i <= s@.len(),
            trim_start(s@.subrange(from as int, s@.len() as int)) == trim_start(
                s@.subrange(i as int, s@.len() as int),
            ),
        decreases s@.len() - i,
    {
        assert(s@.subrange(i as int, s@.len() as int).drop_first() =~= s@.subrange(
            i + 1,
            s@.len() as int,
        ));
        i = i + 1;
    }
    proof {
        let rest = s@.subrange(i as int, s@.len() as int);
        if rest.len() > 0 {
            assert(rest[0] == s@[i as int]);
        }
    }
    i
}

/// End of `s[..to]` once its trailing whitespace is dropped.
fn skip_space_back(s: &Vec<char>, to: usize) -> (r: usize)
    requires
        to <= s@.len(),
    ensures
        r <= to,
        trim_end(s@.subrange(0, to as int)) == s@.subrange(0, r as int),
{
    let mut j = to;
    while j > 0 && char_is_space(s[j - 1])
        invariant
            j <= to <= s@.len(),
            trim_end(s@.subrange(0, to as int)) == trim_end(s@.subrange(0, j as int)),
        decreases j,
    {
        assert(s@.subrange(0, j as int).drop_last() =~= s@.subrange(0, j - 1));
        j = j - 1;
    }
    proof {
        let pre = s@.subrange(0, j as int);
        if pre.len() > 0 {
            assert(pre.last() == s@[j - 1]);
        }
    }
    j
}

/// Characters `trim(s)`.
pub fn trim_chars(s: &Vec<char>) -> (r: Vec<char>)
    ensures
        r@ == trim(s@),
{
    let a = skip_space(s, 0);
    assert(s@.subrange(0, s@.len() as int) =~= s@);
    let t = copy_range(s.as_slice(), a, s.len());
    let b = skip_space_back(&t, t.len());
    assert(t@.subrange(0, t@.len() as int) =~= t@);
    copy_range(t.as_slice(), 0, b)
}

/// The preambles that are removed, in the order they are tried.
pub open spec fn preamble(i: int) -> Seq<char> {
    if i == 0 {
        "Here's the rewritten version:"@
    } else if i == 1 {
        "Here's a rewritten version:"@
    } else if i == 2 {
        "Here's the polished version:"@
    } else if i == 3 {
        "Here's a polished version:"@
    } else if i == 4 {
        "Here's the revised version:"@
    } else if i == 5 {
        "Here's a revised version:"@
    } else if i == 6 {
        "Here is the rewritten version:"@
    } else if i == 7 {
        "Here is a rewritten version:"@
    } else if i == 8 {
        "Here is the polished version:"@
    } else if i == 9 {
        "Here is a polished version:"@
    } else if i == 10 {
        "Here is the revised version:"@
    } else if i == 11 {
        "Here is a revised version:"@
    } else if i == 12 {
        "Here is:"@
    } else if i == 13 {
        "Here's:"@
    } else if i == 14 {
        "Rewritten version:"@
    } else if i == 15 {
        "Polished version:"@
    } else {
        "Revised version:"@
    }
}

/// Number of preambles.
pub const PREAMBLE_COUNT: usize = 17;

fn preamble_at(i: usize) -> (r: &'static str)
    ensures
        r@ == preamble(i as int),
{
    if i == 0 {
        "Here's the rewritten version:"
    } else if i == 1 {
        "Here's a rewritten version:"
    } else if i == 2 {
        "Here's the polished version:"
    } else if i == 3 {
        "Here's a polished version:"
    } else if i == 4 {
        "Here's the revised version:"
    } else if i == 5 {
        "Here's a revised version:"
    } else if i == 6 {
        "Here is the rewritten version:"
    } else if i == 7 {
        "Here is a rewritten version:"
    } else if i == 8 {
        "Here is the polished version:"
    } else if i == 9 {
        "Here is a polished version:"
    } else if i == 10 {
        "Here is the revised version:"
    } else if i == 11 {
        "Here is a revised version:"
    } else if i == 12 {
        "Here is:"
    } else if i == 13 {
        "Here's:"
    } else if i == 14 {
        "Rewritten version:"
    } else if i == 15 {
        "Polished version:"
    } else {
        "Revised version:"
    }
}

/// `s` begins with `p`, up to ASCII case.
pub open spec fn starts_with_fold(s: Seq<char>, p: Seq<char>) -> bool {
    p.len() <= s.len() && eq_fold(s.subrange(0, p.len() as int), p)
}

/// The first preamble, from the `i`-th on, that `s` begins with.
pub open spec fn first_preamble(s: Seq<char>, i: int) -> Option<int>
    decreases PREAMBLE_COUNT - i,
{
    if i >= PREAMBLE_COUNT || i < 0 {
        None
    } else if starts_with_fold(s, preamble(i)) {
        Some(i)
    } else {
        first_preamble(s, i + 1)
    }
}

pub open spec fn is_quote(c: char) -> bool {
    c == '"' || c == '\''
}

/// `s` without one leading quote, then without one trailing quote.
pub open spec fn strip_quotes(s: Seq<char>) -> Seq<char> {
    let a = if s.len() > 0 && is_quote(s[0]) {
        s.drop_first()
    } else {
        s
    };
    if a.len() > 0 && is_quote(a.last()) {
        a.drop_last()
    } else {
        a
    }
}

/// The text with surrounding whitespace removed, and with the first
/// matching preamble (and the whitespace and one pair of quotes around
/// what follows it) removed.
pub open spec fn stripped(text: Seq<char>) -> Seq<char> {
    let t = trim(text);
    match first_preamble(t, 0) {
        Some(i) => strip_quotes(trim_start(t.subrange(preamble(i).len() as int, t.len() as int))),
        None => t,
    }
}

fn starts_with_chars_fold(s: &Vec<char>, p: &Vec<char>) -> (r: bool)
    ensures
        r == starts_with_fold(s@, p@),
{
    if p.len() > s.len() {
        return false;
    }
    let head = copy_range(s.as_slice(), 0, p.len());
    chars_eq_fold(head.as_slice(), p.as_slice())
}

/// Removes a preamble such as "Here's the rewritten version:" (compared up
/// to ASCII case) that a rewriting model may put before its answer, along
/// with the whitespace after it and a pair of quotes around the rest.
pub fn strip_preambles(text: &str) -> (r: String)
    ensures
        r@ == stripped(text@),
{
    let t = trim_chars(&to_chars(text));
    let mut i: usize = 0;
    while i < PREAMBLE_COUNT
        invariant
            i <= PREAMBLE_COUNT,
            t@ == trim(text@),
            first_preamble(t@, 0) == first_preamble(t@, i as int),
        decreases PREAMBLE_COUNT - i,
    {
        let p = to_chars(preamble_at(i));
        if starts_with_chars_fold(&t, &p) {
            let start = skip_space(&t, p.len());
            let mut rest = copy_range(t.as_slice(), start, t.len());
            if rest.len() > 0 && (rest[0] == '"' || rest[0] == '\'') {
                rest = copy_range(rest.as_slice(), 1, rest.len());
            }
            let n = rest.len();
            if n > 0 && (rest[n - 1] == '"' || rest[n - 1] == '\'') {
                rest = copy_range(rest.as_slice(), 0, n - 1);
            }
            return from_chars(rest.as_slice());
        }
        i = i + 1;
    }
    from_chars(t.as_slice())
}

/// Key names that only modify another key.
pub open spec fn modifier(i: int) -> Seq<char> {
    if i == 0 {
        "ctrl"@
    } else if i == 1 {
        "control"@
    } else if i == 2 {
        "shift"@
    } else if i == 3 {
        "alt"@
    } else if i == 4 {
        "option"@
    } else if i == 5 {
        "meta"@
    } else if i == 6 {
        "command"@
    } else if i == 7 {
        "cmd"@
    } else if i == 8 {
        "super"@
    } else if i == 9 {
        "win"@
    } else {
        "windows"@
    }
}

/// Number of modifier names.
pub const MODIFIER_COUNT: usize = 11;

fn modifier_at(i: usize) -> (r: &'static str)
    ensures
        r@ == modifier(i as int),
{
    if i == 0 {
        "ctrl"
    } else if i == 1 {
        "control"
    } else if i == 2 {
        "shift"
    } else if i == 3 {
        "alt"
    } else if i == 4 {
        "option"
    } else if i == 5 {
        "meta"
    } else if i == 6 {
        "command"
    } else if i == 7 {
        "cmd"
    } else if i == 8 {
        "super"
    } else if i == 9 {
        "win"
    } else {
        "windows"
    }
}

/// A key name, once trimmed, is a modifier name up to ASCII case.
pub open spec fn is_modifier(part: Seq<char>) -> bool {
    exists|i: int| 0 <= i < MODIFIER_COUNT && eq_fold(trim(part), #[trigger] modifier(i))
}

/// Pieces of `s` between `+` signs, where `cur` is a piece begun before `s`.
pub open spec fn split_plus_acc(s: Seq<char>, cur: Seq<char>) -> Seq<Seq<char>>
    decreases s.len(),
{
    if s.len() == 0 {
        seq![cur]
    } else if s[0] == '+' {
        seq![cur] + split_plus_acc(s.drop_first(), seq![])
    } else {
        split_plus_acc(s.drop_first(), cur.push(s[0]))
    }
}

/// The pieces of `s` between `+` signs, empty ones included.
pub open spec fn split_plus(s: Seq<char>) -> Seq<Seq<char>> {
    split_plus_acc(s, seq![])
}

/// A shortcut names at least one key that is not a modifier.
pub open spec fn has_non_modifier(raw: Seq<char>) -> bool {
    exists|i: int| 0 <= i < split_plus(raw).len() && !is_modifier(#[trigger] split_plus(raw)[i])
}

fn part_is_modifier(part: &Vec<char>) -> (r: bool)
    ensures
        r == is_modifier(part@),
{
    let t = trim_chars(part);
    let mut i: usize = 0;
    while i < MODIFIER_COUNT
        invariant
            i <= MODIFIER_COUNT,
            t@ == trim(part@),
            forall|j: int| 0 <= j < i ==> !eq_fold(t@, #[trigger] modifier(j)),
        decreases MODIFIER_COUNT - i,
    {
        let m = to_chars(modifier_at(i));
        if chars_eq_fold(t.as_slice(), m.as_slice()) {
            return true;
        }
        i = i + 1;
    }
    false
}

/// Accepts a shortcut string only if, split on `+`, one of its keys is not
/// a modifier (ctrl, shift, alt, meta and their other names).
pub fn validate_shortcut_string(raw: &str) -> (r: Result<(), String>)
    ensures
        r is Ok <==> has_non_modifier(raw@),
        r matches Err(e) ==> e@ == "Shortcut must contain at least one non-modifier key"@,
{
    let s = to_chars(raw);
    let mut cur: Vec<char> = Vec::new();
    let mut i: usize = 0;
    let ghost mut done: Seq<Seq<char>> = seq![];
    assert(s@.subrange(0, s@.len() as int) =~= s@);
    while i < s.len()
        invariant
            s@ == raw@,
            i <= s@.len(),
            split_plus(s@) == done + split_plus_acc(s@.subrange(i as int, s@.len() as int), cur@),
            forall|j: int| 0 <= j < done.len() ==> is_modifier(#[trigger] done[j]),
        decreases s@.len() - i,
    {
        let ghost rest = s@.subrange(i as int, s@.len() as int);
        assert(rest.drop_first() =~= s@.subrange(i + 1, s@.len() as int));
        assert(rest[0] == s@[i as int]);
        if s[i] == '+' {
            if !part_is_modifier(&cur) {
                proof {
                    let parts = split_plus(s@);
                    let tail = split_plus_acc(rest.drop_first(), seq![]);
                    assert(split_plus_acc(rest, cur@) == seq![cur@] + tail);
                    assert(parts == done + (seq![cur@] + tail));
                    assert(parts[done.len() as int] == cur@);
                    assert(!is_modifier(parts[done.len() as int]));
                    assert(has_non_modifier(raw@));
                }
                return Ok(());
            }
            proof {
                done = done.push(cur@);
            }
            cur = Vec::new();
            assert(split_plus(s@) =~= done + split_plus_acc(
                s@.subrange(i + 1, s@.len() as int),
                cur@,
            ));
        } else {
            cur.push(s[i]);
        }
        i = i + 1;
    }
    let ghost parts = split_plus(s@);
    assert(parts =~= done.push(cur@));
    if !part_is_modifier(&cur) {
        assert(parts[done.len() as int] == cur@);
        assert(!is_modifier(parts[done.len() as int]));
        return Ok(());
    }
    assert forall|j: int| 0 <= j < parts.len() implies is_modifier(#[trigger] parts[j]) by {
        if j < done.len() {
            assert(parts[j] == done[j]);
        }
    }
    Err(from_chars(to_chars("Shortcut must contain at least one non-modifier key").as_slice()))
}

} // verus!
