//! Reconciling the committed transcript with the newest window transcript:
//! the two are split into words and glued at their longest overlap of at
//! least two words, where words are compared by their lower-case forms.
use vstd::prelude::*;
use crate::chars::{is_space, lower_of, lowercase, char_is_space, chars_eq, to_chars, from_chars};

verus! {

/// The pending word `cur` as a list of at most one word.
pub open spec fn flush(cur: Seq<char>) -> Seq<Seq<char>> {
    if cur.len() == 0 {
        seq![]
    } else {
        seq![cur]
    }
}

/// Words of `s`, where `cur` is a word already begun before `s`.
pub open spec fn words_acc(s: Seq<char>, cur: Seq<char>) -> Seq<Seq<char>>
    decreases s.len(),
{
    if s.len() == 0 {
        flush(cur)
    } else if is_space(s[0]) {
        flush(cur) + words_acc(s.drop_first(), seq![])
    } else {
        words_acc(s.drop_first(), cur.push(s[0]))
    }
}

/// The maximal runs of non-whitespace characters of `s`, in order.
pub open spec fn words(s: Seq<char>) -> Seq<Seq<char>> {
    words_acc(s, seq![])
}

/// A word: non-empty and free of whitespace.
pub open spec fn is_word(w: Seq<char>) -> bool {
    w.len() > 0 && forall|i: int| 0 <= i < w.len() ==> !is_space(#[trigger] w[i])
}

/// Words joined by single spaces.
pub open spec fn join(ws: Seq<Seq<char>>) -> Seq<char>
    decreases ws.len(),
{
    if ws.len() == 0 {
        seq![]
    } else if ws.len() == 1 {
        ws[0]
    } else {
        join(ws.drop_last()) + seq![' '] + ws.last()
    }
}

/// The last `k` keys of `ck` equal the first `k` keys of `nk`.
pub open spec fn overlaps(ck: Seq<Seq<char>>, nk: Seq<Seq<char>>, k: int) -> bool {
    &&& 0 <= k <= ck.len()
    &&& k <= nk.len()
    &&& forall|j: int| 0 <= j < k ==> #[trigger] ck[ck.len() - k + j] == nk[j]
}

/// The largest overlap of at least two words and at most `k`, or 0.
pub open spec fn best_from(ck: Seq<Seq<char>>, nk: Seq<Seq<char>>, k: int) -> int
    decreases k,
{
    if k < 2 {
        0
    } else if overlaps(ck, nk, k) {
        k
    } else {
        best_from(ck, nk, k - 1)
    }
}

pub open spec fn min_len(a: nat, b: nat) -> int {
    if a <= b {
        a as int
    } else {
        b as int
    }
}

/// The longest overlap of at least two words between the keys `ck` and
/// `nk`, or 0.
pub open spec fn overlap_len(ck: Seq<Seq<char>>, nk: Seq<Seq<char>>) -> int {
    best_from(ck, nk, min_len(ck.len(), nk.len()))
}

/// The lower-case forms of the words, by which they are compared.
pub open spec fn keys(ws: Seq<Seq<char>>) -> Seq<Seq<char>> {
    ws.map_values(|w: Seq<char>| lower_of(w))
}

/// The merge of a committed transcript `c` with a newer transcript `n`,
/// whose words are compared through the keys `ck` and `nk` (one per word).
pub open spec fn merged_keyed(
    c: Seq<char>,
    n: Seq<char>,
    ck: Seq<Seq<char>>,
    nk: Seq<Seq<char>>,
) -> Seq<char> {
    if c.len() == 0 {
        n
    } else if n.len() == 0 {
        c
    } else {
        let nw = words(n);
        let k = overlap_len(ck, nk);
        if k == 0 {
            c + seq![' '] + n
        } else if k == nw.len() {
            c
        } else {
            c + seq![' '] + join(nw.subrange(k, nw.len() as int))
        }
    }
}

/// The merge of a committed transcript `c` with a newer transcript `n`,
/// words compared by their lower-case forms.
pub open spec fn merged(c: Seq<char>, n: Seq<char>) -> Seq<char> {
    merged_keyed(c, n, keys(words(c)), keys(words(n)))
}

pub open spec fn strs(v: Seq<String>) -> Seq<Seq<char>> {
    v.map_values(|s: String| s@)
}

pub open spec fn views(v: Seq<Vec<char>>) -> Seq<Seq<char>> {
    v.map_values(|w: Vec<char>| w@)
}

proof fn lemma_words_acc_concat(a: Seq<char>, b: Seq<char>, cur: Seq<char>)
    ensures
        words_acc(a + seq![' '] + b, cur) == words_acc(a, cur) + words(b),
    decreases a.len(),
{
    let s = a + seq![' '] + b;
    if a.len() == 0 {
        assert(s.drop_first() =~= b);
        assert(words_acc(a, cur) == flush(cur));
    } else {
        assert(s.drop_first() =~= a.drop_first() + seq![' '] + b);
        assert(s[0] == a[0]);
        if is_space(a[0]) {
            lemma_words_acc_concat(a.drop_first(), b, seq![]);
            assert(words_acc(s, cur) =~= words_acc(a, cur) + words(b));
        } else {
            lemma_words_acc_concat(a.drop_first(), b, cur.push(a[0]));
        }
    }
}

/// Words of `a`, a space, then `b` are the words of `a` followed by those of `b`.
pub proof fn lemma_words_concat(a: Seq<char>, b: Seq<char>)
    ensures
        words(a + seq![' '] + b) == words(a) + words(b),
{
    lemma_words_acc_concat(a, b, seq![]);
}

proof fn lemma_words_acc_single(w: Seq<char>, cur: Seq<char>)
    requires
        forall|i: int| 0 <= i < w.len() ==> !is_space(#[trigger] w[i]),
        cur.len() + w.len() > 0,
    ensures
        words_acc(w, cur) == seq![cur + w],
    decreases w.len(),
{
    if w.len() == 0 {
        assert(cur + w =~= cur);
    } else {
        assert(!is_space(w[0]));
        let w2 = w.drop_first();
        assert forall|i: int| 0 <= i < w2.len() implies !is_space(#[trigger] w2[i]) by {
            assert(w2[i] == w[i + 1]);
        }
        lemma_words_acc_single(w2, cur.push(w[0]));
        assert(cur.push(w[0]) + w2 =~= cur + w);
    }
}

proof fn lemma_words_acc_wf(s: Seq<char>, cur: Seq<char>)
    requires
        forall|i: int| 0 <= i < cur.len() ==> !is_space(#[trigger] cur[i]),
    ensures
        forall|i: int| 0 <= i < words_acc(s, cur).len() ==> is_word(#[trigger] words_acc(s, cur)[i]),
    decreases s.len(),
{
    if s.len() == 0 {
        if cur.len() > 0 {
            assert(is_word(cur));
            assert(words_acc(s, cur) =~= seq![cur]);
        }
    } else if is_space(s[0]) {
        lemma_words_acc_wf(s.drop_first(), seq![]);
        if cur.len() > 0 {
            assert(is_word(cur));
        }
        let f = flush(cur);
        let r = words_acc(s.drop_first(), seq![]);
        assert(words_acc(s, cur) == f + r);
        assert forall|i: int| 0 <= i < (f + r).len() implies is_word(#[trigger] (f + r)[i]) by {
            if i < f.len() {
                assert((f + r)[i] == cur);
            } else {
                assert((f + r)[i] == r[i - f.len()]);
            }
        }
    } else {
        let c2 = cur.push(s[0]);
        assert forall|i: int| 0 <= i < c2.len() implies !is_space(#[trigger] c2[i]) by {
            if i < cur.len() {
                assert(c2[i] == cur[i]);
            }
        }
        lemma_words_acc_wf(s.drop_first(), c2);
        assert(words_acc(s, cur) == words_acc(s.drop_first(), c2));
    }
}

/// Every word that `words` yields is non-empty and free of whitespace.
pub proof fn lemma_words_wf(s: Seq<char>)
    ensures
        forall|i: int| 0 <= i < words(s).len() ==> is_word(#[trigger] words(s)[i]),
{
    lemma_words_acc_wf(s, seq![]);
}

/// Joining proper words by spaces and splitting again gives them back.
pub proof fn lemma_words_join(ws: Seq<Seq<char>>)
    requires
        forall|i: int| 0 <= i < ws.len() ==> is_word(#[trigger] ws[i]),
    ensures
        words(join(ws)) == ws,
    decreases ws.len(),
{
    if ws.len() == 0 {
    } else if ws.len() == 1 {
        assert(is_word(ws[0]));
        lemma_words_acc_single(ws[0], seq![]);
        assert(seq![] + ws[0] =~= ws[0]);
        assert(ws =~= seq![ws[0]]);
    } else {
        let init = ws.drop_last();
        assert forall|i: int| 0 <= i < init.len() implies is_word(#[trigger] init[i]) by {
            assert(init[i] == ws[i]);
        }
        lemma_words_join(init);
        lemma_words_concat(join(init), ws.last());
        assert(is_word(ws[ws.len() - 1]));
        lemma_words_acc_single(ws.last(), seq![]);
        assert(seq![] + ws.last() =~= ws.last());
        assert(ws =~= init + seq![ws.last()]);
    }
}

proof fn lemma_best_from(cw: Seq<Seq<char>>, nw: Seq<Seq<char>>, k: int)
    ensures
        best_from(cw, nw, k) == 0 || (2 <= best_from(cw, nw, k) <= k && overlaps(
            cw,
            nw,
            best_from(cw, nw, k),
        )),
    decreases k,
{
    if k >= 2 && !overlaps(cw, nw, k) {
        lemma_best_from(cw, nw, k - 1);
    }
}

fn split_words(s: &Vec<char>) -> (r: Vec<Vec<char>>)
    ensures
        views(r@) == words(s@),
{
    let mut out: Vec<Vec<char>> = Vec::new();
    let mut cur: Vec<char> = Vec::new();
    let mut i: usize = 0;
    assert(s@.subrange(0, s@.len() as int) =~= s@);
    while i < s.len()
        invariant
            0 <= i <= s@.len(),
            words(s@) == views(out@) + words_acc(s@.subrange(i as int, s@.len() as int), cur@),
        decreases s@.len() - i,
    {
        let ghost rest = s@.subrange(i as int, s@.len() as int);
        assert(rest.drop_first() =~= s@.subrange(i + 1, s@.len() as int));
        assert(rest[0] == s@[i as int]);
        let c = s[i];
        if char_is_space(c) {
            if cur.len() > 0 {
                let ghost old_out = out@;
                out.push(cur);
                assert(views(out@) =~= views(old_out) + flush(cur@));
            } else {
                assert(flush(cur@) =~= seq![]);
                assert(views(out@) + flush(cur@) =~= views(out@));
            }
            cur = Vec::new();
            assert(words(s@) =~= views(out@) + words_acc(
                s@.subrange(i + 1, s@.len() as int),
                cur@,
            ));
        } else {
            cur.push(c);
        }
        i = i + 1;
    }
    let ghost last = cur@;
    if cur.len() > 0 {
        let ghost old_out = out@;
        out.push(cur);
        assert(views(out@) =~= views(old_out) + flush(last));
    } else {
        assert(views(out@) + flush(cur@) =~= views(out@));
    }
    out
}

fn overlap_holds(ck: &Vec<Vec<char>>, nk: &Vec<Vec<char>>, k: usize) -> (r: bool)
    requires
        k <= ck@.len(),
        k <= nk@.len(),
    ensures
        r == overlaps(views(ck@), views(nk@), k as int),
{
    let base = ck.len() - k;
    let mut j: usize = 0;
    while j < k
        invariant
            k <= ck@.len(),
            k <= nk@.len(),
            base + k == ck@.len(),
            ck@.len() <= usize::MAX,
            0 <= j <= k,
            forall|t: int|
                0 <= t < j ==> #[trigger] views(ck@)[ck@.len() - k + t] == views(nk@)[t],
        decreases k - j,
    {
        if !chars_eq(ck[base + j].as_slice(), nk[j].as_slice()) {
            assert(views(ck@)[base + j] == ck@[base + j]@);
            assert(views(nk@)[j as int] == nk@[j as int]@);
            assert(views(ck@)[ck@.len() - k + j] != views(nk@)[j as int]);
            return false;
        }
        j = j + 1;
    }
    true
}

fn find_overlap(ck: &Vec<Vec<char>>, nk: &Vec<Vec<char>>) -> (r: usize)
    ensures
        r as int == overlap_len(views(ck@), views(nk@)),
        r <= ck@.len(),
        r <= nk@.len(),
{
    let mut k: usize = if ck.len() <= nk.len() {
        ck.len()
    } else {
        nk.len()
    };
    while k >= 2
        invariant
            k <= ck@.len(),
            k <= nk@.len(),
            overlap_len(views(ck@), views(nk@)) == best_from(views(ck@), views(nk@), k as int),
        decreases k,
    {
        if overlap_holds(ck, nk, k) {
            return k;
        }
        k = k - 1;
    }
    0
}

/// The characters of each string.
fn key_chars(v: &Vec<String>) -> (r: Vec<Vec<char>>)
    ensures
        views(r@) == strs(v@),
{
    let mut out: Vec<Vec<char>> = Vec::new();
    let mut i: usize = 0;
    while i < v.len()
        invariant
            i <= v@.len(),
            views(out@) == strs(v@).subrange(0, i as int),
        decreases v@.len() - i,
    {
        let ghost before = out@;
        let cs = to_chars(v[i].as_str());
        assert(cs@ == strs(v@)[i as int]);
        out.push(cs);
        assert(out@ =~= before.push(cs));
        assert(views(out@) =~= views(before).push(cs@));
        assert(strs(v@).subrange(0, i + 1) =~= strs(v@).subrange(0, i as int).push(strs(v@)[i as int]));
        assert(views(out@) =~= strs(v@).subrange(0, i + 1));
        i = i + 1;
    }
    assert(strs(v@).subrange(0, v@.len() as int) =~= strs(v@));
    out
}

/// The lower-case form of each word of `s`.
fn word_keys(s: &str) -> (r: Vec<String>)
    ensures
        strs(r@) == keys(words(s@)),
{
    let ws = split_words(&to_chars(s));
    let mut out: Vec<String> = Vec::new();
    let mut i: usize = 0;
    while i < ws.len()
        invariant
            i <= ws@.len(),
            views(ws@) == words(s@),
            strs(out@) == keys(views(ws@)).subrange(0, i as int),
        decreases ws@.len() - i,
    {
        let w = from_chars(ws[i].as_slice());
        let key = lowercase(w.as_str());
        let ghost before = out@;
        assert(w@ == views(ws@)[i as int]);
        assert(key@ == keys(views(ws@))[i as int]);
        out.push(key);
        assert(out@ =~= before.push(key));
        assert(strs(out@) =~= strs(before).push(key@));
        assert(keys(views(ws@)).subrange(0, i + 1) =~= keys(views(ws@)).subrange(0, i as int).push(
            keys(views(ws@))[i as int],
        ));
        assert(strs(out@) =~= keys(views(ws@)).subrange(0, i + 1));
        i = i + 1;
    }
    assert(keys(views(ws@)).subrange(0, ws@.len() as int) =~= keys(views(ws@)));
    out
}

fn join_from(ws: &Vec<Vec<char>>, from: usize) -> (r: Vec<char>)
    requires
        from < ws@.len(),
    ensures
        r@ == join(views(ws@).subrange(from as int, ws@.len() as int)),
{
    let mut out: Vec<char> = Vec::new();
    let mut i: usize = from;
    while i < ws.len()
        invariant
            from <= i <= ws@.len(),
            from < ws@.len(),
            out@ == join(views(ws@).subrange(from as int, i as int)),
        decreases ws@.len() - i,
    {
        let ghost pre = views(ws@).subrange(from as int, i as int);
        let ghost next = views(ws@).subrange(from as int, i + 1);
        assert(next.drop_last() =~= pre);
        if i > from {
            out.push(' ');
        }
        let w = &ws[i];
        let mut j: usize = 0;
        let ghost base = out@;
        while j < w.len()
            invariant
                j <= w@.len(),
                out@ == base + w@.subrange(0, j as int),
            decreases w@.len() - j,
        {
            out.push(w[j]);
            assert(w@.subrange(0, j + 1) =~= w@.subrange(0, j as int).push(w@[j as int]));
            j = j + 1;
        }
        assert(w@.subrange(0, w@.len() as int) =~= w@);
        if i == from {
            assert(out@ =~= join(next));
        } else {
            assert(out@ =~= join(next));
        }
        i = i + 1;
    }
    out
}

/// An empty string on either side leaves the other side unchanged.
pub proof fn lemma_merge_empty_identity(x: Seq<char>)
    ensures
        merged(Seq::empty(), x) == x,
        merged(x, Seq::empty()) == x,
{
}

/// A merge only ever appends to the committed transcript.
pub proof fn lemma_merge_extends(a: Seq<char>, b: Seq<char>)
    ensures
        a.len() <= merged(a, b).len(),
        merged(a, b).subrange(0, a.len() as int) == a,
{
    if a.len() > 0 && b.len() > 0 {
        let k = overlap_len(keys(words(a)), keys(words(b)));
        if k == 0 {
            assert((a + seq![' '] + b).subrange(0, a.len() as int) =~= a);
        } else if k != words(b).len() {
            let t = join(words(b).subrange(k, words(b).len() as int));
            assert((a + seq![' '] + t).subrange(0, a.len() as int) =~= a);
        } else {
            assert(a.subrange(0, a.len() as int) =~= a);
        }
    } else if a.len() == 0 {
        assert(merged(a, b).subrange(0, 0) =~= a);
    } else {
        assert(a.subrange(0, a.len() as int) =~= a);
    }
}

proof fn lemma_overlaps_self_tail(m: Seq<Seq<char>>, nk: Seq<Seq<char>>)
    requires
        nk.len() >= 2,
        nk.len() <= m.len(),
        forall|j: int| 0 <= j < nk.len() ==> #[trigger] m[m.len() - nk.len() + j] == nk[j],
    ensures
        overlap_len(m, nk) == nk.len(),
{
    assert(min_len(m.len(), nk.len()) == nk.len());
    assert(overlaps(m, nk, nk.len() as int));
}

/// Merging the same newer transcript a second time changes nothing, provided
/// it is empty or holds at least two words (a one-word transcript never
/// overlaps, so it would be appended again).
pub proof fn lemma_merge_idempotent(a: Seq<char>, b: Seq<char>)
    requires
        b.len() == 0 || words(b).len() >= 2,
    ensures
        merged(merged(a, b), b) == merged(a, b),
{
    if b.len() == 0 {
        return;
    }
    let nw = words(b);
    let nk = keys(nw);
    if a.len() == 0 {
        lemma_overlaps_self_tail(nk, nk);
        return;
    }
    let wa = words(a);
    let ka = keys(wa);
    let k = overlap_len(ka, nk);
    lemma_best_from(ka, nk, min_len(ka.len(), nk.len()));
    if k == 0 {
        let m = a + seq![' '] + b;
        lemma_words_concat(a, b);
        let wm = words(m);
        let km = keys(wm);
        assert forall|j: int| 0 <= j < nk.len() implies #[trigger] km[km.len() - nk.len() + j]
            == nk[j] by {
            assert(wm[wm.len() - nw.len() + j] == nw[j]);
        }
        lemma_overlaps_self_tail(km, nk);
    } else if k < nw.len() {
        let tail = nw.subrange(k, nw.len() as int);
        let m = a + seq![' '] + join(tail);
        lemma_words_wf(b);
        assert forall|i: int| 0 <= i < tail.len() implies is_word(#[trigger] tail[i]) by {
            assert(tail[i] == nw[k + i]);
        }
        lemma_words_join(tail);
        lemma_words_concat(a, join(tail));
        let wm = words(m);
        let km = keys(wm);
        assert(wm == wa + tail);
        assert forall|j: int| 0 <= j < nk.len() implies #[trigger] km[km.len() - nk.len() + j]
            == nk[j] by {
            if j < k {
                assert(wm[wm.len() - nw.len() + j] == wa[wa.len() - k + j]);
                assert(ka[ka.len() - k + j] == nk[j]);
            } else {
                assert(wm[wm.len() - nw.len() + j] == tail[j - k]);
            }
        }
        lemma_overlaps_self_tail(km, nk);
    }
}

/// Merges the committed transcript with a newer one, given the lower-case
/// form of each of their words (`committed_keys`, `new_keys`). Where the
/// last `k >= 2` keys of `committed` equal the first `k` keys of `new_text`
/// (the largest such `k`), the rest of `new_text`'s words is appended after
/// a space; with no such overlap the two are joined by a space. An empty
/// argument yields the other one unchanged.
pub fn merge_folded(
    committed: &str,
    new_text: &str,
    committed_keys: &Vec<String>,
    new_keys: &Vec<String>,
) -> (r: String)
    requires
        committed_keys@.len() == words(committed@).len(),
        new_keys@.len() == words(new_text@).len(),
    ensures
        r@ == merged_keyed(committed@, new_text@, strs(committed_keys@), strs(new_keys@)),
{
    let c = to_chars(committed);
    let n = to_chars(new_text);
    if c.len() == 0 {
        return from_chars(n.as_slice());
    }
    if n.len() == 0 {
        return from_chars(c.as_slice());
    }
    let nw = split_words(&n);
    let ck = key_chars(committed_keys);
    let nk = key_chars(new_keys);
    let k = find_overlap(&ck, &nk);
    if k == 0 {
        let mut out = c;
        out.push(' ');
        let mut i: usize = 0;
        let ghost base = out@;
        while i < n.len()
            invariant
                i <= n@.len(),
                out@ == base + n@.subrange(0, i as int),
            decreases n@.len() - i,
        {
            out.push(n[i]);
            assert(n@.subrange(0, i + 1) =~= n@.subrange(0, i as int).push(n@[i as int]));
            i = i + 1;
        }
        assert(n@.subrange(0, n@.len() as int) =~= n@);
        assert(out@ =~= committed@ + seq![' '] + new_text@);
        from_chars(out.as_slice())
    } else if k == nw.len() {
        from_chars(c.as_slice())
    } else {
        let tail = join_from(&nw, k);
        let mut out = c;
        out.push(' ');
        let mut i: usize = 0;
        let ghost base = out@;
        while i < tail.len()
            invariant
                i <= tail@.len(),
                out@ == base + tail@.subrange(0, i as int),
            decreases tail@.len() - i,
        {
            out.push(tail[i]);
            assert(tail@.subrange(0, i + 1) =~= tail@.subrange(0, i as int).push(tail@[i as int]));
            i = i + 1;
        }
        assert(tail@.subrange(0, tail@.len() as int) =~= tail@);
        assert(out@ =~= committed@ + seq![' '] + tail@);
        from_chars(out.as_slice())
    }
}

/// Merges the committed transcript with a newer one, comparing words by
/// their lower-case forms: see `merge_folded`.
pub fn merge_overlapping(committed: &str, new_text: &str) -> (r: String)
    ensures
        r@ == merged(committed@, new_text@),
{
    let ck = word_keys(committed);
    let nk = word_keys(new_text);
    merge_folded(committed, new_text, &ck, &nk)
}

} // verus!
