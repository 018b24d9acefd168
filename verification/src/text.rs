//! Text operations on which the service's rules are built: whitespace
//! splitting, placeholder replacement, suffix tests and equality.

use vstd::prelude::*;

verus! {

/// The characters that carry the Unicode `White_Space` property.
pub open spec fn is_white_space(c: char) -> bool {
    let n = c as u32;
    ||| 9 <= n <= 13
    ||| n == 32
    ||| n == 0x85
    ||| n == 0xa0
    ||| n == 0x1680
    ||| 0x2000 <= n <= 0x200a
    ||| n == 0x2028
    ||| n == 0x2029
    ||| n == 0x202f
    ||| n == 0x205f
    ||| n == 0x3000
}

/// Decides whether `c` carries the Unicode `White_Space` property.
pub fn char_is_white_space(c: char) -> (b: bool)
    ensures
        b == is_white_space(c),
{
    let n: u32 = c as u32;
    (9 <= n && n <= 13) || n == 32 || n == 0x85 || n == 0xa0 || n == 0x1680 || (0x2000 <= n
        && n <= 0x200a) || n == 0x2028 || n == 0x2029 || n == 0x202f || n == 0x205f || n
        == 0x3000
}

/// The characters of a string slice, in order.
pub fn chars_of(s: &str) -> (v: Vec<char>)
    ensures
        v@ == s@,
{
    let mut v: Vec<char> = Vec::new();
    for c in it: s.chars()
        invariant
            it.seq() == s@,
            v@ == it.seq().take(it.index()),
    {
        v.push(c);
    }
    v
}

/// `String::push` of std: appends one character at the end.
#[verifier::external_body]
fn push_char(s: &mut String, c: char)
    ensures
        final(s)@ == old(s)@.push(c),
{
    s.push(c);
}

/// A string made of the given characters, in order.
pub fn string_from_chars(v: &[char]) -> (s: String)
    ensures
        s@ == v@,
{
    let mut s = String::new();
    let n = v.len();
    for i in 0..n
        invariant
            n == v@.len(),
            s@ == v@.take(i as int),
    {
        push_char(&mut s, v[i]);
        assert(v@.take(i + 1) =~= v@.take(i as int).push(v@[i as int]));
    }
    assert(v@.take(n as int) =~= v@);
    s
}

/// The views of a sequence of strings.
pub open spec fn string_views(v: Seq<String>) -> Seq<Seq<char>> {
    v.map_values(|t: String| t@)
}

/// `s` with every occurrence of `pat` replaced by `rep`, scanning from the
/// left and never letting two replaced occurrences overlap; an empty `pat`
/// matches before every character and at the end.
pub open spec fn replaced(s: Seq<char>, pat: Seq<char>, rep: Seq<char>) -> Seq<char>
    decreases s.len(),
{
    if pat.len() == 0 {
        if s.len() == 0 {
            rep
        } else {
            rep + seq![s[0]] + replaced(s.drop_first(), pat, rep)
        }
    } else if s.len() < pat.len() {
        s
    } else if s.take(pat.len() as int) == pat {
        rep + replaced(s.skip(pat.len() as int), pat, rep)
    } else {
        seq![s[0]] + replaced(s.drop_first(), pat, rep)
    }
}

/// Whether `pat` occurs in `s` at position `i`.
fn occurs_at(s: &Vec<char>, i: usize, pat: &Vec<char>) -> (b: bool)
    requires
        i + pat@.len() <= s@.len(),
    ensures
        b == (s@.subrange(i as int, i + pat@.len()) == pat@),
{
    let m = pat.len();
    let n = s.len();
    let mut j: usize = 0;
    while j < m
        invariant
            m == pat@.len(),
            n == s@.len(),
            i + m <= s@.len(),
            j <= m,
            forall|k: int| 0 <= k < j ==> s@[i + k] == pat@[k],
        decreases m - j,
    {
        if s[i + j] != pat[j] {
            assert(s@.subrange(i as int, i + m)[j as int] != pat@[j as int]);
            return false;
        }
        j = j + 1;
    }
    assert(s@.subrange(i as int, i + m) =~= pat@);
    true
}

/// Replaces every occurrence of `pat` in `s` by `rep`, as `str::replace` of
/// std does.
pub fn replace_all(s: &str, pat: &str, rep: &str) -> (r: String)
    ensures
        r@ == replaced(s@, pat@, rep@),
{
    let sv = chars_of(s);
    let pv = chars_of(pat);
    let n = sv.len();
    let m = pv.len();
    let mut out = String::new();
    let mut i: usize = 0;
    assert(sv@.skip(0) =~= sv@);
    assert(out@ + replaced(sv@, pv@, rep@) =~= replaced(sv@, pv@, rep@));
    if m == 0 {
        while i < n
            invariant
                n == sv@.len(),
                pv@.len() == 0,
                i <= n,
                out@ + replaced(sv@.skip(i as int), pv@, rep@) == replaced(sv@, pv@, rep@),
            decreases n - i,
        {
            let ghost rest = sv@.skip(i as int);
            assert(rest.drop_first() =~= sv@.skip(i + 1));
            let ghost before = out@;
            out.append(rep);
            push_char(&mut out, sv[i]);
            assert(out@ + replaced(sv@.skip(i + 1), pv@, rep@) =~= before + replaced(rest, pv@, rep@));
            i = i + 1;
        }
        assert(sv@.skip(n as int) =~= Seq::<char>::empty());
        out.append(rep);
    } else {
        while i < n
            invariant
                n == sv@.len(),
                m == pv@.len(),
                m > 0,
                i <= n,
                out@ + replaced(sv@.skip(i as int), pv@, rep@) == replaced(sv@, pv@, rep@),
            decreases n - i,
        {
            let ghost rest = sv@.skip(i as int);
            let ghost before = out@;
            if m <= n - i && occurs_at(&sv, i, &pv) {
                assert(rest.take(m as int) =~= sv@.subrange(i as int, i + m));
                assert(rest.skip(m as int) =~= sv@.skip(i + m));
                out.append(rep);
                assert(out@ + replaced(sv@.skip(i + m), pv@, rep@) =~= before + replaced(rest, pv@, rep@));
                i = i + m;
            } else {
                assert(rest.drop_first() =~= sv@.skip(i + 1));
                if m <= n - i {
                    assert(rest.take(m as int) =~= sv@.subrange(i as int, i + m));
                } else {
                    assert(replaced(sv@.skip(i + 1), pv@, rep@) == sv@.skip(i + 1));
                    assert(rest =~= seq![sv@[i as int]] + sv@.skip(i + 1));
                }
                push_char(&mut out, sv[i]);
                assert(out@ + replaced(sv@.skip(i + 1), pv@, rep@) =~= before + replaced(rest, pv@, rep@));
                i = i + 1;
            }
        }
        assert(sv@.skip(n as int) =~= Seq::<char>::empty());
    }
    out
}

/// The word being gathered, closed off as a token when it is not empty.
pub open spec fn flush_word(cur: Seq<char>) -> Seq<Seq<char>> {
    if cur.len() > 0 {
        seq![cur]
    } else {
        seq![]
    }
}

/// The whitespace-separated words of `s`, when `cur` holds the word that
/// was being gathered just before `s`.
pub open spec fn words_from(s: Seq<char>, cur: Seq<char>) -> Seq<Seq<char>>
    decreases s.len(),
{
    if s.len() == 0 {
        flush_word(cur)
    } else if is_white_space(s[0]) {
        flush_word(cur) + words_from(s.drop_first(), seq![])
    } else {
        words_from(s.drop_first(), cur.push(s[0]))
    }
}

/// The maximal runs of non-whitespace characters of `s`, in order, as
/// `str::split_whitespace` of std yields them.
pub open spec fn whitespace_words(s: Seq<char>) -> Seq<Seq<char>> {
    words_from(s, seq![])
}

/// Splits `s` into its whitespace-separated words.
pub fn split_whitespace(s: &str) -> (words: Vec<String>)
    ensures
        string_views(words@) == whitespace_words(s@),
{
    let sv = chars_of(s);
    let n = sv.len();
    let mut words: Vec<String> = Vec::new();
    let mut cur: Vec<char> = Vec::new();
    assert(sv@.skip(0) =~= sv@);
    assert(string_views(words@) + words_from(sv@, cur@) =~= whitespace_words(sv@));
    for i in 0..n
        invariant
            n == sv@.len(),
            string_views(words@) + words_from(sv@.skip(i as int), cur@) == whitespace_words(sv@),
    {
        let ghost rest = sv@.skip(i as int);
        assert(rest.drop_first() =~= sv@.skip(i + 1));
        let ghost before = string_views(words@);
        let ghost old_cur = cur@;
        let c = sv[i];
        if char_is_white_space(c) {
            if cur.len() > 0 {
                let w = string_from_chars(cur.as_slice());
                words.push(w);
                assert(string_views(words@) =~= before + flush_word(cur@));
            } else {
                assert(string_views(words@) =~= before + flush_word(cur@));
            }
            cur = Vec::new();
        } else {
            cur.push(c);
        }
        assert(string_views(words@) + words_from(sv@.skip(i + 1), cur@) =~= before + words_from(rest, old_cur));
    }
    assert(sv@.skip(n as int) =~= Seq::<char>::empty());
    let ghost before = string_views(words@);
    if cur.len() > 0 {
        let w = string_from_chars(cur.as_slice());
        words.push(w);
    }
    assert(string_views(words@) =~= before + flush_word(cur@));
    words
}

/// Whether `s` ends with `suffix`.
pub open spec fn has_suffix(s: Seq<char>, suffix: Seq<char>) -> bool {
    suffix.len() <= s.len() && s.skip(s.len() - suffix.len()) == suffix
}

/// Decides whether `s` ends with `suffix`, as `str::ends_with` of std does.
pub fn ends_with(s: &str, suffix: &str) -> (b: bool)
    ensures
        b == has_suffix(s@, suffix@),
{
    let sv = chars_of(s);
    let xv = chars_of(suffix);
    let n = sv.len();
    let m = xv.len();
    if m > n {
        return false;
    }
    let start = n - m;
    for j in 0..m
        invariant
            sv@ == s@,
            xv@ == suffix@,
            n == sv@.len(),
            m == xv@.len(),
            start == n - m,
            forall|k: int| 0 <= k < j ==> sv@[start + k] == xv@[k],
    {
        if sv[start + j] != xv[j] {
            let ghost tail = sv@.skip(start as int);
            assert(tail.len() == xv@.len());
            assert(tail[j as int] != xv@[j as int]);
            assert(tail != xv@);
            return false;
        }
    }
    assert(sv@.skip(start as int) =~= xv@);
    true
}

/// Decides whether two string slices hold the same characters.
pub fn str_equal(a: &str, b: &str) -> (eq: bool)
    ensures
        eq == (a@ == b@),
{
    a.to_owned() == b.to_owned()
}

/// A sequence of characters none of which is whitespace.
pub open spec fn no_white_space(w: Seq<char>) -> bool {
    forall|j: int| 0 <= j < w.len() ==> !is_white_space(#[trigger] w[j])
}

/// Words joined with one space between each two.
pub open spec fn join_with_spaces(words: Seq<Seq<char>>) -> Seq<char>
    decreases words.len(),
{
    if words.len() == 0 {
        Seq::<char>::empty()
    } else if words.len() == 1 {
        words[0]
    } else {
        words[0] + seq![' '] + join_with_spaces(words.drop_first())
    }
}

proof fn lemma_words_from_are_words(s: Seq<char>, cur: Seq<char>)
    requires
        no_white_space(cur),
    ensures
        forall|k: int|
            0 <= k < words_from(s, cur).len() ==> (#[trigger] words_from(s, cur)[k]).len() > 0
                && no_white_space(words_from(s, cur)[k]),
    decreases s.len(),
{
    if s.len() == 0 {
        assert(words_from(s, cur) == flush_word(cur));
    } else if is_white_space(s[0]) {
        lemma_words_from_are_words(s.drop_first(), seq![]);
        let a = flush_word(cur);
        let b = words_from(s.drop_first(), seq![]);
        assert(words_from(s, cur) == a + b);
        assert forall|k: int| 0 <= k < (a + b).len() implies (#[trigger] (a + b)[k]).len() > 0
            && no_white_space((a + b)[k]) by {
            if k >= a.len() {
                assert((a + b)[k] == b[k - a.len()]);
            }
        }
    } else {
        assert(no_white_space(cur.push(s[0]))) by {
            assert forall|j: int| 0 <= j < cur.push(s[0]).len() implies !is_white_space(
                #[trigger] cur.push(s[0])[j],
            ) by {
                if j < cur.len() {
                    assert(cur.push(s[0])[j] == cur[j]);
                }
            }
        }
        lemma_words_from_are_words(s.drop_first(), cur.push(s[0]));
        assert(words_from(s, cur) == words_from(s.drop_first(), cur.push(s[0])));
    }
}

/// Every word that splitting yields is non-empty and holds no whitespace.
pub proof fn lemma_words_are_nonempty_and_unbroken(s: Seq<char>)
    ensures
        forall|k: int|
            0 <= k < whitespace_words(s).len() ==> (#[trigger] whitespace_words(s)[k]).len() > 0
                && no_white_space(whitespace_words(s)[k]),
{
    lemma_words_from_are_words(s, seq![]);
}

proof fn lemma_words_from_unbroken_prefix(w: Seq<char>, rest: Seq<char>, cur: Seq<char>)
    requires
        no_white_space(w),
    ensures
        words_from(w + rest, cur) == words_from(rest, cur + w),
    decreases w.len(),
{
    if w.len() == 0 {
        assert(w + rest =~= rest);
        assert(cur + w =~= cur);
    } else {
        assert(!is_white_space(w[0]));
        assert((w + rest)[0] == w[0]);
        assert((w + rest).drop_first() =~= w.drop_first() + rest);
        assert(no_white_space(w.drop_first())) by {
            assert forall|j: int| 0 <= j < w.drop_first().len() implies !is_white_space(
                #[trigger] w.drop_first()[j],
            ) by {
                assert(w.drop_first()[j] == w[j + 1]);
            }
        }
        lemma_words_from_unbroken_prefix(w.drop_first(), rest, cur.push(w[0]));
        assert(cur.push(w[0]) + w.drop_first() =~= cur + w);
    }
}

/// Splitting words that were joined with single spaces gives the words back,
/// when every word is non-empty and holds no whitespace.
pub proof fn lemma_split_join_roundtrip(words: Seq<Seq<char>>)
    requires
        forall|k: int| 0 <= k < words.len() ==> (#[trigger] words[k]).len() > 0,
        forall|k: int| 0 <= k < words.len() ==> no_white_space(#[trigger] words[k]),
    ensures
        whitespace_words(join_with_spaces(words)) == words,
    decreases words.len(),
{
    if words.len() == 0 {
        assert(words_from(Seq::<char>::empty(), seq![]) =~= words);
    } else if words.len() == 1 {
        let w = words[0];
        lemma_words_from_unbroken_prefix(w, Seq::<char>::empty(), seq![]);
        assert(w + Seq::<char>::empty() =~= w);
        assert(Seq::<char>::empty() + w =~= w);
        assert(flush_word(w) =~= words);
    } else {
        let w = words[0];
        let tail = words.drop_first();
        assert forall|k: int| 0 <= k < tail.len() implies (#[trigger] tail[k]).len() > 0
            && no_white_space(tail[k]) by {
            assert(tail[k] == words[k + 1]);
        }
        lemma_split_join_roundtrip(tail);
        let rest = seq![' '] + join_with_spaces(tail);
        assert(join_with_spaces(words) =~= w + rest);
        lemma_words_from_unbroken_prefix(w, rest, seq![]);
        assert(Seq::<char>::empty() + w =~= w);
        assert(is_white_space(rest[0]));
        assert(rest.drop_first() =~= join_with_spaces(tail));
        assert(flush_word(w) + tail =~= words);
    }
}

/// Replacing a pattern that does not occur in `s` leaves `s` as it is.
pub proof fn lemma_replace_absent_pattern(s: Seq<char>, pat: Seq<char>, rep: Seq<char>)
    requires
        pat.len() > 0,
        forall|i: int| 0 <= i <= s.len() - pat.len() ==> #[trigger] s.subrange(i, i + pat.len()) != pat,
    ensures
        replaced(s, pat, rep) == s,
    decreases s.len(),
{
    if s.len() < pat.len() {
    } else {
        assert(s.take(pat.len() as int) =~= s.subrange(0, pat.len() as int));
        assert(s.subrange(0int, 0int + pat.len()) != pat);
        let t = s.drop_first();
        assert forall|i: int| 0 <= i <= t.len() - pat.len() implies #[trigger] t.subrange(i, i + pat.len()) != pat by {
            assert(t.subrange(i, i + pat.len()) =~= s.subrange(i + 1, i + 1 + pat.len()));
        }
        lemma_replace_absent_pattern(t, pat, rep);
        assert(replaced(s, pat, rep) == seq![s[0]] + replaced(t, pat, rep));
        assert(seq![s[0]] + t =~= s);
    }
}

/// A first character that cannot start the pattern is kept in front.
pub proof fn lemma_replace_keeps_unmatched_head(s: Seq<char>, pat: Seq<char>, rep: Seq<char>)
    requires
        s.len() > 0,
        pat.len() > 0,
        s[0] != pat[0],
    ensures
        replaced(s, pat, rep) == seq![s[0]] + replaced(s.drop_first(), pat, rep),
{
    if s.len() < pat.len() {
        assert(seq![s[0]] + s.drop_first() =~= s);
    } else {
        assert(s.take(pat.len() as int)[0] != pat[0]);
    }
}

proof fn lemma_words_from_open_word(s: Seq<char>, cur: Seq<char>)
    requires
        cur.len() > 0,
    ensures
        words_from(s, cur).len() > 0,
    decreases s.len(),
{
    if s.len() == 0 {
    } else if is_white_space(s[0]) {
    } else {
        lemma_words_from_open_word(s.drop_first(), cur.push(s[0]));
    }
}

/// A text that starts with a non-whitespace character has at least one word.
pub proof fn lemma_words_of_text_with_unbroken_head(s: Seq<char>)
    requires
        s.len() > 0,
        !is_white_space(s[0]),
    ensures
        whitespace_words(s).len() > 0,
{
    lemma_words_from_open_word(s.drop_first(), seq![s[0]]);
    assert(Seq::<char>::empty().push(s[0]) =~= seq![s[0]]);
}

/// A text ends with a suffix exactly when the suffix fits and each of its
/// characters, the last one included, equals the character at the same place
/// from the end of the text.
pub proof fn law_suffix_is_a_charwise_match(s: Seq<char>, suffix: Seq<char>)
    ensures
        has_suffix(s, suffix) <==> (suffix.len() <= s.len() && forall|k: int|
            0 <= k < suffix.len() ==> #[trigger] s[s.len() - suffix.len() + k] == suffix[k]),
{
    if suffix.len() <= s.len() {
        let tail = s.skip(s.len() - suffix.len());
        if forall|k: int| 0 <= k < suffix.len() ==> #[trigger] s[s.len() - suffix.len() + k] == suffix[k] {
            assert forall|k: int| 0 <= k < suffix.len() implies tail[k] == suffix[k] by {
                assert(s[s.len() - suffix.len() + k] == suffix[k]);
            }
            assert(tail =~= suffix);
        }
        if tail == suffix {
            assert forall|k: int| 0 <= k < suffix.len() implies #[trigger] s[s.len() - suffix.len() + k]
                == suffix[k] by {
                assert(tail[k] == s[s.len() - suffix.len() + k]);
            }
        }
    }
}

} // verus!
