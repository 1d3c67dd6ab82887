//! String utilities shared by the shell core: equality, blank-line
//! detection, trimming, splitting a submitted line into words, and
//! building the prompt line.

use vstd::prelude::*;

verus! {

/// A character that counts as blank space in shell input.
pub open spec fn is_space_char(c: char) -> bool {
    c == ' ' || c == '\t' || c == '\r' || c == '\n'
}

/// A line is blank when every character is whitespace.
pub open spec fn is_blank(s: Seq<char>) -> bool {
    forall|i: int| 0 <= i < s.len() ==> is_space_char(s[i])
}

/// Leading whitespace removed.
pub open spec fn trim_front(s: Seq<char>) -> Seq<char>
    decreases s.len(),
{
    if s.len() > 0 && is_space_char(s[0]) {
        trim_front(s.drop_first())
    } else {
        s
    }
}

/// Trailing whitespace removed.
pub open spec fn trim_back(s: Seq<char>) -> Seq<char>
    decreases s.len(),
{
    if s.len() > 0 && is_space_char(s.last()) {
        trim_back(s.drop_last())
    } else {
        s
    }
}

/// Leading and trailing whitespace removed.
pub open spec fn trimmed(s: Seq<char>) -> Seq<char> {
    trim_back(trim_front(s))
}

pub fn is_space(c: char) -> (r: bool)
    ensures
        r == is_space_char(c),
{
    c == ' ' || c == '\t' || c == '\r' || c == '\n'
}

pub fn line_is_blank(s: &str) -> (r: bool)
    ensures
        r == is_blank(s@),
{
    let len = s.unicode_len();
    let mut i: usize = 0;
    while i < len
        invariant
            i <= len,
            len == s@.len(),
            forall|j: int| 0 <= j < i ==> is_space_char(s@[j]),
        decreases len - i,
    {
        if !is_space(s.get_char(i)) {
            return false;
        }
        i += 1;
    }
    true
}

pub fn str_eq(a: &str, b: &str) -> (r: bool)
    ensures
        r <==> a@ == b@,
{
    let alen = a.unicode_len();
    let blen = b.unicode_len();
    if alen != blen {
        return false;
    }
    let mut i: usize = 0;
    while i < alen
        invariant
            i <= alen,
            alen == a@.len(),
            alen == b@.len(),
            forall|j: int| 0 <= j < i ==> a@[j] == b@[j],
        decreases alen - i,
    {
        if a.get_char(i) != b.get_char(i) {
            return false;
        }
        i += 1;
    }
    proof {
        assert(a@ =~= b@);
    }
    true
}

proof fn lemma_trim_front_prefix(s: Seq<char>, k: int)
    requires
        0 <= k <= s.len(),
        forall|j: int| 0 <= j < k ==> is_space_char(s[j]),
        k < s.len() ==> !is_space_char(s[k]),
    ensures
        trim_front(s) == s.subrange(k, s.len() as int),
    decreases k,
{
    if k == 0 {
        assert(s.subrange(0, s.len() as int) =~= s);
    } else {
        let rest = s.drop_first();
        lemma_trim_front_prefix(rest, k - 1);
        assert(rest.subrange(k - 1, rest.len() as int) =~= s.subrange(k, s.len() as int));
    }
}

proof fn lemma_trim_back_suffix(s: Seq<char>, k: int)
    requires
        0 <= k <= s.len(),
        forall|j: int| k <= j < s.len() ==> is_space_char(s[j]),
        k > 0 ==> !is_space_char(s[k - 1]),
    ensures
        trim_back(s) == s.subrange(0, k),
    decreases s.len(),
{
    if k == s.len() {
        if s.len() == 0 {
            assert(s.subrange(0, 0) =~= s);
        } else {
            assert(s.subrange(0, k) =~= s);
        }
    } else {
        let rest = s.drop_last();
        assert(is_space_char(s.last()));
        lemma_trim_back_suffix(rest, k);
        assert(rest.subrange(0, k) =~= s.subrange(0, k));
    }
}

/// Returns the input with leading and trailing whitespace removed.
pub fn trim(s: &str) -> (r: String)
    ensures
        r@ == trimmed(s@),
{
    let len = s.unicode_len();
    let mut start: usize = 0;
    while start < len && is_space(s.get_char(start))
        invariant
            start <= len,
            len == s@.len(),
            forall|j: int| 0 <= j < start ==> is_space_char(s@[j]),
        decreases len - start,
    {
        start += 1;
    }
    let mut end: usize = len;
    while end > start && is_space(s.get_char(end - 1))
        invariant
            start <= end <= len,
            len == s@.len(),
            forall|j: int| end <= j < len ==> is_space_char(s@[j]),
        decreases end,
    {
        end -= 1;
    }
    let piece = s.substring_char(start, end);
    proof {
        let mid = s@.subrange(start as int, len as int);
        lemma_trim_front_prefix(s@, start as int);
        lemma_trim_back_suffix(mid, end - start);
        assert(mid.subrange(0, end - start) =~= s@.subrange(start as int, end as int));
    }
    piece.to_owned()
}

/// The whitespace-separated words of a line, in order; whitespace only
/// separates, so every word is non-empty and free of whitespace (see
/// `lemma_tokens_are_words`).
pub open spec fn spec_tokens(s: Seq<char>) -> Seq<Seq<char>>
    decreases s.len(),
{
    if s.len() == 0 {
        Seq::empty()
    } else {
        let rest = spec_tokens(s.drop_last());
        let c = s.last();
        if is_space_char(c) {
            rest
        } else if s.len() >= 2 && !is_space_char(s[s.len() - 2]) {
            rest.update(rest.len() - 1, rest.last().push(c))
        } else {
            rest.push(seq![c])
        }
    }
}

/// A word of a tokenized line: non-empty and free of whitespace.
pub open spec fn is_word(w: Seq<char>) -> bool {
    w.len() > 0 && (forall|k: int| 0 <= k < w.len() ==> !is_space_char(w[k]))
}

/// Whitespace only separates: every word a line tokenizes into is
/// non-empty and contains no whitespace character.
pub proof fn lemma_tokens_are_words(s: Seq<char>)
    ensures
        forall|t: int| 0 <= t < spec_tokens(s).len() ==> is_word(#[trigger] spec_tokens(s)[t]),
        s.len() > 0 && !is_space_char(s.last()) ==> spec_tokens(s).len() > 0,
    decreases s.len(),
{
    if s.len() > 0 {
        lemma_tokens_are_words(s.drop_last());
        let rest = spec_tokens(s.drop_last());
        let c = s.last();
        if is_space_char(c) {
        } else if s.len() >= 2 && !is_space_char(s[s.len() - 2]) {
            assert(s.drop_last().last() == s[s.len() - 2]);
            assert(rest.len() > 0);
            assert(is_word(rest.last()));
            let grown = rest.last().push(c);
            assert(is_word(grown));
        } else {
            assert(is_word(seq![c]));
        }
    }
}

proof fn lemma_tokens_space_step(s: Seq<char>, i: int)
    requires
        0 <= i < s.len(),
        is_space_char(s[i]),
    ensures
        spec_tokens(s.subrange(0, i + 1)) == spec_tokens(s.subrange(0, i)),
{
    assert(s.subrange(0, i + 1).drop_last() =~= s.subrange(0, i));
    assert(s.subrange(0, i + 1).last() == s[i]);
}

proof fn lemma_tokens_word(s: Seq<char>, start: int, end: int)
    requires
        0 <= start < end <= s.len(),
        forall|k: int| start <= k < end ==> !is_space_char(s[k]),
        start > 0 ==> is_space_char(s[start - 1]),
    ensures
        spec_tokens(s.subrange(0, end)) == spec_tokens(s.subrange(0, start)).push(
            s.subrange(start, end),
        ),
    decreases end - start,
{
    let p_end = s.subrange(0, end);
    if end == start + 1 {
        assert(p_end.drop_last() =~= s.subrange(0, start));
        assert(p_end.last() == s[start]);
        assert(s.subrange(start, end) =~= seq![s[start]]);
    } else {
        lemma_tokens_word(s, start, end - 1);
        assert(p_end.drop_last() =~= s.subrange(0, end - 1));
        assert(p_end.last() == s[end - 1]);
        assert(p_end[p_end.len() - 2] == s[end - 2]);
        let before = spec_tokens(s.subrange(0, start));
        let rest = before.push(s.subrange(start, end - 1));
        assert(rest.last() == s.subrange(start, end - 1));
        assert(rest.last().push(s[end - 1]) =~= s.subrange(start, end));
        assert(rest.update(rest.len() - 1, rest.last().push(s[end - 1])) =~= before.push(
            s.subrange(start, end),
        ));
    }
}

/// Splits a line into its whitespace-separated words.
pub fn tokenize(line: &str) -> (r: Vec<String>)
    ensures
        r.deep_view() == spec_tokens(line@),
{
    let n = line.unicode_len();
    let mut tokens: Vec<String> = Vec::new();
    let mut i: usize = 0;
    while i < n
        invariant
            i <= n,
            n == line@.len(),
            tokens.deep_view() == spec_tokens(line@.subrange(0, i as int)),
            0 < i < n ==> (is_space_char(line@[i - 1]) || is_space_char(line@[i as int])),
        decreases n - i,
    {
        if is_space(line.get_char(i)) {
            proof {
                lemma_tokens_space_step(line@, i as int);
            }
            i += 1;
        } else {
            let start = i;
            i += 1;
            while i < n && !is_space(line.get_char(i))
                invariant
                    n == line@.len(),
                    start < i <= n,
                    forall|k: int| start <= k < i ==> !is_space_char(line@[k]),
                    start > 0 ==> is_space_char(line@[start - 1]),
                decreases n - i,
            {
                i += 1;
            }
            let word = line.substring_char(start, i);
            tokens.push(word.to_owned());
            proof {
                lemma_tokens_word(line@, start as int, i as int);
                assert(tokens.deep_view() =~= spec_tokens(line@.subrange(0, i as int)));
            }
        }
    }
    proof {
        assert(line@.subrange(0, n as int) =~= line@);
    }
    tokens
}

/// Splits a submitted line into the command token and the remaining
/// argument words; a line with no words dispatches nothing.
pub fn parse_line(line: &str) -> (r: Option<(String, Vec<String>)>)
    ensures
        r is None <==> spec_tokens(line@).len() == 0,
        r matches Some(pair) ==> pair.0@ == spec_tokens(line@)[0] && pair.1.deep_view()
            == spec_tokens(line@).drop_first(),
{
    let mut words = tokenize(line);
    if words.len() == 0 {
        return None;
    }
    let command = words.remove(0);
    proof {
        assert(words.deep_view() =~= spec_tokens(line@).drop_first());
    }
    Some((command, words))
}

/// Relies on `alloc::string::String::push_str`: appends the given string
/// slice onto the end of this `String`.
#[verifier::external_body]
fn push_str_onto(s: &mut String, part: &str)
    ensures
        final(s)@ == old(s)@ + part@,
{
    s.push_str(part)
}

/// The text of the prompt: the configured prompt word between the literal
/// brackets, with a trailing space for the input to follow.
pub fn prompt_line(text: &str) -> (r: String)
    ensures
        r@ == "[<"@ + text@ + ">] "@,
{
    let mut s = String::new();
    push_str_onto(&mut s, "[<");
    push_str_onto(&mut s, text);
    push_str_onto(&mut s, ">] ");
    proof {
        assert(s@ =~= "[<"@ + text@ + ">] "@);
    }
    s
}

} // verus!
