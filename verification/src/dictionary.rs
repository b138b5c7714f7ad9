//! Vocabulary hints and the history of recorded transcriptions.

use vstd::prelude::*;
use vstd::string::*;
use crate::text::{chars_of, char_is_whitespace, char_is_alphanumeric, contains_chars, has_infix, is_alphanumeric, is_whitespace, lowercase, push_char, to_lowercase};
use crate::vocab::{lemma_tech_vocab_distinct, tech_vocab, tech_vocab_words};

verus! {

/// How often `k` has been recorded according to `m` (0 when never).
pub open spec fn count_of(m: Map<Seq<char>, nat>, k: Seq<char>) -> nat {
    if m.contains_key(k) {
        m[k]
    } else {
        0
    }
}

/// The word counts that a table of `(word, count)` pairs stands for; a later
/// pair for the same word replaces an earlier one.
pub open spec fn table_map(t: Seq<(String, usize)>) -> Map<Seq<char>, nat>
    decreases t.len(),
{
    if t.len() == 0 {
        Map::empty()
    } else {
        table_map(t.drop_last()).insert(t.last().0@, t.last().1 as nat)
    }
}

/// No word occurs twice in the table.
pub open spec fn keys_unique(t: Seq<(String, usize)>) -> bool {
    forall|i: int, j: int| 0 <= i < j < t.len() ==> #[trigger] t[i].0@ != #[trigger] t[j].0@
}

/// The character sequences of a sequence of strings.
pub open spec fn strings_view(v: Seq<String>) -> Seq<Seq<char>> {
    v.map_values(|s: String| s@)
}

proof fn lemma_table_dom(t: Seq<(String, usize)>, k: Seq<char>)
    ensures
        table_map(t).contains_key(k) <==> exists|i: int| 0 <= i < t.len() && #[trigger] t[i].0@ == k,
    decreases t.len(),
{
    if t.len() > 0 {
        lemma_table_dom(t.drop_last(), k);
        if table_map(t.drop_last()).contains_key(k) {
            let i = choose|i: int| 0 <= i < t.drop_last().len() && #[trigger] t.drop_last()[i].0@ == k;
            assert(t[i].0@ == k);
        }
        if exists|i: int| 0 <= i < t.len() && #[trigger] t[i].0@ == k {
            let i = choose|i: int| 0 <= i < t.len() && #[trigger] t[i].0@ == k;
            if i < t.len() - 1 {
                assert(t.drop_last()[i].0@ == k);
            }
        }
    }
}

proof fn lemma_table_value(t: Seq<(String, usize)>, i: int)
    requires
        keys_unique(t),
        0 <= i < t.len(),
    ensures
        table_map(t).contains_key(t[i].0@),
        table_map(t)[t[i].0@] == t[i].1 as nat,
    decreases t.len(),
{
    if i < t.len() - 1 {
        assert(keys_unique(t.drop_last()));
        lemma_table_value(t.drop_last(), i);
        assert(t.drop_last()[i] == t[i]);
        assert(t[i].0@ != t[t.len() - 1].0@);
    }
}

proof fn lemma_table_update(t: Seq<(String, usize)>, i: int, e: (String, usize))
    requires
        keys_unique(t),
        0 <= i < t.len(),
        e.0@ == t[i].0@,
    ensures
        keys_unique(t.update(i, e)),
        table_map(t.update(i, e)) == table_map(t).insert(e.0@, e.1 as nat),
    decreases t.len(),
{
    let u = t.update(i, e);
    assert forall|a: int, b: int| 0 <= a < b < u.len() implies #[trigger] u[a].0@ != #[trigger] u[b].0@ by {
        assert(t[a].0@ != t[b].0@);
    }
    if i == t.len() - 1 {
        assert(u.drop_last() =~= t.drop_last());
        assert(table_map(u) =~= table_map(t).insert(e.0@, e.1 as nat));
    } else {
        assert(u.drop_last() =~= t.drop_last().update(i, e));
        assert(keys_unique(t.drop_last()));
        lemma_table_update(t.drop_last(), i, e);
        assert(t.last().0@ != t[i].0@);
        assert(table_map(u) =~= table_map(t).insert(e.0@, e.1 as nat));
    }
}

proof fn lemma_table_push(t: Seq<(String, usize)>, e: (String, usize))
    requires
        keys_unique(t),
        !table_map(t).contains_key(e.0@),
    ensures
        keys_unique(t.push(e)),
        table_map(t.push(e)) == table_map(t).insert(e.0@, e.1 as nat),
{
    let u = t.push(e);
    assert forall|a: int, b: int| 0 <= a < b < u.len() implies #[trigger] u[a].0@ != #[trigger] u[b].0@ by {
        if b == t.len() {
            lemma_table_dom(t, e.0@);
            assert(u[a] == t[a]);
        } else {
            assert(t[a].0@ != t[b].0@);
        }
    }
    assert(u.drop_last() =~= t);
}

/// The recorded transcriptions and the number of times each word was recorded.
pub struct HistoryView {
    pub entries: Seq<Seq<char>>,
    pub frequency: Map<Seq<char>, nat>,
}

/// The history of recorded transcriptions, with a count per word.
pub struct History {
    entries: Vec<String>,
    frequency: Vec<(String, usize)>,
}

impl View for History {
    type V = HistoryView;

    closed spec fn view(&self) -> HistoryView {
        HistoryView { entries: strings_view(self.entries@), frequency: table_map(self.frequency@) }
    }
}

impl History {
    /// The counts table names each word at most once.
    pub closed spec fn wf(&self) -> bool {
        keys_unique(self.frequency@)
    }

    /// An empty history.
    pub fn new() -> (h: History)
        ensures
            h.wf(),
            h@.entries == Seq::<Seq<char>>::empty(),
            h@.frequency == Map::<Seq<char>, nat>::empty(),
    {
        let h = History { entries: Vec::new(), frequency: Vec::new() };
        assert(strings_view(h.entries@) =~= Seq::<Seq<char>>::empty());
        h
    }

    /// Where `word` stands in the counts table, if it is there.
    fn find(&self, word: &String) -> (r: Option<usize>)
        requires
            self.wf(),
        ensures
            r matches Some(i) ==> i < self.frequency@.len() && self.frequency@[i as int].0@ == word@,
            r is None ==> !self@.frequency.contains_key(word@),
    {
        let mut i: usize = 0;
        while i < self.frequency.len()
            invariant
                i <= self.frequency@.len(),
                forall|j: int| 0 <= j < i ==> #[trigger] self.frequency@[j].0@ != word@,
            decreases self.frequency@.len() - i,
        {
            if self.frequency[i].0 == *word {
                return Some(i);
            }
            i = i + 1;
        }
        proof {
            lemma_table_dom(self.frequency@, word@);
        }
        None
    }

    /// How often `word` has been recorded (0 when never).
    pub fn count(&self, word: &String) -> (c: usize)
        requires
            self.wf(),
        ensures
            c == count_of(self@.frequency, word@),
    {
        match self.find(word) {
            Some(i) => {
                proof {
                    lemma_table_value(self.frequency@, i as int);
                }
                self.frequency[i].1
            },
            None => 0,
        }
    }

    /// Sets the count of `word`, as `HashMap::insert` does.
    pub fn set_count(&mut self, word: String, c: usize)
        requires
            old(self).wf(),
        ensures
            final(self).wf(),
            final(self)@.entries == old(self)@.entries,
            final(self)@.frequency == old(self)@.frequency.insert(word@, c as nat),
    {
        match self.find(&word) {
            Some(i) => {
                proof {
                    lemma_table_update(self.frequency@, i as int, (word, c));
                }
                self.frequency.set(i, (word, c));
            },
            None => {
                proof {
                    lemma_table_push(self.frequency@, (word, c));
                }
                self.frequency.push((word, c));
            },
        }
    }

    /// A history with the given entries and counts; where a word occurs in
    /// several pairs, the last one stands.
    pub fn from_parts(entries: Vec<String>, counts: Vec<(String, usize)>) -> (h: History)
        ensures
            h.wf(),
            h@.entries == strings_view(entries@),
            h@.frequency == table_map(counts@),
    {
        let mut h = History { entries, frequency: Vec::new() };
        let mut i: usize = 0;
        while i < counts.len()
            invariant
                h.wf(),
                i <= counts@.len(),
                h@.entries == strings_view(entries@),
                h@.frequency == table_map(counts@.take(i as int)),
            decreases counts@.len() - i,
        {
            let w = counts[i].0.clone();
            let c = counts[i].1;
            h.set_count(w, c);
            assert(counts@.take(i + 1).drop_last() =~= counts@.take(i as int));
            i = i + 1;
        }
        assert(counts@.take(counts@.len() as int) =~= counts@);
        h
    }

    /// Counts one occurrence of the raw word `word`, cleaned first; a word
    /// that cleans to nothing is not counted.
    fn tally_word(&mut self, word: &Vec<char>)
        requires
            old(self).wf(),
            clean_word(word@).len() > 0 ==> count_of(old(self)@.frequency, clean_word(word@))
                < usize::MAX,
        ensures
            final(self).wf(),
            final(self)@.entries == old(self)@.entries,
            final(self)@.frequency == tally_word(old(self)@.frequency, word@),
    {
        let clean = clean_chars(word);
        if !clean.as_str().is_empty() {
            let c = self.count(&clean);
            self.set_count(clean, c + 1);
        }
    }

    /// Counts each whitespace-separated word of `text`, cleaned.
    fn tally_text(&mut self, text: &str)
        requires
            old(self).wf(),
            tally_fits(old(self)@.frequency, split_whitespace(text@)),
        ensures
            final(self).wf(),
            final(self)@.entries == old(self)@.entries,
            final(self)@.frequency == tally(old(self)@.frequency, split_whitespace(text@)),
    {
        let ghost old_freq = self@.frequency;
        let ghost words = split_whitespace(text@);
        let ghost empty = Seq::<char>::empty();
        let ghost mut done = Seq::<Seq<char>>::empty();
        let chars = chars_of(text);
        let mut cur: Vec<char> = Vec::new();
        let mut i: usize = 0;
        assert(text@.skip(0) =~= text@);
        assert(cur@ =~= empty);
        assert(done + words =~= words);
        while i < chars.len()
            invariant
                self.wf(),
                i <= chars@.len(),
                chars@ == text@,
                empty == Seq::<char>::empty(),
                words == split_whitespace(text@),
                self@.entries == old(self)@.entries,
                words == done + split_ws_from(text@.skip(i as int), cur@),
                self@.frequency == tally(old_freq, done),
                tally_fits(old_freq, words),
            decreases chars@.len() - i,
        {
            let c = chars[i];
            let ghost rest = text@.skip(i as int);
            let ghost next = text@.skip(i + 1);
            assert(rest.len() > 0);
            assert(rest[0] == c);
            assert(rest.drop_first() =~= next);
            if char_is_whitespace(c) {
                assert(is_whitespace(rest[0]));
                if cur.len() > 0 {
                    let ghost r = split_ws_from(next, empty);
                    proof {
                        assert(split_ws_from(rest, cur@) == seq![cur@] + r);
                        assert(words =~= done.push(cur@) + r);
                        let cw = clean_word(cur@);
                        if cw.len() > 0 {
                            lemma_tally_counts(old_freq, done, cw);
                            lemma_occurrences_append(done, seq![cur@] + r, cw);
                            lemma_occurrences_append(seq![cur@], r, cw);
                            lemma_occurrences_single(cur@, cw);
                            assert(done + (seq![cur@] + r) =~= words);
                            assert(occurrences(words, cw) > 0);
                        }
                    }
                    self.tally_word(&cur);
                    proof {
                        assert(done.push(cur@).drop_last() =~= done);
                        done = done.push(cur@);
                    }
                } else {
                    assert(split_ws_from(rest, cur@) =~= Seq::<Seq<char>>::empty() + split_ws_from(
                        next,
                        empty,
                    ));
                    assert(Seq::<Seq<char>>::empty() + split_ws_from(next, empty) =~= split_ws_from(
                        next,
                        empty,
                    ));
                }
                cur = Vec::new();
                assert(cur@ =~= empty);
            } else {
                cur.push(c);
            }
            i = i + 1;
        }
        assert(text@.skip(chars@.len() as int) =~= Seq::<char>::empty());
        if cur.len() > 0 {
            proof {
                assert(words =~= done.push(cur@));
                let cw = clean_word(cur@);
                if cw.len() > 0 {
                    lemma_tally_counts(old_freq, done, cw);
                    lemma_occurrences_append(done, seq![cur@], cw);
                    lemma_occurrences_single(cur@, cw);
                    assert(done + seq![cur@] =~= words);
                    assert(occurrences(words, cw) > 0);
                }
                assert(done.push(cur@).drop_last() =~= done);
            }
            self.tally_word(&cur);
        } else {
            assert(words =~= done);
        }
    }

    /// The recorded transcriptions, oldest first.
    pub fn entries(&self) -> (r: &Vec<String>)
        ensures
            strings_view(r@) == self@.entries,
    {
        &self.entries
    }

    /// The counts table: each word once, with its count.
    pub fn frequency_pairs(&self) -> (r: &Vec<(String, usize)>)
        requires
            self.wf(),
        ensures
            keys_unique(r@),
            table_map(r@) == self@.frequency,
    {
        &self.frequency
    }
}


/// Most hints offered at once.
pub const MAX_HINTS: usize = 20;

/// `word`, lowercased, holds the lowercased partial text `lower`.
pub open spec fn matches_partial(word: Seq<char>, lower: Seq<char>) -> bool {
    has_infix(lowercase(word), lower)
}

/// The test a vocabulary word must pass to be offered for `lower`.
pub open spec fn hint_filter(lower: Seq<char>) -> spec_fn(Seq<char>) -> bool {
    |w: Seq<char>| matches_partial(w, lower)
}

/// Adds, in order, each user word that matches `lower` and is not yet offered.
pub open spec fn add_user_hints(
    hints: Seq<Seq<char>>,
    user: Seq<Seq<char>>,
    lower: Seq<char>,
) -> Seq<Seq<char>>
    decreases user.len(),
{
    if user.len() == 0 {
        hints
    } else {
        let acc = add_user_hints(hints, user.drop_last(), lower);
        let w = user.last();
        if matches_partial(w, lower) && !acc.contains(w) {
            acc.push(w)
        } else {
            acc
        }
    }
}

/// Places `w` into `sorted` after every word recorded at least as often as `w`
/// and before the first one recorded less often.
pub open spec fn insert_by_count(
    sorted: Seq<Seq<char>>,
    w: Seq<char>,
    freq: Map<Seq<char>, nat>,
) -> Seq<Seq<char>>
    decreases sorted.len(),
{
    if sorted.len() == 0 {
        seq![w]
    } else if count_of(freq, sorted[0]) < count_of(freq, w) {
        seq![w] + sorted
    } else {
        seq![sorted[0]] + insert_by_count(sorted.drop_first(), w, freq)
    }
}

/// The stable sort of `s` by recorded count, most recorded first; words with
/// equal counts keep their order.
pub open spec fn sort_by_count(s: Seq<Seq<char>>, freq: Map<Seq<char>, nat>) -> Seq<Seq<char>>
    decreases s.len(),
{
    if s.len() == 0 {
        s
    } else {
        insert_by_count(sort_by_count(s.drop_last(), freq), s.last(), freq)
    }
}

/// At most the first `MAX_HINTS` words of `s`.
pub open spec fn first_hints(s: Seq<Seq<char>>) -> Seq<Seq<char>> {
    if s.len() <= MAX_HINTS {
        s
    } else {
        s.take(MAX_HINTS as int)
    }
}

/// The state of a dictionary: its configuration and its history.
pub struct DictionaryView {
    pub user_vocab: Seq<Seq<char>>,
    pub tech_vocab_enabled: bool,
    pub max_history: nat,
    pub entries: Seq<Seq<char>>,
    pub frequency: Map<Seq<char>, nat>,
}

/// The candidate hints for the lowercased partial text `lower`: matching
/// built-in words (when enabled) in their order, then matching user words not
/// offered yet.
pub open spec fn hint_candidates(d: DictionaryView, lower: Seq<char>) -> Seq<Seq<char>> {
    let tech = if d.tech_vocab_enabled {
        tech_vocab().filter(hint_filter(lower))
    } else {
        Seq::<Seq<char>>::empty()
    };
    add_user_hints(tech, d.user_vocab, lower)
}

/// The hints offered for `partial`: the candidates, most recorded first, at
/// most `MAX_HINTS` of them.
pub open spec fn hints_for(d: DictionaryView, partial: Seq<char>) -> Seq<Seq<char>> {
    first_hints(sort_by_count(hint_candidates(d, lowercase(partial)), d.frequency))
}

/// The entries after recording `text`: appended, and the oldest dropped when
/// there are then more than `max_history`.
pub open spec fn record_entry(entries: Seq<Seq<char>>, text: Seq<char>, max_history: nat) -> Seq<
    Seq<char>,
> {
    let e = entries.push(text);
    if e.len() > max_history {
        e.drop_first()
    } else {
        e
    }
}

/// Characters kept when a word is counted.
pub open spec fn is_word_char(c: char) -> bool {
    is_alphanumeric(c) || c == '-' || c == '_'
}

/// `w` with every character dropped that is not alphanumeric, `-` or `_`.
pub open spec fn clean_word(w: Seq<char>) -> Seq<char> {
    w.filter(word_char_filter())
}

/// `is_word_char` as a predicate value.
pub open spec fn word_char_filter() -> spec_fn(char) -> bool {
    |c: char| is_word_char(c)
}

/// `word` with every character dropped that is not alphanumeric, `-` or `_`.
fn clean_chars(word: &Vec<char>) -> (s: String)
    ensures
        s@ == clean_word(word@),
{
    let mut s = String::new();
    let mut j: usize = 0;
    while j < word.len()
        invariant
            j <= word@.len(),
            s@ == word@.take(j as int).filter(word_char_filter()),
        decreases word@.len() - j,
    {
        let c = word[j];
        let keep = char_is_alphanumeric(c) || c == '-' || c == '_';
        proof {
            reveal(Seq::filter);
            assert(word@.take(j + 1).drop_last() =~= word@.take(j as int));
            assert(word@.take(j + 1).last() == c);
        }
        if keep {
            push_char(&mut s, c);
        }
        j = j + 1;
    }
    assert(word@.take(word@.len() as int) =~= word@);
    s
}

/// The whitespace-separated words of `s`, where `cur` is a word already begun.
pub open spec fn split_ws_from(s: Seq<char>, cur: Seq<char>) -> Seq<Seq<char>>
    decreases s.len(),
{
    if s.len() == 0 {
        if cur.len() == 0 {
            Seq::<Seq<char>>::empty()
        } else {
            seq![cur]
        }
    } else if is_whitespace(s[0]) {
        (if cur.len() == 0 {
            Seq::<Seq<char>>::empty()
        } else {
            seq![cur]
        }) + split_ws_from(s.drop_first(), Seq::<char>::empty())
    } else {
        split_ws_from(s.drop_first(), cur.push(s[0]))
    }
}

/// The maximal runs of non-whitespace characters of `s` (what
/// `str::split_whitespace` yields).
pub open spec fn split_whitespace(s: Seq<char>) -> Seq<Seq<char>> {
    split_ws_from(s, Seq::<char>::empty())
}

/// The counts after one occurrence of the raw word `w`.
pub open spec fn tally_word(m: Map<Seq<char>, nat>, w: Seq<char>) -> Map<Seq<char>, nat> {
    let c = clean_word(w);
    if c.len() == 0 {
        m
    } else {
        m.insert(c, count_of(m, c) + 1)
    }
}

/// The counts after the raw words `ws`, in order.
pub open spec fn tally(m: Map<Seq<char>, nat>, ws: Seq<Seq<char>>) -> Map<Seq<char>, nat>
    decreases ws.len(),
{
    if ws.len() == 0 {
        m
    } else {
        tally_word(tally(m, ws.drop_last()), ws.last())
    }
}

/// Every word of `ws` that is counted can be counted without its count
/// leaving `usize`.
pub open spec fn tally_fits(m: Map<Seq<char>, nat>, ws: Seq<Seq<char>>) -> bool {
    forall|k: Seq<char>|
        k.len() > 0 && #[trigger] occurrences(ws, k) > 0 ==> count_of(m, k) + occurrences(ws, k)
            <= usize::MAX
}

proof fn lemma_occurrences_append(a: Seq<Seq<char>>, b: Seq<Seq<char>>, k: Seq<char>)
    ensures
        occurrences(a + b, k) == occurrences(a, k) + occurrences(b, k),
    decreases b.len(),
{
    if b.len() == 0 {
        assert(a + b =~= a);
    } else {
        assert((a + b).drop_last() =~= a + b.drop_last());
        lemma_occurrences_append(a, b.drop_last(), k);
    }
}

proof fn lemma_occurrences_single(w: Seq<char>, k: Seq<char>)
    ensures
        occurrences(seq![w], k) == if clean_word(w) == k {
            1nat
        } else {
            0nat
        },
{
    assert(seq![w].drop_last() =~= Seq::<Seq<char>>::empty());
    assert(occurrences(Seq::<Seq<char>>::empty(), k) == 0);
}

proof fn lemma_occurrences_le_len(ws: Seq<Seq<char>>, k: Seq<char>)
    ensures
        occurrences(ws, k) <= ws.len(),
    decreases ws.len(),
{
    if ws.len() > 0 {
        lemma_occurrences_le_len(ws.drop_last(), k);
    }
}

proof fn lemma_split_len(s: Seq<char>, cur: Seq<char>)
    ensures
        split_ws_from(s, cur).len() <= s.len() + if cur.len() > 0 {
            1int
        } else {
            0int
        },
    decreases s.len(),
{
    if s.len() > 0 {
        if is_whitespace(s[0]) {
            lemma_split_len(s.drop_first(), Seq::<char>::empty());
        } else {
            lemma_split_len(s.drop_first(), cur.push(s[0]));
        }
    }
}

proof fn lemma_tally_append(m: Map<Seq<char>, nat>, a: Seq<Seq<char>>, b: Seq<Seq<char>>)
    ensures
        tally(m, a + b) == tally(tally(m, a), b),
    decreases b.len(),
{
    if b.len() == 0 {
        assert(a + b =~= a);
    } else {
        assert((a + b).drop_last() =~= a + b.drop_last());
        lemma_tally_append(m, a, b.drop_last());
    }
}

proof fn lemma_tally_single(m: Map<Seq<char>, nat>, w: Seq<char>)
    ensures
        tally(m, seq![w]) == tally_word(m, w),
{
    assert(seq![w].drop_last() =~= Seq::<Seq<char>>::empty());
    assert(tally(m, Seq::<Seq<char>>::empty()) == m);
    assert(seq![w].last() == w);
}

proof fn lemma_insert_at(s: Seq<Seq<char>>, w: Seq<char>, freq: Map<Seq<char>, nat>, k: int)
    requires
        0 <= k <= s.len(),
        forall|t: int| 0 <= t < k ==> count_of(freq, #[trigger] s[t]) >= count_of(freq, w),
        k < s.len() ==> count_of(freq, s[k]) < count_of(freq, w),
    ensures
        insert_by_count(s, w, freq) == s.insert(k, w),
    decreases k,
{
    if k == 0 {
        if s.len() == 0 {
            assert(s.insert(0, w) =~= seq![w]);
        } else {
            assert(s.insert(0, w) =~= seq![w] + s);
        }
    } else {
        let r = s.drop_first();
        assert forall|t: int| 0 <= t < k - 1 implies count_of(freq, #[trigger] r[t]) >= count_of(
            freq,
            w,
        ) by {
            assert(r[t] == s[t + 1]);
        }
        lemma_insert_at(r, w, freq, k - 1);
        assert(s.insert(k, w) =~= seq![s[0]] + r.insert(k - 1, w));
    }
}

/// Where `insert_by_count` places `w`: after the words recorded at least as
/// often, before the first recorded less often.
proof fn lemma_insert_shape(s: Seq<Seq<char>>, w: Seq<char>, freq: Map<Seq<char>, nat>) -> (k: int)
    ensures
        0 <= k <= s.len(),
        insert_by_count(s, w, freq) == s.insert(k, w),
        forall|t: int| 0 <= t < k ==> count_of(freq, #[trigger] s[t]) >= count_of(freq, w),
        k < s.len() ==> count_of(freq, s[k]) < count_of(freq, w),
    decreases s.len(),
{
    if s.len() == 0 {
        assert(s.insert(0, w) =~= seq![w]);
        0
    } else if count_of(freq, s[0]) < count_of(freq, w) {
        assert(s.insert(0, w) =~= seq![w] + s);
        0
    } else {
        let r = s.drop_first();
        let k1 = lemma_insert_shape(r, w, freq);
        assert(s.insert(k1 + 1, w) =~= seq![s[0]] + r.insert(k1, w));
        assert forall|t: int| 0 <= t < k1 + 1 implies count_of(freq, #[trigger] s[t]) >= count_of(
            freq,
            w,
        ) by {
            if t > 0 {
                assert(s[t] == r[t - 1]);
            }
        }
        if k1 < r.len() {
            assert(s[k1 + 1] == r[k1]);
        }
        k1 + 1
    }
}

/// Every word of `s` is recorded at least as often as every later word.
pub open spec fn sorted_by_count(s: Seq<Seq<char>>, freq: Map<Seq<char>, nat>) -> bool {
    forall|i: int, j: int|
        0 <= i < j < s.len() ==> count_of(freq, #[trigger] s[i]) >= count_of(freq, #[trigger] s[j])
}

/// Sorting by count keeps exactly the words it is given, each as often.
pub proof fn lemma_sort_permutes(s: Seq<Seq<char>>, freq: Map<Seq<char>, nat>)
    ensures
        sort_by_count(s, freq).to_multiset() == s.to_multiset(),
    decreases s.len(),
{
    broadcast use vstd::seq_lib::group_to_multiset_ensures;

    if s.len() > 0 {
        lemma_sort_permutes(s.drop_last(), freq);
        let k = lemma_insert_shape(sort_by_count(s.drop_last(), freq), s.last(), freq);
        assert(s =~= s.drop_last().push(s.last()));
    }
}

/// Sorting by count puts the most recorded words first.
pub proof fn lemma_sort_sorted(s: Seq<Seq<char>>, freq: Map<Seq<char>, nat>)
    ensures
        sorted_by_count(sort_by_count(s, freq), freq),
    decreases s.len(),
{
    if s.len() > 0 {
        let prev = sort_by_count(s.drop_last(), freq);
        lemma_sort_sorted(s.drop_last(), freq);
        let w = s.last();
        let k = lemma_insert_shape(prev, w, freq);
        let out = prev.insert(k, w);
        assert forall|i: int, j: int| 0 <= i < j < out.len() implies count_of(
            freq,
            #[trigger] out[i],
        ) >= count_of(freq, #[trigger] out[j]) by {
            if i < k && j < k {
                assert(out[i] == prev[i] && out[j] == prev[j]);
            } else if i < k && j == k {
                assert(out[i] == prev[i]);
            } else if i < k {
                assert(out[i] == prev[i] && out[j] == prev[j - 1]);
            } else if i == k {
                assert(out[j] == prev[j - 1]);
                assert(count_of(freq, prev[k]) < count_of(freq, w));
                if j - 1 > k {
                    assert(count_of(freq, prev[k]) >= count_of(freq, prev[j - 1]));
                }
            } else {
                assert(out[i] == prev[i - 1] && out[j] == prev[j - 1]);
            }
        }
    }
}

/// Every user word added matches the partial text; the given hints stay first.
proof fn lemma_user_hints_match(hints: Seq<Seq<char>>, user: Seq<Seq<char>>, lower: Seq<char>)
    requires
        forall|i: int| 0 <= i < hints.len() ==> matches_partial(#[trigger] hints[i], lower),
    ensures
        forall|i: int|
            0 <= i < add_user_hints(hints, user, lower).len() ==> matches_partial(
                #[trigger] add_user_hints(hints, user, lower)[i],
                lower,
            ),
    decreases user.len(),
{
    if user.len() > 0 {
        lemma_user_hints_match(hints, user.drop_last(), lower);
        let acc = add_user_hints(hints, user.drop_last(), lower);
        let res = add_user_hints(hints, user, lower);
        assert forall|i: int| 0 <= i < res.len() implies matches_partial(#[trigger] res[i], lower) by {
            if i < acc.len() {
                assert(res[i] == acc[i]);
            }
        }
    }
}

/// Every candidate hint matches the partial text.
proof fn lemma_candidates_match(d: DictionaryView, lower: Seq<char>)
    ensures
        forall|i: int|
            0 <= i < hint_candidates(d, lower).len() ==> matches_partial(
                #[trigger] hint_candidates(d, lower)[i],
                lower,
            ),
{
    let tech = if d.tech_vocab_enabled {
        tech_vocab().filter(hint_filter(lower))
    } else {
        Seq::<Seq<char>>::empty()
    };
    assert forall|i: int| 0 <= i < tech.len() implies matches_partial(#[trigger] tech[i], lower) by {
        if d.tech_vocab_enabled {
            tech_vocab().lemma_filter_pred(hint_filter(lower), i);
        }
    }
    lemma_user_hints_match(tech, d.user_vocab, lower);
}

/// The hints are at most `MAX_HINTS` candidates, most recorded first, and
/// each holds the partial text when both are lowercased.
pub proof fn lemma_hints_properties(d: DictionaryView, partial: Seq<char>)
    ensures
        hints_for(d, partial).len() <= MAX_HINTS,
        sorted_by_count(hints_for(d, partial), d.frequency),
        forall|i: int|
            0 <= i < hints_for(d, partial).len() ==> matches_partial(
                #[trigger] hints_for(d, partial)[i],
                lowercase(partial),
            ),
        forall|i: int|
            0 <= i < hints_for(d, partial).len() ==> hint_candidates(d, lowercase(partial)).contains(
                #[trigger] hints_for(d, partial)[i],
            ),
{
    broadcast use vstd::seq_lib::group_to_multiset_ensures;

    let lower = lowercase(partial);
    let cands = hint_candidates(d, lower);
    let sorted = sort_by_count(cands, d.frequency);
    lemma_sort_sorted(cands, d.frequency);
    lemma_sort_permutes(cands, d.frequency);
    lemma_candidates_match(d, lower);
    let h = hints_for(d, partial);
    assert forall|i: int| 0 <= i < h.len() implies cands.contains(#[trigger] h[i]) by {
        assert(h[i] == sorted[i]);
        assert(sorted.to_multiset().count(sorted[i]) > 0);
        assert(cands.to_multiset().count(sorted[i]) > 0);
    }
    assert forall|i: int| 0 <= i < h.len() implies matches_partial(#[trigger] h[i], lower) by {
        assert(cands.contains(h[i]));
        let j = choose|j: int| 0 <= j < cands.len() && cands[j] == h[i];
        assert(matches_partial(cands[j], lower));
    }
    assert forall|i: int, j: int| 0 <= i < j < h.len() implies count_of(
        d.frequency,
        #[trigger] h[i],
    ) >= count_of(d.frequency, #[trigger] h[j]) by {
        assert(h[i] == sorted[i] && h[j] == sorted[j]);
    }
}

proof fn lemma_filter_distinct(s: Seq<Seq<char>>, p: spec_fn(Seq<char>) -> bool)
    requires
        s.no_duplicates(),
    ensures
        s.filter(p).no_duplicates(),
    decreases s.len(),
{
    reveal(Seq::filter);
    if s.len() > 0 {
        let dl = s.drop_last();
        assert(dl.no_duplicates());
        lemma_filter_distinct(dl, p);
        if p(s.last()) {
            let f = dl.filter(p);
            if f.contains(s.last()) {
                dl.lemma_filter_contains_rev(p, s.last());
                let j = choose|j: int| 0 <= j < dl.len() && dl[j] == s.last();
                assert(s[j] == s[s.len() - 1]);
            }
            let out = f.push(s.last());
            assert forall|i: int, j: int|
                0 <= i < out.len() && 0 <= j < out.len() && i != j implies out[i] != out[j] by {
                if i < f.len() && j < f.len() {
                } else if i < f.len() {
                    assert(f.contains(out[i]));
                } else {
                    assert(f.contains(out[j]));
                }
            }
        }
    }
}

proof fn lemma_user_hints_distinct(hints: Seq<Seq<char>>, user: Seq<Seq<char>>, lower: Seq<char>)
    requires
        hints.no_duplicates(),
    ensures
        add_user_hints(hints, user, lower).no_duplicates(),
    decreases user.len(),
{
    if user.len() > 0 {
        lemma_user_hints_distinct(hints, user.drop_last(), lower);
        let acc = add_user_hints(hints, user.drop_last(), lower);
        let w = user.last();
        if matches_partial(w, lower) && !acc.contains(w) {
            let out = acc.push(w);
            assert forall|i: int, j: int|
                0 <= i < out.len() && 0 <= j < out.len() && i != j implies out[i] != out[j] by {
                if i < acc.len() && j < acc.len() {
                } else if i < acc.len() {
                    assert(acc.contains(out[i]));
                } else {
                    assert(acc.contains(out[j]));
                }
            }
        }
    }
}

/// No word is offered twice: user words already offered are skipped, and the
/// built-in words are distinct.
pub proof fn lemma_hints_distinct(d: DictionaryView, partial: Seq<char>)
    ensures
        hints_for(d, partial).no_duplicates(),
{
    broadcast use vstd::seq_lib::group_to_multiset_ensures;

    let lower = lowercase(partial);
    lemma_tech_vocab_distinct();
    lemma_filter_distinct(tech_vocab(), hint_filter(lower));
    let tech = if d.tech_vocab_enabled {
        tech_vocab().filter(hint_filter(lower))
    } else {
        Seq::<Seq<char>>::empty()
    };
    lemma_user_hints_distinct(tech, d.user_vocab, lower);
    let cands = hint_candidates(d, lower);
    let sorted = sort_by_count(cands, d.frequency);
    lemma_sort_permutes(cands, d.frequency);
    cands.lemma_multiset_has_no_duplicates();
    sorted.lemma_multiset_has_no_duplicates_conv();
    let h = hints_for(d, partial);
    assert forall|i: int, j: int|
        0 <= i < h.len() && 0 <= j < h.len() && i != j implies h[i] != h[j] by {
        assert(h[i] == sorted[i] && h[j] == sorted[j]);
    }
}

/// The hints are the most recorded candidates: all candidates are offered
/// when there are at most `MAX_HINTS`, else exactly `MAX_HINTS` are, and no
/// candidate left out is recorded more often than any hint offered.
pub proof fn lemma_hints_most_recorded(d: DictionaryView, partial: Seq<char>)
    ensures
        hints_for(d, partial).len() == if hint_candidates(d, lowercase(partial)).len()
            <= MAX_HINTS {
            hint_candidates(d, lowercase(partial)).len()
        } else {
            MAX_HINTS as nat
        },
        forall|w: Seq<char>, i: int|
            #![trigger hint_candidates(d, lowercase(partial)).contains(w), hints_for(d, partial)[i]]
            hint_candidates(d, lowercase(partial)).contains(w) && !hints_for(d, partial).contains(w)
                && 0 <= i < hints_for(d, partial).len() ==> count_of(
                d.frequency,
                hints_for(d, partial)[i],
            ) >= count_of(d.frequency, w),
        hint_candidates(d, lowercase(partial)).len() <= MAX_HINTS ==> forall|w: Seq<char>|
            #[trigger] hint_candidates(d, lowercase(partial)).contains(w) ==> hints_for(
                d,
                partial,
            ).contains(w),
{
    broadcast use vstd::seq_lib::group_to_multiset_ensures;

    let c = hint_candidates(d, lowercase(partial));
    let sorted = sort_by_count(c, d.frequency);
    let h = hints_for(d, partial);
    lemma_sort_sorted(c, d.frequency);
    lemma_sort_permutes(c, d.frequency);
    assert(sorted.len() == c.len()) by {
        assert(sorted.to_multiset().len() == c.to_multiset().len());
    }
    assert forall|w: Seq<char>| c.contains(w) implies sorted.contains(w) by {
        assert(c.to_multiset().count(w) > 0);
        assert(sorted.to_multiset().count(w) > 0);
    }
    assert forall|w: Seq<char>, i: int|
        #![trigger c.contains(w), h[i]]
        c.contains(w) && !h.contains(w) && 0 <= i < h.len() implies count_of(d.frequency, h[i])
            >= count_of(d.frequency, w) by {
        assert(sorted.contains(w));
        let j = choose|j: int| 0 <= j < sorted.len() && sorted[j] == w;
        assert(h[i] == sorted[i]);
        if j < h.len() {
            assert(h[j] == sorted[j]);
            assert(h.contains(w));
        }
    }
    if c.len() <= MAX_HINTS {
        assert(h == sorted);
        assert forall|w: Seq<char>| #[trigger] c.contains(w) implies h.contains(w) by {
            assert(sorted.contains(w));
        }
    }
}

/// Some word of `ws` cleans to `k` when `k` occurs in `ws`.
proof fn lemma_occurrence_witness(ws: Seq<Seq<char>>, k: Seq<char>) -> (i: int)
    requires
        occurrences(ws, k) > 0,
    ensures
        0 <= i < ws.len(),
        clean_word(ws[i]) == k,
    decreases ws.len(),
{
    if clean_word(ws.last()) == k {
        ws.len() - 1
    } else {
        let i = lemma_occurrence_witness(ws.drop_last(), k);
        assert(ws.drop_last()[i] == ws[i]);
        i
    }
}

/// Cleaning keeps exactly the alphanumeric characters, `-` and `_`: what
/// remains consists of them only, and a word made of them only is kept whole.
pub proof fn lemma_clean_word(w: Seq<char>)
    ensures
        forall|i: int|
            0 <= i < clean_word(w).len() ==> is_alphanumeric(#[trigger] clean_word(w)[i])
                || clean_word(w)[i] == '-' || clean_word(w)[i] == '_',
        (forall|i: int| 0 <= i < w.len() ==> is_alphanumeric(#[trigger] w[i]) || w[i] == '-' || w[i]
            == '_') ==> clean_word(w) == w,
        clean_word(w).len() <= w.len(),
    decreases w.len(),
{
    reveal(Seq::filter);
    let f = clean_word(w);
    assert forall|i: int| 0 <= i < f.len() implies is_alphanumeric(#[trigger] f[i]) || f[i] == '-'
        || f[i] == '_' by {
        w.lemma_filter_pred(word_char_filter(), i);
    }
    w.lemma_filter_len(word_char_filter());
    if w.len() > 0 {
        lemma_clean_word(w.drop_last());
        if forall|i: int| 0 <= i < w.len() ==> is_alphanumeric(#[trigger] w[i]) || w[i] == '-'
            || w[i] == '_' {
            assert forall|i: int| 0 <= i < w.drop_last().len() implies is_alphanumeric(
                #[trigger] w.drop_last()[i],
            ) || w.drop_last()[i] == '-' || w.drop_last()[i] == '_' by {
                assert(w.drop_last()[i] == w[i]);
            }
            assert(w[w.len() - 1] == w.last());
            assert(w.drop_last().push(w.last()) =~= w);
        }
    }
}

/// A count that recording changes belongs to a non-empty word of
/// alphanumeric characters, `-` and `_` only.
pub proof fn lemma_counted_words_clean(m: Map<Seq<char>, nat>, ws: Seq<Seq<char>>, k: Seq<char>)
    ensures
        count_of(tally(m, ws), k) != count_of(m, k) ==> k.len() > 0 && forall|i: int|
            0 <= i < k.len() ==> is_alphanumeric(#[trigger] k[i]) || k[i] == '-' || k[i] == '_',
{
    lemma_tally_counts(m, ws, k);
    if count_of(tally(m, ws), k) != count_of(m, k) {
        let j = lemma_occurrence_witness(ws, k);
        lemma_clean_word(ws[j]);
    }
}

/// The number of words in `ws` that clean to `k`.
pub open spec fn occurrences(ws: Seq<Seq<char>>, k: Seq<char>) -> nat
    decreases ws.len(),
{
    if ws.len() == 0 {
        0
    } else {
        occurrences(ws.drop_last(), k) + if clean_word(ws.last()) == k {
            1nat
        } else {
            0nat
        }
    }
}

/// Recording words raises the count of each non-empty cleaned word by the
/// number of words that clean to it, and changes no other count.
pub proof fn lemma_tally_counts(m: Map<Seq<char>, nat>, ws: Seq<Seq<char>>, k: Seq<char>)
    ensures
        k.len() > 0 ==> count_of(tally(m, ws), k) == count_of(m, k) + occurrences(ws, k),
        k.len() == 0 ==> count_of(tally(m, ws), k) == count_of(m, k),
    decreases ws.len(),
{
    if ws.len() > 0 {
        lemma_tally_counts(m, ws.drop_last(), k);
    }
}

/// Recording appends the text and drops at most the one oldest entry, so the
/// history stays within `max_history` entries once it is; the recorded text
/// becomes the newest entry unless no history is kept.
pub proof fn lemma_record_entry(entries: Seq<Seq<char>>, text: Seq<char>, max_history: nat)
    ensures
        record_entry(entries, text, max_history).len() == if entries.len() + 1 > max_history {
            entries.len()
        } else {
            entries.len() + 1
        },
        entries.len() <= max_history ==> record_entry(entries, text, max_history).len()
            <= max_history,
        max_history > 0 ==> record_entry(entries, text, max_history).last() == text,
        max_history == 0 ==> record_entry(entries, text, max_history).len() == entries.len(),
{
}

/// The built-in and user vocabularies with the history of recorded input.
pub struct DictionaryManager {
    user_vocab: Vec<String>,
    history: History,
    max_history: usize,
    tech_vocab_enabled: bool,
}

impl View for DictionaryManager {
    type V = DictionaryView;

    closed spec fn view(&self) -> DictionaryView {
        DictionaryView {
            user_vocab: strings_view(self.user_vocab@),
            tech_vocab_enabled: self.tech_vocab_enabled,
            max_history: self.max_history as nat,
            entries: self.history@.entries,
            frequency: self.history@.frequency,
        }
    }
}

/// Whether `w` is among the words of `v`.
fn contains_string(v: &Vec<String>, w: &String) -> (b: bool)
    ensures
        b == strings_view(v@).contains(w@),
{
    let mut i: usize = 0;
    while i < v.len()
        invariant
            i <= v@.len(),
            forall|j: int| 0 <= j < i ==> #[trigger] v@[j]@ != w@,
        decreases v@.len() - i,
    {
        if v[i] == *w {
            assert(strings_view(v@)[i as int] == w@);
            return true;
        }
        i = i + 1;
    }
    assert forall|j: int| 0 <= j < strings_view(v@).len() implies strings_view(v@)[j] != w@ by {
        assert(strings_view(v@)[j] == v@[j]@);
    }
    false
}

impl DictionaryManager {
    /// The history's counts table is well formed.
    pub closed spec fn wf(&self) -> bool {
        self.history.wf()
    }

    /// A dictionary with the given configuration over `history`.
    pub fn new(
        tech_vocab_enabled: bool,
        user_vocab: Vec<String>,
        max_history: usize,
        history: History,
    ) -> (d: DictionaryManager)
        requires
            history.wf(),
        ensures
            d.wf(),
            d@ == (DictionaryView {
                user_vocab: strings_view(user_vocab@),
                tech_vocab_enabled,
                max_history: max_history as nat,
                entries: history@.entries,
                frequency: history@.frequency,
            }),
    {
        DictionaryManager { user_vocab, history, max_history, tech_vocab_enabled }
    }

    /// The history this dictionary keeps.
    pub fn history(&self) -> (h: &History)
        requires
            self.wf(),
        ensures
            h.wf(),
            h@.entries == self@.entries,
            h@.frequency == self@.frequency,
    {
        &self.history
    }

    /// Whether recording `text` keeps every word count within `usize`.
    pub fn can_record(&self, text: &str) -> (b: bool)
        requires
            self.wf(),
        ensures
            b == tally_fits(self@.frequency, split_whitespace(text@)),
    {
        let ghost words = split_whitespace(text@);
        let n = chars_of(text).len();
        let mut occ = History::new();
        proof {
            lemma_split_len(text@, Seq::<char>::empty());
            assert forall|k: Seq<char>|
                k.len() > 0 && #[trigger] occurrences(words, k) > 0 implies count_of(
                occ@.frequency,
                k,
            ) + occurrences(words, k) <= usize::MAX by {
                lemma_occurrences_le_len(words, k);
            }
        }
        occ.tally_text(text);
        let pairs = &occ.frequency;
        let ghost table = tally(Map::<Seq<char>, nat>::empty(), words);
        assert(table_map(pairs@) == table);
        let mut i: usize = 0;
        while i < pairs.len()
            invariant
                self.wf(),
                i <= pairs@.len(),
                keys_unique(pairs@),
                table_map(pairs@) == table,
                table == tally(Map::<Seq<char>, nat>::empty(), words),
                words == split_whitespace(text@),
                forall|j: int|
                    0 <= j < i ==> count_of(self@.frequency, #[trigger] pairs@[j].0@) + pairs@[j].1
                        <= usize::MAX,
            decreases pairs@.len() - i,
        {
            let c = self.history.count(&pairs[i].0);
            if c > usize::MAX - pairs[i].1 {
                proof {
                    let k = pairs@[i as int].0@;
                    lemma_table_value(pairs@, i as int);
                    lemma_tally_counts(Map::<Seq<char>, nat>::empty(), words, k);
                    assert(table.contains_key(k));
                    assert(count_of(table, k) == pairs@[i as int].1);
                    if k.len() == 0 {
                        assert(pairs@[i as int].1 == 0);
                        assert(false);
                    }
                    assert(occurrences(words, k) == pairs@[i as int].1);
                    assert(count_of(self@.frequency, k) + occurrences(words, k) > usize::MAX);
                    assert(!tally_fits(self@.frequency, words));
                }
                return false;
            }
            i = i + 1;
        }
        proof {
            assert forall|k: Seq<char>|
                k.len() > 0 && #[trigger] occurrences(words, k) > 0 implies count_of(
                self@.frequency,
                k,
            ) + occurrences(words, k) <= usize::MAX by {
                lemma_tally_counts(Map::<Seq<char>, nat>::empty(), words, k);
                assert(table.contains_key(k));
                lemma_table_dom(pairs@, k);
                let j = choose|j: int| 0 <= j < pairs@.len() && #[trigger] pairs@[j].0@ == k;
                lemma_table_value(pairs@, j);
            }
        }
        true
    }

    /// Record a completed transcription for frequency tracking.
    pub fn record_input(&mut self, text: &str)
        requires
            old(self).wf(),
            tally_fits(old(self)@.frequency, split_whitespace(text@)),
        ensures
            final(self).wf(),
            final(self)@ == (DictionaryView {
                user_vocab: old(self)@.user_vocab,
                tech_vocab_enabled: old(self)@.tech_vocab_enabled,
                max_history: old(self)@.max_history,
                entries: record_entry(old(self)@.entries, text@, old(self)@.max_history),
                frequency: tally(old(self)@.frequency, split_whitespace(text@)),
            }),
    {
        let ghost old_entries = self.history.entries@;
        self.history.entries.push(String::from_str(text));
        assert(strings_view(self.history.entries@) =~= strings_view(old_entries).push(text@));
        if self.history.entries.len() > self.max_history {
            let ghost pushed = self.history.entries@;
            self.history.entries.remove(0);
            assert(strings_view(self.history.entries@) =~= strings_view(pushed).drop_first());
        }
        self.history.tally_text(text);
    }

    /// Where `fw` goes among `sorted`: after every word recorded at least
    /// `fw` times.
    fn insertion_point(&self, sorted: &Vec<String>, fw: usize) -> (k: usize)
        requires
            self.wf(),
        ensures
            k <= sorted@.len(),
            forall|t: int| 0 <= t < k ==> count_of(self@.frequency, #[trigger] sorted@[t]@) >= fw,
            k < sorted@.len() ==> count_of(self@.frequency, sorted@[k as int]@) < fw,
    {
        let mut k: usize = 0;
        while k < sorted.len()
            invariant
                self.wf(),
                k <= sorted@.len(),
                forall|t: int|
                    0 <= t < k ==> count_of(self@.frequency, #[trigger] sorted@[t]@) >= fw,
            decreases sorted@.len() - k,
        {
            if self.history.count(&sorted[k]) < fw {
                return k;
            }
            k = k + 1;
        }
        k
    }

    /// Return vocabulary hints relevant to the partial text.
    pub fn get_hints(&self, partial: &str) -> (hints: Vec<String>)
        requires
            self.wf(),
        ensures
            strings_view(hints@) == hints_for(self@, partial@),
    {
        let lower_s = to_lowercase(partial);
        let lower = chars_of(lower_s.as_str());
        let ghost lw = lowercase(partial@);
        let mut hints: Vec<String> = Vec::new();
        if self.tech_vocab_enabled {
            let words = tech_vocab_words();
            let mut i: usize = 0;
            while i < words.len()
                invariant
                    i <= words@.len(),
                    words@.len() == tech_vocab().len(),
                    forall|j: int| 0 <= j < words@.len() ==> #[trigger] words@[j]@ == tech_vocab()[j],
                    lower@ == lw,
                    strings_view(hints@) == tech_vocab().take(i as int).filter(hint_filter(lw)),
                decreases words@.len() - i,
            {
                let word = words[i];
                let lw_word = to_lowercase(word);
                let ok = contains_chars(&chars_of(lw_word.as_str()), &lower);
                proof {
                    reveal(Seq::filter);
                    assert(tech_vocab().take(i + 1).drop_last() =~= tech_vocab().take(i as int));
                    assert(tech_vocab().take(i + 1).last() == tech_vocab()[i as int]);
                }
                if ok {
                    hints.push(String::from_str(word));
                    assert(strings_view(hints@) =~= tech_vocab().take(i + 1).filter(hint_filter(lw)));
                } else {
                    assert(strings_view(hints@) =~= tech_vocab().take(i + 1).filter(hint_filter(lw)));
                }
                i = i + 1;
            }
            assert(tech_vocab().take(words@.len() as int) =~= tech_vocab());
        } else {
            assert(strings_view(hints@) =~= Seq::<Seq<char>>::empty());
        }
        let ghost tech_part = strings_view(hints@);
        let mut u: usize = 0;
        while u < self.user_vocab.len()
            invariant
                u <= self.user_vocab@.len(),
                lower@ == lw,
                strings_view(hints@) == add_user_hints(
                    tech_part,
                    strings_view(self.user_vocab@).take(u as int),
                    lw,
                ),
            decreases self.user_vocab@.len() - u,
        {
            let word = &self.user_vocab[u];
            let lw_word = to_lowercase(word.as_str());
            let ok = contains_chars(&chars_of(lw_word.as_str()), &lower);
            let ghost uv = strings_view(self.user_vocab@);
            proof {
                assert(uv.take(u + 1).drop_last() =~= uv.take(u as int));
                assert(uv.take(u + 1).last() == word@);
            }
            if ok && !contains_string(&hints, word) {
                hints.push(word.clone());
                assert(strings_view(hints@) =~= add_user_hints(tech_part, uv.take(u + 1), lw));
            }
            u = u + 1;
        }
        assert(strings_view(self.user_vocab@).take(self.user_vocab@.len() as int) =~= strings_view(
            self.user_vocab@,
        ));
        let ghost cands = strings_view(hints@);
        assert(cands == hint_candidates(self@, lw));
        // Sort by frequency, most recorded first, keeping the order of ties.
        let mut sorted: Vec<String> = Vec::new();
        let mut i: usize = 0;
        while i < hints.len()
            invariant
                self.wf(),
                i <= hints@.len(),
                strings_view(hints@) == cands,
                strings_view(sorted@) == sort_by_count(cands.take(i as int), self@.frequency),
            decreases hints@.len() - i,
        {
            let w = hints[i].clone();
            let fw = self.history.count(&w);
            let k = self.insertion_point(&sorted, fw);
            proof {
                let sv = strings_view(sorted@);
                assert forall|t: int| 0 <= t < k implies count_of(self@.frequency, #[trigger] sv[t])
                    >= count_of(self@.frequency, w@) by {
                    assert(sv[t] == sorted@[t]@);
                }
                lemma_insert_at(sv, w@, self@.frequency, k as int);
                assert(cands.take(i + 1).drop_last() =~= cands.take(i as int));
                assert(cands.take(i + 1).last() == w@);
            }
            let ghost before = sorted@;
            sorted.insert(k, w);
            assert(strings_view(sorted@) =~= strings_view(before).insert(k as int, w@));
            i = i + 1;
        }
        assert(cands.take(hints@.len() as int) =~= cands);
        sorted.truncate(MAX_HINTS);
        assert(strings_view(sorted@) =~= hints_for(self@, partial@));
        sorted
    }
}

} // verus!
