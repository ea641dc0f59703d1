//! Vectors, strings and hash maps.
use vstd::prelude::*;
use vstd::string::StringExecFns;
use std::collections::HashMap;
use vstd::utf8::{encode_utf8, encode_utf8_decode_utf8};

verus! {

/// A vector grows by pushing values onto its end.
pub fn vector_update() {
    let mut v: Vec<i32> = Vec::new();
    v.push(5);
    v.push(6);
    v.push(7);
    v.push(8);
    assert(v@ == seq![5i32, 6, 7, 8]);
}

/// A value read from a vector is copied out before the vector grows.
pub fn enforces_ownership() {
    let mut v: Vec<i32> = vec![1, 2, 3, 4, 5];
    let first = v[0];
    v.push(6);
    assert(first == 1 && v@.len() == 6);
}

/// Adds `n` to each element of `v` in place.
pub fn add_to_each(v: &mut Vec<i32>, n: i32)
    requires
        forall|i: int| 0 <= i < old(v)@.len() ==> i32::MIN <= #[trigger] old(v)@[i] + n <= i32::MAX,
    ensures
        final(v)@.len() == old(v)@.len(),
        forall|i: int| 0 <= i < old(v)@.len() ==> final(v)@[i] == old(v)@[i] + n,
{
    let mut i: usize = 0;
    while i < v.len()
        invariant
            i <= v@.len() == old(v)@.len(),
            forall|j: int|
                0 <= j < old(v)@.len() ==> i32::MIN <= #[trigger] old(v)@[j] + n <= i32::MAX,
            forall|j: int| 0 <= j < i ==> v@[j] == old(v)@[j] + n,
            forall|j: int| i <= j < v@.len() ==> v@[j] == old(v)@[j],
        decreases v@.len() - i,
    {
        let x = v[i];
        v.set(i, x + n);
        i = i + 1;
    }
}

/// Appending one string to another moves the first and borrows the second.
pub fn concat_string() {
    let s1 = String::from_str("Hello, ");
    let s2 = String::from_str("World!");
    let ghost first = s1@;
    let s3 = s1.concat(s2.as_str());
    assert(s3@ == first + s2@);
}

/// Strings hold UTF-8 text, whatever its script.
pub fn internal_rep() {
    let hello = String::from_str("Hola");
    let hello = String::from_str("Здравствуйте");
}

/// A map from team names to scores, filled by inserting.
pub fn create() {
    let mut scores: HashMap<String, i32> = HashMap::new();
    scores.insert(String::from_str("Blue"), 10);
    scores.insert(String::from_str("Yellow"), 50);
}

/// A map built from a list of keys and a list of values taken in pairs.
pub fn itr_collect() {
    let mut teams: Vec<String> = vec![String::from_str("Blue"), String::from_str("Yellow")];
    let mut initial_scores: Vec<i32> = vec![10, 50];
    let mut scores: HashMap<String, i32> = HashMap::new();
    while teams.len() > 0 && initial_scores.len() > 0
        decreases teams@.len(),
    {
        let team = teams.remove(0);
        let score = initial_scores.remove(0);
        scores.insert(team, score);
    }
}

/// Inserting owned strings moves them into the map.
pub fn ownership() {
    let field_name = String::from_str("Fav color");
    let field_value = String::from_str("Blue");
    let mut map: HashMap<String, String> = HashMap::new();
    map.insert(field_name, field_value);
}


/// The words of `text` as `str::split_whitespace` finds them, in order.
pub uninterp spec fn whitespace_words(text: Seq<char>) -> Seq<Seq<char>>;

/// Relies on `str::split_whitespace`: the words of `text`, split at
/// Unicode white space, depend on the text alone.
#[verifier::external_body]
fn split_words<'a>(text: &'a str) -> (r: Vec<&'a str>)
    ensures
        r@.map_values(|w: &'a str| w@) == whitespace_words(text@),
{
    text.split_whitespace().collect()
}

/// How many entries of `words` equal `w`.
pub open spec fn occurrences(words: Seq<Seq<char>>, w: Seq<char>) -> nat
    decreases words.len(),
{
    if words.len() == 0 {
        0
    } else {
        occurrences(words.drop_last(), w) + if words.last() == w {
            1nat
        } else {
            0nat
        }
    }
}

/// The distinct entries of `words`, in the order of their first appearance.
pub open spec fn distinct(words: Seq<Seq<char>>) -> Seq<Seq<char>>
    decreases words.len(),
{
    if words.len() == 0 {
        Seq::empty()
    } else if distinct(words.drop_last()).contains(words.last()) {
        distinct(words.drop_last())
    } else {
        distinct(words.drop_last()).push(words.last())
    }
}

/// `counts` pairs each distinct word of `words`, in the order of first
/// appearance, with the number of times it occurs.
pub open spec fn is_word_count<'a>(words: Seq<Seq<char>>, counts: Seq<(&'a str, usize)>) -> bool {
    &&& counts.map_values(|p: (&'a str, usize)| p.0@) == distinct(words)
    &&& forall|j: int|
        0 <= j < counts.len() ==> #[trigger] counts[j].1 == occurrences(words, counts[j].0@)
}

/// Whether `a` and `b` hold the same text.
pub fn same_text(a: &str, b: &str) -> (r: bool)
    ensures
        r == (a@ == b@),
{
    let x = a.as_bytes();
    let y = b.as_bytes();
    proof {
        encode_utf8_decode_utf8(a@);
        encode_utf8_decode_utf8(b@);
    }
    if x.len() != y.len() {
        return false;
    }
    let mut i: usize = 0;
    while i < x.len()
        invariant
            x@ == encode_utf8(a@),
            y@ == encode_utf8(b@),
            x@.len() == y@.len(),
            i <= x@.len(),
            forall|k: int| 0 <= k < i ==> x@[k] == y@[k],
        decreases x@.len() - i,
    {
        if x[i] != y[i] {
            return false;
        }
        i = i + 1;
    }
    assert(x@ =~= y@);
    true
}

/// The index of the entry of `counts` whose word is `word`, or the length
/// of `counts` when there is none.
fn find_key<'a>(counts: &Vec<(&'a str, usize)>, word: &str) -> (r: usize)
    ensures
        r <= counts@.len(),
        forall|m: int| 0 <= m < r ==> counts@[m].0@ != word@,
        r < counts@.len() ==> counts@[r as int].0@ == word@,
{
    let mut j: usize = 0;
    while j < counts.len()
        invariant
            j <= counts@.len(),
            forall|m: int| 0 <= m < j ==> counts@[m].0@ != word@,
        decreases counts@.len() - j,
    {
        if same_text(counts[j].0, word) {
            return j;
        }
        j = j + 1;
    }
    j
}

/// Counts the words of `words`: each distinct word once, in the order of
/// its first appearance, with how often it occurs.
pub fn count_words<'a>(words: &Vec<&'a str>) -> (r: Vec<(&'a str, usize)>)
    ensures
        is_word_count(words@.map_values(|w: &'a str| w@), r@),
{
    let ghost all = words@.map_values(|w: &'a str| w@);
    let mut counts: Vec<(&'a str, usize)> = Vec::new();
    proof {
        assert(all.subrange(0, 0) =~= Seq::<Seq<char>>::empty());
        assert(counts@.map_values(|p: (&'a str, usize)| p.0@) =~= Seq::<Seq<char>>::empty());
    }
    let mut i: usize = 0;
    while i < words.len()
        invariant
            i <= words@.len(),
            all == words@.map_values(|w: &'a str| w@),
            is_word_count(all.subrange(0, i as int), counts@),
        decreases words@.len() - i,
    {
        let word = words[i];
        let ghost before = all.subrange(0, i as int);
        let ghost after = all.subrange(0, i as int + 1);
        let ghost keys = counts@.map_values(|p: (&'a str, usize)| p.0@);
        proof {
            assert(after.drop_last() =~= before);
            assert(after.last() == word@);
            assert forall|k: Seq<char>| occurrences(after, k) == occurrences(before, k) + if k
                == word@ {
                1nat
            } else {
                0nat
            } by {}
        }
        let j = find_key(&counts, word);
        if j < counts.len() {
            assert(keys[j as int] == word@);
            assert(distinct(before).contains(word@));
            assert(counts@[j as int].1 == occurrences(before, word@));
            assert(occurrences(before, word@) <= before.len()) by {
                lemma_occurrences_bounded(before, word@);
            }
            let ghost old_counts = counts@;
            let (w, c) = counts[j];
            counts.set(j, (w, c + 1));
            proof {
                assert(counts@.map_values(|p: (&'a str, usize)| p.0@) =~= keys);
                lemma_distinct_unique(before);
                assert forall|m: int| 0 <= m < counts@.len() implies #[trigger] counts@[m].1
                    == occurrences(after, counts@[m].0@) by {
                    if m != j {
                        assert(keys[m] != keys[j as int]);
                        assert(counts@[m] == old_counts[m]);
                    }
                }
            }
        } else {
            assert(!distinct(before).contains(word@)) by {
                if distinct(before).contains(word@) {
                    let m = choose|m: int| 0 <= m < keys.len() && keys[m] == word@;
                }
            }
            let ghost old_counts = counts@;
            counts.push((word, 1));
            proof {
                assert(counts@.map_values(|p: (&'a str, usize)| p.0@) =~= keys.push(word@));
                lemma_occurrences_absent(before, word@);
                assert forall|m: int| 0 <= m < counts@.len() implies #[trigger] counts@[m].1
                    == occurrences(after, counts@[m].0@) by {
                    if m < old_counts.len() {
                        assert(counts@[m] == old_counts[m]);
                        assert(keys[m] == old_counts[m].0@);
                    }
                }
            }
        }
        i = i + 1;
    }
    proof {
        assert(all.subrange(0, i as int) =~= all);
    }
    counts
}

/// A word occurs no more often than there are words.
proof fn lemma_occurrences_bounded(words: Seq<Seq<char>>, w: Seq<char>)
    ensures
        occurrences(words, w) <= words.len(),
    decreases words.len(),
{
    if words.len() > 0 {
        lemma_occurrences_bounded(words.drop_last(), w);
    }
}

/// The distinct words hold no word twice.
proof fn lemma_distinct_unique(words: Seq<Seq<char>>)
    ensures
        distinct(words).no_duplicates(),
    decreases words.len(),
{
    if words.len() > 0 {
        lemma_distinct_unique(words.drop_last());
        let d = distinct(words.drop_last());
        if !d.contains(words.last()) {
            let e = d.push(words.last());
            assert forall|a: int, b: int| 0 <= a < e.len() && 0 <= b < e.len() && a != b implies e[a]
                != e[b] by {
                if a < d.len() && b < d.len() {
                    assert(e[a] == d[a] && e[b] == d[b]);
                } else if a < d.len() {
                    assert(e[a] == d[a]);
                } else {
                    assert(e[b] == d[b]);
                }
            }
        }
    }
}

/// A word missing from the distinct words does not occur at all.
proof fn lemma_occurrences_absent(words: Seq<Seq<char>>, w: Seq<char>)
    requires
        !distinct(words).contains(w),
    ensures
        occurrences(words, w) == 0,
    decreases words.len(),
{
    if words.len() > 0 {
        let d = distinct(words.drop_last());
        if !d.contains(words.last()) {
            assert(d.push(words.last()).last() == words.last());
            assert forall|k: int| 0 <= k < d.len() implies d[k] != w by {
                assert(d.push(words.last())[k] == d[k]);
            }
        }
        lemma_occurrences_absent(words.drop_last(), w);
    }
}

/// Counts the words of `text`, split at white space: each distinct word
/// once, in the order of its first appearance, with how often it occurs.
pub fn word_counts<'a>(text: &'a str) -> (r: Vec<(&'a str, usize)>)
    ensures
        is_word_count(whitespace_words(text@), r@),
{
    let words = split_words(text);
    count_words(&words)
}

} // verus!
