//! Discovery sources, the candidate record they produce, and the
//! de-duplication of candidates by canonical URL.
use vstd::prelude::*;

use crate::text::{chars_of, lower_char, lower_seq, same_chars, to_lower, to_lower_char};

verus! {

/// One discovered skill, not yet vetted.
pub struct ScoutResult {
    /// Human-readable name; not guaranteed unique.
    pub name: String,
    /// Locator of the skill; its normalized form is the de-duplication key.
    pub url: String,
    /// Free-text description; a candidate without one cannot be integrated.
    pub description: String,
    /// Popularity signal: stars or likes on the source.
    pub stars: u64,
    /// Popularity signal: forks or copies on the source.
    pub forks: u64,
    /// Whether the source declares a license.
    pub has_license: bool,
}

/// The known discovery sources, plus an arm for names that match none of them.
#[derive(Clone, Copy, Debug, PartialEq, Eq, Structural)]
pub enum ScoutSource {
    GitHub,
    ClawHub,
    HuggingFace,
    Unknown,
}

/// The source a configured name stands for, compared without regard to ASCII case.
pub open spec fn source_of(name: Seq<char>) -> ScoutSource {
    let n = lower_seq(name);
    if n == seq!['g', 'i', 't', 'h', 'u', 'b'] {
        ScoutSource::GitHub
    } else if n == seq!['c', 'l', 'a', 'w', 'h', 'u', 'b'] {
        ScoutSource::ClawHub
    } else if n == seq!['h', 'u', 'g', 'g', 'i', 'n', 'g', 'f', 'a', 'c', 'e'] || n == seq!['h', 'f'] {
        ScoutSource::HuggingFace
    } else {
        ScoutSource::Unknown
    }
}

impl ScoutSource {
    /// Maps a configured source name to a source; never fails.
    pub fn parse(name: &str) -> (r: ScoutSource)
        ensures
            r == source_of(name@),
    {
        let n = to_lower(&chars_of(name));
        let github: Vec<char> = vec!['g', 'i', 't', 'h', 'u', 'b'];
        let clawhub: Vec<char> = vec!['c', 'l', 'a', 'w', 'h', 'u', 'b'];
        let huggingface: Vec<char> = vec!['h', 'u', 'g', 'g', 'i', 'n', 'g', 'f', 'a', 'c', 'e'];
        let hf: Vec<char> = vec!['h', 'f'];
        proof {
            assert(github@ =~= seq!['g', 'i', 't', 'h', 'u', 'b']);
            assert(clawhub@ =~= seq!['c', 'l', 'a', 'w', 'h', 'u', 'b']);
            assert(huggingface@ =~= seq!['h', 'u', 'g', 'g', 'i', 'n', 'g', 'f', 'a', 'c', 'e']);
            assert(hf@ =~= seq!['h', 'f']);
        }
        if same_chars(&n, &github) {
            ScoutSource::GitHub
        } else if same_chars(&n, &clawhub) {
            ScoutSource::ClawHub
        } else if same_chars(&n, &huggingface) || same_chars(&n, &hf) {
            ScoutSource::HuggingFace
        } else {
            ScoutSource::Unknown
        }
    }

    /// Whether an adapter exists for this source; the others are skipped.
    pub fn is_implemented(&self) -> (r: bool)
        ensures
            r == (*self == ScoutSource::GitHub),
    {
        match self {
            ScoutSource::GitHub => true,
            _ => false,
        }
    }
}

/// The failure of one adapter call, reported with the source it came from.
pub struct SourceError {
    pub source: String,
    pub message: String,
}

/// `s` without any trailing `/`.
pub open spec fn strip_trailing_slashes(s: Seq<char>) -> Seq<char>
    decreases s.len(),
{
    if s.len() > 0 && s.last() == '/' {
        strip_trailing_slashes(s.drop_last())
    } else {
        s
    }
}

/// No `:` occurs in `s` up to and including position `i`.
pub open spec fn before_colon(s: Seq<char>, i: int) -> bool {
    forall|j: int| 0 <= j <= i ==> s[j] != ':'
}

/// `s` with the characters before its first `:` (the scheme) lower-cased.
pub open spec fn lower_scheme(s: Seq<char>) -> Seq<char> {
    Seq::new(s.len(), |i: int| if before_colon(s, i) { lower_char(s[i]) } else { s[i] })
}

/// The canonical form of a locator: trailing slashes removed, scheme lower-cased.
pub open spec fn normalize_url(s: Seq<char>) -> Seq<char> {
    lower_scheme(strip_trailing_slashes(s))
}

/// The de-duplication key of a candidate.
pub open spec fn url_key(c: ScoutResult) -> Seq<char> {
    normalize_url(c.url@)
}

proof fn lemma_strip_prefix(s: Seq<char>, k: int)
    requires
        0 <= k <= s.len(),
        forall|j: int| k <= j < s.len() ==> s[j] == '/',
    ensures
        strip_trailing_slashes(s) == strip_trailing_slashes(s.take(k)),
    decreases s.len() - k,
{
    if k < s.len() {
        assert(s.drop_last() =~= s.take(s.len() - 1));
        lemma_strip_prefix(s.drop_last(), k);
        assert(s.drop_last().take(k) =~= s.take(k));
    } else {
        assert(s.take(k) =~= s);
    }
}

/// The canonical form of `url` (see `normalize_url`).
pub fn normalized_url(url: &str) -> (r: Vec<char>)
    ensures
        r@ == normalize_url(url@),
{
    let s = chars_of(url);
    let mut k: usize = s.len();
    while k > 0 && s[k - 1] == '/'
        invariant
            k <= s.len(),
            forall|j: int| k <= j < s.len() ==> s@[j] == '/',
        decreases k,
    {
        k = k - 1;
    }
    proof {
        lemma_strip_prefix(s@, k as int);
        assert(!(s@.take(k as int).len() > 0 && s@.take(k as int).last() == '/'));
    }
    let ghost t = s@.take(k as int);
    let mut r: Vec<char> = Vec::new();
    let mut in_scheme = true;
    let mut i: usize = 0;
    while i < k
        invariant
            k <= s.len(),
            t == s@.take(k as int),
            i <= k,
            in_scheme == (forall|j: int| 0 <= j < i ==> t[j] != ':'),
            r@ =~= lower_scheme(t).take(i as int),
        decreases k - i,
    {
        let c = s[i];
        assert(t[i as int] == c);
        if c == ':' {
            in_scheme = false;
        }
        if in_scheme {
            r.push(to_lower_char(c));
        } else {
            r.push(c);
        }
        i = i + 1;
        assert(r@ =~= lower_scheme(t).take(i as int));
    }
    assert(lower_scheme(t).take(k as int) =~= lower_scheme(t));
    r
}

/// The candidates of `s` whose key no earlier candidate has, in their order.
pub open spec fn dedup_seq(s: Seq<ScoutResult>) -> Seq<ScoutResult>
    decreases s.len(),
{
    if s.len() == 0 {
        s
    } else {
        let kept = dedup_seq(s.drop_last());
        if kept.map_values(|c: ScoutResult| url_key(c)).contains(url_key(s.last())) {
            kept
        } else {
            kept.push(s.last())
        }
    }
}

/// After de-duplication no two candidates share a normalized URL.
pub proof fn lemma_dedup_distinct(s: Seq<ScoutResult>)
    ensures
        forall|i: int, j: int|
            0 <= i < j < dedup_seq(s).len() ==> url_key(#[trigger] dedup_seq(s)[i]) != url_key(
                #[trigger] dedup_seq(s)[j],
            ),
    decreases s.len(),
{
    if s.len() > 0 {
        lemma_dedup_distinct(s.drop_last());
        let kept = dedup_seq(s.drop_last());
        let keys = kept.map_values(|c: ScoutResult| url_key(c));
        if !keys.contains(url_key(s.last())) {
            let d = kept.push(s.last());
            assert forall|i: int, j: int| 0 <= i < j < d.len() implies url_key(d[i]) != url_key(
                d[j],
            ) by {
                if j == kept.len() {
                    assert(keys[i] == url_key(kept[i]));
                } else {
                    assert(d[i] == kept[i] && d[j] == kept[j]);
                }
            }
        }
    }
}

/// Whether one of the keys in `seen` equals `k`.
fn seen_contains(seen: &Vec<Vec<char>>, k: &Vec<char>) -> (r: bool)
    ensures
        r == exists|j: int| 0 <= j < seen.len() && (#[trigger] seen@[j])@ == k@,
{
    let mut i: usize = 0;
    while i < seen.len()
        invariant
            i <= seen.len(),
            forall|j: int| 0 <= j < i ==> (#[trigger] seen@[j])@ != k@,
        decreases seen.len() - i,
    {
        if same_chars(&seen[i], k) {
            assert(seen@[i as int]@ == k@);
            return true;
        }
        i = i + 1;
    }
    false
}

/// Removes, in place, every candidate whose normalized URL an earlier one has;
/// the first candidate for each URL stays, and the order is kept.
pub fn dedup(candidates: &mut Vec<ScoutResult>)
    ensures
        final(candidates)@ == dedup_seq(old(candidates)@),
{
    let ghost orig = candidates@;
    let mut out: Vec<ScoutResult> = Vec::new();
    let mut seen: Vec<Vec<char>> = Vec::new();
    let ghost mut n: int = 0;
    assert(orig.take(0) =~= Seq::<ScoutResult>::empty());
    assert(orig.skip(0) =~= orig);
    while candidates.len() > 0
        invariant
            0 <= n <= orig.len(),
            candidates@ == orig.skip(n),
            out@ == dedup_seq(orig.take(n)),
            seen.len() == out.len(),
            forall|j: int| 0 <= j < seen.len() ==> (#[trigger] seen@[j])@ == url_key(out@[j]),
        decreases candidates.len(),
    {
        let c = candidates.remove(0);
        let k = normalized_url(c.url.as_str());
        let ghost prefix = orig.take(n + 1);
        proof {
            assert(prefix.drop_last() =~= orig.take(n));
            assert(prefix.last() == c);
            assert(candidates@ =~= orig.skip(n + 1));
        }
        let ghost keys = out@.map_values(|x: ScoutResult| url_key(x));
        if seen_contains(&seen, &k) {
            proof {
                let j = choose|j: int| 0 <= j < seen.len() && (#[trigger] seen@[j])@ == k@;
                assert(keys[j] == url_key(c));
            }
        } else {
            let ghost seen0 = seen@;
            proof {
                assert(!keys.contains(url_key(c))) by {
                    if keys.contains(url_key(c)) {
                        let j = choose|j: int| 0 <= j < keys.len() && keys[j] == url_key(c);
                        assert(seen@[j]@ == k@);
                    }
                }
            }
            seen.push(k);
            out.push(c);
            proof {
                assert forall|j: int| 0 <= j < seen.len() implies (#[trigger] seen@[j])@ == url_key(
                    out@[j],
                ) by {
                    if j < seen.len() - 1 {
                        assert(seen@[j] == seen0[j]);
                    }
                }
            }
        }
        proof {
            n = n + 1;
        }
    }
    assert(orig.take(n) =~= orig);
    *candidates = out;
}

} // verus!
