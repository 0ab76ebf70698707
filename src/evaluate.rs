//! Scoring of candidates and the three-way recommendation.
//!
//! Scores are whole thousandths: 0 is the worst score, `MAX_SCORE` the best.
use vstd::prelude::*;

use crate::scout::ScoutResult;
use crate::text::{append, chars_of, decimal, decimal_chars, string_of};

verus! {

/// The best possible score, standing for 1.0.
pub const MAX_SCORE: u32 = 1000;

/// Star counts above this add nothing more to the score.
pub const STAR_CAP: u64 = 500;

/// Fork counts above this add nothing more to the score.
pub const FORK_CAP: u64 = 100;

/// Points for a declared license.
pub const LICENSE_POINTS: u32 = 300;

/// What the evaluator advises for one candidate.
#[derive(Clone, Copy, Debug, PartialEq, Eq, Structural)]
pub enum Recommendation {
    /// Scored at or above the threshold: integrate without asking.
    Auto,
    /// Below the threshold but eligible: a person decides.
    Manual,
    /// Below the threshold and failing a hard eligibility check.
    Skip,
}

/// One candidate with its score, recommendation and the reasons for them.
pub struct EvalResult {
    pub candidate: ScoutResult,
    /// In thousandths, at most `MAX_SCORE`.
    pub score: u32,
    pub recommendation: Recommendation,
    pub reasons: Vec<String>,
}

pub open spec fn min_nat(a: nat, b: nat) -> nat {
    if a <= b { a } else { b }
}

/// Points for popularity by stars: one per star, up to `STAR_CAP`.
pub open spec fn stars_points(stars: u64) -> nat {
    min_nat(stars as nat, STAR_CAP as nat)
}

/// Points for popularity by forks: two per fork, up to `FORK_CAP` forks.
pub open spec fn forks_points(forks: u64) -> nat {
    2 * min_nat(forks as nat, FORK_CAP as nat)
}

pub open spec fn license_points(has_license: bool) -> nat {
    if has_license { LICENSE_POINTS as nat } else { 0 }
}

/// The score of a candidate: the sum of its signal points, clamped to `MAX_SCORE`.
pub open spec fn score_of(c: ScoutResult) -> nat {
    min_nat(
        stars_points(c.stars) + forks_points(c.forks) + license_points(c.has_license),
        MAX_SCORE as nat,
    )
}

/// A candidate is eligible when it has the fields a manifest requires.
pub open spec fn is_eligible(c: ScoutResult) -> bool {
    c.name@.len() > 0 && c.description@.len() > 0
}

/// `Auto` at or above the threshold; below it `Skip` for an ineligible candidate, else `Manual`.
pub open spec fn recommend(score: nat, min_score: nat, eligible: bool) -> Recommendation {
    if score >= min_score {
        Recommendation::Auto
    } else if !eligible {
        Recommendation::Skip
    } else {
        Recommendation::Manual
    }
}

/// The reasons given for a candidate's score, one line per signal,
/// and a last line when it is ineligible.
pub open spec fn reasons_of(c: ScoutResult) -> Seq<Seq<char>> {
    let base = seq![
        "stars +"@ + decimal(stars_points(c.stars)),
        "forks +"@ + decimal(forks_points(c.forks)),
        if c.has_license { "license +300"@ } else { "no license"@ },
    ];
    if is_eligible(c) {
        base
    } else {
        base.push("missing name or description"@)
    }
}

/// The candidates agree on every input of the score and the recommendation.
pub open spec fn same_signals(a: ScoutResult, b: ScoutResult) -> bool {
    &&& a.stars == b.stars
    &&& a.forks == b.forks
    &&& a.has_license == b.has_license
    &&& is_eligible(a) == is_eligible(b)
}

/// The views of a list of strings.
pub open spec fn string_views(v: Seq<String>) -> Seq<Seq<char>> {
    v.map_values(|s: String| s@)
}

/// Scores candidates against a fixed threshold.
pub struct Evaluator {
    /// Threshold in thousandths; a score equal to it is `Auto`.
    pub min_score: u32,
}

/// Builds `prefix` followed by the decimal numeral of `n`.
fn labelled_number(prefix: &str, n: u64) -> (r: String)
    ensures
        r@ == prefix@ + decimal(n as nat),
{
    let mut cs = chars_of(prefix);
    let digits = decimal_chars(n);
    append(&mut cs, &digits);
    string_of(&cs)
}

impl Evaluator {
    pub fn new(min_score: u32) -> (r: Evaluator)
        ensures
            r.min_score == min_score,
    {
        Evaluator { min_score }
    }

    /// The score of `c` (see `score_of`).
    pub fn score(c: &ScoutResult) -> (r: u32)
        ensures
            r as nat == score_of(*c),
            r <= MAX_SCORE,
    {
        let stars: u64 = if c.stars < STAR_CAP { c.stars } else { STAR_CAP };
        let forks: u64 = if c.forks < FORK_CAP { c.forks } else { FORK_CAP };
        let license: u32 = if c.has_license { LICENSE_POINTS } else { 0 };
        let total: u32 = stars as u32 + 2 * (forks as u32) + license;
        if total < MAX_SCORE { total } else { MAX_SCORE }
    }

    /// Scores `c` and recommends what to do with it; pure and deterministic.
    pub fn evaluate(&self, c: ScoutResult) -> (r: EvalResult)
        ensures
            r.candidate == c,
            r.score as nat == score_of(c),
            r.recommendation == recommend(score_of(c), self.min_score as nat, is_eligible(c)),
            string_views(r.reasons@) == reasons_of(c),
    {
        let score = Evaluator::score(&c);
        let eligible = !c.name.as_str().is_empty() && !c.description.as_str().is_empty();
        let recommendation = if score >= self.min_score {
            Recommendation::Auto
        } else if !eligible {
            Recommendation::Skip
        } else {
            Recommendation::Manual
        };
        let stars: u64 = if c.stars < STAR_CAP { c.stars } else { STAR_CAP };
        let forks: u64 = if c.forks < FORK_CAP { c.forks } else { FORK_CAP };
        let mut reasons: Vec<String> = Vec::new();
        reasons.push(labelled_number("stars +", stars));
        reasons.push(labelled_number("forks +", 2 * forks));
        if c.has_license {
            reasons.push("license +300".to_owned());
        } else {
            reasons.push("no license".to_owned());
        }
        if !eligible {
            reasons.push("missing name or description".to_owned());
        }
        proof {
            reveal_strlit("license +300");
            reveal_strlit("no license");
            reveal_strlit("missing name or description");
        }
        assert(string_views(reasons@) =~= reasons_of(c));
        EvalResult { candidate: c, score, recommendation, reasons }
    }
}

/// Evaluation depends on the score inputs alone: candidates that agree on
/// them get the same score, recommendation and reasons.
pub proof fn lemma_evaluate_deterministic(min_score: nat, a: ScoutResult, b: ScoutResult)
    requires
        same_signals(a, b),
    ensures
        score_of(a) == score_of(b),
        recommend(score_of(a), min_score, is_eligible(a)) == recommend(
            score_of(b),
            min_score,
            is_eligible(b),
        ),
        reasons_of(a) == reasons_of(b),
{
}

/// Improving a signal never lowers the score: more stars, more forks, or
/// gaining a license, with the rest no worse.
pub proof fn lemma_score_monotone(a: ScoutResult, b: ScoutResult)
    requires
        a.stars <= b.stars,
        a.forks <= b.forks,
        a.has_license ==> b.has_license,
    ensures
        score_of(a) <= score_of(b),
{
}

} // verus!
