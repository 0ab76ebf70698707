//! The discovery pipeline: gather what the sources found, de-duplicate,
//! evaluate every unique candidate once, and prepare the integration of the
//! `Auto` ones. The caller runs the adapters, writes the manifests, and hands
//! back which writes succeeded; the report counts only those.
use vstd::prelude::*;

use crate::evaluate::{
    is_eligible, reasons_of, recommend, score_of, string_views, EvalResult, Evaluator,
    Recommendation, MAX_SCORE,
};
use crate::integrate::{integration_fits, IntegrationError, Integrator, Manifest};
use crate::notification::SystemNotifier;
use crate::scout::{dedup, dedup_seq, source_of, ScoutResult, ScoutSource, SourceError};

verus! {

/// Settings of the pipeline, already loaded and parsed by the caller.
pub struct SkillForgeConfig {
    pub enabled: bool,
    /// Whether `Auto` candidates are integrated; when off they count as manual review.
    pub auto_integrate: bool,
    pub scan_interval_hours: u64,
    /// Threshold in thousandths, at most `MAX_SCORE`.
    pub min_score: u32,
    /// Source names in priority order: an earlier source wins among duplicates.
    pub sources: Vec<String>,
    pub output_dir: String,
    pub github_token: Option<String>,
}

impl Default for SkillForgeConfig {
    fn default() -> (r: SkillForgeConfig)
        ensures
            !r.enabled,
            r.auto_integrate,
            r.scan_interval_hours == 24,
            r.min_score == 700,
            r.sources@.len() == 2,
            r.sources@[0]@ == "github"@,
            r.sources@[1]@ == "clawhub"@,
            r.output_dir@ == "skills"@,
            r.github_token is None,
    {
        SkillForgeConfig {
            enabled: false,
            auto_integrate: true,
            scan_interval_hours: 24,
            min_score: 700,
            sources: vec!["github".to_owned(), "clawhub".to_owned()],
            output_dir: "skills".to_owned(),
            github_token: None,
        }
    }
}

/// A configuration that cannot be run; the run stops before any stage.
#[derive(Clone, Copy, Debug, PartialEq, Eq, Structural)]
pub enum ConfigurationError {
    /// `min_score` is above `MAX_SCORE`.
    MinScoreOutOfRange,
    /// No output directory is configured.
    EmptyOutputDir,
}

/// Summary of one pipeline run.
pub struct ForgeReport {
    pub discovered: usize,
    pub evaluated: usize,
    pub auto_integrated: usize,
    pub manual_review: usize,
    pub skipped: usize,
    /// One per unique candidate, in evaluation order.
    pub results: Vec<EvalResult>,
}

/// The integration prepared for one `Auto` result.
pub struct IntegrationJob {
    /// Position of the result in `ForgePlan::results`.
    pub result_index: usize,
    /// The manifest to write, or why the candidate cannot be integrated.
    pub outcome: Result<Manifest, IntegrationError>,
}

/// Everything decided by a run before the manifests are written.
pub struct ForgePlan {
    pub auto_integrate: bool,
    pub output_dir: String,
    pub results: Vec<EvalResult>,
    /// One per `Auto` result, in order, when auto-integration is on; none otherwise.
    pub jobs: Vec<IntegrationJob>,
    pub manual_review: usize,
    pub skipped: usize,
}

/// How many results carry recommendation `rec`.
pub open spec fn count_of(rs: Seq<EvalResult>, rec: Recommendation) -> nat
    decreases rs.len(),
{
    if rs.len() == 0 {
        0
    } else {
        count_of(rs.drop_last(), rec) + if rs.last().recommendation == rec {
            1nat
        } else {
            0nat
        }
    }
}

/// The directory names of the jobs whose manifest was prepared, in order.
pub open spec fn ok_names(js: Seq<IntegrationJob>) -> Seq<Seq<char>>
    decreases js.len(),
{
    if js.len() == 0 {
        Seq::empty()
    } else {
        let prev = ok_names(js.drop_last());
        match js.last().outcome {
            Ok(m) => prev.push(m.dir_name@),
            Err(_) => prev,
        }
    }
}

/// Whether job `k` had a manifest and the caller reported it written.
pub open spec fn is_confirmed(js: Seq<IntegrationJob>, written: Seq<bool>, k: int) -> bool {
    js[k].outcome is Ok && k < written.len() && written[k]
}

/// How many jobs were confirmed.
pub open spec fn confirmed_count(js: Seq<IntegrationJob>, written: Seq<bool>) -> nat
    decreases js.len(),
{
    if js.len() == 0 {
        0
    } else {
        confirmed_count(js.drop_last(), written) + if is_confirmed(js, written, js.len() - 1) {
            1nat
        } else {
            0nat
        }
    }
}

/// The candidates of all successful sources, in source order.
pub open spec fn gathered(outcomes: Seq<Result<Vec<ScoutResult>, SourceError>>) -> Seq<ScoutResult>
    decreases outcomes.len(),
{
    if outcomes.len() == 0 {
        Seq::empty()
    } else {
        let prev = gathered(outcomes.drop_last());
        match outcomes.last() {
            Ok(found) => prev + found@,
            Err(_) => prev,
        }
    }
}

/// `r` is the evaluation of `c` against `min_score`.
pub open spec fn evaluated_as(r: EvalResult, c: ScoutResult, min_score: nat) -> bool {
    &&& r.candidate == c
    &&& r.score as nat == score_of(c)
    &&& r.recommendation == recommend(score_of(c), min_score, is_eligible(c))
    &&& string_views(r.reasons@) == reasons_of(c)
}

impl ForgePlan {
    /// The plan is consistent with its results: the counts match them and
    /// there is one job per `Auto` result, in order, each prepared as the
    /// integrator would with the names of the earlier jobs taken.
    pub open spec fn wf(&self) -> bool {
        let rs = self.results@;
        let js = self.jobs@;
        &&& js.len() == if self.auto_integrate {
            count_of(rs, Recommendation::Auto)
        } else {
            0
        }
        &&& self.manual_review == count_of(rs, Recommendation::Manual) + if self.auto_integrate {
            0
        } else {
            count_of(rs, Recommendation::Auto)
        }
        &&& self.skipped == count_of(rs, Recommendation::Skip)
        &&& forall|k: int|
            0 <= k < js.len() ==> {
                &&& (#[trigger] js[k]).result_index < rs.len()
                &&& rs[js[k].result_index as int].recommendation == Recommendation::Auto
                &&& integration_fits(
                    rs[js[k].result_index as int].candidate,
                    ok_names(js.take(k)),
                    js[k].outcome,
                )
            }
        &&& forall|k1: int, k2: int|
            0 <= k1 < k2 < js.len() ==> (#[trigger] js[k1]).result_index < (
            #[trigger] js[k2]).result_index
    }
}

/// The candidates of all successful sources, in source order (see `gathered`).
fn gather(scouted: Vec<Result<Vec<ScoutResult>, SourceError>>) -> (r: Vec<ScoutResult>)
    ensures
        r@ == gathered(scouted@),
{
    let ghost orig = scouted@;
    let mut scouted = scouted;
    let mut out: Vec<ScoutResult> = Vec::new();
    let ghost mut n: int = 0;
    assert(orig.take(0) =~= Seq::<Result<Vec<ScoutResult>, SourceError>>::empty());
    assert(orig.skip(0) =~= orig);
    while scouted.len() > 0
        invariant
            0 <= n <= orig.len(),
            scouted@ == orig.skip(n),
            out@ == gathered(orig.take(n)),
        decreases scouted.len(),
    {
        let outcome = scouted.remove(0);
        proof {
            assert(orig.take(n + 1).drop_last() =~= orig.take(n));
            assert(orig.take(n + 1).last() == outcome);
            assert(scouted@ =~= orig.skip(n + 1));
        }
        match outcome {
            Ok(found) => {
                let mut found = found;
                out.append(&mut found);
            },
            Err(_) => {},
        }
        proof {
            n = n + 1;
        }
    }
    assert(orig.take(n) =~= orig);
    out
}

/// Evaluates every candidate once, in order.
fn evaluate_all(evaluator: &Evaluator, candidates: Vec<ScoutResult>) -> (r: Vec<EvalResult>)
    ensures
        r@.len() == candidates@.len(),
        forall|i: int|
            0 <= i < r@.len() ==> evaluated_as(
                #[trigger] r@[i],
                candidates@[i],
                evaluator.min_score as nat,
            ),
{
    let ghost orig = candidates@;
    let mut candidates = candidates;
    let mut out: Vec<EvalResult> = Vec::new();
    let ghost mut n: int = 0;
    assert(orig.skip(0) =~= orig);
    while candidates.len() > 0
        invariant
            0 <= n <= orig.len(),
            candidates@ == orig.skip(n),
            out@.len() == n,
            forall|i: int|
                0 <= i < n ==> evaluated_as(#[trigger] out@[i], orig[i], evaluator.min_score as nat),
        decreases candidates.len(),
    {
        let c = candidates.remove(0);
        proof {
            assert(orig[n] == c);
            assert(candidates@ =~= orig.skip(n + 1));
        }
        out.push(evaluator.evaluate(c));
        proof {
            n = n + 1;
        }
    }
    out
}

proof fn lemma_count_step(rs: Seq<EvalResult>, i: int, rec: Recommendation)
    requires
        0 <= i < rs.len(),
    ensures
        count_of(rs.take(i + 1), rec) == count_of(rs.take(i), rec) + if rs[i].recommendation
            == rec {
            1nat
        } else {
            0nat
        },
{
    assert(rs.take(i + 1).drop_last() =~= rs.take(i));
}

proof fn lemma_ok_names_step(js: Seq<IntegrationJob>, j: IntegrationJob)
    ensures
        ok_names(js.push(j)) == match j.outcome {
            Ok(m) => ok_names(js).push(m.dir_name@),
            Err(_) => ok_names(js),
        },
{
    assert(js.push(j).drop_last() =~= js);
}

/// The jobs and counts for evaluated results.
fn plan_jobs(results: &Vec<EvalResult>, auto_integrate: bool, output_dir: &String) -> (r: (
    Vec<IntegrationJob>,
    usize,
    usize,
))
    ensures
        ({
            let plan = ForgePlan {
                auto_integrate,
                output_dir: *output_dir,
                results: *results,
                jobs: r.0,
                manual_review: r.1,
                skipped: r.2,
            };
            plan.wf()
        }),
{
    let rs = results;
    let mut integrator = Integrator::new(output_dir.clone());
    let mut jobs: Vec<IntegrationJob> = Vec::new();
    let mut autos: usize = 0;
    let mut manual: usize = 0;
    let mut skipped: usize = 0;
    let mut i: usize = 0;
    while i < rs.len()
        invariant
            i <= rs.len(),
            autos == count_of(rs@.take(i as int), Recommendation::Auto),
            manual == count_of(rs@.take(i as int), Recommendation::Manual),
            skipped == count_of(rs@.take(i as int), Recommendation::Skip),
            autos + manual + skipped <= i,
            jobs@.len() == if auto_integrate {
                autos as nat
            } else {
                0
            },
            integrator.taken() == ok_names(jobs@),
            forall|k: int|
                0 <= k < jobs@.len() ==> {
                    &&& (#[trigger] jobs@[k]).result_index < i
                    &&& rs@[jobs@[k].result_index as int].recommendation == Recommendation::Auto
                    &&& integration_fits(
                        rs@[jobs@[k].result_index as int].candidate,
                        ok_names(jobs@.take(k)),
                        jobs@[k].outcome,
                    )
                },
            forall|k1: int, k2: int|
                0 <= k1 < k2 < jobs@.len() ==> (#[trigger] jobs@[k1]).result_index < (
                #[trigger] jobs@[k2]).result_index,
        decreases rs.len() - i,
    {
        proof {
            lemma_count_step(rs@, i as int, Recommendation::Auto);
            lemma_count_step(rs@, i as int, Recommendation::Manual);
            lemma_count_step(rs@, i as int, Recommendation::Skip);
        }
        match rs[i].recommendation {
            Recommendation::Auto => {
                autos = autos + 1;
                if auto_integrate {
                    let ghost before = jobs@;
                    let outcome = integrator.integrate(&rs[i].candidate);
                    let job = IntegrationJob { result_index: i, outcome };
                    jobs.push(job);
                    proof {
                        lemma_ok_names_step(before, job);
                        assert(jobs@.take(before.len() as int) =~= before);
                        assert forall|k: int| 0 <= k < before.len() implies jobs@.take(k)
                            =~= before.take(k) by {}
                    }
                }
            },
            Recommendation::Manual => {
                manual = manual + 1;
            },
            Recommendation::Skip => {
                skipped = skipped + 1;
            },
        }
        i = i + 1;
    }
    assert(rs@.take(rs.len() as int) =~= rs@);
    let manual_review = if auto_integrate {
        manual
    } else {
        manual + autos
    };
    (jobs, manual_review, skipped)
}

/// Runs discovery, evaluation and integration for one configuration.
pub struct SkillForge {
    config: SkillForgeConfig,
    notifier: Option<SystemNotifier>,
}

impl SkillForge {
    pub closed spec fn config(&self) -> SkillForgeConfig {
        self.config
    }

    pub closed spec fn has_notifier(&self) -> bool {
        self.notifier is Some
    }

    pub fn new(config: SkillForgeConfig, notifier: Option<SystemNotifier>) -> (r: SkillForge)
        ensures
            r.config() == config,
            r.has_notifier() == notifier is Some,
    {
        SkillForge { config, notifier }
    }

    /// The notifier that announces integrated skills, if one is configured.
    pub fn notifier(&self) -> (r: Option<&SystemNotifier>)
        ensures
            r is Some == self.has_notifier(),
    {
        self.notifier.as_ref()
    }

    /// The GitHub token handed to the GitHub adapter.
    pub fn github_token(&self) -> (r: &Option<String>)
        ensures
            *r == self.config().github_token,
    {
        &self.config.github_token
    }

    /// The sources to query, one per configured name and in the configured
    /// order; none when the pipeline is disabled. The caller runs the adapter
    /// of each implemented source and reports the others as finding nothing.
    pub fn scout_sources(&self) -> (r: Vec<ScoutSource>)
        ensures
            !self.config().enabled ==> r@.len() == 0,
            self.config().enabled ==> r@.len() == self.config().sources@.len(),
            self.config().enabled ==> forall|i: int|
                0 <= i < r@.len() ==> #[trigger] r@[i] == source_of(
                    self.config().sources@[i]@,
                ),
    {
        let mut r: Vec<ScoutSource> = Vec::new();
        if !self.config.enabled {
            return r;
        }
        let mut i: usize = 0;
        while i < self.config.sources.len()
            invariant
                self.config.enabled,
                i <= self.config.sources.len(),
                r@.len() == i,
                forall|j: int|
                    0 <= j < i ==> #[trigger] r@[j] == source_of(
                        self.config.sources@[j]@,
                    ),
            decreases self.config.sources.len() - i,
        {
            r.push(ScoutSource::parse(self.config.sources[i].as_str()));
            i = i + 1;
        }
        r
    }

    /// Runs the pipeline on what the sources found, one outcome per queried
    /// source in configured order (a failed source contributes nothing).
    /// A disabled pipeline returns an empty plan without looking at its input;
    /// an invalid threshold or an empty output directory is refused.
    /// Otherwise the candidates are de-duplicated, each evaluated once, and
    /// an integration is prepared for each `Auto` one when auto-integration is on.
    pub fn forge(&self, scouted: Vec<Result<Vec<ScoutResult>, SourceError>>) -> (r: Result<
        ForgePlan,
        ConfigurationError,
    >)
        ensures
            !self.config().enabled ==> (r matches Ok(p) && p.results@.len() == 0 && p.jobs@.len()
                == 0 && p.manual_review == 0 && p.skipped == 0),
            self.config().enabled && self.config().min_score > MAX_SCORE ==> r
                == Err::<ForgePlan, ConfigurationError>(ConfigurationError::MinScoreOutOfRange),
            self.config().enabled && self.config().min_score <= MAX_SCORE
                && self.config().output_dir@.len() == 0 ==> r == Err::<
                ForgePlan,
                ConfigurationError,
            >(ConfigurationError::EmptyOutputDir),
            self.config().enabled && self.config().min_score <= MAX_SCORE
                && self.config().output_dir@.len() > 0 ==> r is Ok,
            r matches Ok(p) ==> p.wf() && p.auto_integrate == self.config().auto_integrate
                && p.output_dir == self.config().output_dir,
            match r {
                Ok(p) => self.config().enabled ==> {
                    let unique = dedup_seq(gathered(scouted@));
                    &&& p.results@.len() == unique.len()
                    &&& forall|i: int|
                        0 <= i < unique.len() ==> evaluated_as(
                            #[trigger] p.results@[i],
                            unique[i],
                            self.config().min_score as nat,
                        )
                },
                Err(_) => true,
            },
    {
        if !self.config.enabled {
            let p = ForgePlan {
                auto_integrate: self.config.auto_integrate,
                output_dir: self.config.output_dir.clone(),
                results: Vec::new(),
                jobs: Vec::new(),
                manual_review: 0,
                skipped: 0,
            };
            assert(p.results@ =~= Seq::<EvalResult>::empty());
            return Ok(p);
        }
        if self.config.min_score > MAX_SCORE {
            return Err(ConfigurationError::MinScoreOutOfRange);
        }
        if self.config.output_dir.as_str().is_empty() {
            return Err(ConfigurationError::EmptyOutputDir);
        }
        let mut candidates = gather(scouted);
        dedup(&mut candidates);
        let evaluator = Evaluator::new(self.config.min_score);
        let results = evaluate_all(&evaluator, candidates);
        let (jobs, manual_review, skipped) = plan_jobs(
            &results,
            self.config.auto_integrate,
            &self.config.output_dir,
        );
        Ok(
            ForgePlan {
                auto_integrate: self.config.auto_integrate,
                output_dir: self.config.output_dir.clone(),
                results,
                jobs,
                manual_review,
                skipped,
            },
        )
    }
}

impl ForgePlan {
    /// The report of the run, given which prepared manifests the caller
    /// wrote (`written[k]` for job `k`; a missing entry counts as not written).
    /// Only a job with a manifest that was written counts as integrated.
    pub fn finish(self, written: &Vec<bool>) -> (r: ForgeReport)
        requires
            self.wf(),
        ensures
            r.discovered == self.results@.len(),
            r.evaluated == self.results@.len(),
            r.auto_integrated == confirmed_count(self.jobs@, written@),
            r.manual_review == self.manual_review,
            r.skipped == self.skipped,
            r.results == self.results,
            r.auto_integrated <= count_of(r.results@, Recommendation::Auto),
            (forall|k: int|
                0 <= k < self.jobs@.len() ==> #[trigger] is_confirmed(self.jobs@, written@, k))
                ==> r.auto_integrated + r.manual_review + r.skipped == r.evaluated,
    {
        proof {
            lemma_integrated_at_most_auto(self, written@);
            if forall|k: int|
                0 <= k < self.jobs@.len() ==> #[trigger] is_confirmed(self.jobs@, written@, k) {
                lemma_counts_add_up(self, written@);
            }
        }
        let mut auto_integrated: usize = 0;
        let mut k: usize = 0;
        proof {
            lemma_jobs_bounded(&self);
        }
        while k < self.jobs.len()
            invariant
                k <= self.jobs.len(),
                self.jobs@.len() <= self.results@.len(),
                auto_integrated == confirmed_count(self.jobs@.take(k as int), written@),
                auto_integrated <= k,
            decreases self.jobs.len() - k,
        {
            proof {
                let t = self.jobs@.take(k + 1);
                assert(t.drop_last() =~= self.jobs@.take(k as int));
                assert(t[k as int] == self.jobs@[k as int]);
            }
            if self.jobs[k].outcome.is_ok() && k < written.len() && written[k] {
                auto_integrated = auto_integrated + 1;
            }
            k = k + 1;
        }
        assert(self.jobs@.take(self.jobs@.len() as int) =~= self.jobs@);
        let n = self.results.len();
        ForgeReport {
            discovered: n,
            evaluated: n,
            auto_integrated,
            manual_review: self.manual_review,
            skipped: self.skipped,
            results: self.results,
        }
    }

    /// The names of the skills whose manifest was written, in order: the
    /// skills to announce.
    pub fn announcements(&self, written: &Vec<bool>) -> (r: Vec<String>)
        requires
            self.wf(),
        ensures
            r@.len() == confirmed_count(self.jobs@, written@),
            forall|i: int|
                0 <= i < r@.len() ==> #[trigger] named_by(
                    self,
                    written@,
                    r@[i]@,
                    self.jobs@.len() as int,
                ),
    {
        let mut r: Vec<String> = Vec::new();
        let mut k: usize = 0;
        while k < self.jobs.len()
            invariant
                self.wf(),
                k <= self.jobs.len(),
                r@.len() == confirmed_count(self.jobs@.take(k as int), written@),
                forall|i: int|
                    0 <= i < r@.len() ==> #[trigger] named_by(self, written@, r@[i]@, k as int),
            decreases self.jobs.len() - k,
        {
            proof {
                let t = self.jobs@.take(k + 1);
                assert(t.drop_last() =~= self.jobs@.take(k as int));
                assert(t[k as int] == self.jobs@[k as int]);
                assert(is_confirmed(t, written@, k as int) == is_confirmed(self.jobs@, written@, k as int));
            }
            let ghost before = r@;
            if self.jobs[k].outcome.is_ok() && k < written.len() && written[k] {
                let idx = self.jobs[k].result_index;
                assert(self.jobs@[k as int].result_index < self.results@.len());
                r.push(self.results[idx].candidate.name.clone());
            }
            proof {
                assert forall|i: int| 0 <= i < r@.len() implies #[trigger] named_by(
                    self,
                    written@,
                    r@[i]@,
                    k + 1,
                ) by {
                    if i < before.len() {
                        assert(r@[i] == before[i]);
                        assert(named_by(self, written@, before[i]@, k as int));
                        let j = choose|j: int|
                            0 <= j < k && j < self.jobs@.len() && #[trigger] is_confirmed(
                                self.jobs@,
                                written@,
                                j,
                            ) && before[i]@ == self.results@[self.jobs@[j].result_index as int].candidate.name@;
                        assert(is_confirmed(self.jobs@, written@, j));
                    } else {
                        assert(is_confirmed(self.jobs@, written@, k as int));
                    }
                }
            }
            k = k + 1;
        }
        assert(self.jobs@.take(self.jobs@.len() as int) =~= self.jobs@);
        r
    }
}

/// Some confirmed job before `bound` integrated a skill called `name`.
pub open spec fn named_by(p: &ForgePlan, written: Seq<bool>, name: Seq<char>, bound: int) -> bool {
    exists|j: int|
        0 <= j < bound && j < p.jobs@.len() && #[trigger] is_confirmed(p.jobs@, written, j) && name
            == p.results@[p.jobs@[j].result_index as int].candidate.name@
}

proof fn lemma_confirmed_le_len(js: Seq<IntegrationJob>, written: Seq<bool>)
    ensures
        confirmed_count(js, written) <= js.len(),
    decreases js.len(),
{
    if js.len() > 0 {
        lemma_confirmed_le_len(js.drop_last(), written);
        assert(forall|k: int| 0 <= k < js.len() - 1 ==> is_confirmed(js.drop_last(), written, k) == is_confirmed(js, written, k));
    }
}

proof fn lemma_confirmed_prefix(js: Seq<IntegrationJob>, written: Seq<bool>)
    ensures
        js.len() > 0 ==> confirmed_count(js.drop_last(), written) + (if is_confirmed(
            js,
            written,
            js.len() - 1,
        ) {
            1nat
        } else {
            0nat
        }) == confirmed_count(js, written),
{
}

/// Every result carries exactly one recommendation.
pub proof fn lemma_counts_partition(rs: Seq<EvalResult>)
    ensures
        count_of(rs, Recommendation::Auto) + count_of(rs, Recommendation::Manual) + count_of(
            rs,
            Recommendation::Skip,
        ) == rs.len(),
    decreases rs.len(),
{
    if rs.len() > 0 {
        lemma_counts_partition(rs.drop_last());
    }
}

proof fn lemma_jobs_bounded(p: &ForgePlan)
    requires
        p.wf(),
    ensures
        p.jobs@.len() <= p.results@.len(),
{
    lemma_counts_partition(p.results@);
}

/// When every job was confirmed, all of them count as integrated.
proof fn lemma_all_confirmed(js: Seq<IntegrationJob>, written: Seq<bool>)
    requires
        forall|k: int| 0 <= k < js.len() ==> #[trigger] is_confirmed(js, written, k),
    ensures
        confirmed_count(js, written) == js.len(),
    decreases js.len(),
{
    if js.len() > 0 {
        let d = js.drop_last();
        assert forall|k: int| 0 <= k < d.len() implies #[trigger] is_confirmed(d, written, k) by {
            assert(is_confirmed(js, written, k));
        }
        lemma_all_confirmed(d, written);
        assert(is_confirmed(js, written, js.len() - 1));
    }
}

/// A run never reports more integrated skills than it has `Auto` results.
pub proof fn lemma_integrated_at_most_auto(p: ForgePlan, written: Seq<bool>)
    requires
        p.wf(),
    ensures
        confirmed_count(p.jobs@, written) <= count_of(p.results@, Recommendation::Auto),
{
    lemma_confirmed_le_len(p.jobs@, written);
}

/// The counts of a run add up: every evaluated result is integrated, sent
/// to manual review, or skipped, provided no prepared integration failed
/// (a failed integration is counted in no bucket).
pub proof fn lemma_counts_add_up(p: ForgePlan, written: Seq<bool>)
    requires
        p.wf(),
        forall|k: int| 0 <= k < p.jobs@.len() ==> #[trigger] is_confirmed(p.jobs@, written, k),
    ensures
        confirmed_count(p.jobs@, written) + p.manual_review + p.skipped == p.results@.len(),
{
    lemma_all_confirmed(p.jobs@, written);
    lemma_counts_partition(p.results@);
}

} // verus!
