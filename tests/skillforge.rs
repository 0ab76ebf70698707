use zeroclaw::evaluate::{Evaluator, Recommendation};
use zeroclaw::forge::{ConfigurationError, SkillForge, SkillForgeConfig};
use zeroclaw::integrate::{IntegrationError, Integrator, ManifestField};
use zeroclaw::notification::{SystemNotifier, TelegramConfig};
use zeroclaw::scout::{dedup, normalized_url, ScoutResult, ScoutSource, SourceError};

fn candidate(name: &str, url: &str, stars: u64, forks: u64, has_license: bool) -> ScoutResult {
    ScoutResult {
        name: name.to_string(),
        url: url.to_string(),
        description: format!("{name} skill"),
        stars,
        forks,
        has_license,
    }
}

fn enabled_config(auto_integrate: bool) -> SkillForgeConfig {
    SkillForgeConfig {
        enabled: true,
        auto_integrate,
        ..SkillForgeConfig::default()
    }
}

fn source_error(source: &str) -> SourceError {
    SourceError {
        source: source.to_string(),
        message: "connection refused".to_string(),
    }
}

#[test]
fn default_config_values() {
    let cfg = SkillForgeConfig::default();
    assert!(!cfg.enabled);
    assert!(cfg.auto_integrate);
    assert_eq!(cfg.scan_interval_hours, 24);
    assert_eq!(cfg.min_score, 700);
    assert_eq!(cfg.sources, vec!["github", "clawhub"]);
}

#[test]
fn disabled_forge_returns_empty_report() {
    let cfg = SkillForgeConfig {
        enabled: false,
        ..Default::default()
    };
    let forge = SkillForge::new(cfg, None);
    let scouted = vec![Ok(vec![candidate("a", "https://x/a", 900, 0, true)])];
    let plan = forge.forge(scouted).unwrap();
    let report = plan.finish(&vec![]);
    assert_eq!(report.discovered, 0);
    assert_eq!(report.evaluated, 0);
    assert_eq!(report.auto_integrated, 0);
    assert_eq!(report.manual_review, 0);
    assert_eq!(report.skipped, 0);
    assert!(report.results.is_empty());
    assert!(forge.scout_sources().is_empty());
}

#[test]
fn source_names_map_to_sources() {
    assert_eq!(ScoutSource::parse("github"), ScoutSource::GitHub);
    assert_eq!(ScoutSource::parse("GitHub"), ScoutSource::GitHub);
    assert_eq!(ScoutSource::parse("clawhub"), ScoutSource::ClawHub);
    assert_eq!(ScoutSource::parse("hf"), ScoutSource::HuggingFace);
    assert_eq!(ScoutSource::parse("HuggingFace"), ScoutSource::HuggingFace);
    assert_eq!(ScoutSource::parse("gitlab"), ScoutSource::Unknown);
    assert!(ScoutSource::GitHub.is_implemented());
    assert!(!ScoutSource::Unknown.is_implemented());
    let forge = SkillForge::new(enabled_config(true), None);
    assert_eq!(forge.scout_sources(), vec![ScoutSource::GitHub, ScoutSource::ClawHub]);
}

#[test]
fn url_normalization() {
    let n: String = normalized_url("HTTPS://github.com/Owner/Repo//").into_iter().collect();
    assert_eq!(n, "https://github.com/Owner/Repo");
    let n: String = normalized_url("https://x").into_iter().collect();
    assert_eq!(n, "https://x");
}

#[test]
fn dedup_keeps_first_occurrence() {
    let mut cs = vec![
        candidate("first", "https://github.com/a/skill", 1, 0, false),
        candidate("other", "https://github.com/b/skill", 2, 0, false),
        candidate("second", "HTTPS://github.com/a/skill/", 3, 0, false),
    ];
    dedup(&mut cs);
    assert_eq!(cs.len(), 2);
    assert_eq!(cs[0].name, "first");
    assert_eq!(cs[1].name, "other");
    let mut empty: Vec<ScoutResult> = vec![];
    dedup(&mut empty);
    assert!(empty.is_empty());
}

#[test]
fn dedup_urls_pairwise_distinct() {
    let mut cs = vec![
        candidate("a", "https://h/x", 1, 0, false),
        candidate("b", "https://h/x/", 1, 0, false),
        candidate("c", "Https://h/x", 1, 0, false),
        candidate("d", "https://h/y", 1, 0, false),
        candidate("e", "https://h/y//", 1, 0, false),
    ];
    dedup(&mut cs);
    let keys: Vec<Vec<char>> = cs.iter().map(|c| normalized_url(&c.url)).collect();
    assert_eq!(keys.len(), 2);
    assert_ne!(keys[0], keys[1]);
}

#[test]
fn score_formula() {
    assert_eq!(Evaluator::score(&candidate("a", "u", 0, 0, false)), 0);
    assert_eq!(Evaluator::score(&candidate("a", "u", 120, 10, false)), 140);
    assert_eq!(Evaluator::score(&candidate("a", "u", 120, 10, true)), 440);
    assert_eq!(Evaluator::score(&candidate("a", "u", 10_000, 10_000, true)), 1000);
    assert_eq!(Evaluator::score(&candidate("a", "u", 500, 100, false)), 700);
}

#[test]
fn evaluate_threshold_is_inclusive() {
    let e = Evaluator::new(700);
    let r = e.evaluate(candidate("a", "u", 400, 0, true));
    assert_eq!(r.score, 700);
    assert_eq!(r.recommendation, Recommendation::Auto);
    let r = e.evaluate(candidate("a", "u", 399, 0, true));
    assert_eq!(r.recommendation, Recommendation::Manual);
    assert_eq!(r.reasons, vec!["stars +399", "forks +0", "license +300"]);
}

#[test]
fn evaluate_skips_ineligible() {
    let e = Evaluator::new(700);
    let mut c = candidate("", "u", 10, 1, false);
    c.description = String::new();
    let r = e.evaluate(c);
    assert_eq!(r.recommendation, Recommendation::Skip);
    assert_eq!(
        r.reasons,
        vec!["stars +10", "forks +2", "no license", "missing name or description"]
    );
    let mut c = candidate("", "u", 900, 100, true);
    c.description = String::new();
    assert_eq!(e.evaluate(c).recommendation, Recommendation::Auto);
}

#[test]
fn evaluate_is_deterministic() {
    let e = Evaluator::new(500);
    let a = e.evaluate(candidate("one", "https://a", 250, 20, true));
    let b = e.evaluate(candidate("two", "https://b", 250, 20, true));
    assert_eq!(a.score, b.score);
    assert_eq!(a.recommendation, b.recommendation);
    assert_eq!(a.reasons, b.reasons);
}

#[test]
fn score_is_monotone_in_each_signal() {
    let base = Evaluator::score(&candidate("a", "u", 100, 10, false));
    assert!(Evaluator::score(&candidate("a", "u", 101, 10, false)) >= base);
    assert!(Evaluator::score(&candidate("a", "u", 100, 11, false)) >= base);
    assert!(Evaluator::score(&candidate("a", "u", 100, 10, true)) >= base);
    let top = Evaluator::score(&candidate("a", "u", 500, 100, true));
    assert_eq!(Evaluator::score(&candidate("a", "u", 501, 100, true)), top);
}

#[test]
fn integrator_manifest_and_errors() {
    let mut i = Integrator::new("skills".to_string());
    assert_eq!(i.output_dir(), "skills");
    let m = i
        .integrate(&candidate("Web Search!", "https://x/ws", 1, 0, false))
        .unwrap();
    assert_eq!(m.dir_name, "web-search-");
    assert_eq!(
        m.content,
        "[skill]\nname = \"Web Search!\"\ndescription = \"Web Search! skill\"\nsource = \"https://x/ws\"\n"
    );
    let mut quoted = candidate("q", "u", 0, 0, false);
    quoted.description = "say \"hi\"\\".to_string();
    let m = i.integrate(&quoted).unwrap();
    assert_eq!(m.content, "[skill]\nname = \"q\"\ndescription = \"say \\\"hi\\\"\\\\\"\nsource = \"u\"\n");
    let mut no_desc = candidate("z", "u", 0, 0, false);
    no_desc.description = String::new();
    assert!(matches!(
        i.integrate(&no_desc),
        Err(IntegrationError::MissingField(ManifestField::Description))
    ));
    assert!(matches!(
        i.integrate(&candidate("", "u", 0, 0, false)),
        Err(IntegrationError::MissingField(ManifestField::Name))
    ));
}

#[test]
fn integration_collision_is_an_error() {
    let mut i = Integrator::new("skills".to_string());
    assert!(i.integrate(&candidate("My Skill", "https://a", 0, 0, false)).is_ok());
    match i.integrate(&candidate("my_skill?", "https://b", 0, 0, false)) {
        Ok(_) => {}
        Err(e) => panic!("unexpected error {e:?}"),
    }
    match i.integrate(&candidate("my skill", "https://c", 0, 0, false)) {
        Err(IntegrationError::NameCollision(n)) => assert_eq!(n, "my-skill"),
        _ => panic!("expected a collision"),
    }
}

#[test]
fn forge_collision_not_double_counted() {
    let forge = SkillForge::new(enabled_config(true), None);
    let scouted = vec![Ok(vec![
        candidate("Web Search", "https://a/ws", 900, 100, true),
        candidate("web-search", "https://b/ws", 900, 100, true),
    ])];
    let plan = forge.forge(scouted).unwrap();
    assert_eq!(plan.jobs.len(), 2);
    assert!(plan.jobs[0].outcome.is_ok());
    assert!(matches!(
        plan.jobs[1].outcome,
        Err(IntegrationError::NameCollision(_))
    ));
    let written = vec![true, true];
    let names = plan.announcements(&written);
    assert_eq!(names, vec!["Web Search"]);
    let report = plan.finish(&written);
    assert_eq!(report.discovered, 2);
    assert_eq!(report.auto_integrated, 1);
    assert_eq!(report.manual_review, 0);
    assert_eq!(report.skipped, 0);
}

#[test]
fn auto_integrate_disabled_counts_manual() {
    let forge = SkillForge::new(enabled_config(false), None);
    let scouted = vec![Ok(vec![candidate("great", "https://a/g", 900, 100, true)])];
    let plan = forge.forge(scouted).unwrap();
    assert!(plan.jobs.is_empty());
    let report = plan.finish(&vec![]);
    assert_eq!(report.results.len(), 1);
    assert_eq!(report.results[0].recommendation, Recommendation::Auto);
    assert_eq!(report.auto_integrated, 0);
    assert_eq!(report.manual_review, 1);
}

#[test]
fn adapter_failure_keeps_other_source() {
    let forge = SkillForge::new(enabled_config(true), None);
    let scouted = vec![
        Err(source_error("github")),
        Ok(vec![
            candidate("low", "https://c/low", 10, 0, false),
            candidate("high", "https://c/high", 900, 0, true),
        ]),
    ];
    let plan = forge.forge(scouted).unwrap();
    let report = plan.finish(&vec![true]);
    assert_eq!(report.discovered, 2);
    assert_eq!(report.evaluated, 2);
    assert_eq!(report.results[0].candidate.name, "low");
    assert_eq!(report.results[1].candidate.name, "high");
    assert_eq!(report.auto_integrated, 1);
    assert_eq!(report.manual_review, 1);
    assert_eq!(report.skipped, 0);
}

#[test]
fn duplicate_across_sources_keeps_earlier_source() {
    let forge = SkillForge::new(enabled_config(false), None);
    let scouted = vec![
        Ok(vec![candidate("from-first", "https://github.com/o/r", 5, 0, false)]),
        Ok(vec![candidate("from-second", "HTTPS://github.com/o/r/", 5, 0, false)]),
    ];
    let report = forge.forge(scouted).unwrap().finish(&vec![]);
    assert_eq!(report.discovered, 1);
    assert_eq!(report.results[0].candidate.name, "from-first");
}

#[test]
fn failed_write_is_not_integrated() {
    let forge = SkillForge::new(enabled_config(true), None);
    let scouted = vec![Ok(vec![
        candidate("a", "https://a", 900, 100, true),
        candidate("b", "https://b", 900, 100, true),
        candidate("", "https://c", 0, 0, false),
    ])];
    let plan = forge.forge(scouted).unwrap();
    assert_eq!(plan.jobs.len(), 2);
    let written = vec![false, true];
    assert_eq!(plan.announcements(&written), vec!["b"]);
    let report = plan.finish(&written);
    assert_eq!(report.evaluated, 3);
    assert_eq!(report.auto_integrated, 1);
    assert_eq!(report.manual_review, 0);
    assert_eq!(report.skipped, 1);
    assert!(report.auto_integrated + report.manual_review + report.skipped < report.evaluated);
}

#[test]
fn counts_add_up_when_all_written() {
    let forge = SkillForge::new(enabled_config(true), None);
    let scouted = vec![Ok(vec![
        candidate("a", "https://a", 900, 100, true),
        candidate("b", "https://b", 100, 0, false),
        candidate("", "https://c", 0, 0, false),
    ])];
    let plan = forge.forge(scouted).unwrap();
    let report = plan.finish(&vec![true]);
    assert_eq!(report.discovered, report.evaluated);
    assert_eq!(
        report.auto_integrated + report.manual_review + report.skipped,
        report.evaluated
    );
    assert_eq!((report.auto_integrated, report.manual_review, report.skipped), (1, 1, 1));
}

#[test]
fn invalid_configuration_is_refused() {
    let cfg = SkillForgeConfig {
        min_score: 1001,
        ..enabled_config(true)
    };
    let forge = SkillForge::new(cfg, None);
    assert!(matches!(forge.forge(vec![]), Err(ConfigurationError::MinScoreOutOfRange)));
    let cfg = SkillForgeConfig {
        output_dir: String::new(),
        ..enabled_config(true)
    };
    let forge = SkillForge::new(cfg, None);
    assert!(matches!(forge.forge(vec![]), Err(ConfigurationError::EmptyOutputDir)));
}

#[test]
fn telegram_message_targets_first_user() {
    let n = SystemNotifier::new(Some(TelegramConfig {
        bot_token: "123:abc".to_string(),
        allowed_users: vec!["42".to_string(), "7".to_string()],
    }));
    let text = SystemNotifier::new_skill_message("web-search");
    assert_eq!(text, "🎓 *Ezra learned a new skill:* `web-search`");
    let m = n.telegram_message(&text).unwrap();
    assert_eq!(m.url, "https://api.telegram.org/bot123:abc/sendMessage");
    assert_eq!(m.chat_id, "42");
    assert_eq!(m.text, text);
    assert_eq!(m.parse_mode, "Markdown");
    assert_eq!(
        SystemNotifier::new_tool_message("grep"),
        "🛠️ *New tool available:* `grep`"
    );
}

#[test]
fn telegram_message_needs_token_and_user() {
    assert!(SystemNotifier::new(None).telegram_message("hi").is_none());
    let no_token = SystemNotifier::new(Some(TelegramConfig {
        bot_token: String::new(),
        allowed_users: vec!["42".to_string()],
    }));
    assert!(no_token.telegram_message("hi").is_none());
    let no_users = SystemNotifier::new(Some(TelegramConfig {
        bot_token: "t".to_string(),
        allowed_users: vec![],
    }));
    assert!(no_users.telegram_message("hi").is_none());
    let forge = SkillForge::new(enabled_config(true), Some(no_users));
    assert!(forge.notifier().is_some());
}
