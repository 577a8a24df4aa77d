use sps::abductive::explanation_ranker::ExplanationRanker;
use sps::abductive::hypothesis_generator::HypothesisGenerator;
use sps::abductive::occam_filter::OccamFilter;
use sps::causal::causal_reasoner::CausalReasoner;
use sps::causal::counterfactual::Counterfactual;
use sps::causal::intervention_model::InterventionModel;
use sps::inductive::generalization::Generalization;
use sps::inductive::pattern_detector::PatternDetector;
use sps::kernel_core::event::EventPayload;

fn texts(items: &[&str]) -> Vec<String> {
    items.iter().map(|s| s.to_string()).collect()
}

fn custom_parts(p: &EventPayload) -> (String, String) {
    match p {
        EventPayload::Custom { event_type, data } => (event_type.clone(), String::from_utf8(data.clone()).unwrap()),
        _ => panic!("not a custom payload"),
    }
}

#[test]
fn ranks_shortest_first() {
    let exps = vec!["a long explanation".into(), "short".into()];
    let ranked = ExplanationRanker::rank(&exps);
    assert_eq!(ranked[0], "short");
}

#[test]
fn ranking_is_stable_and_by_byte_length() {
    let exps = texts(&["ccc", "bb", "aa", "d", "é"]);
    // "é" is two bytes long, so it ties with "bb" and "aa" and comes after them.
    let ranked = ExplanationRanker::rank(&exps);
    assert_eq!(ranked, texts(&["d", "bb", "aa", "é", "ccc"]));
}

#[test]
fn ranking_an_empty_list_gives_an_empty_list() {
    assert!(ExplanationRanker::rank(&[]).is_empty());
}

#[test]
fn ranking_proposal_joins_with_semicolons() {
    let p = ExplanationRanker::propose_ranking(texts(&["x", "yy"]));
    assert_eq!(custom_parts(&p), ("AbductiveExplanationsRanked".to_string(), "x;yy".to_string()));
}

#[test]
fn generates_matching_hypotheses() {
    let kb = vec!["sps runs on linux".into(), "rust is safe".into()];
    let obs = "sps runs on linux today";
    let hyps = HypothesisGenerator::generate(obs, &kb);
    assert_eq!(hyps.len(), 1);
}

#[test]
fn hypotheses_keep_order_and_duplicates() {
    let kb = texts(&["b", "a", "zz", "b", ""]);
    let hyps = HypothesisGenerator::generate("abc", &kb);
    assert_eq!(hyps, texts(&["b", "a", "b", ""]));
}

#[test]
fn picks_shortest() {
    let exps = vec!["complex reason".into(), "simple".into()];
    assert_eq!(OccamFilter::filter(&exps), Some("simple".into()));
}

#[test]
fn occam_filter_keeps_the_first_of_equal_lengths() {
    assert_eq!(OccamFilter::filter(&texts(&["abc", "xy", "zw"])), Some("xy".to_string()));
    assert_eq!(OccamFilter::filter(&[]), None);
}

#[test]
fn occam_proposal_names_the_best() {
    let p = OccamFilter::propose_filter("simple".into());
    assert_eq!(custom_parts(&p), ("OccamFilterApplied".to_string(), "simple".to_string()));
}

#[test]
fn infers_cause_from_known_pair() {
    let pairs = vec![("rain".into(), "wet ground".into())];
    assert_eq!(CausalReasoner::infer_cause("wet ground", &pairs), Some("rain".into()));
}

#[test]
fn infers_the_first_matching_cause_or_none() {
    let pairs = vec![
        ("sprinkler".to_string(), "wet".to_string()),
        ("rain".to_string(), "wet".to_string()),
    ];
    assert_eq!(CausalReasoner::infer_cause("wet", &pairs), Some("sprinkler".to_string()));
    assert_eq!(CausalReasoner::infer_cause("dry", &pairs), None);
}

#[test]
fn counterfactual_gives_alternative() {
    let rules = vec![("rain".into(), "wet".into()), ("sun".into(), "dry".into())];
    let result = Counterfactual::reason("rain", "wet", "sun", &rules);
    assert_eq!(result, Some("dry".into()));
}

#[test]
fn counterfactual_needs_the_actual_effect_explained() {
    let rules = vec![("rain".to_string(), "wet".to_string()), ("sun".to_string(), "dry".to_string())];
    assert_eq!(Counterfactual::reason("rain", "dry", "sun", &rules), None);
    assert_eq!(Counterfactual::reason("rain", "wet", "snow", &rules), None);
    assert_eq!(Counterfactual::reason("fog", "", "sun", &rules), Some("dry".to_string()));
}

#[test]
fn counterfactual_proposal_pairs_the_causes() {
    let p = Counterfactual::propose_counterfactual("rain".into(), "sun".into());
    assert_eq!(custom_parts(&p), ("CounterfactualReasoned".to_string(), "rain|sun".to_string()));
}

#[test]
fn predicts_outcome() {
    let rules = vec![("restart".into(), "service_up".into())];
    let result = InterventionModel::predict("restart", &rules);
    assert_eq!(result, Some("service_up".into()));
}

#[test]
fn prediction_without_a_rule_is_none() {
    let rules = vec![("restart".to_string(), "service_up".to_string())];
    assert_eq!(InterventionModel::predict("stop", &rules), None);
    let p = InterventionModel::propose_prediction("restart".into(), "service_up".into());
    assert_eq!(custom_parts(&p), ("InterventionPredicted".to_string(), "restart|service_up".to_string()));
}

#[test]
fn picks_most_common() {
    let facts = vec!["a is fast".into(), "b is fast".into(), "a is fast".into()];
    let result = Generalization::generalize(&facts);
    assert_eq!(result, Some("a is fast".into()));
}

#[test]
fn generalization_breaks_ties_by_first_occurrence() {
    assert_eq!(Generalization::generalize(&texts(&["x", "y", "y", "x"])), Some("x".to_string()));
    assert_eq!(Generalization::generalize(&[]), None);
}

#[test]
fn detects_common_suffix() {
    let examples = vec!["a is fast".into(), "b is fast".into(), "c is fast".into()];
    assert!(PatternDetector::detect(&examples).is_some());
}

#[test]
fn detected_pattern_names_the_shared_last_word() {
    let examples = texts(&["a is fast", "b is fast", "breakfast"]);
    assert_eq!(PatternDetector::detect(&examples), Some("All examples end with 'fast'".to_string()));
    assert_eq!(PatternDetector::detect(&[]), None);
}

#[test]
fn no_pattern_returns_none() {
    let examples = vec!["x is y".into(), "a is b".into()];
    assert_eq!(PatternDetector::detect(&examples), None);
}
