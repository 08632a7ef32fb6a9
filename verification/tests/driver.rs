use oopsla2024_benchmarks::bench::{
    check_decisions, decision_order, experiment_plan, request_targets_known, uses_sapl, App,
    DecisionCheck, EngineChoice,
};
use oopsla2024_benchmarks::entity::{EntityUid, RequestData};
use oopsla2024_benchmarks::sapl_engine::Decision;

fn uid(ty: &str, id: &str) -> EntityUid {
    EntityUid { entity_type: ty.to_string(), eid: id.to_string() }
}

#[test]
fn app_names_and_csv_files() {
    assert_eq!(App::Github.to_string(), "github");
    assert_eq!(App::GithubTemplates.to_string(), "github-templates");
    assert_eq!(App::Gdrive.to_string(), "gdrive");
    assert_eq!(App::GdriveTemplates.to_string(), "gdrive-templates");
    assert_eq!(App::TinyTodo.to_string(), "tinytodo");
    assert_eq!(App::Github.csv_filename(), "output/github.csv");
    assert_eq!(App::GdriveTemplates.csv_filename(), "output/gdrive-templates.csv");
    assert_eq!(App::TinyTodo.csv_filename(), "output/tinytodo.csv");
}

#[test]
fn engine_names() {
    assert_eq!(EngineChoice::Cedar.to_string(), "cedar");
    assert_eq!(EngineChoice::OpenFGA.to_string(), "openfga");
    assert_eq!(EngineChoice::CedarOpt.to_string(), "cedaropt");
    assert_eq!(EngineChoice::Rego.to_string(), "rego");
    assert_eq!(EngineChoice::RegoPreTC.to_string(), "rego_pre_tc");
    assert_eq!(EngineChoice::Sapl.to_string(), "sapl");
}

#[test]
fn experiments_run_in_row_order() {
    let plan = experiment_plan(&vec![3, 4], &vec![1024, 2048, 4096]);
    assert_eq!(
        plan,
        vec![(3, 1024), (3, 2048), (3, 4096), (4, 1024), (4, 2048), (4, 4096)]
    );
    assert!(experiment_plan(&vec![], &vec![1]).is_empty());
    assert!(experiment_plan(&vec![3], &vec![]).is_empty());
}

#[test]
fn sapl_runs_once_and_last() {
    let (sapl, cedar, rego) = (EngineChoice::Sapl, EngineChoice::Cedar, EngineChoice::Rego);
    let engines = vec![sapl, cedar, rego, sapl, cedar];
    assert!(uses_sapl(&engines));
    assert_eq!(decision_order(&engines), vec![cedar, rego, cedar, sapl]);
    let engines = vec![EngineChoice::OpenFGA, EngineChoice::RegoPreTC];
    assert!(!uses_sapl(&engines));
    assert_eq!(decision_order(&engines), vec![EngineChoice::OpenFGA, EngineChoice::RegoPreTC]);
}

#[test]
fn requests_with_unknown_targets_are_dropped() {
    let known = vec![uid("User", "alice"), uid("Repository", "r")];
    let ok = RequestData {
        principal: Some(uid("User", "alice")),
        action: Some(uid("Action", "pull")),
        resource: Some(uid("Repository", "r")),
    };
    assert!(request_targets_known(&ok, &known));
    let unknown_principal = RequestData { principal: Some(uid("User", "bob")), ..ok.clone() };
    assert!(!request_targets_known(&unknown_principal, &known));
    let no_resource = RequestData { resource: None, ..ok.clone() };
    assert!(!request_targets_known(&no_resource, &known));
    let wrong_type = RequestData { resource: Some(uid("User", "r")), ..ok };
    assert!(!request_targets_known(&wrong_type, &known));
}

#[test]
fn decision_sequences_must_agree() {
    let (allow, deny) = (Decision::Allow, Decision::Deny);
    assert_eq!(check_decisions(&vec![], 0), DecisionCheck::NoSequences);
    assert_eq!(check_decisions(&vec![vec![allow, deny]], 2), DecisionCheck::Agree);
    let seqs = vec![vec![allow, deny, deny], vec![allow, deny, deny], vec![allow, deny, deny]];
    assert_eq!(check_decisions(&seqs, 3), DecisionCheck::Agree);
    let seqs = vec![vec![allow, deny, deny], vec![allow, deny, allow], vec![allow, allow, deny]];
    assert_eq!(check_decisions(&seqs, 3), DecisionCheck::Mismatch { request: 1, engine: 2 });
    assert_eq!(check_decisions(&seqs, 1), DecisionCheck::Agree);
}
