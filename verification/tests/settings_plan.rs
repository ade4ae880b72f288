use ursa_minor_ffb::settings::{
    candidate_locations, load_next, load_start, primary_save_location, save_next, save_start,
    stage_location, LoadOutcome, LoadStep, Location, SaveStage, SaveStep,
};

#[test]
fn candidates_in_priority_order() {
    assert_eq!(candidate_locations(true, true), vec![Location::ExeDir, Location::LocalAppData]);
    assert_eq!(candidate_locations(true, false), vec![Location::ExeDir]);
    assert_eq!(candidate_locations(false, true), vec![Location::LocalAppData]);
    assert_eq!(candidate_locations(false, false), Vec::<Location>::new());
}

#[test]
fn primary_location_falls_back_to_temp() {
    assert_eq!(primary_save_location(true), Location::ExeDir);
    assert_eq!(primary_save_location(false), Location::Temp);
    assert_eq!(stage_location(SaveStage::Primary, true), Location::ExeDir);
    assert_eq!(stage_location(SaveStage::Primary, false), Location::Temp);
    assert_eq!(stage_location(SaveStage::Fallback, true), Location::LocalAppData);
    assert_eq!(stage_location(SaveStage::LastResort, true), Location::Temp);
}

fn run_save(primary_ok: bool, fallback_known: bool, second_ok: bool) -> (SaveStep, usize) {
    let mut step = save_start();
    let mut writes = 0;
    loop {
        match step {
            SaveStep::Write(stage) => {
                let ok = if writes == 0 { primary_ok } else { second_ok };
                writes += 1;
                step = save_next(stage, ok, fallback_known);
            }
            done => return (done, writes),
        }
    }
}

#[test]
fn save_plan_outcomes() {
    assert_eq!(run_save(true, true, false), (SaveStep::Saved(SaveStage::Primary), 1));
    assert_eq!(run_save(false, true, true), (SaveStep::Saved(SaveStage::Fallback), 2));
    assert_eq!(run_save(false, false, true), (SaveStep::Saved(SaveStage::LastResort), 2));
    // A failed fallback write is final: the temporary directory is not tried.
    assert_eq!(run_save(false, true, false), (SaveStep::Failed, 2));
    assert_eq!(run_save(false, false, false), (SaveStep::Failed, 2));
}

#[test]
fn save_next_each_stage() {
    assert_eq!(save_next(SaveStage::Primary, false, true), SaveStep::Write(SaveStage::Fallback));
    assert_eq!(save_next(SaveStage::Primary, false, false), SaveStep::Write(SaveStage::LastResort));
    assert_eq!(save_next(SaveStage::Fallback, false, false), SaveStep::Failed);
    assert_eq!(save_next(SaveStage::LastResort, false, true), SaveStep::Failed);
    assert_eq!(save_next(SaveStage::LastResort, true, true), SaveStep::Saved(SaveStage::LastResort));
}

fn run_load(outcomes: &[LoadOutcome]) -> LoadStep {
    let mut step = load_start(outcomes.len());
    loop {
        match step {
            LoadStep::Read(i) => step = load_next(i, outcomes.len(), outcomes[i]),
            done => return done,
        }
    }
}

#[test]
fn load_uses_first_parsed_candidate() {
    let (malformed, parsed, unreadable) =
        (LoadOutcome::Malformed, LoadOutcome::Parsed, LoadOutcome::Unreadable);
    assert_eq!(run_load(&[]), LoadStep::NotFound);
    assert_eq!(run_load(&[parsed, parsed]), LoadStep::Use(0));
    assert_eq!(run_load(&[unreadable, parsed]), LoadStep::Use(1));
    assert_eq!(run_load(&[malformed, parsed]), LoadStep::Use(1));
    assert_eq!(run_load(&[malformed, unreadable]), LoadStep::NotFound);
    assert_eq!(run_load(&[unreadable]), LoadStep::NotFound);
    assert_eq!(load_start(2), LoadStep::Read(0));
    assert_eq!(load_next(0, 2, unreadable), LoadStep::Read(1));
}
