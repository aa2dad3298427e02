use stockpile::cli::{plan_command, Commands, RunPlan, DEFAULT_LIMIT, DEFAULT_OFFSET};

#[test]
fn fetch_command_looks_one_record_up() {
    let plan = plan_command(Commands::Fetch { pokemon_id: "25".to_string() });
    match plan {
        RunPlan::FetchOne { pokemon_id } => assert_eq!(pokemon_id, "25"),
        _ => panic!("expected a single-record plan"),
    }
}

#[test]
fn ingest_command_runs_windowed() {
    let plan = plan_command(Commands::Ingest {
        all: false,
        limit: 200,
        offset: 40,
        file_path: "out.json".to_string(),
    });
    match plan {
        RunPlan::IngestWindowed { limit, offset, file_path } => {
            assert_eq!(limit, 200);
            assert_eq!(offset, 40);
            assert_eq!(file_path, "out.json");
        },
        _ => panic!("expected a windowed plan"),
    }
}

#[test]
fn ingest_all_bypasses_pagination() {
    let plan = plan_command(Commands::Ingest {
        all: true,
        limit: 200,
        offset: 40,
        file_path: "out.json".to_string(),
    });
    match plan {
        RunPlan::IngestAll { file_path } => assert_eq!(file_path, "out.json"),
        _ => panic!("expected a whole-collection plan"),
    }
}

#[test]
fn pagination_defaults_match_the_command_line() {
    assert_eq!(DEFAULT_LIMIT, 200);
    assert_eq!(DEFAULT_OFFSET, 0);
}
