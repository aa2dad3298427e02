use stockpile::errors::FetchError;
use stockpile::ingest::{IngestRun, Phase};
use stockpile::models::{PokeApiResponse, PokemonListItem};

fn list_response(count: i32, names: &[&str]) -> PokeApiResponse {
    let results = names
        .iter()
        .map(|n| PokemonListItem {
            name: n.to_string(),
            url: format!("http://pokeapi.co/api/v2/pokemon/{}", n),
        })
        .collect();
    PokeApiResponse { count, next: None, previous: None, results }
}

fn body(id: u32) -> String {
    format!("{{\"id\":{}}}", id)
}

#[test]
fn probe_window_asks_for_one_item() {
    let w = IngestRun::probe_window();
    assert_eq!(w.limit, 1);
    assert_eq!(w.offset, 0);
}

#[test]
fn full_run_over_five_items() {
    let mut run = IngestRun::new(5, 0);
    assert_eq!(run.phase, Phase::Idle);

    run.on_count(Ok(list_response(5, &[]))).unwrap();
    assert_eq!(run.phase, Phase::CountKnown);
    assert_eq!(run.total_count, 5);

    run.plan_windows().unwrap();
    assert_eq!(run.phase, Phase::WindowsPlanned);
    assert_eq!(run.windows.len(), 1);
    assert_eq!(run.windows[0].limit, 5);
    assert_eq!(run.windows[0].offset, 0);

    run.begin_fetching();
    assert_eq!(run.phase, Phase::Fetching);

    let items = run.on_window_result(Ok(list_response(5, &["a", "b", "c", "d", "e"])));
    assert_eq!(items.len(), 5);
    assert_eq!(run.listed, 5);
    assert_eq!(run.pending, 5);

    let outcomes: Vec<Result<String, FetchError>> = (1..=5).map(|i| Ok(body(i))).collect();
    run.on_window_details(outcomes);
    assert_eq!(run.retrieved, 5);
    assert_eq!(run.skipped_items, 0);
    assert!(run.is_fetch_complete());

    run.finish_fetching();
    assert_eq!(run.phase, Phase::Merged);
    assert_eq!(run.finish_message(), "Fetched 5 pokemon");

    let data = run.finish();
    assert_eq!(run.phase, Phase::Done);
    assert_eq!(data.len(), 5);
    assert_eq!(
        data.to_json(),
        "{\"results\":[{\"id\":1},{\"id\":2},{\"id\":3},{\"id\":4},{\"id\":5}]}"
    );
}

#[test]
fn count_probe_failure_is_fatal() {
    let mut run = IngestRun::new(5, 0);
    let out = run.on_count(Err(FetchError::Network));
    assert!(matches!(out, Err(FetchError::Network)));
    assert_eq!(run.phase, Phase::Failed);
    assert_eq!(run.failure, Some(FetchError::Network));
    assert_eq!(run.results.results.len(), 0);
}

#[test]
fn invalid_limit_fails_at_planning() {
    let mut run = IngestRun::new(0, 0);
    run.on_count(Ok(list_response(100, &[]))).unwrap();
    let out = run.plan_windows();
    assert!(matches!(out, Err(FetchError::InvalidArgument)));
    assert_eq!(run.phase, Phase::Failed);
    assert_eq!(run.failure, Some(FetchError::InvalidArgument));
}

#[test]
fn one_failed_detail_keeps_the_other_records() {
    let mut run = IngestRun::new(5, 0);
    run.on_count(Ok(list_response(5, &[]))).unwrap();
    run.plan_windows().unwrap();
    run.begin_fetching();
    run.on_window_result(Ok(list_response(5, &["a", "b", "c", "d", "e"])));

    let outcomes: Vec<Result<String, FetchError>> = vec![
        Ok(body(1)),
        Ok(body(2)),
        Err(FetchError::Network),
        Ok(body(4)),
        Ok(body(5)),
    ];
    run.on_window_details(outcomes);

    assert_eq!(run.retrieved, 4);
    assert_eq!(run.skipped_items, 1);
    assert!(run.is_fetch_complete());
    run.finish_fetching();
    assert_eq!(run.finish_message(), "Fetched 4 pokemon");
    let data = run.finish();
    assert_eq!(data.len(), 4);
}

#[test]
fn invalid_body_is_dropped_as_parse_failure() {
    let mut run = IngestRun::new(2, 0);
    run.on_count(Ok(list_response(2, &[]))).unwrap();
    run.plan_windows().unwrap();
    run.begin_fetching();
    run.on_window_result(Ok(list_response(2, &["a", "b"])));

    let ok = run.on_detail_result(Ok(body(1)));
    assert!(ok.is_ok());
    let bad = run.on_detail_result(Ok("{not json".to_string()));
    assert!(matches!(bad, Err(FetchError::Parse)));
    assert_eq!(run.retrieved, 1);
    assert_eq!(run.skipped_items, 1);
}

#[test]
fn failed_window_is_skipped_whole() {
    let mut run = IngestRun::new(2, 0);
    run.on_count(Ok(list_response(4, &[]))).unwrap();
    run.plan_windows().unwrap();
    assert_eq!(run.windows.len(), 2);
    run.begin_fetching();

    let items = run.on_window_result(Err(FetchError::Network));
    assert!(items.is_empty());
    assert_eq!(run.skipped_windows, 1);

    run.on_window_result(Ok(list_response(4, &["c", "d"])));
    run.on_window_details(vec![Ok(body(3)), Ok(body(4))]);
    assert!(run.is_fetch_complete());
    run.finish_fetching();
    let data = run.finish();
    assert_eq!(data.len(), 2);
    assert_eq!(run.finish_message(), "Fetched 2 pokemon");
}

#[test]
fn arrival_order_only_reorders_the_records() {
    let forward: Vec<Result<String, FetchError>> =
        vec![Ok(body(1)), Err(FetchError::Network), Ok(body(2)), Ok(body(3))];
    let backward: Vec<Result<String, FetchError>> =
        vec![Ok(body(3)), Ok(body(2)), Err(FetchError::Network), Ok(body(1))];

    let mut collected = Vec::new();
    for outcomes in [forward, backward] {
        let mut run = IngestRun::new(4, 0);
        run.on_count(Ok(list_response(4, &[]))).unwrap();
        run.plan_windows().unwrap();
        run.begin_fetching();
        run.on_window_result(Ok(list_response(4, &["a", "b", "c", "d"])));
        run.on_window_details(outcomes);
        run.finish_fetching();
        let data = run.finish();
        let mut bodies: Vec<String> =
            data.results.iter().map(|p| p.body().clone()).collect();
        bodies.sort();
        collected.push(bodies);
    }
    assert_eq!(collected[0], collected[1]);
    assert_eq!(collected[0].len(), 3);
}

#[test]
fn whole_collection_plan_uses_one_window() {
    let mut run = IngestRun::new_all();
    assert_eq!(run.limit, 10000);
    assert_eq!(run.offset, 0);
    run.on_count(Ok(list_response(42, &[]))).unwrap();
    run.plan_windows().unwrap();
    assert_eq!(run.windows.len(), 1);
    assert_eq!(run.windows[0].limit, 10000);
    assert_eq!(run.windows[0].offset, 0);
}
