use stockpile::errors::FetchError;
use stockpile::fetcher::{accept_detail, PokeFetcher};
use stockpile::models::PokemonId;
use stockpile::paginator::ListWindow;

#[test]
fn default_base_url_is_the_public_api() {
    let f = PokeFetcher::new();
    assert_eq!(f.base_url(), "http://pokeapi.co/api/v2");
}

#[test]
fn list_url_carries_limit_and_offset() {
    let f = PokeFetcher::new();
    let url = f.list_url(&ListWindow { limit: 200, offset: 400 });
    assert_eq!(url, "http://pokeapi.co/api/v2/pokemon?limit=200&offset=400");
}

#[test]
fn list_url_respects_a_custom_base() {
    let f = PokeFetcher::with_base_url("http://localhost:8080/api".to_string());
    let url = f.list_url(&ListWindow { limit: 5, offset: 0 });
    assert_eq!(url, "http://localhost:8080/api/pokemon?limit=5&offset=0");
}

#[test]
fn detail_url_appends_the_identifier() {
    let f = PokeFetcher::new();
    assert_eq!(f.detail_url_for_id("pikachu"), "http://pokeapi.co/api/v2/pokemon/pikachu");
    assert_eq!(f.detail_url_for_id("25"), "http://pokeapi.co/api/v2/pokemon/25");
    assert_eq!(
        f.detail_url_for(&PokemonId::new(25)),
        "http://pokeapi.co/api/v2/pokemon/25"
    );
}

#[test]
fn detail_urls_are_deterministic() {
    let f = PokeFetcher::new();
    assert_eq!(f.detail_url_for_id("25"), f.detail_url_for_id("25"));
}

#[test]
fn transport_errors_pass_through_detail_classification() {
    assert!(matches!(
        accept_detail(Err(FetchError::Network)),
        Err(FetchError::Network)
    ));
}

#[test]
fn valid_detail_bodies_become_records() {
    let p = accept_detail(Ok("{\"id\":1}".to_string())).unwrap();
    assert_eq!(p.body(), "{\"id\":1}");
}

#[test]
fn malformed_detail_bodies_are_parse_failures() {
    assert!(matches!(
        accept_detail(Ok("not json at all".to_string())),
        Err(FetchError::Parse)
    ));
}
