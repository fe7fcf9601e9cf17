use wiki_search::page::WikiPage;
use wiki_search::query::{
    build_search_request, searchable_attributes, PageSearchResponse, SerializableSearchResult,
};

fn hit_with_content(id: u64, content: &str) -> WikiPage {
    WikiPage {
        id,
        path: format!("/p/{}", id),
        hash: format!("h{}", id),
        title: "t".to_string(),
        description: "d".to_string(),
        is_private: false,
        is_published: true,
        content: content.to_string(),
        content_type: "markdown".to_string(),
        created_at: "now".to_string(),
        updated_at: "now".to_string(),
        editor_key: "markdown".to_string(),
        locale_code: "en".to_string(),
        author_id: 1,
        creator_id: 1,
    }
}

fn result_for(query: &str, hits: Vec<WikiPage>) -> SerializableSearchResult {
    SerializableSearchResult {
        hits,
        offset: None,
        limit: None,
        estimated_total_hits: None,
        page: None,
        hits_per_page: None,
        total_hits: None,
        total_pages: None,
        processing_time_ms: 1,
        query: query.to_string(),
        index_uid: None,
    }
}

#[test]
fn install_scenario_takes_first_non_exact_line() {
    let hits = vec![hit_with_content(1, "How to install:\nRun the installer.\ninstall")];
    let response = PageSearchResponse::from(result_for("install", hits));
    // punctuation is stripped before splitting, so the colon is gone
    assert_eq!(response.suggestions, vec!["How to install".to_string()]);
}

#[test]
fn exact_match_is_excluded() {
    let hits = vec![hit_with_content(1, "install")];
    let response = PageSearchResponse::from(result_for("install", hits));
    assert!(response.suggestions.is_empty());
}

#[test]
fn exact_match_after_trimming_is_excluded() {
    let hits = vec![hit_with_content(1, "   install  ")];
    let response = PageSearchResponse::from(result_for("install", hits));
    assert!(response.suggestions.is_empty());
}

#[test]
fn identical_candidates_are_deduplicated() {
    let hits = vec![
        hit_with_content(1, "alpha install beta"),
        hit_with_content(2, "alpha install beta"),
    ];
    let response = PageSearchResponse::from(result_for("install", hits));
    assert_eq!(response.suggestions.len(), 1);
    assert_eq!(response.suggestions[0], "alpha install beta");
}

#[test]
fn at_most_one_suggestion_per_hit() {
    let hits = vec![hit_with_content(1, "first install line\nsecond install line")];
    let response = PageSearchResponse::from(result_for("install", hits));
    assert_eq!(response.suggestions, vec!["first install line".to_string()]);
}

#[test]
fn matching_is_case_insensitive() {
    let hits = vec![hit_with_content(1, "INSTALL THE TOOL")];
    let response = PageSearchResponse::from(result_for("install", hits));
    assert_eq!(response.suggestions, vec!["INSTALL THE TOOL".to_string()]);
}

#[test]
fn punctuation_is_stripped_before_matching() {
    let hits = vec![hit_with_content(1, "great in,stall guide")];
    let response = PageSearchResponse::from(result_for("install", hits));
    assert_eq!(response.suggestions, vec!["great install guide".to_string()]);
}

#[test]
fn unrelated_content_yields_no_suggestion() {
    let hits = vec![hit_with_content(1, "nothing to see here")];
    let response = PageSearchResponse::from(result_for("install", hits));
    assert!(response.suggestions.is_empty());
}

#[test]
fn glob_metacharacters_in_query_keep_glob_meaning() {
    let hits = vec![hit_with_content(1, "my install guide")];
    let response = PageSearchResponse::from(result_for("i?stall", hits));
    assert_eq!(response.suggestions, vec!["my install guide".to_string()]);
}

#[test]
fn invalid_glob_pattern_matches_nothing() {
    // three stars form an invalid wildcard, so the pattern compiles to
    // nothing and no line can match
    let hits = vec![hit_with_content(1, "star content")];
    let response = PageSearchResponse::from(result_for("*", hits));
    assert!(response.suggestions.is_empty());
}

#[test]
fn carriage_returns_do_not_reach_suggestions() {
    let hits = vec![hit_with_content(1, "alpha install\r\nbeta")];
    let response = PageSearchResponse::from(result_for("install", hits));
    assert_eq!(response.suggestions, vec!["alpha install".to_string()]);
}

#[test]
fn unicode_white_space_trims_like_ascii_space() {
    // a no-break space around the query is white space: the line is still an
    // exact trimmed match and stays excluded
    let hits = vec![hit_with_content(1, "\u{A0}install\u{A0}")];
    let response = PageSearchResponse::from(result_for("install", hits));
    assert!(response.suggestions.is_empty());
}

#[test]
fn total_hits_defaults_to_hit_count() {
    let hits = vec![
        hit_with_content(1, "a install"),
        hit_with_content(2, "b install"),
    ];
    let response = PageSearchResponse::from(result_for("install", hits));
    assert_eq!(response.total_hits, 2);
    assert_eq!(response.results.len(), 2);
}

#[test]
fn reported_total_hits_passes_through() {
    let hits = vec![hit_with_content(1, "a install")];
    let mut result = result_for("install", hits);
    result.total_hits = Some(42);
    let response = PageSearchResponse::from(result);
    assert_eq!(response.total_hits, 42);
}

#[test]
fn results_pass_through_in_order() {
    let hits = vec![hit_with_content(5, "x"), hit_with_content(6, "y")];
    let response = PageSearchResponse::from(result_for("install", hits));
    assert_eq!(response.results[0].id, 5);
    assert_eq!(response.results[1].id, 6);
}

#[test]
fn search_request_has_fixed_field_projection() {
    let request = build_search_request("wiki");
    assert_eq!(request.query, "wiki");
    assert_eq!(
        request.attributes_to_search_on,
        vec![
            "title".to_string(),
            "description".to_string(),
            "content".to_string(),
            "tags".to_string(),
            "author_name".to_string(),
        ]
    );
}

#[test]
fn searchable_attributes_are_the_five_fields() {
    let fields = searchable_attributes();
    assert_eq!(fields.len(), 5);
    assert_eq!(fields[0], "title");
    assert_eq!(fields[4], "author_name");
}
