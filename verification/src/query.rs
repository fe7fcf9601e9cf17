//! Query shaping and suggestion extraction.
//!
//! A query always restricts relevance to a fixed set of searchable fields.
//! Suggestion extraction turns a batch of raw hits into deduplicated,
//! human-meaningful suggestion lines.

use vstd::prelude::*;

use crate::page::WikiPage;
use crate::text::{
    clean_spec, glob_match, glob_matches, lower_of, spec_lines, split_lines, strip_punctuation,
    to_lower, trim, trim_spec,
};

verus! {

/// Placeholder for per-facet statistics of a search result.
#[derive(Debug)]
pub struct FacetStats {}

/// Normalized response envelope of one search: the ordered hits plus the
/// pagination metadata that the engine reported. All metadata is optional
/// except the processing time and the echoed query, since not every search
/// mode returns every statistic.
#[derive(Debug)]
pub struct SerializableSearchResult {
    pub hits: Vec<WikiPage>,
    pub offset: Option<usize>,
    pub limit: Option<usize>,
    pub estimated_total_hits: Option<usize>,
    pub page: Option<usize>,
    pub hits_per_page: Option<usize>,
    pub total_hits: Option<usize>,
    pub total_pages: Option<usize>,
    pub processing_time_ms: usize,
    pub query: String,
    pub index_uid: Option<String>,
}

/// Output of a query: deduplicated suggestion lines, the full ordered hit
/// list, and the total-hit count.
#[derive(Debug)]
pub struct PageSearchResponse {
    pub suggestions: Vec<String>,
    pub results: Vec<WikiPage>,
    pub total_hits: usize,
}

/// The views of a sequence of strings.
pub open spec fn string_views(v: Seq<String>) -> Seq<Seq<char>> {
    v.map_values(|l: String| l@)
}

/// The glob pattern that a query is matched with: `*<query>*`.
pub open spec fn star_pattern(q: Seq<char>) -> Seq<char> {
    "*"@ + q + "*"@
}

/// A line suggests the (lowercased) query when it glob-matches
/// `*<query>*` case-insensitively and is not, after trimming, exactly the
/// query itself: an exact match carries no new information.
pub open spec fn line_candidate(line: Seq<char>, qlow: Seq<char>) -> bool {
    glob_matches(star_pattern(qlow), lower_of(line)) && trim_spec(line) != trim_spec(qlow)
}

/// The first line of `lines` that suggests the query, if any.
pub open spec fn first_candidate(lines: Seq<Seq<char>>, qlow: Seq<char>) -> Option<Seq<char>>
    decreases lines.len(),
{
    if lines.len() == 0 {
        Option::None
    } else if line_candidate(lines[0], qlow) {
        Option::Some(lines[0])
    } else {
        first_candidate(lines.drop_first(), qlow)
    }
}

/// At most one suggestion is taken per hit: the first candidate line of the
/// hit's cleaned content.
pub open spec fn hit_suggestion(content: Seq<char>, qlow: Seq<char>) -> Option<Seq<char>> {
    first_candidate(spec_lines(clean_spec(content)), qlow)
}

/// The candidate lines of a batch of hits, one per suggesting hit, in hit
/// order.
pub open spec fn candidates(hits: Seq<WikiPage>, qlow: Seq<char>) -> Seq<Seq<char>>
    decreases hits.len(),
{
    if hits.len() == 0 {
        Seq::empty()
    } else {
        let prev = candidates(hits.drop_last(), qlow);
        match hit_suggestion(hits.last().content@, qlow) {
            Option::Some(l) => prev.push(l),
            Option::None => prev,
        }
    }
}

/// First-occurrence deduplication, keeping order.
pub open spec fn dedup(s: Seq<Seq<char>>) -> Seq<Seq<char>>
    decreases s.len(),
{
    if s.len() == 0 {
        Seq::empty()
    } else {
        let d = dedup(s.drop_last());
        if d.contains(s.last()) {
            d
        } else {
            d.push(s.last())
        }
    }
}

/// The suggestions extracted from a batch of hits for a query: the distinct
/// candidate lines, in first-occurrence order.
pub open spec fn spec_suggestions(hits: Seq<WikiPage>, query: Seq<char>) -> Seq<Seq<char>> {
    dedup(candidates(hits, lower_of(query)))
}

pub proof fn lemma_dedup_no_duplicates(s: Seq<Seq<char>>)
    ensures
        dedup(s).no_duplicates(),
    decreases s.len(),
{
    if s.len() > 0 {
        lemma_dedup_no_duplicates(s.drop_last());
        let d = dedup(s.drop_last());
        if !d.contains(s.last()) {
            let d2 = d.push(s.last());
            assert forall|i: int, j: int| 0 <= i < j < d2.len() implies d2[i] != d2[j] by {
                if j == d.len() {
                    assert(d.contains(d[i]));
                }
            }
        }
    }
}

pub proof fn lemma_dedup_membership(s: Seq<Seq<char>>)
    ensures
        forall|k: int| 0 <= k < dedup(s).len() ==> s.contains(#[trigger] dedup(s)[k]),
    decreases s.len(),
{
    if s.len() > 0 {
        lemma_dedup_membership(s.drop_last());
        assert forall|k: int| 0 <= k < dedup(s).len() implies s.contains(#[trigger] dedup(s)[k]) by {
            let d = dedup(s.drop_last());
            if k < d.len() {
                assert(s.drop_last().contains(d[k]));
                let m = choose|m: int| 0 <= m < s.drop_last().len() && s.drop_last()[m] == d[k];
                assert(s.drop_last()[m] == s[m]);
                assert(s[m] == d[k]);
            } else {
                assert(s[s.len() - 1] == s.last());
            }
        }
    }
}

pub proof fn lemma_first_candidate_is_candidate(lines: Seq<Seq<char>>, qlow: Seq<char>)
    ensures
        first_candidate(lines, qlow) matches Option::Some(l) ==> line_candidate(l, qlow),
    decreases lines.len(),
{
    if lines.len() > 0 && !line_candidate(lines[0], qlow) {
        lemma_first_candidate_is_candidate(lines.drop_first(), qlow);
    }
}

pub proof fn lemma_candidates_are_candidates(hits: Seq<WikiPage>, qlow: Seq<char>)
    ensures
        forall|k: int|
            0 <= k < candidates(hits, qlow).len() ==> line_candidate(
                #[trigger] candidates(hits, qlow)[k],
                qlow,
            ),
    decreases hits.len(),
{
    if hits.len() > 0 {
        lemma_candidates_are_candidates(hits.drop_last(), qlow);
        lemma_first_candidate_is_candidate(
            spec_lines(clean_spec(hits.last().content@)),
            qlow,
        );
        let prev = candidates(hits.drop_last(), qlow);
        let cs = candidates(hits, qlow);
        assert forall|k: int| 0 <= k < cs.len() implies line_candidate(#[trigger] cs[k], qlow) by {
            match hit_suggestion(hits.last().content@, qlow) {
                Option::Some(l) => {
                    if k < prev.len() {
                        assert(cs[k] == prev[k]);
                    } else {
                        assert(cs[k] == l);
                    }
                },
                Option::None => {
                    assert(cs[k] == prev[k]);
                },
            }
        }
    }
}

/// Whether `v` already holds a string whose characters are those of `x`.
fn contains_string(v: &Vec<String>, x: &String) -> (r: bool)
    ensures
        r == string_views(v@).contains(x@),
{
    let mut k: usize = 0;
    while k < v.len()
        invariant
            k <= v.len(),
            forall|m: int| 0 <= m < k ==> string_views(v@)[m] != x@,
        decreases v.len() - k,
    {
        if v[k] == *x {
            assert(string_views(v@)[k as int] == x@);
            return true;
        }
        assert(string_views(v@)[k as int] == v@[k as int]@);
        k += 1;
    }
    proof {
        if string_views(v@).contains(x@) {
            let m = choose|m: int| 0 <= m < string_views(v@).len() && string_views(v@)[m] == x@;
        }
    }
    false
}

/// The first candidate line of one hit's content, if any: the content is
/// cleaned of punctuation, split into lines, and the first line that
/// glob-matches the query case-insensitively without being an exact trimmed
/// match of it is taken.
fn find_candidate(content: &str, qlow: &String, pattern: &String, qtrim: &String) -> (r: Option<
    String,
>)
    requires
        pattern@ == star_pattern(qlow@),
        qtrim@ == trim_spec(qlow@),
    ensures
        match r {
            Option::Some(l) => hit_suggestion(content@, qlow@) == Option::Some(l@),
            Option::None => hit_suggestion(content@, qlow@) is None,
        },
{
    let cleaned = strip_punctuation(content);
    let lines = split_lines(cleaned.as_str());
    let ghost lv = spec_lines(clean_spec(content@));
    assert(string_views(lines@) == lv);
    let mut j: usize = 0;
    proof {
        assert(lv.skip(0) =~= lv);
    }
    while j < lines.len()
        invariant
            j <= lines.len(),
            string_views(lines@) == lv,
            lv == spec_lines(clean_spec(content@)),
            pattern@ == star_pattern(qlow@),
            qtrim@ == trim_spec(qlow@),
            first_candidate(lv.skip(j as int), qlow@) == first_candidate(lv, qlow@),
        decreases lines.len() - j,
    {
        proof {
            assert(lv.skip(j as int)[0] == lv[j as int]);
            assert(lv[j as int] == lines@[j as int]@);
        }
        let lower_line = to_lower(lines[j].as_str());
        let matched = glob_match(pattern.as_str(), lower_line.as_str());
        if matched {
            let line_trimmed = trim(lines[j].as_str());
            if !(line_trimmed == *qtrim) {
                proof {
                    assert(line_candidate(lv.skip(j as int)[0], qlow@));
                    assert(first_candidate(lv.skip(j as int), qlow@) == Option::Some(
                        lv[j as int],
                    ));
                }
                let line = lines[j].as_str().to_owned();
                proof {
                    assert(line@ == lv[j as int]);
                    assert(hit_suggestion(content@, qlow@) == Option::Some(line@));
                }
                return Option::Some(line);
            }
        }
        proof {
            assert(!line_candidate(lv[j as int], qlow@));
            assert(lv.skip(j as int).drop_first() =~= lv.skip(j as int + 1));
        }
        j += 1;
    }
    proof {
        assert(lv.skip(lines@.len() as int) =~= Seq::<Seq<char>>::empty());
    }
    Option::None
}

impl PageSearchResponse {
    /// Turns a normalized search result into the response handed back to the
    /// caller: the hits pass through unchanged, the total-hit count defaults
    /// to the hit-list length when the engine reported none, and the
    /// suggestions are the distinct candidate lines of the hits.
    ///
    /// The suggestion order is a documented choice: first occurrence in hit
    /// order. Callers should rely only on the set of suggestions. No
    /// suggestion is ever, after trimming, exactly the lowercased query, and
    /// no suggestion appears twice.
    pub fn from(input: SerializableSearchResult) -> (r: PageSearchResponse)
        ensures
            r.results@ == input.hits@,
            input.total_hits matches Some(t) ==> r.total_hits == t,
            input.total_hits is None ==> r.total_hits == input.hits@.len(),
            string_views(r.suggestions@) == spec_suggestions(input.hits@, input.query@),
            string_views(r.suggestions@).no_duplicates(),
            forall|k: int|
                0 <= k < r.suggestions@.len() ==> trim_spec(#[trigger] r.suggestions@[k]@)
                    != trim_spec(lower_of(input.query@)),
    {
        let hits = input.hits;
        let query = input.query;
        let total = match input.total_hits {
            Option::Some(t) => t,
            Option::None => hits.len(),
        };
        let qlow = to_lower(query.as_str());
        let ghost ql = lower_of(query@);
        let pattern = String::from_str("*").concat(qlow.as_str()).concat("*");
        proof {
            assert(pattern@ =~= star_pattern(ql));
        }
        let qtrim = trim(qlow.as_str());
        let mut suggestions: Vec<String> = Vec::new();
        let mut i: usize = 0;
        proof {
            assert(hits@.take(0) =~= Seq::<WikiPage>::empty());
            assert(candidates(hits@.take(0), ql) =~= Seq::<Seq<char>>::empty());
            assert(dedup(candidates(hits@.take(0), ql)) =~= Seq::<Seq<char>>::empty());
            assert(string_views(suggestions@) =~= Seq::<Seq<char>>::empty());
        }
        while i < hits.len()
            invariant
                i <= hits.len(),
                qlow@ == ql,
                pattern@ == star_pattern(ql),
                qtrim@ == trim_spec(ql),
                string_views(suggestions@) == dedup(candidates(hits@.take(i as int), ql)),
            decreases hits.len() - i,
        {
            let cand = find_candidate(hits[i].content.as_str(), &qlow, &pattern, &qtrim);
            proof {
                assert(hits@.take(i as int + 1).drop_last() =~= hits@.take(i as int));
                assert(hits@.take(i as int + 1).last() == hits@[i as int]);
            }
            match cand {
                Option::Some(l) => {
                    let ghost c = candidates(hits@.take(i as int), ql);
                    proof {
                        assert(candidates(hits@.take(i as int + 1), ql) == c.push(l@));
                        assert(c.push(l@).drop_last() =~= c);
                        assert(c.push(l@).last() == l@);
                        assert(dedup(c.push(l@)) == if dedup(c).contains(l@) {
                            dedup(c)
                        } else {
                            dedup(c).push(l@)
                        });
                    }
                    if !contains_string(&suggestions, &l) {
                        suggestions.push(l);
                        proof {
                            assert(string_views(suggestions@) =~= dedup(
                                candidates(hits@.take(i as int + 1), ql),
                            ));
                        }
                    }
                },
                Option::None => {},
            }
            i += 1;
        }
        proof {
            assert(hits@.take(hits@.len() as int) =~= hits@);
            lemma_dedup_no_duplicates(candidates(hits@, ql));
            lemma_dedup_membership(candidates(hits@, ql));
            lemma_candidates_are_candidates(hits@, ql);
            assert forall|k: int| 0 <= k < suggestions@.len() implies trim_spec(
                #[trigger] suggestions@[k]@,
            ) != trim_spec(ql) by {
                let c = candidates(hits@, ql);
                assert(string_views(suggestions@)[k] == suggestions@[k]@);
                assert(c.contains(suggestions@[k]@));
                let m = choose|m: int| 0 <= m < c.len() && c[m] == suggestions@[k]@;
                assert(line_candidate(c[m], ql));
            }
        }
        PageSearchResponse { suggestions, results: hits, total_hits: total }
    }
}

/// A shaped search request: the query text together with the fixed set of
/// fields that relevance is scoped to.
pub struct SearchRequest {
    pub query: String,
    pub attributes_to_search_on: Vec<String>,
}

/// The fixed searchable-field projection: whatever other fields the index
/// grows, query relevance stays scoped to these five human-facing fields.
pub fn searchable_attributes() -> (r: Vec<String>)
    ensures
        r@.len() == 5,
        r@[0]@ == "title"@,
        r@[1]@ == "description"@,
        r@[2]@ == "content"@,
        r@[3]@ == "tags"@,
        r@[4]@ == "author_name"@,
{
    let mut v: Vec<String> = Vec::new();
    v.push(String::from_str("title"));
    v.push(String::from_str("description"));
    v.push(String::from_str("content"));
    v.push(String::from_str("tags"));
    v.push(String::from_str("author_name"));
    v
}

/// Shapes the search request for a query: the query text passes through
/// unchanged and the searchable fields are always exactly the fixed five.
pub fn build_search_request(q: &str) -> (r: SearchRequest)
    ensures
        r.query@ == q@,
        r.attributes_to_search_on@.len() == 5,
        r.attributes_to_search_on@[0]@ == "title"@,
        r.attributes_to_search_on@[1]@ == "description"@,
        r.attributes_to_search_on@[2]@ == "content"@,
        r.attributes_to_search_on@[3]@ == "tags"@,
        r.attributes_to_search_on@[4]@ == "author_name"@,
{
    SearchRequest { query: q.to_owned(), attributes_to_search_on: searchable_attributes() }
}

} // verus!
