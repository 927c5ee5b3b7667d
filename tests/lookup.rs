use genre_lookup::labels::{add_item_labels, append_unique, contains_label};
use genre_lookup::lookup::{Lookup, Outcome, Reply, Request, Stage, Step, DEFAULT_DELAY_MS};
use genre_lookup::query::{SearchQuery, UsageError};

fn strings(v: &[&str]) -> Vec<String> {
    v.iter().map(|s| s.to_string()).collect()
}

fn query(artist: &str, title: &str) -> SearchQuery {
    SearchQuery { artist: artist.to_string(), title: title.to_string() }
}

fn labels(genres: Option<&[&str]>, tags: Option<&[&str]>) -> Reply {
    Reply::Labels { genres: genres.map(strings), tags: tags.map(strings) }
}

fn sent(step: Step) -> Request {
    match step {
        Step::Send { request } => request,
        Step::Done { .. } => panic!("the lookup ended early"),
    }
}

fn outcome(step: Step) -> Outcome {
    match step {
        Step::Done { outcome } => outcome,
        Step::Send { .. } => panic!("the lookup asked for more"),
    }
}

fn expect_id(request: Request, kind: Stage, expected: &str) {
    let (k, id) = match request {
        Request::Search { query } => (Stage::Search, query),
        Request::RecordingLabels { id } => (Stage::RecordingLabels, id),
        Request::RecordingReleases { id } => (Stage::RecordingReleases, id),
        Request::ReleaseLabels { id } => (Stage::ReleaseLabels, id),
    };
    assert_eq!(k, kind);
    assert_eq!(id, expected);
}

fn genres(o: Outcome) -> Vec<String> {
    match o {
        Outcome::Genres { labels } => labels,
        _ => panic!("no labels"),
    }
}

#[test]
fn scenario_labels_on_recording() {
    let (mut l, first) = Lookup::start(&query("Daft Punk", "Harder Better Faster Stronger"), DEFAULT_DELAY_MS);
    expect_id(
        first,
        Stage::Search,
        "recording:\"Harder Better Faster Stronger\" AND artist:\"Daft Punk\"",
    );
    let next = sent(l.step(Reply::Recordings { ids: strings(&["rec-1"]) }));
    expect_id(next, Stage::RecordingLabels, "rec-1");
    let end = l.step(labels(Some(&["Electronic"]), Some(&["French House"])));
    assert!(l.is_finished());
    assert_eq!(genres(outcome(end)), strings(&["Electronic", "French House"]));
}

#[test]
fn scenario_fallback_to_releases() {
    let (mut l, _) = Lookup::start(&query("A", "B"), DEFAULT_DELAY_MS);
    expect_id(sent(l.step(Reply::Recordings { ids: strings(&["rec-2"]) })), Stage::RecordingLabels, "rec-2");
    expect_id(sent(l.step(labels(None, None))), Stage::RecordingReleases, "rec-2");
    let r = l.step(Reply::Releases { releases: Some(strings(&["rel-1", "rel-2"])) });
    expect_id(sent(r), Stage::ReleaseLabels, "rel-1");
    expect_id(sent(l.step(labels(Some(&["Soundtrack"]), None))), Stage::ReleaseLabels, "rel-2");
    let end = l.step(labels(None, Some(&["Soundtrack", "Orchestral"])));
    assert_eq!(genres(outcome(end)), strings(&["Soundtrack", "Orchestral"]));
}

#[test]
fn scenario_no_match() {
    let (mut l, _) = Lookup::start(&query("Nobody", "Nothing"), DEFAULT_DELAY_MS);
    let end = l.step(Reply::Recordings { ids: Vec::new() });
    assert!(matches!(outcome(end), Outcome::NoMatch));
    assert!(l.is_finished());
}

#[test]
fn dedup_across_recordings() {
    let (mut l, _) = Lookup::start(&query("A", "B"), DEFAULT_DELAY_MS);
    expect_id(sent(l.step(Reply::Recordings { ids: strings(&["a", "b"]) })), Stage::RecordingLabels, "a");
    expect_id(sent(l.step(labels(Some(&["Rock", "Pop"]), None))), Stage::RecordingLabels, "b");
    let end = l.step(labels(None, Some(&["Pop", "Jazz"])));
    assert_eq!(genres(outcome(end)), strings(&["Rock", "Pop", "Jazz"]));
}

#[test]
fn labels_on_a_later_recording_skip_fallback() {
    let (mut l, _) = Lookup::start(&query("A", "B"), DEFAULT_DELAY_MS);
    sent(l.step(Reply::Recordings { ids: strings(&["a", "b"]) }));
    expect_id(sent(l.step(labels(Some(&[]), None))), Stage::RecordingLabels, "b");
    let end = l.step(labels(None, Some(&["Funk"])));
    assert_eq!(genres(outcome(end)), strings(&["Funk"]));
}

#[test]
fn releases_of_every_recording_are_harvested() {
    let (mut l, _) = Lookup::start(&query("A", "B"), DEFAULT_DELAY_MS);
    sent(l.step(Reply::Recordings { ids: strings(&["a", "b"]) }));
    sent(l.step(labels(None, None)));
    expect_id(sent(l.step(labels(None, None))), Stage::RecordingReleases, "a");
    let r = l.step(Reply::Releases { releases: Some(strings(&["x"])) });
    expect_id(sent(r), Stage::RecordingReleases, "b");
    let r = l.step(Reply::Releases { releases: Some(strings(&["x", "y"])) });
    expect_id(sent(r), Stage::ReleaseLabels, "x");
    expect_id(sent(l.step(labels(Some(&["Pop"]), None))), Stage::ReleaseLabels, "x");
    expect_id(sent(l.step(labels(Some(&["Pop"]), None))), Stage::ReleaseLabels, "y");
    let end = l.step(labels(Some(&["Rock"]), Some(&["Pop"])));
    assert_eq!(genres(outcome(end)), strings(&["Pop", "Rock"]));
}

#[test]
fn no_genres_anywhere() {
    let (mut l, _) = Lookup::start(&query("A", "B"), DEFAULT_DELAY_MS);
    sent(l.step(Reply::Recordings { ids: strings(&["a"]) }));
    sent(l.step(labels(None, None)));
    sent(l.step(Reply::Releases { releases: Some(strings(&["x"])) }));
    let end = l.step(labels(Some(&[]), Some(&[])));
    assert!(matches!(outcome(end), Outcome::NoGenres));
}

#[test]
fn no_releases_means_no_genres() {
    let (mut l, _) = Lookup::start(&query("A", "B"), DEFAULT_DELAY_MS);
    sent(l.step(Reply::Recordings { ids: strings(&["a"]) }));
    sent(l.step(labels(None, None)));
    let end = l.step(Reply::Releases { releases: Some(Vec::new()) });
    assert!(matches!(outcome(end), Outcome::NoGenres));
}

#[test]
fn absent_release_list_is_a_failure() {
    let (mut l, _) = Lookup::start(&query("A", "B"), DEFAULT_DELAY_MS);
    sent(l.step(Reply::Recordings { ids: strings(&["a"]) }));
    sent(l.step(labels(None, None)));
    let end = l.step(Reply::Releases { releases: None });
    assert!(matches!(outcome(end), Outcome::ServiceFailure));
}

#[test]
fn failed_search_is_a_failure() {
    let (mut l, _) = Lookup::start(&query("A", "B"), DEFAULT_DELAY_MS);
    assert!(matches!(outcome(l.step(Reply::Failed)), Outcome::ServiceFailure));
}

#[test]
fn failed_fetch_is_a_failure() {
    let (mut l, _) = Lookup::start(&query("A", "B"), DEFAULT_DELAY_MS);
    sent(l.step(Reply::Recordings { ids: strings(&["a", "b"]) }));
    assert!(matches!(outcome(l.step(Reply::Failed)), Outcome::ServiceFailure));
}

#[test]
fn unexpected_reply_is_a_failure() {
    let (mut l, _) = Lookup::start(&query("A", "B"), DEFAULT_DELAY_MS);
    sent(l.step(Reply::Recordings { ids: strings(&["a"]) }));
    let end = l.step(Reply::Releases { releases: Some(strings(&["x"])) });
    assert!(matches!(outcome(end), Outcome::ServiceFailure));
}

#[test]
fn delay_is_kept() {
    let (l, _) = Lookup::start(&query("A", "B"), 1200);
    assert_eq!(l.delay_ms(), 1200);
    assert_eq!(DEFAULT_DELAY_MS, 500);
}

#[test]
fn query_without_spaces_is_unquoted() {
    let q = query("Adele", "Hello");
    assert_eq!(q.recording_query(), "recording:Hello AND artist:Adele");
}

#[test]
fn arguments_give_the_query() {
    let q = SearchQuery::from_args(&strings(&["prog", "Daft Punk", "One More Time"])).unwrap();
    assert_eq!(q.artist, "Daft Punk");
    assert_eq!(q.title, "One More Time");
}

#[test]
fn missing_arguments_are_refused() {
    assert_eq!(SearchQuery::from_args(&strings(&["prog", "Daft Punk"])).err(), Some(UsageError::MissingArguments));
    assert_eq!(SearchQuery::from_args(&strings(&["prog"])).err(), Some(UsageError::MissingArguments));
}

#[test]
fn empty_arguments_are_refused() {
    assert_eq!(SearchQuery::from_args(&strings(&["prog", "", "x"])).err(), Some(UsageError::EmptyArgument));
    assert_eq!(SearchQuery::from_args(&strings(&["prog", "x", ""])).err(), Some(UsageError::EmptyArgument));
}

#[test]
fn append_unique_keeps_first_seen_order() {
    let mut acc = strings(&["Rock"]);
    append_unique(&mut acc, strings(&["Pop", "Rock", "Jazz", "Pop"]));
    assert_eq!(acc, strings(&["Rock", "Pop", "Jazz"]));
}

#[test]
fn inserting_twice_is_inserting_once() {
    let mut once = strings(&["Rock"]);
    append_unique(&mut once, strings(&["Pop", "Jazz"]));
    let mut twice = once.clone();
    append_unique(&mut twice, strings(&["Pop", "Jazz"]));
    assert_eq!(once, twice);
}

#[test]
fn item_labels_put_genres_before_tags() {
    let mut acc = Vec::new();
    add_item_labels(&mut acc, Some(strings(&["b", "a"])), Some(strings(&["a", "c"])));
    assert_eq!(acc, strings(&["b", "a", "c"]));
    add_item_labels(&mut acc, None, None);
    assert_eq!(acc, strings(&["b", "a", "c"]));
}

#[test]
fn contains_label_compares_text() {
    let v = strings(&["Pop", "Rock"]);
    assert!(contains_label(&v, &"Rock".to_string()));
    assert!(!contains_label(&v, &"rock".to_string()));
    assert!(!contains_label(&Vec::new(), &"Pop".to_string()));
}
