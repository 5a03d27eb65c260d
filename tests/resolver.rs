use search::engine::Engine;
use search::error::SearchError;

fn engine(url_pattern: &str, pattern: &str, regex: &str, replacement: &str) -> Engine {
    Engine::new("example", url_pattern, pattern, regex, replacement)
}

fn example_engine() -> Engine {
    engine("https://example.com/search?q={q}", "{q}", "\\s+", "+")
}

#[test]
fn spaces_become_plus_in_search_url() {
    let e = example_engine();
    assert_eq!(
        e.url("hello world").unwrap(),
        "https://example.com/search?q=hello+world"
    );
}

#[test]
fn treated_term_fills_template() {
    let e = example_engine();
    assert_eq!(
        e.url_with_treated("hello+world").unwrap(),
        "https://example.com/search?q=hello+world"
    );
}

#[test]
fn runs_of_whitespace_collapse_to_one_replacement() {
    let e = example_engine();
    assert_eq!(
        e.url("  a \t b  ").unwrap(),
        "https://example.com/search?q=+a+b+"
    );
}

#[test]
fn resolving_twice_gives_the_same_url() {
    let e = example_engine();
    let first = e.url("rust verus").unwrap();
    let second = e.url("rust verus").unwrap();
    assert_eq!(first, second);
    let copy = e.clone();
    assert_eq!(copy.url("rust verus").unwrap(), first);
}

#[test]
fn absent_placeholder_leaves_template_unchanged() {
    let e = engine("https://example.com/home", "{q}", "\\s+", "+");
    assert_eq!(e.url("anything at all").unwrap(), "https://example.com/home");
    assert_eq!(e.url("").unwrap(), "https://example.com/home");
    assert_eq!(e.url(".*{q}").unwrap(), "https://example.com/home");
}

#[test]
fn term_metacharacters_are_not_interpreted() {
    let e = engine("https://example.com/?a={q}&b={q}", "{q}", "\\s+", "+");
    assert_eq!(e.url(".*").unwrap(), "https://example.com/?a=.*&b=.*");
}

#[test]
fn placeholder_with_metacharacters_is_literal() {
    let e = engine("https://example.com/?q=(.*)&r=x", "(.*)", "\\s+", "+");
    assert_eq!(e.url("a b").unwrap(), "https://example.com/?q=a+b&r=x");
}

#[test]
fn dollar_in_treated_term_is_kept_as_is() {
    let e = engine("https://example.com/?q={q}", "{q}", "\\s+", "+");
    assert_eq!(e.url("$5 coffee").unwrap(), "https://example.com/?q=$5+coffee");
}

#[test]
fn replacement_may_use_capture_groups() {
    let e = engine("https://example.com/?q={q}", "{q}", "(\\w+)@(\\w+)", "$2-$1");
    assert_eq!(e.url("me@home").unwrap(), "https://example.com/?q=home-me");
}

#[test]
fn no_match_leaves_term_unchanged() {
    let e = engine("https://example.com/?q={q}", "{q}", "\\d+", "#");
    assert_eq!(e.url("plain words").unwrap(), "https://example.com/?q=plain words");
}

#[test]
fn empty_term_is_accepted() {
    let e = example_engine();
    assert_eq!(e.url("").unwrap(), "https://example.com/search?q=");
}

#[test]
fn empty_placeholder_goes_around_every_character() {
    let e = engine("ab", "", "\\s+", "+");
    assert_eq!(e.url("X").unwrap(), "XaXbX");
}

#[test]
fn overlapping_placeholders_are_replaced_from_the_left() {
    let e = engine("aaa", "aa", "\\s+", "+");
    assert_eq!(e.url("Z").unwrap(), "Za");
}

#[test]
fn invalid_regex_is_a_pattern_error() {
    let e = engine("https://example.com/?q={q}", "{q}", "(unclosed", "+");
    assert_eq!(e.url("term"), Err(SearchError::Pattern));
}

#[test]
fn new_engine_keeps_its_fields() {
    let e = Engine::new("ddg", "https://duckduckgo.com/?q={q}", "{q}", " ", "+");
    assert_eq!(e.name, "ddg");
    assert_eq!(e.url_pattern, "https://duckduckgo.com/?q={q}");
    assert_eq!(e.pattern, "{q}");
    assert_eq!(e.regex, " ");
    assert_eq!(e.replacement, "+");
}

#[test]
fn new_engines_get_distinct_identifiers() {
    let a = Engine::new("a", "u", "p", "r", "s");
    let b = Engine::new("a", "u", "p", "r", "s");
    assert_ne!(a.uuid, b.uuid);
    assert_eq!(a.clone().uuid, a.uuid);
}
