use gativideo::filter::{parse, parse_u32, OrderKey, RatingFilter, YearFilter};
use gativideo::text::{chars_of, find};

#[test]
fn parses_all_three_directives() {
    let q = parse("Matrix year:1999 rating:7 order:rating", OrderKey::Latest);
    assert_eq!(q.free_text, "Matrix");
    assert_eq!(q.year, YearFilter::Equal(1999));
    assert_eq!(q.rating, RatingFilter::Min(7));
    assert_eq!(q.order, OrderKey::Rating);
}

#[test]
fn text_without_directives_is_all_free_text() {
    let q = parse("no directives here", OrderKey::Latest);
    assert_eq!(q.free_text, "no directives here");
    assert_eq!(q.year, YearFilter::All);
    assert_eq!(q.rating, RatingFilter::All);
    assert_eq!(q.order, OrderKey::Latest);
}

#[test]
fn unknown_order_falls_back_to_default() {
    let q = parse("x order:bogus", OrderKey::Seeds);
    assert_eq!(q.free_text, "x");
    assert_eq!(q.order, OrderKey::Seeds);
    let q = parse("x order:Rating", OrderKey::Downloads);
    assert_eq!(q.order, OrderKey::Downloads);
}

#[test]
fn free_text_ends_at_earliest_directive() {
    let q = parse("The Thing order:year year:1982", OrderKey::Latest);
    assert_eq!(q.free_text, "The Thing");
    assert_eq!(q.order, OrderKey::Year);
    assert_eq!(q.year, YearFilter::Equal(1982));
}

#[test]
fn directive_value_ends_at_space() {
    let q = parse("Alien rating:8 trailing words", OrderKey::Latest);
    assert_eq!(q.free_text, "Alien");
    assert_eq!(q.rating, RatingFilter::Min(8));
}

#[test]
fn directive_needs_a_leading_space() {
    let q = parse("year:1999", OrderKey::Latest);
    assert_eq!(q.free_text, "year:1999");
    assert_eq!(q.year, YearFilter::All);
}

#[test]
fn bad_year_and_rating_mean_no_filter() {
    let q = parse("a year:19x9 rating:10", OrderKey::Likes);
    assert_eq!(q.free_text, "a");
    assert_eq!(q.year, YearFilter::All);
    assert_eq!(q.rating, RatingFilter::All);
    let q = parse("a rating:0", OrderKey::Likes);
    assert_eq!(q.rating, RatingFilter::All);
    let q = parse("a rating:9", OrderKey::Likes);
    assert_eq!(q.rating, RatingFilter::Min(9));
    let q = parse("a year:", OrderKey::Likes);
    assert_eq!(q.year, YearFilter::All);
}

#[test]
fn empty_text_parses_to_defaults() {
    let q = parse("", OrderKey::Featured);
    assert_eq!(q.free_text, "");
    assert_eq!(q.year, YearFilter::All);
    assert_eq!(q.rating, RatingFilter::All);
    assert_eq!(q.order, OrderKey::Featured);
}

#[test]
fn every_order_name_is_recognised() {
    let all = [
        OrderKey::Latest,
        OrderKey::Oldest,
        OrderKey::Featured,
        OrderKey::Seeds,
        OrderKey::Peers,
        OrderKey::Year,
        OrderKey::Rating,
        OrderKey::Likes,
        OrderKey::Alphabetical,
        OrderKey::Downloads,
    ];
    for k in all {
        let text = format!("m order:{}", k.name());
        assert_eq!(parse(&text, OrderKey::Latest).order, k);
        assert_eq!(OrderKey::from_name(&k.name().chars().collect::<Vec<char>>()), Some(k));
    }
    assert_eq!(OrderKey::Alphabetical.name(), "alphabetical");
}

#[test]
fn decimal_reader_follows_u32_from_str() {
    let read = |s: &str| parse_u32(&s.chars().collect::<Vec<char>>());
    assert_eq!(read("0"), Some(0));
    assert_eq!(read("+12"), Some(12));
    assert_eq!(read("4294967295"), Some(u32::MAX));
    assert_eq!(read("4294967296"), None);
    assert_eq!(read("99999999999999999999"), None);
    assert_eq!(read(""), None);
    assert_eq!(read("+"), None);
    assert_eq!(read("-1"), None);
    assert_eq!(read("1 2"), None);
    for s in ["7", "+0", "2024", "000123", "x", "++1", "12a"] {
        assert_eq!(read(s), s.parse::<u32>().ok());
    }
}

#[test]
fn find_gives_first_occurrence() {
    let text = chars_of("a year: b year:");
    let pat = chars_of(" year:");
    assert_eq!(find(&text, &pat), Some(1));
    assert_eq!(find(&text, &chars_of("order")), None);
    assert_eq!(find(&chars_of("ab"), &chars_of("abc")), None);
}
