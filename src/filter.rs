//! The filter mini-language of the search box: free text followed by
//! `year:`, `rating:` and `order:` directives.
use vstd::prelude::*;
use crate::text::{chars_of, find, first_occurrence, slice_chars, same_chars};

verus! {

/// Restriction on the release year.
#[derive(Debug, Clone, Copy, PartialEq, Eq, Structural)]
pub enum YearFilter {
    All,
    Equal(u32),
}

/// Restriction on the minimum rating, from one to nine.
#[derive(Debug, Clone, Copy, PartialEq, Eq, Structural)]
pub enum RatingFilter {
    All,
    Min(u8),
}

/// The orders in which the catalog can list its results.
#[derive(Debug, Clone, Copy, PartialEq, Eq, Structural)]
pub enum OrderKey {
    Latest,
    Oldest,
    Featured,
    Seeds,
    Peers,
    Year,
    Rating,
    Likes,
    Alphabetical,
    Downloads,
}

/// A search as the catalog receives it.
#[derive(Debug, Clone, PartialEq, Eq)]
pub struct SearchQuery {
    pub free_text: String,
    pub year: YearFilter,
    pub rating: RatingFilter,
    pub order: OrderKey,
}

pub open spec fn year_marker() -> Seq<char> {
    seq![' ', 'y', 'e', 'a', 'r', ':']
}

pub open spec fn rating_marker() -> Seq<char> {
    seq![' ', 'r', 'a', 't', 'i', 'n', 'g', ':']
}

pub open spec fn order_marker() -> Seq<char> {
    seq![' ', 'o', 'r', 'd', 'e', 'r', ':']
}

/// The smaller of two optional indices.
pub open spec fn earlier(a: Option<int>, b: Option<int>) -> Option<int> {
    match (a, b) {
        (Some(x), Some(y)) => Some(if x <= y { x } else { y }),
        (Some(x), None) => Some(x),
        (None, _) => b,
    }
}

/// Where the first directive marker starts, if any marker occurs.
pub open spec fn directives_start(text: Seq<char>) -> Option<int> {
    earlier(
        earlier(first_occurrence(text, year_marker()), first_occurrence(text, rating_marker())),
        first_occurrence(text, order_marker()),
    )
}

/// The text before the first directive marker: all of it when there is none.
pub open spec fn free_text_of(text: Seq<char>) -> Seq<char> {
    match directives_start(text) {
        Some(i) => text.take(i),
        None => text,
    }
}

/// What follows the first occurrence of `marker`, up to the next space.
pub open spec fn directive_value(text: Seq<char>, marker: Seq<char>) -> Option<Seq<char>> {
    match first_occurrence(text, marker) {
        Some(i) => {
            let rest = text.skip(i + marker.len());
            Some(
                match first_occurrence(rest, seq![' ']) {
                    Some(j) => rest.take(j),
                    None => rest,
                },
            )
        },
        None => None,
    }
}

pub open spec fn is_digit(c: char) -> bool {
    '0' <= c && c <= '9'
}

pub open spec fn digit_value(c: char) -> nat {
    ((c as u32) - ('0' as u32)) as nat
}

pub open spec fn all_digits(s: Seq<char>) -> bool {
    forall|i: int| 0 <= i < s.len() ==> is_digit(#[trigger] s[i])
}

/// The number that a string of decimal digits writes.
pub open spec fn digits_value(s: Seq<char>) -> nat
    decreases s.len(),
{
    if s.len() == 0 {
        0
    } else {
        digits_value(s.drop_last()) * 10 + digit_value(s.last())
    }
}

/// `s` without one leading plus sign.
pub open spec fn unsigned_part(s: Seq<char>) -> Seq<char> {
    if s.len() > 0 && s[0] == '+' {
        s.skip(1)
    } else {
        s
    }
}

/// A non-negative decimal integer that fits in 32 bits, optionally signed `+`.
pub open spec fn decimal_u32(s: Seq<char>) -> Option<u32> {
    let d = unsigned_part(s);
    if d.len() > 0 && all_digits(d) && digits_value(d) <= u32::MAX {
        Some(digits_value(d) as u32)
    } else {
        None
    }
}

/// The year filter that `text` asks for.
pub open spec fn year_of(text: Seq<char>) -> YearFilter {
    match directive_value(text, year_marker()) {
        Some(v) => match decimal_u32(v) {
            Some(n) => YearFilter::Equal(n),
            None => YearFilter::All,
        },
        None => YearFilter::All,
    }
}

/// A rating directive is a single digit from one to nine.
pub open spec fn rating_named(v: Seq<char>) -> RatingFilter {
    if v.len() == 1 && '1' <= v[0] && v[0] <= '9' {
        RatingFilter::Min(digit_value(v[0]) as u8)
    } else {
        RatingFilter::All
    }
}

/// The rating filter that `text` asks for.
pub open spec fn rating_of(text: Seq<char>) -> RatingFilter {
    match directive_value(text, rating_marker()) {
        Some(v) => rating_named(v),
        None => RatingFilter::All,
    }
}

impl OrderKey {
    /// The word that names this order in an `order:` directive.
    pub open spec fn spec_name(self) -> Seq<char> {
        match self {
            OrderKey::Latest => seq!['l', 'a', 't', 'e', 's', 't'],
            OrderKey::Oldest => seq!['o', 'l', 'd', 'e', 's', 't'],
            OrderKey::Featured => seq!['f', 'e', 'a', 't', 'u', 'r', 'e', 'd'],
            OrderKey::Seeds => seq!['s', 'e', 'e', 'd', 's'],
            OrderKey::Peers => seq!['p', 'e', 'e', 'r', 's'],
            OrderKey::Year => seq!['y', 'e', 'a', 'r'],
            OrderKey::Rating => seq!['r', 'a', 't', 'i', 'n', 'g'],
            OrderKey::Likes => seq!['l', 'i', 'k', 'e', 's'],
            OrderKey::Alphabetical => seq!['a', 'l', 'p', 'h', 'a', 'b', 'e', 't', 'i', 'c', 'a', 'l'],
            OrderKey::Downloads => seq!['d', 'o', 'w', 'n', 'l', 'o', 'a', 'd', 's'],
        }
    }

    /// The word that names this order in an `order:` directive.
    pub fn name(&self) -> (r: &'static str)
        ensures
            r@ == self.spec_name(),
    {
        match self {
            OrderKey::Latest => {
                proof { reveal_strlit("latest"); }
                "latest"
            },
            OrderKey::Oldest => {
                proof { reveal_strlit("oldest"); }
                "oldest"
            },
            OrderKey::Featured => {
                proof { reveal_strlit("featured"); }
                "featured"
            },
            OrderKey::Seeds => {
                proof { reveal_strlit("seeds"); }
                "seeds"
            },
            OrderKey::Peers => {
                proof { reveal_strlit("peers"); }
                "peers"
            },
            OrderKey::Year => {
                proof { reveal_strlit("year"); }
                "year"
            },
            OrderKey::Rating => {
                proof { reveal_strlit("rating"); }
                "rating"
            },
            OrderKey::Likes => {
                proof { reveal_strlit("likes"); }
                "likes"
            },
            OrderKey::Alphabetical => {
                proof { reveal_strlit("alphabetical"); }
                "alphabetical"
            },
            OrderKey::Downloads => {
                proof { reveal_strlit("downloads"); }
                "downloads"
            },
        }
    }

    /// The order whose name is exactly `v`, compared case-sensitively.
    pub fn from_name(v: &Vec<char>) -> (r: Option<OrderKey>)
        ensures
            r == order_named(v@),
    {
        let keys = [
            OrderKey::Latest,
            OrderKey::Oldest,
            OrderKey::Featured,
            OrderKey::Seeds,
            OrderKey::Peers,
            OrderKey::Year,
            OrderKey::Rating,
            OrderKey::Likes,
            OrderKey::Alphabetical,
            OrderKey::Downloads,
        ];
        let mut i: usize = 0;
        while i < 10
            invariant
                keys@ == all_orders(),
                i <= 10,
                forall|k: int| 0 <= k < i ==> v@ != (#[trigger] all_orders()[k]).spec_name(),
            decreases 10 - i,
        {
            let key = keys[i];
            if same_chars(&chars_of(key.name()), v) {
                proof { lemma_order_named_first(v@, i as int); }
                return Some(key);
            }
            i = i + 1;
        }
        proof { lemma_order_named_none(v@); }
        None
    }
}

/// Every order, in a fixed sequence.
pub open spec fn all_orders() -> Seq<OrderKey> {
    seq![
        OrderKey::Latest,
        OrderKey::Oldest,
        OrderKey::Featured,
        OrderKey::Seeds,
        OrderKey::Peers,
        OrderKey::Year,
        OrderKey::Rating,
        OrderKey::Likes,
        OrderKey::Alphabetical,
        OrderKey::Downloads,
    ]
}

/// The order named exactly `v`, if any.
pub open spec fn order_named(v: Seq<char>) -> Option<OrderKey> {
    if exists|k: OrderKey| k.spec_name() == v {
        Some(choose|k: OrderKey| k.spec_name() == v)
    } else {
        None
    }
}

/// The order that `text` asks for, or `default_order` when it names none.
pub open spec fn order_of(text: Seq<char>, default_order: OrderKey) -> OrderKey {
    match directive_value(text, order_marker()) {
        Some(v) => match order_named(v) {
            Some(k) => k,
            None => default_order,
        },
        None => default_order,
    }
}

proof fn lemma_names_distinct(a: OrderKey, b: OrderKey)
    requires
        a.spec_name() == b.spec_name(),
    ensures
        a == b,
{
    let x = a.spec_name();
    let y = b.spec_name();
    assert(x.len() == y.len());
    match a {
        OrderKey::Latest | OrderKey::Likes | OrderKey::Oldest => {
            assert(x[0] == y[0] && x[1] == y[1]);
        },
        OrderKey::Seeds | OrderKey::Peers => {
            assert(x[0] == y[0]);
        },
        OrderKey::Featured | OrderKey::Year | OrderKey::Rating | OrderKey::Alphabetical | OrderKey::Downloads => {
            assert(x[0] == y[0]);
        },
    }
}

proof fn lemma_order_named_first(v: Seq<char>, i: int)
    requires
        0 <= i < 10,
        all_orders()[i].spec_name() == v,
    ensures
        order_named(v) == Some(all_orders()[i]),
{
    let k = all_orders()[i];
    assert(k.spec_name() == v);
    let c = choose|c: OrderKey| c.spec_name() == v;
    lemma_names_distinct(c, k);
}

proof fn lemma_order_named_none(v: Seq<char>)
    requires
        forall|k: int| 0 <= k < 10 ==> v != (#[trigger] all_orders()[k]).spec_name(),
    ensures
        order_named(v) is None,
{
    assert forall|o: OrderKey| o.spec_name() != v by {
        match o {
            OrderKey::Latest => assert(all_orders()[0] == o),
            OrderKey::Oldest => assert(all_orders()[1] == o),
            OrderKey::Featured => assert(all_orders()[2] == o),
            OrderKey::Seeds => assert(all_orders()[3] == o),
            OrderKey::Peers => assert(all_orders()[4] == o),
            OrderKey::Year => assert(all_orders()[5] == o),
            OrderKey::Rating => assert(all_orders()[6] == o),
            OrderKey::Likes => assert(all_orders()[7] == o),
            OrderKey::Alphabetical => assert(all_orders()[8] == o),
            OrderKey::Downloads => assert(all_orders()[9] == o),
        }
    }
}

proof fn lemma_digits_value_prefix(s: Seq<char>, k: int)
    requires
        all_digits(s),
        0 <= k <= s.len(),
    ensures
        digits_value(s.take(k)) <= digits_value(s),
    decreases s.len(),
{
    if k < s.len() {
        let t = s.drop_last();
        assert(all_digits(t));
        lemma_digits_value_prefix(t, k);
        assert(t.take(k) =~= s.take(k));
    } else {
        assert(s.take(k) =~= s);
    }
}

/// Reads a non-negative decimal integer that fits in 32 bits, as `u32`'s
/// `FromStr` does: one optional `+`, then one or more ASCII digits.
pub fn parse_u32(s: &Vec<char>) -> (r: Option<u32>)
    ensures
        r == decimal_u32(s@),
{
    let start: usize = if s.len() > 0 && s[0] == '+' { 1 } else { 0 };
    let d = slice_chars(s, start, s.len());
    assert(d@ =~= unsigned_part(s@));
    if d.len() == 0 {
        return None;
    }
    let mut acc: u64 = 0;
    let mut i: usize = 0;
    while i < d.len()
        invariant
            d@ == unsigned_part(s@),
            d@.len() > 0,
            i <= d@.len(),
            all_digits(d@.take(i as int)),
            acc == digits_value(d@.take(i as int)),
            acc <= u32::MAX,
        decreases d@.len() - i,
    {
        let c = d[i];
        if !('0' <= c && c <= '9') {
            assert(!is_digit(d@[i as int]));
            return None;
        }
        let next: u64 = acc * 10 + ((c as u32) - ('0' as u32)) as u64;
        let ghost t = d@.take(i + 1);
        assert(t.drop_last() =~= d@.take(i as int));
        assert(all_digits(t));
        assert(digits_value(t) == next);
        if next > u32::MAX as u64 {
            proof {
                if all_digits(d@) {
                    lemma_digits_value_prefix(d@, i + 1);
                }
            }
            return None;
        }
        acc = next;
        i = i + 1;
    }
    assert(d@.take(i as int) =~= d@);
    Some(acc as u32)
}

fn year_marker_chars() -> (r: Vec<char>)
    ensures
        r@ == year_marker(),
{
    let r = vec![' ', 'y', 'e', 'a', 'r', ':'];
    assert(r@ =~= year_marker());
    r
}

fn rating_marker_chars() -> (r: Vec<char>)
    ensures
        r@ == rating_marker(),
{
    let r = vec![' ', 'r', 'a', 't', 'i', 'n', 'g', ':'];
    assert(r@ =~= rating_marker());
    r
}

fn order_marker_chars() -> (r: Vec<char>)
    ensures
        r@ == order_marker(),
{
    let r = vec![' ', 'o', 'r', 'd', 'e', 'r', ':'];
    assert(r@ =~= order_marker());
    r
}

/// What follows the first occurrence of `marker` in `text`, up to the next
/// space or the end.
pub fn find_directive(text: &Vec<char>, marker: &Vec<char>) -> (r: Option<Vec<char>>)
    ensures
        match r {
            Some(v) => directive_value(text@, marker@) == Some(v@),
            None => directive_value(text@, marker@) is None,
        },
{
    match find(text, marker) {
        Some(i) => {
            let n = text.len();
            let rest = slice_chars(text, i + marker.len(), n);
            assert(rest@ =~= text@.skip(i + marker@.len()));
            let space = vec![' '];
            assert(space@ =~= seq![' ']);
            match find(&rest, &space) {
                Some(j) => {
                    let v = slice_chars(&rest, 0, j);
                    assert(v@ =~= rest@.take(j as int));
                    Some(v)
                },
                None => Some(rest),
            }
        },
        None => None,
    }
}

/// The smaller of two optional indices.
fn earlier_index(a: Option<usize>, b: Option<usize>) -> (r: Option<usize>)
    ensures
        match r {
            Some(x) => earlier(
                match a { Some(y) => Some(y as int), None => None },
                match b { Some(y) => Some(y as int), None => None },
            ) == Some(x as int),
            None => a is None && b is None,
        },
{
    match (a, b) {
        (Some(x), Some(y)) => Some(if x <= y { x } else { y }),
        (Some(x), None) => Some(x),
        (None, _) => b,
    }
}

/// Splits one line of the search box into free text and directives.
///
/// The free text is everything before the first of ` year:`, ` rating:` and
/// ` order:`. Each directive's value runs to the next space. A year that is
/// not a decimal number, a rating other than a single digit from one to nine
/// and an unknown order fall back to no filter and to `default_order`.
pub fn parse(text: &str, default_order: OrderKey) -> (q: SearchQuery)
    ensures
        q.free_text@ == free_text_of(text@),
        q.year == year_of(text@),
        q.rating == rating_of(text@),
        q.order == order_of(text@, default_order),
{
    let chars = chars_of(text);
    let ym = year_marker_chars();
    let rm = rating_marker_chars();
    let om = order_marker_chars();
    let start = earlier_index(earlier_index(find(&chars, &ym), find(&chars, &rm)), find(&chars, &om));
    let free_text = match start {
        Some(i) => String::from_str(text.substring_char(0, i)),
        None => String::from_str(text),
    };
    let year = match find_directive(&chars, &ym) {
        Some(v) => match parse_u32(&v) {
            Some(n) => YearFilter::Equal(n),
            None => YearFilter::All,
        },
        None => YearFilter::All,
    };
    let rating = match find_directive(&chars, &rm) {
        Some(v) => {
            if v.len() == 1 && '1' <= v[0] && v[0] <= '9' {
                RatingFilter::Min(((v[0] as u32) - ('0' as u32)) as u8)
            } else {
                RatingFilter::All
            }
        },
        None => RatingFilter::All,
    };
    let order = match find_directive(&chars, &om) {
        Some(v) => match OrderKey::from_name(&v) {
            Some(k) => k,
            None => default_order,
        },
        None => default_order,
    };
    SearchQuery { free_text, year, rating, order }
}

/// A line in which no directive marker occurs is free text from end to end,
/// and asks for no year, no rating and the default order.
pub proof fn lemma_plain_text_is_free_text(text: Seq<char>, default_order: OrderKey)
    requires
        directives_start(text) is None,
    ensures
        free_text_of(text) == text,
        year_of(text) == YearFilter::All,
        rating_of(text) == RatingFilter::All,
        order_of(text, default_order) == default_order,
{
}

/// Each order's name reads back as that order.
pub proof fn lemma_order_name_round_trip(k: OrderKey)
    ensures
        order_named(k.spec_name()) == Some(k),
{
    let c = choose|c: OrderKey| c.spec_name() == k.spec_name();
    lemma_names_distinct(c, k);
}

/// An `order:` value that names no order leaves the order at the default,
/// with no error.
pub proof fn lemma_unknown_order_is_default(text: Seq<char>, default_order: OrderKey)
    requires
        directive_value(text, order_marker()) matches Some(v) && forall|k: OrderKey|
            k.spec_name() != v,
    ensures
        order_of(text, default_order) == default_order,
{
}

} // verus!
