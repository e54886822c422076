//! Fundamental data from the Alpha Vantage REST service, read through the
//! cache.
//!
//! Sending a request is the caller's. Decided here: under which key an answer
//! is cached, which address is asked, whether an answer that came with a good
//! status is an error all the same, and what is reported when it is.

use crate::services::cache_service::{read_result, CacheError, CacheService};
use crate::utils::json::{json_string_member, json_string_member_of};
use crate::utils::text::{
    before_first,
    lemma_less_total,
    lemma_less_transitive,
    parse_u32,
    prefix_before,
    same_text,
    text_before,
    text_less,
    u32_of_text,
};
use vstd::prelude::*;
use vstd::string::StringExecFns;

verus! {

/// What is asked of the service.
#[derive(Debug, Clone, Copy, PartialEq, Eq, Structural)]
pub enum FundamentalsQuery {
    Overview,
    IncomeStatement,
    Earnings,
}

/// The address of the service.
pub open spec fn base_url() -> Seq<char> {
    "https://www.alphavantage.co/query"@
}

/// The name of a query in a request.
pub open spec fn function_name(q: FundamentalsQuery) -> Seq<char> {
    match q {
        FundamentalsQuery::Overview => "OVERVIEW"@,
        FundamentalsQuery::IncomeStatement => "INCOME_STATEMENT"@,
        FundamentalsQuery::Earnings => "EARNINGS"@,
    }
}

/// The ending of the cache key of a query.
pub open spec fn key_ending(q: FundamentalsQuery) -> Seq<char> {
    match q {
        FundamentalsQuery::Overview => "_overview"@,
        FundamentalsQuery::IncomeStatement => "_income_statement"@,
        FundamentalsQuery::Earnings => "_earnings"@,
    }
}

/// `s` in upper case.
pub uninterp spec fn uppercase_of(s: Seq<char>) -> Seq<char>;

/// `s` in upper case.
///
/// Trusted: the body calls `str::to_uppercase`. The contract only says that
/// the answer is fixed by `s`.
#[verifier::external_body]
fn uppercase(s: &str) -> (r: String)
    ensures
        r@ == uppercase_of(s@),
{
    s.to_uppercase()
}

/// The key under which the answer to `q` for a symbol is cached, given the
/// symbol in upper case.
pub open spec fn cache_key_of(upper_symbol: Seq<char>, q: FundamentalsQuery) -> Seq<char> {
    upper_symbol + key_ending(q)
}

/// The address that is asked for `q` on `symbol`.
pub open spec fn request_url_of(
    base: Seq<char>,
    q: FundamentalsQuery,
    symbol: Seq<char>,
    api_key: Seq<char>,
) -> Seq<char> {
    base + "?function="@ + function_name(q) + "&symbol="@ + symbol + "&apikey="@ + api_key
}

/// Whether an answer is an error although it came with a good status, going
/// by three members of its body: an error message, a note on the request rate,
/// or a piece of information in place of data.
pub open spec fn api_error_of(
    error_message: Option<Seq<char>>,
    note: Option<Seq<char>>,
    information: Option<Seq<char>>,
) -> Result<(), Seq<char>> {
    match error_message {
        Some(m) => Err("Alpha Vantage API error: "@ + m),
        None => match note {
            Some(_) => Err("API rate limit reached. Please try again later."@),
            None => match information {
                Some(i) => Err("Alpha Vantage API: "@ + i),
                None => Ok(()),
            },
        },
    }
}

/// Whether `r` is the verdict `expected`.
pub open spec fn is_verdict(r: Result<(), String>, expected: Result<(), Seq<char>>) -> bool {
    match r {
        Ok(_) => expected is Ok,
        Err(m) => expected == Err::<(), Seq<char>>(m@),
    }
}

/// What is reported of an answer with a bad status.
pub open spec fn status_error_message(status: Seq<char>) -> Seq<char> {
    "API request failed: "@ + status
}

/// What is reported when the service has no history of a symbol.
pub open spec fn no_history_message(symbol: Seq<char>) -> Seq<char> {
    "No historical financial data available for "@ + symbol
        + ". This ticker may be too new or not have sufficient financial reporting history."@
}

/// The year of a date written as year, month and day with hyphens between
/// them: the number before the first hyphen.
pub open spec fn fiscal_year_of(date: Seq<char>) -> Option<u32> {
    u32_of_text(before_first(date, '-'))
}

/// The ticker that a cache key belongs to: the part before the first
/// underscore.
pub open spec fn ticker_of_key(key: Seq<char>) -> Seq<char> {
    before_first(key, '_')
}

/// Whether the report at position `i` comes before the one at position `j`
/// when the reports are put in order: by their years, and within a year by
/// their positions.
pub open spec fn comes_before(years: Seq<u32>, i: int, j: int) -> bool {
    years[i] < years[j] || (years[i] == years[j] && i < j)
}

/// Whether the position `i` is among `picked`.
pub open spec fn is_picked(picked: Seq<usize>, i: int) -> bool {
    exists|a: int| 0 <= a < picked.len() && #[trigger] picked[a] == i
}

/// Whether `picked` are the positions of the latest `keep` of the reports
/// with the years `years`, in order: `keep` positions, or all there are if
/// there are fewer; each one before the next; and every report that was
/// left out before every one that was picked.
pub open spec fn latest_of(years: Seq<u32>, keep: nat, picked: Seq<usize>) -> bool {
    &&& picked.len() <= keep
    &&& picked.len() == keep || forall|i: int| 0 <= i < years.len() ==> is_picked(picked, i)
    &&& forall|a: int| 0 <= a < picked.len() ==> #[trigger] picked[a] < years.len()
    &&& forall|a: int, b: int|
        0 <= a < b < picked.len() ==> comes_before(
            years,
            #[trigger] picked[a] as int,
            #[trigger] picked[b] as int,
        )
    &&& forall|i: int, a: int|
        0 <= i < years.len() && 0 <= a < picked.len() && !is_picked(picked, i)
            ==> #[trigger] comes_before(years, i, picked[a] as int)
}

/// Whether the position `i` may still be picked when the positions `chosen`
/// were picked, latest first: it may if it comes before the last of them.
pub open spec fn is_candidate(years: Seq<u32>, chosen: Seq<usize>, i: int) -> bool {
    chosen.len() == 0 || comes_before(years, i, chosen.last() as int)
}

/// The latest `keep` reports are `keep` reports, or all there are if there
/// are fewer.
pub proof fn law_latest_count(years: Seq<u32>, keep: nat, picked: Seq<usize>)
    requires
        latest_of(years, keep, picked),
    ensures
        picked.len() == if keep <= years.len() {
            keep
        } else {
            years.len()
        },
{
    let n = years.len() as int;
    let ints = picked.map_values(|x: usize| x as int);
    assert forall|a: int, b: int| 0 <= a < ints.len() && 0 <= b < ints.len() && a != b implies ints[a]
        != ints[b] by {
        if a < b {
            assert(comes_before(years, picked[a] as int, picked[b] as int));
        } else {
            assert(comes_before(years, picked[b] as int, picked[a] as int));
        }
    }
    ints.unique_seq_to_set();
    vstd::set_lib::lemma_int_range(0, n);
    assert(ints.to_set().subset_of(vstd::set_lib::set_int_range(0, n))) by {
        assert forall|x: int| ints.to_set().contains(x) implies vstd::set_lib::set_int_range(
            0,
            n,
        ).contains(x) by {
            let a = choose|a: int| 0 <= a < ints.len() && ints[a] == x;
            assert(picked[a] < years.len());
        }
    }
    vstd::set_lib::lemma_len_subset(ints.to_set(), vstd::set_lib::set_int_range(0, n));
    if picked.len() != keep {
        assert(vstd::set_lib::set_int_range(0, n).subset_of(ints.to_set())) by {
            assert forall|x: int| vstd::set_lib::set_int_range(0, n).contains(x) implies ints.to_set().contains(
                x,
            ) by {
                assert(is_picked(picked, x));
                let a = choose|a: int| 0 <= a < picked.len() && #[trigger] picked[a] == x;
                assert(ints[a] == x);
            }
        }
        vstd::set_lib::lemma_len_subset(vstd::set_lib::set_int_range(0, n), ints.to_set());
    }
}

/// Whether `t` is the ticker of one of the first `upto` of `keys`.
pub open spec fn ticker_among(keys: Seq<String>, t: Seq<char>, upto: int) -> bool {
    exists|i: int| 0 <= i < upto && ticker_of_key(#[trigger] keys[i]@) == t
}

/// Whether `t` is one of `tickers`.
pub open spec fn is_listed(tickers: Seq<String>, t: Seq<char>) -> bool {
    exists|i: int| 0 <= i < tickers.len() && #[trigger] tickers[i]@ == t
}

/// Whether each of `tickers` comes before the next in the order of texts, so
/// that none occurs twice.
pub open spec fn ascending(tickers: Seq<String>) -> bool {
    forall|i: int, j: int|
        0 <= i < j < tickers.len() ==> text_less(#[trigger] tickers[i]@, #[trigger] tickers[j]@)
}

/// What is known for asking the service.
pub struct FinancialDataService {
    api_key: String,
    base_url: String,
}

impl FinancialDataService {
    /// A service that asks under `api_key`.
    pub fn new(api_key: String) -> (r: Self)
        ensures
            r.api_key_view() == api_key@,
            r.base_url_view() == base_url(),
    {
        FinancialDataService {
            api_key,
            base_url: String::from_str("https://www.alphavantage.co/query"),
        }
    }

    /// The key under which the service is asked.
    pub closed spec fn api_key_view(&self) -> Seq<char> {
        self.api_key@
    }

    /// The address that is asked.
    pub closed spec fn base_url_view(&self) -> Seq<char> {
        self.base_url@
    }

    /// The key under which the answer to `query` for `symbol` is cached: the
    /// symbol in upper case and the ending of the query.
    pub fn cache_key(symbol: &str, query: FundamentalsQuery) -> (r: String)
        ensures
            r@ == cache_key_of(uppercase_of(symbol@), query),
    {
        let upper = uppercase(symbol);
        Self::cache_key_for(upper, query)
    }

    /// The key under which the answer to `query` is cached, given the symbol
    /// in upper case.
    pub fn cache_key_for(upper_symbol: String, query: FundamentalsQuery) -> (r: String)
        ensures
            r@ == cache_key_of(upper_symbol@, query),
    {
        match query {
            FundamentalsQuery::Overview => upper_symbol.concat("_overview"),
            FundamentalsQuery::IncomeStatement => upper_symbol.concat("_income_statement"),
            FundamentalsQuery::Earnings => upper_symbol.concat("_earnings"),
        }
    }

    /// The address that is asked for `query` on `symbol`.
    pub fn request_url(&self, query: FundamentalsQuery, symbol: &str) -> (r: String)
        ensures
            r@ == request_url_of(self.base_url_view(), query, symbol@, self.api_key_view()),
    {
        let mut url = self.base_url.clone();
        url.append("?function=");
        match query {
            FundamentalsQuery::Overview => url.append("OVERVIEW"),
            FundamentalsQuery::IncomeStatement => url.append("INCOME_STATEMENT"),
            FundamentalsQuery::Earnings => url.append("EARNINGS"),
        }
        url.append("&symbol=");
        url.append(symbol);
        url.append("&apikey=");
        url.append(self.api_key.as_str());
        assert(url@ =~= request_url_of(self.base_url_view(), query, symbol@, self.api_key_view()));
        url
    }

    /// The cached answer under `key`, if a cache is in use and holds one that
    /// is valid at `now`: then the service is not asked.
    pub fn cached_answer(cache: Option<&CacheService>, key: &str, now: u64) -> (r: Option<String>)
        ensures
            match r {
                Some(text) => cache is Some && read_result(cache->0@, key@, now) == Ok::<
                    Seq<char>,
                    CacheError,
                >(text@),
                None => cache is None || read_result(cache->0@, key@, now) is Err,
            },
    {
        match cache {
            Some(c) => match c.read_at(key, now) {
                Ok(text) => Some(text),
                Err(_) => None,
            },
            None => None,
        }
    }

    /// The verdict on an answer, given what three members of its body hold.
    pub fn api_error(
        error_message: Option<String>,
        note: Option<String>,
        information: Option<String>,
    ) -> (r: Result<(), String>)
        ensures
            is_verdict(
                r,
                api_error_of(
                    match error_message {
                        Some(m) => Some(m@),
                        None => None,
                    },
                    match note {
                        Some(m) => Some(m@),
                        None => None,
                    },
                    match information {
                        Some(m) => Some(m@),
                        None => None,
                    },
                ),
            ),
    {
        match error_message {
            Some(m) => Err(String::from_str("Alpha Vantage API error: ").concat(m.as_str())),
            None => match note {
                Some(_) => Err(String::from_str("API rate limit reached. Please try again later.")),
                None => match information {
                    Some(i) => Err(String::from_str("Alpha Vantage API: ").concat(i.as_str())),
                    None => Ok(()),
                },
            },
        }
    }

    /// The verdict on an answer with the body `body`: an error if the body
    /// holds an `Error Message`, a `Note` or an `Information`, in this order of
    /// precedence.
    pub fn check_api_error(body: &str) -> (r: Result<(), String>)
        ensures
            is_verdict(
                r,
                api_error_of(
                    json_string_member_of(body@, "Error Message"@),
                    json_string_member_of(body@, "Note"@),
                    json_string_member_of(body@, "Information"@),
                ),
            ),
    {
        let error_message = json_string_member(body, "Error Message");
        let note = json_string_member(body, "Note");
        let information = json_string_member(body, "Information");
        Self::api_error(error_message, note, information)
    }

    /// What is reported of an answer with the bad status `status`.
    pub fn status_error(status: &str) -> (r: String)
        ensures
            r@ == status_error_message(status@),
    {
        String::from_str("API request failed: ").concat(status)
    }

    /// What is reported when the service has no history of `symbol`.
    pub fn no_history_error(symbol: &str) -> (r: String)
        ensures
            r@ == no_history_message(symbol@),
    {
        String::from_str("No historical financial data available for ").concat(symbol).concat(
            ". This ticker may be too new or not have sufficient financial reporting history.",
        )
    }

    /// The year of the date `date`.
    pub fn fiscal_year(date: &str) -> (r: Option<u32>)
        ensures
            r == fiscal_year_of(date@),
    {
        let head = prefix_before(date, '-');
        parse_u32(head.as_str())
    }

    /// The positions of the latest `keep` of the reports with the years
    /// `years`, the earliest of them first.
    pub fn latest_years(years: &Vec<u32>, keep: usize) -> (r: Vec<usize>)
        ensures
            latest_of(years@, keep as nat, r@),
    {
        let n = years.len();
        let mut chosen: Vec<usize> = Vec::new();
        let mut complete = false;
        while chosen.len() < keep && !complete
            invariant
                n == years@.len(),
                chosen@.len() <= keep,
                complete ==> forall|i: int| 0 <= i < n ==> is_picked(chosen@, i),
                forall|a: int| 0 <= a < chosen@.len() ==> #[trigger] chosen@[a] < n,
                forall|a: int, b: int|
                    0 <= a < b < chosen@.len() ==> comes_before(
                        years@,
                        #[trigger] chosen@[b] as int,
                        #[trigger] chosen@[a] as int,
                    ),
                forall|i: int, a: int|
                    0 <= i < n && 0 <= a < chosen@.len() && !is_picked(chosen@, i)
                        ==> #[trigger] comes_before(years@, i, chosen@[a] as int),
            decreases
                    keep - chosen@.len() + if complete {
                        0int
                    } else {
                        1int
                    },
        {
            let mut best: Option<usize> = None;
            let mut i: usize = 0;
            while i < n
                invariant
                    i <= n,
                    n == years@.len(),
                    forall|a: int| 0 <= a < chosen@.len() ==> #[trigger] chosen@[a] < n,
                    match best {
                        Some(m) => m < i && is_candidate(years@, chosen@, m as int) && forall|j: int|
                            0 <= j < i && is_candidate(years@, chosen@, j) ==> j == m
                                || #[trigger] comes_before(years@, j, m as int),
                        None => forall|j: int| 0 <= j < i ==> !is_candidate(years@, chosen@, j),
                    },
                decreases n - i,
            {
                let open = if chosen.len() == 0 {
                    true
                } else {
                    let last = chosen[chosen.len() - 1];
                    years[i] < years[last] || (years[i] == years[last] && i < last)
                };
                if open {
                    let better = match best {
                        Some(m) => years[m] < years[i] || (years[m] == years[i] && m < i),
                        None => true,
                    };
                    if better {
                        proof {
                            match best {
                                Some(m) => {
                                    assert forall|j: int|
                                        0 <= j < i + 1 && is_candidate(
                                            years@,
                                            chosen@,
                                            j,
                                        ) implies j == i || #[trigger] comes_before(
                                        years@,
                                        j,
                                        i as int,
                                    ) by {
                                        if j != i && j != m {
                                            assert(comes_before(years@, j, m as int));
                                        }
                                    }
                                },
                                None => {},
                            }
                        }
                        best = Some(i);
                    }
                }
                i = i + 1;
            }
            match best {
                None => {
                    proof {
                        assert forall|j: int| 0 <= j < n implies is_picked(chosen@, j) by {
                            assert(!is_candidate(years@, chosen@, j));
                            if !is_picked(chosen@, j) {
                                assert(comes_before(
                                    years@,
                                    j,
                                    chosen@[chosen@.len() - 1] as int,
                                ));
                            }
                        }
                    }
                    complete = true;
                },
                Some(m) => {
                    let ghost before = chosen@;
                    proof {
                        if before.len() > 0 {
                            assert(!is_picked(before, m as int)) by {
                                if is_picked(before, m as int) {
                                    let a = choose|a: int|
                                        0 <= a < before.len() && #[trigger] before[a] == m;
                                    if a < before.len() - 1 {
                                        assert(comes_before(
                                            years@,
                                            before[before.len() - 1] as int,
                                            before[a] as int,
                                        ));
                                    }
                                }
                            }
                        }
                    }
                    chosen.push(m);
                    proof {
                        assert forall|a: int, b: int| 0 <= a < b < chosen@.len() implies comes_before(
                            years@,
                            #[trigger] chosen@[b] as int,
                            #[trigger] chosen@[a] as int,
                        ) by {
                            if b == before.len() {
                                assert(chosen@[a] == before[a]);
                            } else {
                                assert(chosen@[a] == before[a] && chosen@[b] == before[b]);
                            }
                        }
                        assert forall|i: int, a: int|
                            0 <= i < n && 0 <= a < chosen@.len() && !is_picked(
                                chosen@,
                                i,
                            ) implies #[trigger] comes_before(years@, i, chosen@[a] as int) by {
                            assert(i != m) by {
                                if i == m {
                                    assert(chosen@[before.len() as int] == i);
                                }
                            }
                            assert(!is_picked(before, i)) by {
                                if is_picked(before, i) {
                                    let c = choose|c: int|
                                        0 <= c < before.len() && #[trigger] before[c] == i;
                                    assert(chosen@[c] == i);
                                }
                            }
                            if a < before.len() {
                                assert(chosen@[a] == before[a]);
                            } else {
                                if before.len() > 0 {
                                    assert(comes_before(
                                        years@,
                                        i,
                                        before[before.len() - 1] as int,
                                    ));
                                }
                                assert(is_candidate(years@, before, i));
                            }
                        }
                    }
                },
            }
        }
        let mut out: Vec<usize> = Vec::new();
        let total = chosen.len();
        let mut k: usize = 0;
        while k < total
            invariant
                k <= total,
                total == chosen@.len(),
                out@.len() == k,
                forall|a: int| 0 <= a < k ==> #[trigger] out@[a] == chosen@[total - 1 - a],
            decreases total - k,
        {
            out.push(chosen[total - 1 - k]);
            k = k + 1;
        }
        proof {
            assert forall|i: int| is_picked(chosen@, i) == is_picked(out@, i) by {
                if is_picked(chosen@, i) {
                    let a = choose|a: int| 0 <= a < chosen@.len() && #[trigger] chosen@[a] == i;
                    assert(out@[total - 1 - a] == i);
                }
                if is_picked(out@, i) {
                    let a = choose|a: int| 0 <= a < out@.len() && #[trigger] out@[a] == i;
                    assert(chosen@[total - 1 - a] == i);
                }
            }
            assert forall|a: int, b: int| 0 <= a < b < out@.len() implies comes_before(
                years@,
                #[trigger] out@[a] as int,
                #[trigger] out@[b] as int,
            ) by {
                assert(out@[a] == chosen@[total - 1 - a] && out@[b] == chosen@[total - 1 - b]);
            }
            assert forall|i: int, a: int|
                0 <= i < n && 0 <= a < out@.len() && !is_picked(out@, i) implies #[trigger] comes_before(
                years@,
                i,
                out@[a] as int,
            ) by {
                assert(out@[a] == chosen@[total - 1 - a]);
                assert(!is_picked(chosen@, i));
            }
            assert forall|a: int| 0 <= a < out@.len() implies #[trigger] out@[a] < n by {
                assert(out@[a] == chosen@[total - 1 - a]);
            }
        }
        out
    }

    /// The tickers that the cache keys `keys` belong to, each once, in the
    /// order of texts.
    pub fn cached_tickers(keys: &Vec<String>) -> (r: Vec<String>)
        ensures
            ascending(r@),
            forall|t: Seq<char>| is_listed(r@, t) <==> ticker_among(keys@, t, keys@.len() as int),
    {
        let mut out: Vec<String> = Vec::new();
        let mut k: usize = 0;
        while k < keys.len()
            invariant
                k <= keys@.len(),
                ascending(out@),
                forall|t: Seq<char>| is_listed(out@, t) <==> ticker_among(keys@, t, k as int),
            decreases keys@.len() - k,
        {
            let t = Self::ticker(keys[k].as_str());
            let mut p: usize = 0;
            while p < out.len() && text_before(out[p].as_str(), t.as_str())
                invariant
                    p <= out@.len(),
                    forall|q: int| 0 <= q < p ==> text_less((#[trigger] out@[q])@, t@),
                decreases out@.len() - p,
            {
                p = p + 1;
            }
            let present = p < out.len() && same_text(out[p].as_str(), t.as_str());
            let ghost before = out@;
            let ghost name = t@;
            if !present {
                proof {
                    assert forall|q: int| p <= q < before.len() implies text_less(
                        name,
                        (#[trigger] before[q])@,
                    ) by {
                        lemma_less_total(before[p as int]@, name, 0);
                        if q > p {
                            lemma_less_transitive(name, before[p as int]@, before[q]@, 0);
                        }
                    }
                    assert(!is_listed(before, name)) by {
                        if is_listed(before, name) {
                            let i = choose|i: int| 0 <= i < before.len() && #[trigger] before[i]@ == name;
                            lemma_less_total(before[i]@, name, 0);
                            if i < p {
                                assert(text_less(before[i]@, name));
                            } else {
                                assert(text_less(name, before[i]@));
                            }
                        }
                    }
                }
                out.insert(p, t);
                proof {
                    assert forall|i: int, j: int| 0 <= i < j < out@.len() implies text_less(
                        #[trigger] out@[i]@,
                        #[trigger] out@[j]@,
                    ) by {
                        let i0 = if i < p {
                            i
                        } else {
                            i - 1
                        };
                        let j0 = if j < p {
                            j
                        } else {
                            j - 1
                        };
                        if i == p {
                            assert(out@[j] == before[j0]);
                        } else if j == p {
                            assert(out@[i] == before[i0]);
                        } else {
                            assert(out@[i] == before[i0] && out@[j] == before[j0]);
                        }
                    }
                    assert forall|x: Seq<char>| is_listed(out@, x) <==> (is_listed(before, x) || x
                        == name) by {
                        if is_listed(out@, x) {
                            let i = choose|i: int| 0 <= i < out@.len() && #[trigger] out@[i]@ == x;
                            if i < p {
                                assert(before[i]@ == x);
                            } else if i > p {
                                assert(before[i - 1]@ == x);
                            }
                        }
                        if is_listed(before, x) {
                            let i = choose|i: int| 0 <= i < before.len() && #[trigger] before[i]@ == x;
                            if i < p {
                                assert(out@[i]@ == x);
                            } else {
                                assert(out@[i + 1]@ == x);
                            }
                        }
                        if x == name {
                            assert(out@[p as int]@ == x);
                        }
                    }
                }
            } else {
                assert(is_listed(before, name)) by {
                    assert(before[p as int]@ == name);
                }
            }
            proof {
                assert forall|x: Seq<char>| is_listed(out@, x) implies ticker_among(
                    keys@,
                    x,
                    k + 1,
                ) by {
                    if x == name {
                        assert(ticker_of_key(keys@[k as int]@) == x);
                    } else {
                        assert(is_listed(before, x));
                        assert(ticker_among(keys@, x, k as int));
                        let i = choose|i: int| 0 <= i < k && ticker_of_key(#[trigger] keys@[i]@) == x;
                        assert(0 <= i < k + 1 && ticker_of_key(keys@[i]@) == x);
                    }
                }
                assert forall|x: Seq<char>| ticker_among(keys@, x, k + 1) implies is_listed(
                    out@,
                    x,
                ) by {
                    let i = choose|i: int| 0 <= i < k + 1 && ticker_of_key(#[trigger] keys@[i]@) == x;
                    if i < k {
                        assert(ticker_among(keys@, x, k as int));
                        assert(is_listed(before, x));
                    } else {
                        assert(x == name);
                    }
                }
            }
            k = k + 1;
        }
        out
    }

    /// The ticker that the cache key `key` belongs to.
    pub fn ticker(key: &str) -> (r: String)
        ensures
            r@ == ticker_of_key(key@),
    {
        prefix_before(key, '_')
    }
}

} // verus!
