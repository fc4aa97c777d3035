//! Facts about the traded market: its kind, its outcome names, its slug.

use vstd::prelude::*;
use crate::trailing::MarketKind;

verus! {

/// The kind of a market with `num_tokens` outcome tokens; none unless it
/// has two or three.
pub fn market_kind(num_tokens: usize) -> (r: Option<MarketKind>)
    ensures
        r == (if num_tokens == 2 {
            Some(MarketKind::Binary)
        } else if num_tokens == 3 {
            Some(MarketKind::ThreeWay)
        } else {
            None
        }),
{
    if num_tokens == 2 {
        Some(MarketKind::Binary)
    } else if num_tokens == 3 {
        Some(MarketKind::ThreeWay)
    } else {
        None
    }
}

/// Whether the configuration names a market slug: present and not empty.
pub fn slug_is_set(slug: &Option<String>) -> (r: bool)
    ensures
        r == (slug matches Some(s) && s@.len() > 0),
{
    match slug {
        Some(s) => !s.as_str().is_empty(),
        None => false,
    }
}

/// Name for what serde_json's `from_str::<Vec<String>>` gives for a text:
/// the list of strings of a JSON array of strings, none for any other
/// text.
pub uninterp spec fn json_string_list(s: Seq<char>) -> Option<Seq<Seq<char>>>;

/// Reads a JSON array of strings with serde_json's `from_str`. Nothing is
/// claimed of which texts serde_json accepts: the result is the name
/// `json_string_list` of the text.
#[verifier::external_body]
fn parse_string_list(s: &str) -> (r: Option<Vec<String>>)
    ensures
        r.deep_view() == json_string_list(s@),
{
    serde_json::from_str::<Vec<String>>(s).ok()
}

/// Whether a list of names has one name per token, none of them empty.
pub open spec fn names_fit(names: Seq<Seq<char>>, num_tokens: int) -> bool {
    &&& names.len() == num_tokens
    &&& forall|i: int| 0 <= i < names.len() ==> #[trigger] names[i].len() > 0
}

/// The outcome names to show: those of the market record's JSON list when
/// it parses into one non-empty name per token, else the token labels.
pub open spec fn chosen_outcome_names(outcomes_json: Option<Seq<char>>, token_outcomes: Seq<
    Seq<char>,
>) -> Seq<Seq<char>> {
    match outcomes_json {
        Some(j) => match json_string_list(j) {
            Some(names) => if names_fit(names, token_outcomes.len() as int) {
                names
            } else {
                token_outcomes
            },
            None => token_outcomes,
        },
        None => token_outcomes,
    }
}

/// Whether `names` holds one name per token, none of them empty.
pub fn outcome_names_fit(names: &Vec<String>, num_tokens: usize) -> (r: bool)
    ensures
        r == names_fit(names.deep_view(), num_tokens as int),
{
    if names.len() != num_tokens {
        return false;
    }
    let mut i: usize = 0;
    while i < names.len()
        invariant
            i <= names.len(),
            forall|k: int| 0 <= k < i ==> #[trigger] names.deep_view()[k].len() > 0,
        decreases names.len() - i,
    {
        assert(names.deep_view()[i as int] == names[i as int]@);
        if names[i].as_str().is_empty() {
            return false;
        }
        i = i + 1;
    }
    true
}

fn copy_names(names: &Vec<String>) -> (r: Vec<String>)
    ensures
        r.deep_view() == names.deep_view(),
{
    let mut out: Vec<String> = Vec::new();
    let mut i: usize = 0;
    while i < names.len()
        invariant
            i <= names.len(),
            out@.len() == i,
            forall|k: int| 0 <= k < i ==> #[trigger] out@[k]@ == names@[k]@,
        decreases names.len() - i,
    {
        out.push(names[i].clone());
        i = i + 1;
    }
    assert(out.deep_view() =~= names.deep_view());
    out
}

/// Chooses the outcome names of the market's tokens: the market record's
/// names (such as "Over 220.5" / "Under 220.5") when its JSON list has one
/// non-empty name per token, else the token labels (such as "Over" /
/// "Under").
pub fn choose_outcome_names(outcomes_json: Option<&str>, token_outcomes: &Vec<String>) -> (r: Vec<
    String,
>)
    ensures
        r.deep_view() == chosen_outcome_names(
            match outcomes_json {
                Some(j) => Some(j@),
                None => None,
            },
            token_outcomes.deep_view(),
        ),
{
    if let Some(j) = outcomes_json {
        if let Some(names) = parse_string_list(j) {
            if outcome_names_fit(&names, token_outcomes.len()) {
                return names;
            }
        }
    }
    copy_names(token_outcomes)
}

} // verus!
