//! Regular-expression searches through the `regex` crate.

use vstd::prelude::*;

verus! {

/// The groups of the first match of `pattern` in `text`, group 0 (the
/// whole match) first, each as its text where it took part in the match:
/// `None` where the pattern does not compile or does not match.
pub uninterp spec fn regex_groups(pattern: Seq<char>, text: Seq<char>) -> Option<
    Seq<Option<Seq<char>>>,
>;

/// The text with every match of `pattern` replaced by `rep`: `None` where
/// the pattern does not compile.
pub uninterp spec fn regex_replaced(pattern: Seq<char>, text: Seq<char>, rep: Seq<char>) -> Option<
    Seq<char>,
>;

/// The text of the optional groups of a match.
pub open spec fn groups_view(g: Vec<Option<String>>) -> Seq<Option<Seq<char>>> {
    g@.map_values(
        |o: Option<String>|
            match o {
                Some(s) => Some(s@),
                None => None,
            },
    )
}

/// Compiles `pattern` with `regex::Regex::new` and, where it compiles,
/// searches `text` with `Regex::captures`, handing out every group of the
/// first match. The contract names the outcome and says nothing more of it.
#[verifier::external_body]
pub(crate) fn captures(pattern: &str, text: &str) -> (r: Option<Vec<Option<String>>>)
    ensures
        match r {
            Some(g) => regex_groups(pattern@, text@) == Some(groups_view(g)),
            None => regex_groups(pattern@, text@) is None,
        },
{
    let re = match regex::Regex::new(pattern) {
        Ok(re) => re,
        Err(_) => return None,
    };
    match re.captures(text) {
        Some(c) => Some(c.iter().map(|m| m.map(|m| m.as_str().to_string())).collect()),
        None => None,
    }
}

/// Compiles `pattern` with `regex::Regex::new` and, where it compiles,
/// replaces every match in `text` by `rep` with `Regex::replace_all`. The
/// contract names the outcome and says nothing more of it.
#[verifier::external_body]
pub(crate) fn replace_all(pattern: &str, text: &str, rep: &str) -> (r: Option<String>)
    ensures
        match r {
            Some(t) => regex_replaced(pattern@, text@, rep@) == Some(t@),
            None => regex_replaced(pattern@, text@, rep@) is None,
        },
{
    match regex::Regex::new(pattern) {
        Ok(re) => Some(re.replace_all(text, rep).to_string()),
        Err(_) => None,
    }
}

/// The text of group `i` of a match, empty where the group did not take
/// part in it or does not exist.
pub open spec fn group_text(g: Seq<Option<Seq<char>>>, i: int) -> Seq<char> {
    if 0 <= i < g.len() {
        match g[i] {
            Some(t) => t,
            None => Seq::empty(),
        }
    } else {
        Seq::empty()
    }
}

/// The text of group `i` of a match (empty where it took no part).
pub(crate) fn group_at(g: &Vec<Option<String>>, i: usize) -> (r: String)
    ensures
        r@ == group_text(groups_view(*g), i as int),
{
    if i < g.len() {
        match &g[i] {
            Some(t) => t.clone(),
            None => String::new(),
        }
    } else {
        String::new()
    }
}

} // verus!
