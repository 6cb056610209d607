//! The override table: substituting an alternate file for measurement.
//!
//! The table is an ordered list of rules, each a matcher and a
//! replacement path.  A rule matches a (path, recorded digest) pair by
//! exact digest equality, by a regular-expression search over the path,
//! or by exact path equality.  Rules are consulted strictly in
//! declaration order and the first match wins.

use vstd::prelude::*;

verus! {

/// What the regular-expression engine answers for a pattern searched
/// anywhere in a text, named but not stated; the engine refusing the
/// query (an invalid pattern, or an exhausted backtracking limit) is the
/// absent answer.  Both are functions of the two strings alone.
pub uninterp spec fn regex_match_of(pattern: Seq<char>, text: Seq<char>) -> Option<bool>;

/// Relies on fancy_regex::Regex::new and Regex::is_match: whether the
/// pattern matches anywhere in the text, decided by the two strings
/// alone; a compilation or search error is mapped to the absent answer.
#[verifier::external_body]
fn regex_is_match(pattern: &str, text: &str) -> (r: Option<bool>)
    ensures
        r == regex_match_of(pattern@, text@),
{
    match fancy_regex::Regex::new(pattern) {
        Ok(re) => re.is_match(text).ok(),
        Err(_) => None,
    }
}

/// How a rule decides whether it applies to a candidate.
pub enum Matcher {
    /// The event's recorded digest equals these bytes exactly.
    RecordedHash { hash: Vec<u8> },
    /// The candidate path matches this regular expression anywhere.
    PathRegex { regex: String },
    /// The candidate path equals this path exactly.
    Path { path: String },
}

/// One override rule: a matcher and the replacement path to measure
/// instead of the candidate.
pub struct DropIn {
    pub matcher: Matcher,
    pub path: String,
}

/// The ordered override table.
pub struct DropIns {
    pub rules: Vec<DropIn>,
}

/// Whether a matcher applies to a candidate path and recorded digest.
/// A regular-expression rule applies only when the engine answers yes;
/// a refused query does not match.
pub open spec fn spec_matches(m: Matcher, path: Seq<char>, digest: Seq<u8>) -> bool {
    match m {
        Matcher::RecordedHash { hash } => hash@ == digest,
        Matcher::PathRegex { regex } => regex_match_of(regex@, path) == Option::Some(true),
        Matcher::Path { path: rule_path } => rule_path@ == path,
    }
}

/// The replacement path of the first rule that applies, if any.
pub open spec fn spec_find_drop_in(rules: Seq<DropIn>, path: Seq<char>, digest: Seq<u8>) -> Option<
    Seq<char>,
>
    decreases rules.len(),
{
    if rules.len() == 0 {
        Option::None
    } else if spec_matches(rules[0].matcher, path, digest) {
        Option::Some(rules[0].path@)
    } else {
        spec_find_drop_in(rules.skip(1), path, digest)
    }
}

/// Consult an override table for a candidate path and recorded digest.
pub trait FindDropIn {
    /// The rules this table holds, in declaration order.
    spec fn spec_rules(&self) -> Seq<DropIn>;

    /// The first matching rule's replacement path, or nothing when no
    /// rule matches; an empty or absent table always yields nothing.
    fn find_drop_in(&self, path: &String, hash: &Vec<u8>) -> (r: Option<String>)
        ensures
            match spec_find_drop_in(self.spec_rules(), path@, hash@) {
                Option::Some(p) => r matches Some(s) && s@ == p,
                Option::None => r is None,
            },
    ;
}

impl FindDropIn for DropIns {
    open spec fn spec_rules(&self) -> Seq<DropIn> {
        self.rules@
    }

    fn find_drop_in(&self, path: &String, hash: &Vec<u8>) -> (r: Option<String>)
        ensures
            match spec_find_drop_in(self.spec_rules(), path@, hash@) {
                Option::Some(p) => r matches Some(s) && s@ == p,
                Option::None => r is None,
            },
    {
        let rules = &self.rules;
        let mut i: usize = 0;
        proof {
            assert(rules@.skip(0) =~= rules@);
        }
        while i < rules.len()
            invariant
                i <= rules@.len(),
                rules@ == self.spec_rules(),
                spec_find_drop_in(rules@, path@, hash@) == spec_find_drop_in(
                    rules@.skip(i as int),
                    path@,
                    hash@,
                ),
            decreases rules@.len() - i,
        {
            proof {
                assert(rules@.skip(i as int)[0] == rules@[i as int]);
                assert(rules@.skip(i as int).skip(1) =~= rules@.skip(i + 1));
            }
            let applies = match &rules[i].matcher {
                Matcher::RecordedHash { hash: rule_hash } => {
                    let eq = *rule_hash == *hash;
                    proof {
                        if eq {
                            assert(rule_hash@ =~= hash@);
                        } else {
                            assert(!(rule_hash@ =~= hash@));
                        }
                    }
                    eq
                },
                Matcher::PathRegex { regex } => {
                    match regex_is_match(regex.as_str(), path.as_str()) {
                        Some(m) => m,
                        None => false,
                    }
                },
                Matcher::Path { path: rule_path } => *rule_path == *path,
            };
            if applies {
                return Some(rules[i].path.clone());
            }
            i = i + 1;
        }
        None
    }
}

impl FindDropIn for Option<DropIns> {
    open spec fn spec_rules(&self) -> Seq<DropIn> {
        match self {
            Option::Some(t) => t.rules@,
            Option::None => Seq::empty(),
        }
    }

    fn find_drop_in(&self, path: &String, hash: &Vec<u8>) -> (r: Option<String>)
        ensures
            match spec_find_drop_in(self.spec_rules(), path@, hash@) {
                Option::Some(p) => r matches Some(s) && s@ == p,
                Option::None => r is None,
            },
    {
        match self {
            Some(t) => t.find_drop_in(path, hash),
            None => None,
        }
    }
}

/// When an earlier and a later rule both apply to the same candidate,
/// the table yields the earlier rule's replacement path only.
pub proof fn lemma_first_match_wins(
    rules: Seq<DropIn>,
    path: Seq<char>,
    digest: Seq<u8>,
    i: int,
    j: int,
)
    requires
        0 <= i < j < rules.len(),
        spec_matches(rules[i].matcher, path, digest),
        spec_matches(rules[j].matcher, path, digest),
        forall|k: int| 0 <= k < i ==> !spec_matches(#[trigger] rules[k].matcher, path, digest),
    ensures
        spec_find_drop_in(rules, path, digest) == Option::Some(rules[i].path@),
    decreases i,
{
    if i == 0 {
    } else {
        assert(rules.skip(1)[i - 1] == rules[i]);
        assert(rules.skip(1)[j - 1] == rules[j]);
        assert(forall|k: int| 0 <= k < i - 1 ==> rules.skip(1)[k] == rules[k + 1]);
        lemma_first_match_wins(rules.skip(1), path, digest, i - 1, j - 1);
    }
}

/// Two rules behave alike when their matchers test for the same bytes,
/// pattern or path, and their replacement paths read the same.
pub open spec fn spec_rule_equivalent(a: DropIn, b: DropIn) -> bool {
    &&& a.path@ == b.path@
    &&& match (a.matcher, b.matcher) {
        (Matcher::RecordedHash { hash: ha }, Matcher::RecordedHash { hash: hb }) => ha@ == hb@,
        (Matcher::PathRegex { regex: ra }, Matcher::PathRegex { regex: rb }) => ra@ == rb@,
        (Matcher::Path { path: pa }, Matcher::Path { path: pb }) => pa@ == pb@,
        _ => false,
    }
}

/// Loading the same override-rule file twice: two tables whose rules are
/// pairwise equivalent produce identical matches for identical inputs.
pub proof fn lemma_equivalent_tables_match_alike(
    a: Seq<DropIn>,
    b: Seq<DropIn>,
    path: Seq<char>,
    digest: Seq<u8>,
)
    requires
        a.len() == b.len(),
        forall|k: int| 0 <= k < a.len() ==> spec_rule_equivalent(#[trigger] a[k], b[k]),
    ensures
        spec_find_drop_in(a, path, digest) == spec_find_drop_in(b, path, digest),
    decreases a.len(),
{
    if a.len() > 0 {
        assert(spec_rule_equivalent(a[0], b[0]));
        assert(spec_matches(a[0].matcher, path, digest) == spec_matches(b[0].matcher, path, digest));
        assert(forall|k: int| 0 <= k < a.len() - 1 ==> a.skip(1)[k] == a[k + 1] && b.skip(1)[k]
            == b[k + 1]);
        lemma_equivalent_tables_match_alike(a.skip(1), b.skip(1), path, digest);
    }
}

} // verus!
