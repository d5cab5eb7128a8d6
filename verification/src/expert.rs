//! Expert system: rule-based safety and policy enforcement.
//!
//! A rule pairs a predicate on the query text with an action. Evaluation
//! walks the rules in order and reports the first rule that blocks; rules
//! that only warn or log never stop a query.

use crate::text::{
    byte_len, byte_length, chars_of, contains, contains_char, is_substring, lowercase, lowercase_chars,
};
use crate::types::{Query, RuleEvaluation};
use vstd::prelude::*;

verus! {

/// Queries longer than this many bytes count as extremely long.
pub const EXTREME_LENGTH: usize = 5000;

/// Action to take when a rule triggers.
#[derive(Clone, Copy, Debug, PartialEq, Eq, Structural)]
pub enum RuleAction {
    /// Block the query entirely.
    Block,
    /// Warn but allow.
    Warn,
    /// Log for audit.
    Log,
}

/// The predicates a rule can test.
#[derive(Clone, Copy, Debug, PartialEq, Eq, Structural)]
pub enum RulePredicate {
    /// The text names an API key, secret or token and holds an `=`.
    ApiKeyPattern,
    /// The text names a password and holds an `=`.
    PasswordPattern,
    /// The text asks for harmful instructions.
    HarmfulRequest,
    /// The text is longer than [`EXTREME_LENGTH`] bytes.
    ExtremelyLong,
}

/// A single rule of the expert system.
#[derive(Debug)]
pub struct Rule {
    /// Identifier reported when the rule blocks.
    pub id: String,
    /// Human-readable reason reported when the rule blocks.
    pub description: String,
    /// Condition under which the rule triggers.
    pub predicate: RulePredicate,
    /// What happens when the rule triggers.
    pub action: RuleAction,
}

impl Clone for Rule {
    fn clone(&self) -> (r: Self)
        ensures
            r == *self,
    {
        Rule {
            id: self.id.clone(),
            description: self.description.clone(),
            predicate: self.predicate,
            action: self.action,
        }
    }
}

/// The lowercase text mentions `api_key`, `secret` or `token`, and holds `=`.
pub open spec fn api_key_pattern(text: Seq<char>) -> bool {
    let t = lowercase(text);
    (is_substring(t, "api_key"@) || is_substring(t, "secret"@) || is_substring(t, "token"@))
        && t.contains('=')
}

/// The lowercase text mentions `password` or `passwd`, and holds `=`.
pub open spec fn password_pattern(text: Seq<char>) -> bool {
    let t = lowercase(text);
    (is_substring(t, "password"@) || is_substring(t, "passwd"@)) && t.contains('=')
}

/// The lowercase text mentions `hack`, `exploit`, `bypass security` or `steal`.
pub open spec fn harmful_request(text: Seq<char>) -> bool {
    let t = lowercase(text);
    is_substring(t, "hack"@) || is_substring(t, "exploit"@) || is_substring(
        t,
        "bypass security"@,
    ) || is_substring(t, "steal"@)
}

/// The text occupies more than [`EXTREME_LENGTH`] bytes.
pub open spec fn extremely_long(text: Seq<char>) -> bool {
    byte_len(text) > EXTREME_LENGTH
}

impl RulePredicate {
    /// Whether the predicate holds of a query text.
    pub open spec fn holds(self, text: Seq<char>) -> bool {
        match self {
            RulePredicate::ApiKeyPattern => api_key_pattern(text),
            RulePredicate::PasswordPattern => password_pattern(text),
            RulePredicate::HarmfulRequest => harmful_request(text),
            RulePredicate::ExtremelyLong => extremely_long(text),
        }
    }

    /// Tests the predicate on a query.
    pub fn test(self, query: &Query) -> (b: bool)
        ensures
            b == self.holds(query.text@),
    {
        match self {
            RulePredicate::ApiKeyPattern => contains_api_key_pattern(query),
            RulePredicate::PasswordPattern => contains_password_pattern(query),
            RulePredicate::HarmfulRequest => contains_harmful_request(query),
            RulePredicate::ExtremelyLong => is_extremely_long(query),
        }
    }
}

/// Checks whether the query contains an API key pattern.
pub fn contains_api_key_pattern(query: &Query) -> (b: bool)
    ensures
        b == api_key_pattern(query.text@),
{
    let text = lowercase_chars(query.text.as_str());
    let named = contains(&text, &chars_of("api_key")) || contains(&text, &chars_of("secret"))
        || contains(&text, &chars_of("token"));
    named && contains_char(&text, '=')
}

/// Checks whether the query contains a password pattern.
pub fn contains_password_pattern(query: &Query) -> (b: bool)
    ensures
        b == password_pattern(query.text@),
{
    let text = lowercase_chars(query.text.as_str());
    let named = contains(&text, &chars_of("password")) || contains(&text, &chars_of("passwd"));
    named && contains_char(&text, '=')
}

/// Checks whether the query requests harmful instructions.
pub fn contains_harmful_request(query: &Query) -> (b: bool)
    ensures
        b == harmful_request(query.text@),
{
    let text = lowercase_chars(query.text.as_str());
    contains(&text, &chars_of("hack")) || contains(&text, &chars_of("exploit")) || contains(
        &text,
        &chars_of("bypass security"),
    ) || contains(&text, &chars_of("steal"))
}

/// Checks whether the query is extremely long.
pub fn is_extremely_long(query: &Query) -> (b: bool)
    ensures
        b == extremely_long(query.text@),
{
    byte_length(query.text.as_str()) > EXTREME_LENGTH
}

/// The rule blocks queries with this text.
pub open spec fn blocks(rule: Rule, text: Seq<char>) -> bool {
    rule.action == RuleAction::Block && rule.predicate.holds(text)
}

/// Rule `i` is the first rule of `rules` that blocks `text`.
pub open spec fn is_first_blocking(rules: Seq<Rule>, text: Seq<char>, i: int) -> bool {
    &&& 0 <= i < rules.len()
    &&& blocks(rules[i], text)
    &&& forall|j: int| 0 <= j < i ==> !blocks(#[trigger] rules[j], text)
}

/// No rule of `rules` blocks `text`.
pub open spec fn none_blocking(rules: Seq<Rule>, text: Seq<char>) -> bool {
    forall|j: int| 0 <= j < rules.len() ==> !blocks(#[trigger] rules[j], text)
}

/// What a rule is made of, with its strings as character sequences.
pub open spec fn rule_parts(rule: Rule) -> (Seq<char>, Seq<char>, RulePredicate, RuleAction) {
    (rule.id@, rule.description@, rule.predicate, rule.action)
}

/// The default safety rules, in evaluation order.
pub open spec fn default_rule_table() -> Seq<(Seq<char>, Seq<char>, RulePredicate, RuleAction)> {
    seq![
        (
            "PRIVACY_001"@,
            "Block queries containing potential API keys"@,
            RulePredicate::ApiKeyPattern,
            RuleAction::Block,
        ),
        (
            "PRIVACY_002"@,
            "Block queries with potential passwords"@,
            RulePredicate::PasswordPattern,
            RuleAction::Block,
        ),
        (
            "SAFETY_001"@,
            "Block queries requesting harmful instructions"@,
            RulePredicate::HarmfulRequest,
            RuleAction::Block,
        ),
        (
            "RESOURCE_001"@,
            "Warn on extremely long queries (>5000 chars)"@,
            RulePredicate::ExtremelyLong,
            RuleAction::Warn,
        ),
    ]
}

/// Rule-based expert system for safety enforcement.
#[derive(Debug)]
pub struct ExpertSystem {
    rules: Vec<Rule>,
}

impl View for ExpertSystem {
    type V = Seq<Rule>;

    /// The rules, in evaluation order.
    closed spec fn view(&self) -> Seq<Rule> {
        self.rules@
    }
}

impl ExpertSystem {
    /// Creates an expert system with the default rules.
    pub fn new() -> (s: Self)
        ensures
            s@.map_values(|r: Rule| rule_parts(r)) == default_rule_table(),
    {
        ExpertSystem { rules: Self::default_rules() }
    }

    /// Creates an expert system with custom rules.
    pub fn with_rules(rules: Vec<Rule>) -> (s: Self)
        ensures
            s@ == rules@,
    {
        ExpertSystem { rules }
    }

    /// Evaluates a query against all rules, in order.
    ///
    /// The first rule that blocks the query decides: the evaluation carries
    /// its description and identifier. If no rule blocks, the query is
    /// allowed.
    pub fn evaluate(&self, query: &Query) -> (e: RuleEvaluation)
        ensures
            e.allowed == none_blocking(self@, query.text@),
            e.allowed ==> e.reason is None && e.rule_id is None,
            !e.allowed ==> exists|i: int|
                is_first_blocking(self@, query.text@, i) && e.reason == Some(
                    (#[trigger] self@[i]).description,
                ) && e.rule_id == Some(self@[i].id),
    {
        let mut i: usize = 0;
        while i < self.rules.len()
            invariant
                i <= self.rules.len(),
                forall|j: int| 0 <= j < i ==> !blocks(#[trigger] self.rules@[j], query.text@),
            decreases self.rules.len() - i,
        {
            let rule = &self.rules[i];
            if rule.predicate.test(query) {
                match rule.action {
                    RuleAction::Block => {
                        proof {
                            assert(is_first_blocking(self@, query.text@, i as int));
                        }
                        return RuleEvaluation {
                            allowed: false,
                            reason: Some(rule.description.clone()),
                            rule_id: Some(rule.id.clone()),
                        };
                    },
                    RuleAction::Warn | RuleAction::Log => {},
                }
            }
            i += 1;
        }
        RuleEvaluation { allowed: true, reason: None, rule_id: None }
    }

    /// The default safety rules.
    pub fn default_rules() -> (rules: Vec<Rule>)
        ensures
            rules@.map_values(|r: Rule| rule_parts(r)) == default_rule_table(),
    {
        let mut rules: Vec<Rule> = Vec::new();
        rules.push(
            Rule {
                id: "PRIVACY_001".to_owned(),
                description: "Block queries containing potential API keys".to_owned(),
                predicate: RulePredicate::ApiKeyPattern,
                action: RuleAction::Block,
            },
        );
        rules.push(
            Rule {
                id: "PRIVACY_002".to_owned(),
                description: "Block queries with potential passwords".to_owned(),
                predicate: RulePredicate::PasswordPattern,
                action: RuleAction::Block,
            },
        );
        rules.push(
            Rule {
                id: "SAFETY_001".to_owned(),
                description: "Block queries requesting harmful instructions".to_owned(),
                predicate: RulePredicate::HarmfulRequest,
                action: RuleAction::Block,
            },
        );
        rules.push(
            Rule {
                id: "RESOURCE_001".to_owned(),
                description: "Warn on extremely long queries (>5000 chars)".to_owned(),
                predicate: RulePredicate::ExtremelyLong,
                action: RuleAction::Warn,
            },
        );
        proof {
            assert(rules@.map_values(|r: Rule| rule_parts(r)) =~= default_rule_table());
        }
        rules
    }

    /// Adds a custom rule after the existing ones.
    pub fn add_rule(&mut self, rule: Rule)
        ensures
            final(self)@ == old(self)@.push(rule),
    {
        self.rules.push(rule);
    }

    /// The identifiers of all rules, in evaluation order.
    pub fn rule_ids(&self) -> (ids: Vec<String>)
        ensures
            ids@.len() == self@.len(),
            forall|i: int| 0 <= i < ids@.len() ==> ids@[i] == self@[i].id,
    {
        let mut ids: Vec<String> = Vec::new();
        let mut i: usize = 0;
        while i < self.rules.len()
            invariant
                i <= self.rules.len(),
                ids@.len() == i,
                forall|k: int| 0 <= k < i ==> ids@[k] == self.rules@[k].id,
            decreases self.rules.len() - i,
        {
            ids.push(self.rules[i].id.clone());
            i += 1;
        }
        ids
    }
}

impl Default for ExpertSystem {
    fn default() -> (s: Self)
        ensures
            s@.map_values(|r: Rule| rule_parts(r)) == default_rule_table(),
    {
        Self::new()
    }
}

impl Clone for ExpertSystem {
    fn clone(&self) -> (s: Self)
        ensures
            s@ == self@,
    {
        let mut rules: Vec<Rule> = Vec::new();
        let mut i: usize = 0;
        while i < self.rules.len()
            invariant
                i <= self.rules.len(),
                rules@ == self.rules@.take(i as int),
            decreases self.rules.len() - i,
        {
            rules.push(self.rules[i].clone());
            proof {
                assert(self.rules@.take(i + 1) =~= self.rules@.take(i as int).push(
                    self.rules@[i as int],
                ));
            }
            i += 1;
        }
        proof {
            assert(self.rules@.take(self.rules.len() as int) =~= self.rules@);
        }
        ExpertSystem { rules }
    }
}

} // verus!
