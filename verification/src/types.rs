//! Core data types of the orchestrator.
//!
//! Quantities that are proportions or small rational constants (confidence
//! scores, thresholds, feature values) are carried as exact [`Fraction`]s, so
//! that every rule of the library can be stated over integers.

use vstd::prelude::*;

verus! {

/// An exact non-negative rational number `num / den`.
///
/// Equality is structural: `1/2` and `2/4` are different representations.
#[derive(Clone, Copy, Debug, PartialEq, Eq, Structural)]
pub struct Fraction {
    /// Numerator.
    pub num: u64,
    /// Denominator; positive in every well-formed fraction.
    pub den: u64,
}

impl Fraction {
    /// A fraction is well formed when its denominator is positive.
    pub open spec fn wf(&self) -> bool {
        self.den > 0
    }

    /// A well-formed fraction that lies in the closed interval `[0, 1]`.
    pub open spec fn is_proportion(&self) -> bool {
        0 < self.den && self.num <= self.den
    }

    /// `self > other` as rational numbers.
    pub open spec fn gt_spec(&self, other: &Fraction) -> bool {
        self.num * other.den > other.num * self.den
    }

    /// Builds `num / den`.
    pub fn new(num: u64, den: u64) -> (f: Fraction)
        requires
            den > 0,
        ensures
            f.num == num,
            f.den == den,
            f.wf(),
    {
        Fraction { num, den }
    }

    /// The fraction `0/1`.
    pub fn zero() -> (f: Fraction)
        ensures
            f.num == 0,
            f.den == 1,
    {
        Fraction { num: 0, den: 1 }
    }

    /// The fraction `1/1`.
    pub fn one() -> (f: Fraction)
        ensures
            f.num == 1,
            f.den == 1,
    {
        Fraction { num: 1, den: 1 }
    }

    /// `1/1` if `flag` holds, `0/1` otherwise.
    pub fn indicator(flag: bool) -> (f: Fraction)
        ensures
            f == indicator_of(flag),
    {
        if flag {
            Fraction { num: 1, den: 1 }
        } else {
            Fraction { num: 0, den: 1 }
        }
    }

    /// Compares two fractions as rational numbers by cross-multiplication.
    pub fn gt(&self, other: &Fraction) -> (b: bool)
        ensures
            b == self.gt_spec(other),
    {
        assert(self.num * other.den <= u128::MAX && other.num * self.den <= u128::MAX)
            by (nonlinear_arith)
            requires
                self.num <= u64::MAX,
                self.den <= u64::MAX,
                other.num <= u64::MAX,
                other.den <= u64::MAX,
        ;
        let left: u128 = self.num as u128 * other.den as u128;
        let right: u128 = other.num as u128 * self.den as u128;
        left > right
    }
}

/// The value of a flag as a fraction: `1/1` for true, `0/1` for false.
pub open spec fn indicator_of(flag: bool) -> Fraction {
    if flag {
        Fraction { num: 1, den: 1 }
    } else {
        Fraction { num: 0, den: 1 }
    }
}

/// Priority assigned to a query that does not state one.
pub const DEFAULT_PRIORITY: u8 = 5;

/// Priorities above this value count as high.
pub const HIGH_PRIORITY_ABOVE: u8 = 7;

/// Trusted: reads the system clock with `std::time::SystemTime::now` and
/// returns the whole seconds since the Unix epoch (zero if the clock is set
/// before it). Nothing is claimed about the value.
#[verifier::external_body]
pub(crate) fn current_timestamp() -> (seconds: u64) {
    std::time::SystemTime::now().duration_since(std::time::UNIX_EPOCH).unwrap_or_default().as_secs()
}

/// Copies an optional string.
pub fn clone_opt_string(s: &Option<String>) -> (r: Option<String>)
    ensures
        r == *s,
{
    match s {
        Some(inner) => Some(inner.clone()),
        None => None,
    }
}

/// A user query to be processed by the orchestrator.
#[derive(Debug)]
pub struct Query {
    /// The query text.
    pub text: String,
    /// Optional project context identifier.
    pub project_context: Option<String>,
    /// Priority level (1-10, higher is more urgent).
    pub priority: u8,
    /// Creation time, in seconds since the Unix epoch.
    pub timestamp: u64,
}

impl Query {
    /// Creates a query with the default priority and no project context,
    /// stamped with the current time.
    pub fn new(text: &str) -> (q: Query)
        ensures
            q.text@ == text@,
            q.project_context is None,
            q.priority == DEFAULT_PRIORITY,
    {
        Query {
            text: text.to_owned(),
            project_context: None,
            priority: DEFAULT_PRIORITY,
            timestamp: current_timestamp(),
        }
    }

    /// Creates a query that belongs to the project `context`, with the
    /// default priority, stamped with the current time.
    pub fn with_context(text: &str, context: &str) -> (q: Query)
        ensures
            q.text@ == text@,
            q.project_context matches Some(c) && c@ == context@,
            q.priority == DEFAULT_PRIORITY,
    {
        Query {
            text: text.to_owned(),
            project_context: Some(context.to_owned()),
            priority: DEFAULT_PRIORITY,
            timestamp: current_timestamp(),
        }
    }

    /// Whether the priority is above [`HIGH_PRIORITY_ABOVE`].
    pub fn is_high_priority(&self) -> (b: bool)
        ensures
            b == (self.priority > HIGH_PRIORITY_ABOVE),
    {
        self.priority > HIGH_PRIORITY_ABOVE
    }
}

impl Clone for Query {
    fn clone(&self) -> (q: Self)
        ensures
            q == *self,
    {
        Query {
            text: self.text.clone(),
            project_context: clone_opt_string(&self.project_context),
            priority: self.priority,
            timestamp: self.timestamp,
        }
    }
}

/// Routing decision made by the router.
#[derive(Clone, Copy, Debug, PartialEq, Eq, Structural)]
pub enum RoutingDecision {
    /// Process locally with the on-device model.
    Local,
    /// Send to a remote API.
    Remote,
    /// Local preprocessing followed by a remote call.
    Hybrid,
    /// Blocked by the safety rules.
    Blocked,
}

impl RoutingDecision {
    /// Whether carrying out this decision needs network access.
    pub fn requires_network(&self) -> (b: bool)
        ensures
            b == (*self == RoutingDecision::Remote || *self == RoutingDecision::Hybrid),
    {
        matches!(self, RoutingDecision::Remote | RoutingDecision::Hybrid)
    }
}

/// Additional metadata about a response.
#[derive(Debug)]
pub struct ResponseMetadata {
    /// Model that produced the response, if any.
    pub model: Option<String>,
    /// Estimated number of tokens generated.
    pub tokens: Option<usize>,
    /// Whether the response came from a cache.
    pub cached: bool,
}

impl Clone for ResponseMetadata {
    fn clone(&self) -> (m: Self)
        ensures
            m == *self,
    {
        ResponseMetadata {
            model: clone_opt_string(&self.model),
            tokens: self.tokens,
            cached: self.cached,
        }
    }
}

/// Response from the AI system.
#[derive(Debug)]
pub struct Response {
    /// The generated response text.
    pub text: String,
    /// Which route was used.
    pub route: RoutingDecision,
    /// Confidence score, a proportion in `[0, 1]`.
    pub confidence: Fraction,
    /// Processing time in milliseconds.
    pub latency_ms: u64,
    /// Metadata about the response.
    pub metadata: ResponseMetadata,
}

impl Clone for Response {
    fn clone(&self) -> (r: Self)
        ensures
            r == *self,
    {
        Response {
            text: self.text.clone(),
            route: self.route,
            confidence: self.confidence,
            latency_ms: self.latency_ms,
            metadata: self.metadata.clone(),
        }
    }
}

/// Result of evaluating a query against the safety rules.
#[derive(Debug)]
pub struct RuleEvaluation {
    /// Whether the query is allowed.
    pub allowed: bool,
    /// Reason for blocking, if blocked.
    pub reason: Option<String>,
    /// Identifier of the rule that blocked the query, if any.
    pub rule_id: Option<String>,
}

impl Clone for RuleEvaluation {
    fn clone(&self) -> (e: Self)
        ensures
            e == *self,
    {
        RuleEvaluation {
            allowed: self.allowed,
            reason: clone_opt_string(&self.reason),
            rule_id: clone_opt_string(&self.rule_id),
        }
    }
}

/// A single turn in the conversation.
#[derive(Debug)]
pub struct ConversationTurn {
    /// Query from the user.
    pub query: Query,
    /// Response from the system.
    pub response: Response,
}

impl Clone for ConversationTurn {
    fn clone(&self) -> (t: Self)
        ensures
            t == *self,
    {
        ConversationTurn { query: self.query.clone(), response: self.response.clone() }
    }
}

/// Copies a list of conversation turns.
pub fn clone_turns(turns: &Vec<ConversationTurn>) -> (r: Vec<ConversationTurn>)
    ensures
        r@ == turns@,
{
    let mut r: Vec<ConversationTurn> = Vec::new();
    let mut i: usize = 0;
    while i < turns.len()
        invariant
            i <= turns.len(),
            r@ == turns@.take(i as int),
        decreases turns.len() - i,
    {
        r.push(turns[i].clone());
        proof {
            assert(turns@.take(i + 1) =~= turns@.take(i as int).push(turns@[i as int]));
        }
        i += 1;
    }
    proof {
        assert(turns@.take(turns.len() as int) =~= turns@);
    }
    r
}

/// Context snapshot handed out by the context manager.
#[derive(Debug)]
pub struct ContextSnapshot {
    /// Current project context.
    pub project: Option<String>,
    /// Recent conversation history, most recent first.
    pub history: Vec<ConversationTurn>,
}

/// Router configuration.
#[derive(Debug)]
pub struct RouterConfig {
    /// Confidence reported when no heuristic rule applies.
    pub local_threshold: Fraction,
    /// Maximum query length, in bytes, eligible for local processing.
    pub max_local_length: usize,
    /// Keywords that suggest complex reasoning, in order.
    pub complex_keywords: Vec<String>,
}

/// The keywords of the default router configuration.
pub open spec fn default_keywords() -> Seq<Seq<char>> {
    seq!["prove"@, "verify"@, "formal"@, "complex"@]
}

/// The views of a list of strings.
pub open spec fn string_views(v: Seq<String>) -> Seq<Seq<char>> {
    v.map_values(|s: String| s@)
}

impl Default for RouterConfig {
    fn default() -> (c: Self)
        ensures
            c.local_threshold == (Fraction { num: 70, den: 100 }),
            c.max_local_length == 500,
            string_views(c.complex_keywords@) == default_keywords(),
    {
        let mut keywords: Vec<String> = Vec::new();
        keywords.push("prove".to_owned());
        keywords.push("verify".to_owned());
        keywords.push("formal".to_owned());
        keywords.push("complex".to_owned());
        proof {
            assert(string_views(keywords@) =~= default_keywords());
        }
        RouterConfig {
            local_threshold: Fraction { num: 70, den: 100 },
            max_local_length: 500,
            complex_keywords: keywords,
        }
    }
}

impl Clone for RouterConfig {
    fn clone(&self) -> (c: Self)
        ensures
            c.local_threshold == self.local_threshold,
            c.max_local_length == self.max_local_length,
            c.complex_keywords@ == self.complex_keywords@,
    {
        let mut keywords: Vec<String> = Vec::new();
        let mut i: usize = 0;
        while i < self.complex_keywords.len()
            invariant
                i <= self.complex_keywords.len(),
                keywords@ == self.complex_keywords@.take(i as int),
            decreases self.complex_keywords.len() - i,
        {
            keywords.push(self.complex_keywords[i].clone());
            proof {
                assert(self.complex_keywords@.take(i + 1) =~= self.complex_keywords@.take(
                    i as int,
                ).push(self.complex_keywords@[i as int]));
            }
            i += 1;
        }
        proof {
            assert(self.complex_keywords@.take(self.complex_keywords.len() as int)
                =~= self.complex_keywords@);
        }
        RouterConfig {
            local_threshold: self.local_threshold,
            max_local_length: self.max_local_length,
            complex_keywords: keywords,
        }
    }
}

} // verus!
