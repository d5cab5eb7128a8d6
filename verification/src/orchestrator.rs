//! Orchestrator: the coordination layer.
//!
//! A query passes the safety rules, is routed, answered by the strategy that
//! the route names, and recorded in the conversation history. Local answers
//! are produced here; remote processing is not part of an offline build and
//! is reported as an error.

use crate::context::{contexts_recorded, recorded, ContextManager};
use crate::expert::{is_first_blocking, none_blocking, ExpertSystem};
use crate::router::Router;
use crate::text::{byte_len, byte_length, truncate, truncated};
use crate::types::{
    ConversationTurn, Fraction, Query, Response, ResponseMetadata, RoutingDecision,
};
use vstd::prelude::*;
use vstd::string::StringExecFns;

verus! {

/// Number of bytes of the query that an answer quotes.
pub const QUOTE_LENGTH: usize = 50;

/// Number of turns in the snapshot taken for each query.
pub const SNAPSHOT_SIZE: usize = 10;

/// Bytes per estimated token.
pub const BYTES_PER_TOKEN: usize = 4;

/// A point in time of the monotonic clock.
#[verifier::external_type_specification]
#[verifier::external_body]
pub struct ExInstant(std::time::Instant);

/// Trusted: reads the monotonic clock with `std::time::Instant::now`.
/// Nothing is claimed about the value.
#[verifier::external_body]
pub(crate) fn clock_now() -> (t: std::time::Instant) {
    std::time::Instant::now()
}

/// Trusted: the whole milliseconds since `start`, from
/// `std::time::Instant::elapsed`. Nothing is claimed about the value.
#[verifier::external_body]
pub(crate) fn elapsed_ms(start: &std::time::Instant) -> (ms: u64) {
    start.elapsed().as_millis() as u64
}

/// The error text for a query that a safety rule blocked.
pub open spec fn blocked_message(reason: Option<Seq<char>>) -> Seq<char> {
    "Query blocked by safety rules: "@ + match reason {
        Some(r) => r,
        None => "Unknown reason"@,
    }
}

/// The error text for a query that was routed to remote processing.
pub open spec fn remote_unavailable() -> Seq<char> {
    "Remote processing requires 'network' feature flag. This is an offline-first build."@
}

/// The answer of local processing.
pub open spec fn local_answer(text: Seq<char>) -> Seq<char> {
    "[LOCAL] Processed query: '"@ + truncated(text, QUOTE_LENGTH as nat)
        + "' (Mock response - Phase 2 will use actual SLM)"@
}

/// The answer of hybrid processing in an offline build.
pub open spec fn hybrid_answer(text: Seq<char>) -> Seq<char> {
    "[HYBRID] Offline mode: using only local processing. "@ + local_answer(text)
}

/// The name of the model behind a route.
pub open spec fn model_name(route: RoutingDecision) -> Seq<char> {
    match route {
        RoutingDecision::Local => "tinyllama-1.1b-q4"@,
        RoutingDecision::Remote => "remote-api"@,
        RoutingDecision::Hybrid => "hybrid-local+remote"@,
        RoutingDecision::Blocked => "none"@,
    }
}

/// `response` answers a query with the text `text` that was routed to
/// `route` with confidence `confidence` and answered with `answer`.
pub open spec fn answers(
    response: Response,
    text: Seq<char>,
    route: RoutingDecision,
    confidence: Fraction,
    answer: Seq<char>,
) -> bool {
    &&& response.text@ == answer
    &&& response.route == route
    &&& response.confidence == confidence
    &&& response.metadata.model matches Some(m) && m@ == model_name(route)
    &&& response.metadata.tokens == Some((byte_len(answer) / BYTES_PER_TOKEN as nat) as usize)
    &&& !response.metadata.cached
}

/// The orchestrator answered `query` with `answer` over `route` and
/// recorded the turn: the result is the response, and the histories of
/// `after` are those of `before` with the new turn in front, in the global
/// history and in the history of the current project.
pub open spec fn answered(
    before: Orchestrator,
    after: Orchestrator,
    query: Query,
    r: Result<Response, String>,
    route: RoutingDecision,
    answer: Seq<char>,
) -> bool {
    &&& r is Ok
    &&& answers(r->Ok_0, query.text@, route, before.router().heuristic(query).1, answer)
    &&& after.context().project() == before.context().project()
    &&& after.context().history() == recorded(
        before.context().history(),
        ConversationTurn { query, response: r->Ok_0 },
    )
    &&& match before.context().project() {
        Some(p) => contexts_recorded(
            before.context().contexts(),
            after.context().contexts(),
            p@,
            ConversationTurn { query, response: r->Ok_0 },
        ),
        None => after.context().contexts() == before.context().contexts(),
    }
}

/// Estimates the token count of a text: a quarter of its bytes.
pub fn estimate_tokens(text: &str) -> (n: usize)
    ensures
        n == byte_len(text@) / BYTES_PER_TOKEN as nat,
{
    byte_length(text) / BYTES_PER_TOKEN
}

/// Main orchestrator coordinating all components.
#[derive(Debug)]
pub struct Orchestrator {
    router: Router,
    expert: ExpertSystem,
    context: ContextManager,
}

impl Orchestrator {
    /// The router.
    pub closed spec fn router(&self) -> Router {
        self.router
    }

    /// The expert system.
    pub closed spec fn expert(&self) -> ExpertSystem {
        self.expert
    }

    /// The context manager.
    pub closed spec fn context(&self) -> ContextManager {
        self.context
    }

    /// The context manager is well formed.
    pub open spec fn wf(&self) -> bool {
        self.context().wf()
    }

    /// Creates an orchestrator with the default router, the default safety
    /// rules and an empty context.
    pub fn new() -> (o: Self)
        ensures
            o.wf(),
            o.context().project() is None,
            o.context().history().len() == 0,
            o.context().contexts().len() == 0,
            o.router().classifier() is None,
            !o.router().uses_classifier(),
            o.router().local_threshold() == (Fraction { num: 70, den: 100 }),
            o.router().max_local_length() == 500,
            o.router().keywords() == crate::types::default_keywords(),
            o.expert()@.map_values(|r: crate::expert::Rule| crate::expert::rule_parts(r))
                == crate::expert::default_rule_table(),
    {
        Orchestrator {
            router: Router::new(),
            expert: ExpertSystem::new(),
            context: ContextManager::new(),
        }
    }

    /// Processes a query through the full pipeline.
    ///
    /// 1. A query that a safety rule blocks is rejected with the rule's
    ///    reason; nothing is recorded.
    /// 2. The heuristic cascade routes the query.
    /// 3. A remote route is rejected: remote processing is unavailable.
    ///    A local or hybrid route is answered.
    /// 4. The answered turn is recorded in the context.
    pub fn process(&mut self, query: Query) -> (r: Result<Response, String>)
        requires
            old(self).wf(),
        ensures
            final(self).wf(),
            final(self).router() == old(self).router(),
            final(self).expert() == old(self).expert(),
            !none_blocking(old(self).expert()@, query.text@) ==> *final(self) == *old(self)
                && exists|i: int|
                is_first_blocking(old(self).expert()@, query.text@, i) && r is Err && r->Err_0@
                    == blocked_message(Some((#[trigger] old(self).expert()@[i]).description@)),
            none_blocking(old(self).expert()@, query.text@) ==> match old(self).router().heuristic(
                query,
            ).0 {
                RoutingDecision::Remote => *final(self) == *old(self) && r is Err && r->Err_0@
                    == remote_unavailable(),
                RoutingDecision::Blocked => *final(self) == *old(self) && r is Err && r->Err_0@
                    == "Query was blocked"@,
                RoutingDecision::Local => self::answered(
                    *old(self),
                    *final(self),
                    query,
                    r,
                    RoutingDecision::Local,
                    local_answer(query.text@),
                ),
                RoutingDecision::Hybrid => self::answered(
                    *old(self),
                    *final(self),
                    query,
                    r,
                    RoutingDecision::Hybrid,
                    hybrid_answer(query.text@),
                ),
            },
    {
        let start = clock_now();

        let eval = self.expert.evaluate(&query);
        if !eval.allowed {
            let mut message = String::from_str("Query blocked by safety rules: ");
            match &eval.reason {
                Some(reason) => message.append(reason.as_str()),
                None => message.append("Unknown reason"),
            }
            return Err(message);
        }
        let (route, confidence) = self.router.route_heuristic(&query);
        let _context = self.context.snapshot(SNAPSHOT_SIZE);

        let response_text = match route {
            RoutingDecision::Local => self.process_local(&query),
            RoutingDecision::Remote => {
                return Err(
                    String::from_str(
                        "Remote processing requires 'network' feature flag. This is an offline-first build.",
                    ),
                );
            },
            RoutingDecision::Hybrid => self.process_hybrid(&query),
            RoutingDecision::Blocked => {
                return Err(String::from_str("Query was blocked"));
            },
        };
        let latency = elapsed_ms(&start);
        let tokens = estimate_tokens(response_text.as_str());
        let response = Response {
            text: response_text,
            route,
            confidence,
            latency_ms: latency,
            metadata: ResponseMetadata {
                model: Some(self.get_model_name(route)),
                tokens: Some(tokens),
                cached: false,
            },
        };
        let answer = response.clone();
        self.context.add_turn(query, response);
        Ok(answer)
    }

    /// Answers a query locally.
    fn process_local(&self, query: &Query) -> (text: String)
        ensures
            text@ == local_answer(query.text@),
    {
        let mut text = String::from_str("[LOCAL] Processed query: '");
        let quoted = truncate(query.text.as_str(), QUOTE_LENGTH);
        text.append(quoted.as_str());
        text.append("' (Mock response - Phase 2 will use actual SLM)");
        text
    }

    /// Answers a query with local preprocessing only.
    fn process_hybrid(&self, query: &Query) -> (text: String)
        ensures
            text@ == hybrid_answer(query.text@),
    {
        let local = self.process_local(query);
        let mut text = String::from_str("[HYBRID] Offline mode: using only local processing. ");
        text.append(local.as_str());
        text
    }

    /// The name of the model behind a route.
    fn get_model_name(&self, route: RoutingDecision) -> (name: String)
        ensures
            name@ == model_name(route),
    {
        match route {
            RoutingDecision::Local => String::from_str("tinyllama-1.1b-q4"),
            RoutingDecision::Remote => String::from_str("remote-api"),
            RoutingDecision::Hybrid => String::from_str("hybrid-local+remote"),
            RoutingDecision::Blocked => String::from_str("none"),
        }
    }

    /// Switches the project context.
    pub fn switch_project(&mut self, project: &str)
        ensures
            final(self).context().project() matches Some(p) && p@ == project@,
            final(self).context().history() == old(self).context().history(),
            final(self).context().contexts() == old(self).context().contexts(),
            final(self).router() == old(self).router(),
            final(self).expert() == old(self).expert(),
            old(self).wf() ==> final(self).wf(),
    {
        self.context.switch_project(project);
    }

    /// The current project.
    pub fn current_project(&self) -> (r: Option<&str>)
        ensures
            match self.context().project() {
                Some(p) => r matches Some(s) && s@ == p@,
                None => r is None,
            },
    {
        self.context.current_project()
    }

    /// The `n` most recent turns, most recent first.
    pub fn recent_history(&self, n: usize) -> (recent: Vec<ConversationTurn>)
        ensures
            recent@ == crate::context::most_recent(self.context().history(), n as nat),
    {
        self.context.recent_history(n)
    }

    /// Clears the conversation history.
    pub fn clear_history(&mut self)
        ensures
            final(self).context().history().len() == 0,
            final(self).context().project() == old(self).context().project(),
            final(self).context().contexts() == old(self).context().contexts(),
            final(self).router() == old(self).router(),
            final(self).expert() == old(self).expert(),
            old(self).wf() ==> final(self).wf(),
    {
        self.context.clear_history();
    }
}

impl Default for Orchestrator {
    fn default() -> (o: Self)
        ensures
            o.wf(),
            o.context().project() is None,
            o.context().history().len() == 0,
            o.context().contexts().len() == 0,
            o.router().classifier() is None,
            !o.router().uses_classifier(),
            o.router().local_threshold() == (Fraction { num: 70, den: 100 }),
            o.router().max_local_length() == 500,
            o.router().keywords() == crate::types::default_keywords(),
            o.expert()@.map_values(|r: crate::expert::Rule| crate::expert::rule_parts(r))
                == crate::expert::default_rule_table(),
    {
        Self::new()
    }
}

} // verus!
