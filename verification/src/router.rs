//! Router: decides how a query is processed.
//!
//! Without a classifier the router applies an ordered cascade of heuristic
//! rules and returns at the first rule that matches. With a classifier
//! attached and enabled it hands out the query's feature vector; the numeric
//! backend scores it, picks a class with [`crate::mlp::MLP::argmax`], and the
//! router maps the class to a decision.

use crate::features::{extract_features, is_feature_vector, FEATURE_COUNT};
use crate::mlp::MLP;
use crate::text::{
    byte_len, byte_length, chars_of, contains, contains_char, is_substring, lowercase,
    lowercase_chars,
};
use crate::types::{
    string_views, Fraction, Query, RouterConfig, RoutingDecision, HIGH_PRIORITY_ABOVE,
};
use vstd::prelude::*;
use vstd::string::StringExecFns;

verus! {

/// Queries shorter than this many bytes are routed locally.
pub const SHORT_QUERY_BELOW: usize = 50;

/// Questions shorter than this many bytes are routed locally.
pub const SHORT_QUESTION_BELOW: usize = 200;

/// Confidence of the rule for queries that exceed the local length limit.
pub open spec fn too_long_confidence() -> Fraction {
    Fraction { num: 90, den: 100 }
}

/// Confidence of the rule for queries that mention a complex keyword.
pub open spec fn keyword_confidence() -> Fraction {
    Fraction { num: 85, den: 100 }
}

/// Confidence of the rule for short queries.
pub open spec fn short_confidence() -> Fraction {
    Fraction { num: 80, den: 100 }
}

/// Confidence of the rule for short questions.
pub open spec fn question_confidence() -> Fraction {
    Fraction { num: 75, den: 100 }
}

/// Confidence of the rule for urgent queries inside a project.
pub open spec fn hybrid_confidence() -> Fraction {
    Fraction { num: 70, den: 100 }
}

/// Some configured keyword occurs in the text, compared without regard to
/// case.
pub open spec fn has_complex_keyword(keywords: Seq<Seq<char>>, text: Seq<char>) -> bool {
    exists|k: int|
        0 <= k < keywords.len() && is_substring(lowercase(text), lowercase(#[trigger] keywords[k]))
}

/// The heuristic cascade: the first rule that matches decides.
///
/// 1. longer than `max_local_length` bytes: remote, 0.90;
/// 2. mentions a complex keyword: remote, 0.85;
/// 3. shorter than 50 bytes: local, 0.80;
/// 4. holds `?` and is shorter than 200 bytes: local, 0.75;
/// 5. high priority with a project context: hybrid, 0.70;
/// 6. otherwise: local, the configured threshold.
pub open spec fn heuristic_route(
    local_threshold: Fraction,
    max_local_length: usize,
    keywords: Seq<Seq<char>>,
    q: Query,
) -> (RoutingDecision, Fraction) {
    let len = byte_len(q.text@);
    if len > max_local_length {
        (RoutingDecision::Remote, too_long_confidence())
    } else if has_complex_keyword(keywords, q.text@) {
        (RoutingDecision::Remote, keyword_confidence())
    } else if len < SHORT_QUERY_BELOW {
        (RoutingDecision::Local, short_confidence())
    } else if q.text@.contains('?') && len < SHORT_QUESTION_BELOW {
        (RoutingDecision::Local, question_confidence())
    } else if q.priority > HIGH_PRIORITY_ABOVE && q.project_context is Some {
        (RoutingDecision::Hybrid, hybrid_confidence())
    } else {
        (RoutingDecision::Local, local_threshold)
    }
}

/// The decision that stands for a class of the classifier: 0 is local, 1 is
/// remote, 2 is hybrid; any other class falls back to local.
pub open spec fn class_decision(class: usize) -> RoutingDecision {
    if class == 1 {
        RoutingDecision::Remote
    } else if class == 2 {
        RoutingDecision::Hybrid
    } else {
        RoutingDecision::Local
    }
}

/// What the router asks for next.
#[derive(Debug)]
pub enum RouteStep {
    /// The heuristics decided.
    Decided {
        /// The routing decision.
        decision: RoutingDecision,
        /// Confidence in the decision.
        confidence: Fraction,
    },
    /// The classifier decides: score these features, select the class with
    /// the largest probability, and map it with [`Router::decision_for_class`].
    Classify {
        /// Feature vector of the query.
        features: Vec<Fraction>,
    },
}

/// Errors of classifier-based routing.
#[derive(Clone, Copy, Debug, PartialEq, Eq, Structural)]
pub enum RouterError {
    /// Classifier-based routing was requested but no classifier is attached.
    NoClassifier,
}

/// Router for determining the query routing strategy.
#[derive(Debug)]
pub struct Router {
    config: RouterConfig,
    mlp: Option<MLP>,
    use_mlp: bool,
}

impl Router {
    /// The confidence reported when no heuristic rule applies.
    pub closed spec fn local_threshold(&self) -> Fraction {
        self.config.local_threshold
    }

    /// The maximum query length eligible for local routing.
    pub closed spec fn max_local_length(&self) -> usize {
        self.config.max_local_length
    }

    /// The configured complex keywords.
    pub closed spec fn keywords(&self) -> Seq<Seq<char>> {
        string_views(self.config.complex_keywords@)
    }

    /// The attached classifier, if any.
    pub closed spec fn classifier(&self) -> Option<MLP> {
        self.mlp
    }

    /// Whether routing asks the classifier.
    pub closed spec fn uses_classifier(&self) -> bool {
        self.use_mlp && self.mlp is Some
    }

    /// The heuristic route of `q` under this router's configuration.
    pub open spec fn heuristic(&self, q: Query) -> (RoutingDecision, Fraction) {
        heuristic_route(self.local_threshold(), self.max_local_length(), self.keywords(), q)
    }

    /// The router has the configuration `config`.
    pub open spec fn configured_as(&self, config: RouterConfig) -> bool {
        &&& self.local_threshold() == config.local_threshold
        &&& self.max_local_length() == config.max_local_length
        &&& self.keywords() == string_views(config.complex_keywords@)
    }

    /// Creates a router with the default configuration and no classifier.
    pub fn new() -> (r: Self)
        ensures
            r.local_threshold() == (Fraction { num: 70, den: 100 }),
            r.max_local_length() == 500,
            r.keywords() == crate::types::default_keywords(),
            r.classifier() is None,
            !r.uses_classifier(),
    {
        Router { config: RouterConfig::default(), mlp: None, use_mlp: false }
    }

    /// Creates a router with a custom configuration and no classifier.
    pub fn with_config(config: RouterConfig) -> (r: Self)
        ensures
            r.configured_as(config),
            r.classifier() is None,
            !r.uses_classifier(),
    {
        Router { config, mlp: None, use_mlp: false }
    }

    /// Creates a router with the default configuration and an enabled
    /// classifier.
    pub fn with_mlp(mlp: MLP) -> (r: Self)
        ensures
            r.local_threshold() == (Fraction { num: 70, den: 100 }),
            r.max_local_length() == 500,
            r.keywords() == crate::types::default_keywords(),
            r.classifier() == Some(mlp),
            r.uses_classifier(),
    {
        Router { config: RouterConfig::default(), mlp: Some(mlp), use_mlp: true }
    }

    /// Attaches the outcome of looking up a stored classifier called `name`.
    ///
    /// A classifier that was found is attached and enabled. A missing one and
    /// a failed lookup leave the router unchanged and are reported with a
    /// message.
    pub fn load_mlp(&mut self, loaded: Result<Option<MLP>, String>, name: &str) -> (r: Result<
        (),
        String,
    >)
        ensures
            final(self).local_threshold() == old(self).local_threshold(),
            final(self).max_local_length() == old(self).max_local_length(),
            final(self).keywords() == old(self).keywords(),
            loaded matches Ok(Some(mlp)) ==> r is Ok && final(self).classifier() == Some(mlp)
                && final(self).uses_classifier(),
            loaded matches Ok(None) ==> r is Err && *final(self) == *old(self) && r->Err_0@
                == "No MLP found with name '"@ + name@ + "'"@,
            loaded matches Err(e) ==> r is Err && *final(self) == *old(self) && r->Err_0@
                == "Failed to load MLP: "@ + e@,
    {
        match loaded {
            Ok(Some(mlp)) => {
                self.mlp = Some(mlp);
                self.use_mlp = true;
                Ok(())
            },
            Ok(None) => {
                let mut message = String::from_str("No MLP found with name '");
                message.append(name);
                message.append("'");
                Err(message)
            },
            Err(e) => {
                let mut message = String::from_str("Failed to load MLP: ");
                message.append(e.as_str());
                Err(message)
            },
        }
    }

    /// The classifier to store, or a message if none is attached.
    pub fn save_mlp(&self) -> (r: Result<&MLP, String>)
        ensures
            match self.classifier() {
                Some(mlp) => r is Ok && *r->Ok_0 == mlp,
                None => r is Err && r->Err_0@ == "No MLP to save"@,
            },
    {
        match &self.mlp {
            Some(mlp) => Ok(mlp),
            None => Err(String::from_str("No MLP to save")),
        }
    }

    /// Attaches a classifier and enables it.
    pub fn set_mlp(&mut self, mlp: MLP)
        ensures
            final(self).local_threshold() == old(self).local_threshold(),
            final(self).max_local_length() == old(self).max_local_length(),
            final(self).keywords() == old(self).keywords(),
            final(self).classifier() == Some(mlp),
            final(self).uses_classifier(),
    {
        self.mlp = Some(mlp);
        self.use_mlp = true;
    }

    /// Enables or disables the classifier. Enabling has no effect while no
    /// classifier is attached.
    pub fn set_use_mlp(&mut self, use_mlp: bool)
        ensures
            final(self).local_threshold() == old(self).local_threshold(),
            final(self).max_local_length() == old(self).max_local_length(),
            final(self).keywords() == old(self).keywords(),
            final(self).classifier() == old(self).classifier(),
            final(self).uses_classifier() == (use_mlp && old(self).classifier() is Some),
    {
        self.use_mlp = use_mlp && self.mlp.is_some();
    }

    /// Whether routing asks the classifier: one is attached and enabled.
    pub fn uses_mlp(&self) -> (b: bool)
        ensures
            b == self.uses_classifier(),
    {
        self.use_mlp && self.mlp.is_some()
    }

    /// Extracts the feature vector of a query under this router's keywords.
    pub fn extract_features(&self, query: &Query) -> (features: Vec<Fraction>)
        ensures
            is_feature_vector(features@, self.keywords(), *query),
            forall|i: int| 0 <= i < FEATURE_COUNT ==> (#[trigger] features@[i]).wf(),
    {
        extract_features(&self.config.complex_keywords, query)
    }

    /// Routes a query.
    ///
    /// With a classifier attached and enabled the result asks for a
    /// classification of the query's features. Otherwise the heuristic
    /// cascade decides. Neither the query nor the router changes.
    pub fn route(&self, query: &Query) -> (step: RouteStep)
        ensures
            self.uses_classifier() ==> step is Classify && is_feature_vector(
                step->features@,
                self.keywords(),
                *query,
            ),
            !self.uses_classifier() ==> step is Decided && (step->decision, step->confidence)
                == self.heuristic(*query),
    {
        if self.use_mlp && self.mlp.is_some() {
            RouteStep::Classify { features: self.extract_features(query) }
        } else {
            let (decision, confidence) = self.route_heuristic(query);
            RouteStep::Decided { decision, confidence }
        }
    }

    /// Prepares classifier-based routing, whether or not the classifier is
    /// enabled: the features to score, or an error if no classifier is
    /// attached.
    pub fn route_with_mlp(&self, query: &Query) -> (r: Result<Vec<Fraction>, RouterError>)
        ensures
            self.classifier() is Some ==> r is Ok && is_feature_vector(
                r->Ok_0@,
                self.keywords(),
                *query,
            ),
            self.classifier() is None ==> r == Err::<Vec<Fraction>, RouterError>(
                RouterError::NoClassifier,
            ),
    {
        if self.mlp.is_some() {
            Ok(self.extract_features(query))
        } else {
            Err(RouterError::NoClassifier)
        }
    }

    /// Maps the class that the classifier selected to a decision.
    pub fn decision_for_class(class: usize) -> (d: RoutingDecision)
        ensures
            d == class_decision(class),
    {
        if class == 1 {
            RoutingDecision::Remote
        } else if class == 2 {
            RoutingDecision::Hybrid
        } else {
            RoutingDecision::Local
        }
    }

    /// Tests whether the query mentions a configured complex keyword.
    fn mentions_complex_keyword(&self, query: &Query) -> (b: bool)
        ensures
            b == has_complex_keyword(self.keywords(), query.text@),
    {
        let low = lowercase_chars(query.text.as_str());
        let keywords = &self.config.complex_keywords;
        let mut k: usize = 0;
        while k < keywords.len()
            invariant
                k <= keywords.len(),
                low@ == lowercase(query.text@),
                keywords@ == self.config.complex_keywords@,
                forall|j: int|
                    0 <= j < k ==> !is_substring(
                        low@,
                        lowercase(#[trigger] string_views(keywords@)[j]),
                    ),
            decreases keywords.len() - k,
        {
            let needle = lowercase_chars(keywords[k].as_str());
            if contains(&low, &needle) {
                proof {
                    assert(string_views(keywords@)[k as int] == keywords@[k as int]@);
                }
                return true;
            }
            proof {
                assert(string_views(keywords@)[k as int] == keywords@[k as int]@);
            }
            k += 1;
        }
        false
    }

    /// Routes a query with the heuristic cascade.
    pub fn route_heuristic(&self, query: &Query) -> (r: (RoutingDecision, Fraction))
        ensures
            r == self.heuristic(*query),
    {
        let len = byte_length(query.text.as_str());
        if len > self.config.max_local_length {
            return (RoutingDecision::Remote, Fraction { num: 90, den: 100 });
        }
        if self.mentions_complex_keyword(query) {
            return (RoutingDecision::Remote, Fraction { num: 85, den: 100 });
        }
        if len < SHORT_QUERY_BELOW {
            return (RoutingDecision::Local, Fraction { num: 80, den: 100 });
        }
        let text = chars_of(query.text.as_str());
        if contains_char(&text, '?') && len < SHORT_QUESTION_BELOW {
            return (RoutingDecision::Local, Fraction { num: 75, den: 100 });
        }
        if query.is_high_priority() && query.project_context.is_some() {
            return (RoutingDecision::Hybrid, Fraction { num: 70, den: 100 });
        }
        (RoutingDecision::Local, self.config.local_threshold)
    }

    /// Replaces the configuration.
    pub fn update_config(&mut self, config: RouterConfig)
        ensures
            final(self).configured_as(config),
            final(self).classifier() == old(self).classifier(),
            final(self).uses_classifier() == old(self).uses_classifier(),
    {
        self.config = config;
    }

    /// The current configuration.
    pub fn config(&self) -> (c: &RouterConfig)
        ensures
            self.configured_as(*c),
    {
        &self.config
    }
}

impl Default for Router {
    fn default() -> (r: Self)
        ensures
            r.local_threshold() == (Fraction { num: 70, den: 100 }),
            r.max_local_length() == 500,
            r.keywords() == crate::types::default_keywords(),
            r.classifier() is None,
            !r.uses_classifier(),
    {
        Self::new()
    }
}

} // verus!
