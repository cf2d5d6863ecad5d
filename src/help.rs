//! Recommendations of the program's workflow features for a free-text query.
//!
//! The query is matched against keyword groups in a fixed order; the first
//! group with a keyword that occurs in the query picks the topic, and each
//! topic has a fixed list of recommendations. Without a query the general
//! list is given, and without both a query and a use case a general note is
//! added.
use vstd::prelude::*;
use vstd::string::StringSliceAdditionalSpecFns;
use vstd::utf8::encode_utf8;

use crate::reader::{contains_bytes, occurs};

verus! {

/// The general note given when neither a query nor a use case is set.
pub const GENERAL_INFO: &'static str = "Amazon Q CLI offers unique workflow features beyond basic file operations. Use /context to map your repo, knowledge to remember insights across sessions, /agent to switch between specialized assistants, and other slash commands for session management.";

/// A request for recommendations.
#[derive(Debug, Clone)]
pub struct Help {
    pub query: Option<String>,
    pub use_case: Option<String>,
}

/// One recommended feature.
#[derive(Debug)]
pub struct ToolRecommendation {
    pub tool_name: String,
    pub description: String,
    pub use_case: String,
    pub example: Option<String>,
}

/// The answer to a request.
#[derive(Debug)]
pub struct HelpResponse {
    pub recommendations: Vec<ToolRecommendation>,
    pub general_info: Option<String>,
}

/// Failure to hand a response on (its serialization).
#[derive(Clone, Copy, Debug, PartialEq, Eq, Structural)]
pub enum HelpError {
    Serialization,
}

pub struct RecommendationView {
    pub tool_name: Seq<char>,
    pub description: Seq<char>,
    pub use_case: Seq<char>,
    pub example: Option<Seq<char>>,
}

impl View for ToolRecommendation {
    type V = RecommendationView;

    open spec fn view(&self) -> RecommendationView {
        RecommendationView {
            tool_name: self.tool_name@,
            description: self.description@,
            use_case: self.use_case@,
            example: opt_chars(self.example),
        }
    }
}

pub open spec fn opt_chars(o: Option<String>) -> Option<Seq<char>> {
    match o {
        Some(s) => Some(s@),
        None => None,
    }
}

/// The keyword groups, in the order they are tried.
#[derive(Clone, Copy, Debug, PartialEq, Eq, Structural)]
pub enum Topic {
    Context,
    Knowledge,
    Agent,
    Session,
    Editor,
    General,
}

/// `word` occurs in `query`, as `str::contains` finds it: the UTF-8 bytes of
/// the one occur in those of the other.
pub open spec fn mentions(query: Seq<char>, word: Seq<char>) -> bool {
    occurs(encode_utf8(query), encode_utf8(word))
}

pub open spec fn topic_of(query: Option<Seq<char>>) -> Topic {
    match query {
        None => Topic::General,
        Some(q) => {
            if mentions(q, "context"@) || mentions(q, "add files"@) || mentions(q, "repo"@) || mentions(q, "map"@) || mentions(q, "understand"@) || mentions(q, "include files"@) {
                Topic::Context
            } else if mentions(q, "knowledge"@) || mentions(q, "remember"@) || mentions(q, "store"@) || mentions(q, "save"@) {
                Topic::Knowledge
            } else if mentions(q, "agent"@) || mentions(q, "switch"@) || mentions(q, "specialize"@) {
                Topic::Agent
            } else if mentions(q, "session"@) || mentions(q, "clear"@) || mentions(q, "reset"@) || mentions(q, "compact"@) {
                Topic::Session
            } else if mentions(q, "editor"@) || mentions(q, "multiline"@) || mentions(q, "complex"@) {
                Topic::Editor
            } else {
                Topic::General
            }
        },
    }
}

pub open spec fn rec(name: &str, description: &str, use_case: &str, example: &str) -> RecommendationView {
    RecommendationView {
        tool_name: name@,
        description: description@,
        use_case: use_case@,
        example: Some(example@),
    }
}

/// The recommendations of each topic, in order.
pub open spec fn recommendations_for(t: Topic) -> Seq<RecommendationView> {
    match t {
        Topic::Context => seq![
            rec(
                "/context",
                "Add files or directories to conversation context",
                "Map out your repo structure and keep relevant files in context",
                "Use '/context add .' to add your entire repo, or '/context add src/' for specific directories",
            ),
            rec(
                "knowledge",
                "Store and retrieve project information across sessions",
                "Build a persistent understanding of your codebase",
                "Store important project insights that persist across chat sessions",
            ),
        ],
        Topic::Knowledge => seq![
            rec(
                "knowledge",
                "Store and retrieve information across chat sessions",
                "Build persistent project documentation and context",
                "Store important findings, decisions, or project context that you want to remember",
            ),
        ],
        Topic::Agent => seq![
            rec(
                "/agent",
                "Switch between specialized AI agents for different tasks",
                "Use different agents optimized for specific workflows",
                "Type '/agent list' to see available agents, '/agent switch <name>' to change",
            ),
        ],
        Topic::Session => seq![
            rec(
                "/clear",
                "Clear conversation history",
                "Start fresh while keeping the same session",
                "Reset your conversation when switching to a new topic",
            ),
            rec(
                "/compact",
                "Summarize conversation to free up context space",
                "Manage long conversations that approach memory limits",
                "Compress conversation history while preserving key information",
            ),
            rec(
                "/usage",
                "Show current session's context window usage",
                "Monitor how much context space you're using",
                "Check if you're approaching context limits",
            ),
        ],
        Topic::Editor => seq![
            rec(
                "/editor",
                "Open $EDITOR to compose multi-line prompts",
                "Write complex prompts or paste large text blocks",
                "Perfect for detailed requirements or when you need to paste code/logs",
            ),
        ],
        Topic::General => seq![
            rec(
                "/context",
                "Add files/directories to conversation context",
                "Keep relevant project files accessible throughout your session",
                "Essential for working with codebases - use '/context add .' for full repo context",
            ),
            rec(
                "knowledge",
                "Store information across chat sessions",
                "Build persistent project understanding and documentation",
                "Remember important insights and decisions between sessions",
            ),
            rec(
                "/agent",
                "Switch between specialized AI agents",
                "Use agents optimized for specific tasks or domains",
                "Different agents excel at different types of work",
            ),
            rec(
                "/tools",
                "View all available tools and permissions",
                "Quick reference for Q's capabilities",
                "See what tools are available and their current status",
            ),
        ],
    }
}

pub open spec fn general_info_for(query: Option<Seq<char>>, use_case: Option<Seq<char>>) -> Option<Seq<char>> {
    if query is None && use_case is None {
        Some(GENERAL_INFO@)
    } else {
        None
    }
}

fn make_rec(name: &str, description: &str, use_case: &str, example: &str) -> (r: ToolRecommendation)
    ensures
        r@ == rec(name, description, use_case, example),
{
    ToolRecommendation {
        tool_name: name.to_owned(),
        description: description.to_owned(),
        use_case: use_case.to_owned(),
        example: Some(example.to_owned()),
    }
}

/// Whether `word` occurs in `query`.
pub fn query_mentions(query: &str, word: &str) -> (r: bool)
    ensures
        r == mentions(query@, word@),
{
    contains_bytes(query.as_bytes(), word.as_bytes())
}

/// The topic that a query falls under.
pub fn topic(query: &Option<String>) -> (r: Topic)
    ensures
        r == topic_of(opt_chars(*query)),
{
    match query {
        None => Topic::General,
        Some(q) => {
            let q = q.as_str();
            if query_mentions(q, "context") || query_mentions(q, "add files") || query_mentions(q, "repo") || query_mentions(q, "map") || query_mentions(q, "understand") || query_mentions(q, "include files") {
                Topic::Context
            } else if query_mentions(q, "knowledge") || query_mentions(q, "remember") || query_mentions(q, "store") || query_mentions(q, "save") {
                Topic::Knowledge
            } else if query_mentions(q, "agent") || query_mentions(q, "switch") || query_mentions(q, "specialize") {
                Topic::Agent
            } else if query_mentions(q, "session") || query_mentions(q, "clear") || query_mentions(q, "reset") || query_mentions(q, "compact") {
                Topic::Session
            } else if query_mentions(q, "editor") || query_mentions(q, "multiline") || query_mentions(q, "complex") {
                Topic::Editor
            } else {
                Topic::General
            }
        },
    }
}

/// The recommendations of a topic.
pub fn recommendations(t: Topic) -> (r: Vec<ToolRecommendation>)
    ensures
        r@.map_values(|x: ToolRecommendation| x@) == recommendations_for(t),
{
    let mut v: Vec<ToolRecommendation> = Vec::new();
    match t {
        Topic::Context => {
            v.push(
                make_rec(
                    "/context",
                    "Add files or directories to conversation context",
                    "Map out your repo structure and keep relevant files in context",
                    "Use '/context add .' to add your entire repo, or '/context add src/' for specific directories",
                ),
            );
            v.push(
                make_rec(
                    "knowledge",
                    "Store and retrieve project information across sessions",
                    "Build a persistent understanding of your codebase",
                    "Store important project insights that persist across chat sessions",
                ),
            );
        },
        Topic::Knowledge => {
            v.push(
                make_rec(
                    "knowledge",
                    "Store and retrieve information across chat sessions",
                    "Build persistent project documentation and context",
                    "Store important findings, decisions, or project context that you want to remember",
                ),
            );
        },
        Topic::Agent => {
            v.push(
                make_rec(
                    "/agent",
                    "Switch between specialized AI agents for different tasks",
                    "Use different agents optimized for specific workflows",
                    "Type '/agent list' to see available agents, '/agent switch <name>' to change",
                ),
            );
        },
        Topic::Session => {
            v.push(
                make_rec(
                    "/clear",
                    "Clear conversation history",
                    "Start fresh while keeping the same session",
                    "Reset your conversation when switching to a new topic",
                ),
            );
            v.push(
                make_rec(
                    "/compact",
                    "Summarize conversation to free up context space",
                    "Manage long conversations that approach memory limits",
                    "Compress conversation history while preserving key information",
                ),
            );
            v.push(
                make_rec(
                    "/usage",
                    "Show current session's context window usage",
                    "Monitor how much context space you're using",
                    "Check if you're approaching context limits",
                ),
            );
        },
        Topic::Editor => {
            v.push(
                make_rec(
                    "/editor",
                    "Open $EDITOR to compose multi-line prompts",
                    "Write complex prompts or paste large text blocks",
                    "Perfect for detailed requirements or when you need to paste code/logs",
                ),
            );
        },
        Topic::General => {
            v.push(
                make_rec(
                    "/context",
                    "Add files/directories to conversation context",
                    "Keep relevant project files accessible throughout your session",
                    "Essential for working with codebases - use '/context add .' for full repo context",
                ),
            );
            v.push(
                make_rec(
                    "knowledge",
                    "Store information across chat sessions",
                    "Build persistent project understanding and documentation",
                    "Remember important insights and decisions between sessions",
                ),
            );
            v.push(
                make_rec(
                    "/agent",
                    "Switch between specialized AI agents",
                    "Use agents optimized for specific tasks or domains",
                    "Different agents excel at different types of work",
                ),
            );
            v.push(
                make_rec(
                    "/tools",
                    "View all available tools and permissions",
                    "Quick reference for Q's capabilities",
                    "See what tools are available and their current status",
                ),
            );
        },
    }
    assert(v@.map_values(|x: ToolRecommendation| x@) =~= recommendations_for(t));
    v
}

impl Help {
    pub fn new(query: Option<String>, use_case: Option<String>) -> (r: Help)
        ensures
            r.query == query,
            r.use_case == use_case,
    {
        Help { query, use_case }
    }

    /// The recommendations for this request, with the general note when
    /// neither a query nor a use case is set.
    pub fn invoke(&self) -> (r: HelpResponse)
        ensures
            r.recommendations@.map_values(|x: ToolRecommendation| x@) == recommendations_for(
                topic_of(opt_chars(self.query)),
            ),
            opt_chars(r.general_info) == general_info_for(
                opt_chars(self.query),
                opt_chars(self.use_case),
            ),
    {
        let recommendations = recommendations(topic(&self.query));
        let general_info = if self.query.is_none() && self.use_case.is_none() {
            Some(GENERAL_INFO.to_owned())
        } else {
            None
        };
        HelpResponse { recommendations, general_info }
    }

    /// Every request is valid.
    pub fn validate(&self) -> (r: Result<(), HelpError>)
        ensures
            r is Ok,
    {
        Ok(())
    }
}

} // verus!
