//! Kinds of memory, what a memory holds, and where it came from.

use vstd::prelude::*;
use vstd::string::*;
use std::path::PathBuf;
use crate::text::{append_str, owned, str_eq};

verus! {

/// How long a memory is kept.
#[derive(Debug, Clone, Copy, PartialEq, Eq, Structural, Hash)]
pub enum MemoryType {
    Working,
    ShortTerm,
    LongTerm,
    Episodic,
}

/// The snake-case name of a memory kind.
pub open spec fn memory_type_name(t: MemoryType) -> Seq<char> {
    match t {
        MemoryType::Working => "working"@,
        MemoryType::ShortTerm => "short_term"@,
        MemoryType::LongTerm => "long_term"@,
        MemoryType::Episodic => "episodic"@,
    }
}

/// The memory kind named `s`, if any.
pub open spec fn memory_type_from_name(s: Seq<char>) -> Option<MemoryType> {
    if s == "working"@ {
        Some(MemoryType::Working)
    } else if s == "short_term"@ {
        Some(MemoryType::ShortTerm)
    } else if s == "long_term"@ {
        Some(MemoryType::LongTerm)
    } else if s == "episodic"@ {
        Some(MemoryType::Episodic)
    } else {
        None
    }
}

impl MemoryType {
    /// The snake-case name of the kind.
    pub fn to_string(&self) -> (s: String)
        ensures
            s@ == memory_type_name(*self),
    {
        match self {
            MemoryType::Working => owned("working"),
            MemoryType::ShortTerm => owned("short_term"),
            MemoryType::LongTerm => owned("long_term"),
            MemoryType::Episodic => owned("episodic"),
        }
    }

    /// Reads a kind from its snake-case name; an unknown name gives
    /// `unknown memory type: <name>`.
    pub fn parse(s: &str) -> (r: Result<MemoryType, String>)
        ensures
            match memory_type_from_name(s@) {
                Some(t) => r matches Ok(x) && x == t,
                None => r matches Err(e) && e@ == "unknown memory type: "@ + s@,
            },
    {
        if str_eq(s, "working") {
            Ok(MemoryType::Working)
        } else if str_eq(s, "short_term") {
            Ok(MemoryType::ShortTerm)
        } else if str_eq(s, "long_term") {
            Ok(MemoryType::LongTerm)
        } else if str_eq(s, "episodic") {
            Ok(MemoryType::Episodic)
        } else {
            let mut e = owned("unknown memory type: ");
            append_str(&mut e, s);
            Err(e)
        }
    }
}

impl std::str::FromStr for MemoryType {
    type Err = String;

    fn from_str(s: &str) -> (r: Result<Self, String>)
        ensures
            match memory_type_from_name(s@) {
                Some(t) => r matches Ok(x) && x == t,
                None => r matches Err(e) && e@ == "unknown memory type: "@ + s@,
            },
    {
        MemoryType::parse(s)
    }
}

/// Every memory kind reads back from its own name.
pub proof fn lemma_memory_type_roundtrip(t: MemoryType)
    ensures
        memory_type_from_name(memory_type_name(t)) == Some(t),
{
    reveal_strlit("working");
    reveal_strlit("short_term");
    reveal_strlit("long_term");
    reveal_strlit("episodic");
    match t {
        MemoryType::Working => {},
        MemoryType::ShortTerm => {
            assert("short_term"@.len() != "working"@.len());
        },
        MemoryType::LongTerm => {
            assert("long_term"@.len() != "working"@.len());
            assert("long_term"@.len() != "short_term"@.len());
        },
        MemoryType::Episodic => {
            assert("episodic"@.len() != "working"@.len());
            assert("episodic"@.len() != "short_term"@.len());
            assert("episodic"@.len() != "long_term"@.len());
        },
    }
}

/// What a memory holds.
#[derive(Debug, Clone)]
pub enum MemoryContent {
    CodePattern { pattern: String, example: String, applicability: String },
    Decision { context: String, decision: String, rationale: String, alternatives_considered: Vec<String> },
    ErrorResolution { error_pattern: String, root_cause: String, solution: String },
    CodebaseKnowledge { path: String, summary: String, key_concepts: Vec<String> },
    Constraint { description: String, source: String, implications: Vec<String> },
    InteractionLearning { situation: String, approach: String, outcome: String, lesson: String },
}

/// The snake-case name of a content kind.
pub open spec fn content_type_name(c: MemoryContent) -> &'static str {
    match c {
        MemoryContent::CodePattern { .. } => "code_pattern",
        MemoryContent::Decision { .. } => "decision",
        MemoryContent::ErrorResolution { .. } => "error_resolution",
        MemoryContent::CodebaseKnowledge { .. } => "codebase_knowledge",
        MemoryContent::Constraint { .. } => "constraint",
        MemoryContent::InteractionLearning { .. } => "interaction_learning",
    }
}

impl MemoryContent {
    /// The snake-case name of the content's kind.
    pub fn content_type(&self) -> (s: &'static str)
        ensures
            s == content_type_name(*self),
    {
        match self {
            MemoryContent::CodePattern { .. } => "code_pattern",
            MemoryContent::Decision { .. } => "decision",
            MemoryContent::ErrorResolution { .. } => "error_resolution",
            MemoryContent::CodebaseKnowledge { .. } => "codebase_knowledge",
            MemoryContent::Constraint { .. } => "constraint",
            MemoryContent::InteractionLearning { .. } => "interaction_learning",
        }
    }
}

/// Where a memory came from.
#[derive(Debug, Clone, PartialEq, Eq)]
pub enum MemorySource {
    Task { task_id: String },
    Verification { verification_id: String },
    Conversation { conversation_id: String },
    Manual,
}

/// The snake-case name of a source kind.
pub open spec fn source_type_name(s: MemorySource) -> &'static str {
    match s {
        MemorySource::Task { .. } => "task",
        MemorySource::Verification { .. } => "verification",
        MemorySource::Conversation { .. } => "conversation",
        MemorySource::Manual => "manual",
    }
}

impl MemorySource {
    /// The snake-case name of the source's kind.
    pub fn source_type(&self) -> (s: &'static str)
        ensures
            s == source_type_name(*self),
    {
        match self {
            MemorySource::Task { .. } => "task",
            MemorySource::Verification { .. } => "verification",
            MemorySource::Conversation { .. } => "conversation",
            MemorySource::Manual => "manual",
        }
    }

    /// The identifier of the task, verification or conversation, if the source has one.
    pub fn source_id(&self) -> (r: Option<&str>)
        ensures
            match *self {
                MemorySource::Task { task_id } => r matches Some(x) && x@ == task_id@,
                MemorySource::Verification { verification_id } => r matches Some(x) && x@ == verification_id@,
                MemorySource::Conversation { conversation_id } => r matches Some(x) && x@ == conversation_id@,
                MemorySource::Manual => r is None,
            },
    {
        match self {
            MemorySource::Task { task_id } => Some(task_id.as_str()),
            MemorySource::Verification { verification_id } => Some(verification_id.as_str()),
            MemorySource::Conversation { conversation_id } => Some(conversation_id.as_str()),
            MemorySource::Manual => None,
        }
    }
}

} // verus!
