//! Identifier types.
//!
//! Every identifier wraps the 128-bit value of a UUID. Multi-agent identifiers
//! print as `<prefix>-<hyphenated uuid>`; context identifiers print as the bare
//! hyphenated UUID.

use vstd::prelude::*;
use vstd::string::*;
use crate::text::{strip_prefix_or_keep, strip_prefix_or_self};

verus! {

/// Declaration of the error type returned by `uuid::Uuid::parse_str`.
#[verifier::external_type_specification]
#[verifier::external_body]
pub struct ExUuidError(uuid::Error);

/// The lowercase hexadecimal digit of `d` (below 16).
pub open spec fn hex_digit(d: nat) -> char {
    if d < 10 {
        (d + 48) as char
    } else {
        (d + 87) as char
    }
}

/// The `n` lowest hexadecimal digits of `v`, most significant first.
pub open spec fn hex_digits(v: nat, n: nat) -> Seq<char>
    decreases n,
{
    if n == 0 {
        Seq::empty()
    } else {
        hex_digits(v / 16, (n - 1) as nat).push(hex_digit(v % 16))
    }
}

/// The lowercase hyphenated text of the UUID with value `v`: its 32 hexadecimal
/// digits, most significant first, in groups of 8-4-4-4-12 joined by `-`.
pub open spec fn uuid_hyphenated(v: u128) -> Seq<char> {
    let d = hex_digits(v as nat, 32);
    d.subrange(0, 8) + seq!['-'] + d.subrange(8, 12) + seq!['-'] + d.subrange(12, 16)
        + seq!['-'] + d.subrange(16, 20) + seq!['-'] + d.subrange(20, 32)
}

/// What `uuid::Uuid::parse_str` yields on the text `s`: the UUID's value, or `None` on error.
pub uninterp spec fn uuid_parse_result(s: Seq<char>) -> Option<u128>;

/// The version field of the UUID with value `v` (bits 76 to 79 of its big-endian value).
pub open spec fn uuid_version(v: u128) -> u128 {
    (v >> 76u128) & 0xfu128
}

/// The variant field of the UUID with value `v` (bits 62 and 63); 2 is the variant
/// of RFC 9562.
pub open spec fn uuid_variant(v: u128) -> u128 {
    (v >> 62u128) & 0x3u128
}

/// Calls `uuid::Uuid::new_v4()`: a random version-4 UUID. Claims only its version
/// (4) and variant (RFC 9562), which `new_v4` sets on every value; the rest is random.
#[verifier::external_body]
fn uuid_new_v4() -> (v: u128)
    ensures
        uuid_version(v) == 4,
        uuid_variant(v) == 2,
{
    uuid::Uuid::new_v4().as_u128()
}

/// Calls `uuid::Uuid::now_v7()`: a time-ordered version-7 UUID. Claims only its
/// version (7) and variant (RFC 9562), which every value has; the timestamp and the
/// random bits depend on the clock and on chance.
#[verifier::external_body]
fn uuid_now_v7() -> (v: u128)
    ensures
        uuid_version(v) == 7,
        uuid_variant(v) == 2,
{
    uuid::Uuid::now_v7().as_u128()
}

/// Calls the `Display` impl of `uuid::Uuid`, which writes the hyphenated lowercase
/// form. Claims that the text is `uuid_hyphenated(v)` and that `uuid::Uuid::parse_str`
/// reads it back as `v` (the hyphenated form is one of the formats that `parse_str`
/// accepts).
#[verifier::external_body]
fn uuid_to_text(v: u128) -> (s: String)
    ensures
        s@ == uuid_hyphenated(v),
        uuid_parse_result(s@) == Some(v),
{
    uuid::Uuid::from_u128(v).to_string()
}

/// Calls `uuid::Uuid::parse_str`. Claims that the value read is `uuid_parse_result(s@)`.
#[verifier::external_body]
fn uuid_parse(s: &str) -> (r: Result<u128, uuid::Error>)
    ensures
        r is Ok <==> uuid_parse_result(s@) is Some,
        r matches Ok(v) ==> uuid_parse_result(s@) == Some(v),
{
    match uuid::Uuid::parse_str(s) {
        Ok(u) => Ok(u.as_u128()),
        Err(e) => Err(e),
    }
}

/// `<prefix><hyphenated uuid>`, with the fact that removing the prefix gives back the
/// UUID text and that this text parses back to `v`.
fn prefixed_text(prefix: &str, v: u128) -> (s: String)
    ensures
        s@ == prefix@ + uuid_hyphenated(v),
        strip_prefix_or_keep(s@, prefix@) == uuid_hyphenated(v),
        uuid_parse_result(uuid_hyphenated(v)) == Some(v),
{
    let t = uuid_to_text(v);
    let mut s = String::new();
    s.append(prefix);
    s.append(t.as_str());
    proof {
        let w = prefix@ + uuid_hyphenated(v);
        assert(w.subrange(0, prefix@.len() as int) =~= prefix@);
        assert(w.subrange(prefix@.len() as int, w.len() as int) =~= uuid_hyphenated(v));
    }
    s
}

/// Reads `<prefix><uuid>` or a bare `<uuid>`: the prefix is removed when present.
fn parse_prefixed(prefix: &str, s: &str) -> (r: Result<u128, uuid::Error>)
    ensures
        r is Ok <==> uuid_parse_result(strip_prefix_or_keep(s@, prefix@)) is Some,
        r matches Ok(v) ==> uuid_parse_result(strip_prefix_or_keep(s@, prefix@)) == Some(v),
{
    let rest = strip_prefix_or_self(s, prefix);
    uuid_parse(rest)
}


/// Identifier of a task; prints as `task-<uuid>`.
#[derive(Debug, PartialEq, Eq, Structural, Hash)]
pub struct TaskId(pub u128);

impl Clone for TaskId {
    fn clone(&self) -> (r: Self)
        ensures
            r == *self,
    {
        TaskId(self.0)
    }
}

impl TaskId {
    /// A fresh identifier from a time-ordered (version 7) UUID.
    pub fn new() -> (id: Self)
        ensures
            uuid_version(id.0) == 7,
            uuid_variant(id.0) == 2,
    {
        TaskId(uuid_now_v7())
    }

    /// The UUID value.
    pub fn as_uuid(&self) -> (v: u128)
        ensures
            v == self.0,
    {
        self.0
    }

    /// What `TaskId::parse` reads from `s`: the `task-` prefix is optional.
    pub open spec fn parse_spec(s: Seq<char>) -> Option<Self> {
        match uuid_parse_result(strip_prefix_or_keep(s, "task-"@)) {
            Some(v) => Some(TaskId(v)),
            None => None,
        }
    }

    /// `task-<hyphenated uuid>`; the text reads back as this identifier.
    pub fn to_string(&self) -> (s: String)
        ensures
            s@ == "task-"@ + uuid_hyphenated(self.0),
            Self::parse_spec(s@) == Some(*self),
    {
        prefixed_text("task-", self.0)
    }

    /// Reads `task-<uuid>` or a bare `<uuid>`.
    pub fn parse(s: &str) -> (r: Result<Self, uuid::Error>)
        ensures
            r is Ok <==> Self::parse_spec(s@) is Some,
            r matches Ok(id) ==> Self::parse_spec(s@) == Some(id),
    {
        match parse_prefixed("task-", s) {
            Ok(v) => Ok(TaskId(v)),
            Err(e) => Err(e),
        }
    }
}

impl Default for TaskId {
    fn default() -> Self {
        Self::new()
    }
}

impl std::str::FromStr for TaskId {
    type Err = uuid::Error;

    fn from_str(s: &str) -> (r: Result<Self, uuid::Error>)
        ensures
            r is Ok <==> Self::parse_spec(s@) is Some,
            r matches Ok(id) ==> Self::parse_spec(s@) == Some(id),
    {
        Self::parse(s)
    }
}

/// Identifier of a domain planner; prints as `planner-<uuid>`.
#[derive(Debug, PartialEq, Eq, Structural, Hash)]
pub struct PlannerId(pub u128);

impl Clone for PlannerId {
    fn clone(&self) -> (r: Self)
        ensures
            r == *self,
    {
        PlannerId(self.0)
    }
}

impl PlannerId {
    /// A fresh identifier from a time-ordered (version 7) UUID.
    pub fn new() -> (id: Self)
        ensures
            uuid_version(id.0) == 7,
            uuid_variant(id.0) == 2,
    {
        PlannerId(uuid_now_v7())
    }

    /// The UUID value.
    pub fn as_uuid(&self) -> (v: u128)
        ensures
            v == self.0,
    {
        self.0
    }

    /// What `PlannerId::parse` reads from `s`: the `planner-` prefix is optional.
    pub open spec fn parse_spec(s: Seq<char>) -> Option<Self> {
        match uuid_parse_result(strip_prefix_or_keep(s, "planner-"@)) {
            Some(v) => Some(PlannerId(v)),
            None => None,
        }
    }

    /// `planner-<hyphenated uuid>`; the text reads back as this identifier.
    pub fn to_string(&self) -> (s: String)
        ensures
            s@ == "planner-"@ + uuid_hyphenated(self.0),
            Self::parse_spec(s@) == Some(*self),
    {
        prefixed_text("planner-", self.0)
    }

    /// Reads `planner-<uuid>` or a bare `<uuid>`.
    pub fn parse(s: &str) -> (r: Result<Self, uuid::Error>)
        ensures
            r is Ok <==> Self::parse_spec(s@) is Some,
            r matches Ok(id) ==> Self::parse_spec(s@) == Some(id),
    {
        match parse_prefixed("planner-", s) {
            Ok(v) => Ok(PlannerId(v)),
            Err(e) => Err(e),
        }
    }
}

impl Default for PlannerId {
    fn default() -> Self {
        Self::new()
    }
}

impl std::str::FromStr for PlannerId {
    type Err = uuid::Error;

    fn from_str(s: &str) -> (r: Result<Self, uuid::Error>)
        ensures
            r is Ok <==> Self::parse_spec(s@) is Some,
            r matches Ok(id) ==> Self::parse_spec(s@) == Some(id),
    {
        Self::parse(s)
    }
}

/// Identifier of a worker; prints as `worker-<uuid>`.
#[derive(Debug, PartialEq, Eq, Structural, Hash)]
pub struct WorkerId(pub u128);

impl Clone for WorkerId {
    fn clone(&self) -> (r: Self)
        ensures
            r == *self,
    {
        WorkerId(self.0)
    }
}

impl WorkerId {
    /// A fresh identifier from a time-ordered (version 7) UUID.
    pub fn new() -> (id: Self)
        ensures
            uuid_version(id.0) == 7,
            uuid_variant(id.0) == 2,
    {
        WorkerId(uuid_now_v7())
    }

    /// The UUID value.
    pub fn as_uuid(&self) -> (v: u128)
        ensures
            v == self.0,
    {
        self.0
    }

    /// What `WorkerId::parse` reads from `s`: the `worker-` prefix is optional.
    pub open spec fn parse_spec(s: Seq<char>) -> Option<Self> {
        match uuid_parse_result(strip_prefix_or_keep(s, "worker-"@)) {
            Some(v) => Some(WorkerId(v)),
            None => None,
        }
    }

    /// `worker-<hyphenated uuid>`; the text reads back as this identifier.
    pub fn to_string(&self) -> (s: String)
        ensures
            s@ == "worker-"@ + uuid_hyphenated(self.0),
            Self::parse_spec(s@) == Some(*self),
    {
        prefixed_text("worker-", self.0)
    }

    /// Reads `worker-<uuid>` or a bare `<uuid>`.
    pub fn parse(s: &str) -> (r: Result<Self, uuid::Error>)
        ensures
            r is Ok <==> Self::parse_spec(s@) is Some,
            r matches Ok(id) ==> Self::parse_spec(s@) == Some(id),
    {
        match parse_prefixed("worker-", s) {
            Ok(v) => Ok(WorkerId(v)),
            Err(e) => Err(e),
        }
    }
}

impl Default for WorkerId {
    fn default() -> Self {
        Self::new()
    }
}

impl std::str::FromStr for WorkerId {
    type Err = uuid::Error;

    fn from_str(s: &str) -> (r: Result<Self, uuid::Error>)
        ensures
            r is Ok <==> Self::parse_spec(s@) is Some,
            r matches Ok(id) ==> Self::parse_spec(s@) == Some(id),
    {
        Self::parse(s)
    }
}

/// Identifier of a domain; prints as `domain-<uuid>`.
#[derive(Debug, PartialEq, Eq, Structural, Hash)]
pub struct DomainId(pub u128);

impl Clone for DomainId {
    fn clone(&self) -> (r: Self)
        ensures
            r == *self,
    {
        DomainId(self.0)
    }
}

impl DomainId {
    /// A fresh identifier from a time-ordered (version 7) UUID.
    pub fn new() -> (id: Self)
        ensures
            uuid_version(id.0) == 7,
            uuid_variant(id.0) == 2,
    {
        DomainId(uuid_now_v7())
    }

    /// The UUID value.
    pub fn as_uuid(&self) -> (v: u128)
        ensures
            v == self.0,
    {
        self.0
    }

    /// What `DomainId::parse` reads from `s`: the `domain-` prefix is optional.
    pub open spec fn parse_spec(s: Seq<char>) -> Option<Self> {
        match uuid_parse_result(strip_prefix_or_keep(s, "domain-"@)) {
            Some(v) => Some(DomainId(v)),
            None => None,
        }
    }

    /// `domain-<hyphenated uuid>`; the text reads back as this identifier.
    pub fn to_string(&self) -> (s: String)
        ensures
            s@ == "domain-"@ + uuid_hyphenated(self.0),
            Self::parse_spec(s@) == Some(*self),
    {
        prefixed_text("domain-", self.0)
    }

    /// Reads `domain-<uuid>` or a bare `<uuid>`.
    pub fn parse(s: &str) -> (r: Result<Self, uuid::Error>)
        ensures
            r is Ok <==> Self::parse_spec(s@) is Some,
            r matches Ok(id) ==> Self::parse_spec(s@) == Some(id),
    {
        match parse_prefixed("domain-", s) {
            Ok(v) => Ok(DomainId(v)),
            Err(e) => Err(e),
        }
    }
}

impl Default for DomainId {
    fn default() -> Self {
        Self::new()
    }
}

impl std::str::FromStr for DomainId {
    type Err = uuid::Error;

    fn from_str(s: &str) -> (r: Result<Self, uuid::Error>)
        ensures
            r is Ok <==> Self::parse_spec(s@) is Some,
            r matches Ok(id) ==> Self::parse_spec(s@) == Some(id),
    {
        Self::parse(s)
    }
}

/// Identifier of a project run; prints as `run-<uuid>`.
#[derive(Debug, PartialEq, Eq, Structural, Hash)]
pub struct ProjectRunId(pub u128);

impl Clone for ProjectRunId {
    fn clone(&self) -> (r: Self)
        ensures
            r == *self,
    {
        ProjectRunId(self.0)
    }
}

impl ProjectRunId {
    /// A fresh identifier from a time-ordered (version 7) UUID.
    pub fn new() -> (id: Self)
        ensures
            uuid_version(id.0) == 7,
            uuid_variant(id.0) == 2,
    {
        ProjectRunId(uuid_now_v7())
    }

    /// The UUID value.
    pub fn as_uuid(&self) -> (v: u128)
        ensures
            v == self.0,
    {
        self.0
    }

    /// What `ProjectRunId::parse` reads from `s`: the `run-` prefix is optional.
    pub open spec fn parse_spec(s: Seq<char>) -> Option<Self> {
        match uuid_parse_result(strip_prefix_or_keep(s, "run-"@)) {
            Some(v) => Some(ProjectRunId(v)),
            None => None,
        }
    }

    /// `run-<hyphenated uuid>`; the text reads back as this identifier.
    pub fn to_string(&self) -> (s: String)
        ensures
            s@ == "run-"@ + uuid_hyphenated(self.0),
            Self::parse_spec(s@) == Some(*self),
    {
        prefixed_text("run-", self.0)
    }

    /// Reads `run-<uuid>` or a bare `<uuid>`.
    pub fn parse(s: &str) -> (r: Result<Self, uuid::Error>)
        ensures
            r is Ok <==> Self::parse_spec(s@) is Some,
            r matches Ok(id) ==> Self::parse_spec(s@) == Some(id),
    {
        match parse_prefixed("run-", s) {
            Ok(v) => Ok(ProjectRunId(v)),
            Err(e) => Err(e),
        }
    }
}

impl Default for ProjectRunId {
    fn default() -> Self {
        Self::new()
    }
}

impl std::str::FromStr for ProjectRunId {
    type Err = uuid::Error;

    fn from_str(s: &str) -> (r: Result<Self, uuid::Error>)
        ensures
            r is Ok <==> Self::parse_spec(s@) is Some,
            r matches Ok(id) ==> Self::parse_spec(s@) == Some(id),
    {
        Self::parse(s)
    }
}

/// Identifier of a checkpoint; prints as `checkpoint-<uuid>`.
#[derive(Debug, PartialEq, Eq, Structural, Hash)]
pub struct CheckpointId(pub u128);

impl Clone for CheckpointId {
    fn clone(&self) -> (r: Self)
        ensures
            r == *self,
    {
        CheckpointId(self.0)
    }
}

impl CheckpointId {
    /// A fresh identifier from a time-ordered (version 7) UUID.
    pub fn new() -> (id: Self)
        ensures
            uuid_version(id.0) == 7,
            uuid_variant(id.0) == 2,
    {
        CheckpointId(uuid_now_v7())
    }

    /// The UUID value.
    pub fn as_uuid(&self) -> (v: u128)
        ensures
            v == self.0,
    {
        self.0
    }

    /// What `CheckpointId::parse` reads from `s`: the `checkpoint-` prefix is optional.
    pub open spec fn parse_spec(s: Seq<char>) -> Option<Self> {
        match uuid_parse_result(strip_prefix_or_keep(s, "checkpoint-"@)) {
            Some(v) => Some(CheckpointId(v)),
            None => None,
        }
    }

    /// `checkpoint-<hyphenated uuid>`; the text reads back as this identifier.
    pub fn to_string(&self) -> (s: String)
        ensures
            s@ == "checkpoint-"@ + uuid_hyphenated(self.0),
            Self::parse_spec(s@) == Some(*self),
    {
        prefixed_text("checkpoint-", self.0)
    }

    /// Reads `checkpoint-<uuid>` or a bare `<uuid>`.
    pub fn parse(s: &str) -> (r: Result<Self, uuid::Error>)
        ensures
            r is Ok <==> Self::parse_spec(s@) is Some,
            r matches Ok(id) ==> Self::parse_spec(s@) == Some(id),
    {
        match parse_prefixed("checkpoint-", s) {
            Ok(v) => Ok(CheckpointId(v)),
            Err(e) => Err(e),
        }
    }
}

impl Default for CheckpointId {
    fn default() -> Self {
        Self::new()
    }
}

impl std::str::FromStr for CheckpointId {
    type Err = uuid::Error;

    fn from_str(s: &str) -> (r: Result<Self, uuid::Error>)
        ensures
            r is Ok <==> Self::parse_spec(s@) is Some,
            r matches Ok(id) ==> Self::parse_spec(s@) == Some(id),
    {
        Self::parse(s)
    }
}

/// Identifier of a memory item; prints as the bare hyphenated UUID.
#[derive(Debug, Clone, Copy, PartialEq, Eq, Structural, Hash)]
pub struct MemoryId(pub u128);

impl MemoryId {
    /// A fresh identifier from a random (version 4) UUID.
    pub fn new() -> (id: Self)
        ensures
            uuid_version(id.0) == 4,
            uuid_variant(id.0) == 2,
    {
        MemoryId(uuid_new_v4())
    }

    /// What `MemoryId::parse` reads from `s`.
    pub open spec fn parse_spec(s: Seq<char>) -> Option<Self> {
        match uuid_parse_result(s) {
            Some(v) => Some(MemoryId(v)),
            None => None,
        }
    }

    /// The hyphenated UUID; the text reads back as this identifier.
    pub fn to_string(&self) -> (s: String)
        ensures
            s@ == uuid_hyphenated(self.0),
            Self::parse_spec(s@) == Some(*self),
    {
        uuid_to_text(self.0)
    }

    /// Reads a UUID in any form that `uuid::Uuid::parse_str` accepts.
    pub fn parse(s: &str) -> (r: Result<Self, uuid::Error>)
        ensures
            r is Ok <==> Self::parse_spec(s@) is Some,
            r matches Ok(id) ==> Self::parse_spec(s@) == Some(id),
    {
        match uuid_parse(s) {
            Ok(v) => Ok(MemoryId(v)),
            Err(e) => Err(e),
        }
    }
}

impl Default for MemoryId {
    fn default() -> Self {
        Self::new()
    }
}

impl std::str::FromStr for MemoryId {
    type Err = uuid::Error;

    fn from_str(s: &str) -> (r: Result<Self, uuid::Error>)
        ensures
            r is Ok <==> Self::parse_spec(s@) is Some,
            r matches Ok(id) ==> Self::parse_spec(s@) == Some(id),
    {
        Self::parse(s)
    }
}

/// Identifier of a context snapshot; prints as the bare hyphenated UUID.
#[derive(Debug, Clone, Copy, PartialEq, Eq, Structural, Hash)]
pub struct ContextSnapshotId(pub u128);

impl ContextSnapshotId {
    /// A fresh identifier from a random (version 4) UUID.
    pub fn new() -> (id: Self)
        ensures
            uuid_version(id.0) == 4,
            uuid_variant(id.0) == 2,
    {
        ContextSnapshotId(uuid_new_v4())
    }

    /// What `ContextSnapshotId::parse` reads from `s`.
    pub open spec fn parse_spec(s: Seq<char>) -> Option<Self> {
        match uuid_parse_result(s) {
            Some(v) => Some(ContextSnapshotId(v)),
            None => None,
        }
    }

    /// The hyphenated UUID; the text reads back as this identifier.
    pub fn to_string(&self) -> (s: String)
        ensures
            s@ == uuid_hyphenated(self.0),
            Self::parse_spec(s@) == Some(*self),
    {
        uuid_to_text(self.0)
    }

    /// Reads a UUID in any form that `uuid::Uuid::parse_str` accepts.
    pub fn parse(s: &str) -> (r: Result<Self, uuid::Error>)
        ensures
            r is Ok <==> Self::parse_spec(s@) is Some,
            r matches Ok(id) ==> Self::parse_spec(s@) == Some(id),
    {
        match uuid_parse(s) {
            Ok(v) => Ok(ContextSnapshotId(v)),
            Err(e) => Err(e),
        }
    }
}

impl Default for ContextSnapshotId {
    fn default() -> Self {
        Self::new()
    }
}

impl std::str::FromStr for ContextSnapshotId {
    type Err = uuid::Error;

    fn from_str(s: &str) -> (r: Result<Self, uuid::Error>)
        ensures
            r is Ok <==> Self::parse_spec(s@) is Some,
            r matches Ok(id) ==> Self::parse_spec(s@) == Some(id),
    {
        Self::parse(s)
    }
}

/// Identifier of a verification result; prints as the bare hyphenated UUID.
#[derive(Debug, Clone, Copy, PartialEq, Eq, Structural, Hash)]
pub struct VerificationId(pub u128);

impl VerificationId {
    /// A fresh identifier from a random (version 4) UUID.
    pub fn new() -> (id: Self)
        ensures
            uuid_version(id.0) == 4,
            uuid_variant(id.0) == 2,
    {
        VerificationId(uuid_new_v4())
    }

    /// What `VerificationId::parse` reads from `s`.
    pub open spec fn parse_spec(s: Seq<char>) -> Option<Self> {
        match uuid_parse_result(s) {
            Some(v) => Some(VerificationId(v)),
            None => None,
        }
    }

    /// The hyphenated UUID; the text reads back as this identifier.
    pub fn to_string(&self) -> (s: String)
        ensures
            s@ == uuid_hyphenated(self.0),
            Self::parse_spec(s@) == Some(*self),
    {
        uuid_to_text(self.0)
    }

    /// Reads a UUID in any form that `uuid::Uuid::parse_str` accepts.
    pub fn parse(s: &str) -> (r: Result<Self, uuid::Error>)
        ensures
            r is Ok <==> Self::parse_spec(s@) is Some,
            r matches Ok(id) ==> Self::parse_spec(s@) == Some(id),
    {
        match uuid_parse(s) {
            Ok(v) => Ok(VerificationId(v)),
            Err(e) => Err(e),
        }
    }
}

impl Default for VerificationId {
    fn default() -> Self {
        Self::new()
    }
}

impl std::str::FromStr for VerificationId {
    type Err = uuid::Error;

    fn from_str(s: &str) -> (r: Result<Self, uuid::Error>)
        ensures
            r is Ok <==> Self::parse_spec(s@) is Some,
            r matches Ok(id) ==> Self::parse_spec(s@) == Some(id),
    {
        Self::parse(s)
    }
}

/// Identifier of a drift signal; prints as the bare hyphenated UUID.
#[derive(Debug, Clone, Copy, PartialEq, Eq, Structural, Hash)]
pub struct DriftSignalId(pub u128);

impl DriftSignalId {
    /// A fresh identifier from a random (version 4) UUID.
    pub fn new() -> (id: Self)
        ensures
            uuid_version(id.0) == 4,
            uuid_variant(id.0) == 2,
    {
        DriftSignalId(uuid_new_v4())
    }

    /// What `DriftSignalId::parse` reads from `s`.
    pub open spec fn parse_spec(s: Seq<char>) -> Option<Self> {
        match uuid_parse_result(s) {
            Some(v) => Some(DriftSignalId(v)),
            None => None,
        }
    }

    /// The hyphenated UUID; the text reads back as this identifier.
    pub fn to_string(&self) -> (s: String)
        ensures
            s@ == uuid_hyphenated(self.0),
            Self::parse_spec(s@) == Some(*self),
    {
        uuid_to_text(self.0)
    }

    /// Reads a UUID in any form that `uuid::Uuid::parse_str` accepts.
    pub fn parse(s: &str) -> (r: Result<Self, uuid::Error>)
        ensures
            r is Ok <==> Self::parse_spec(s@) is Some,
            r matches Ok(id) ==> Self::parse_spec(s@) == Some(id),
    {
        match uuid_parse(s) {
            Ok(v) => Ok(DriftSignalId(v)),
            Err(e) => Err(e),
        }
    }
}

impl Default for DriftSignalId {
    fn default() -> Self {
        Self::new()
    }
}

impl std::str::FromStr for DriftSignalId {
    type Err = uuid::Error;

    fn from_str(s: &str) -> (r: Result<Self, uuid::Error>)
        ensures
            r is Ok <==> Self::parse_spec(s@) is Some,
            r matches Ok(id) ==> Self::parse_spec(s@) == Some(id),
    {
        Self::parse(s)
    }
}

/// Identifier of an organization; prints as the bare hyphenated UUID.
#[derive(Debug, Clone, Copy, PartialEq, Eq, Structural, Hash)]
pub struct OrgId(pub u128);

impl OrgId {
    /// A fresh identifier from a random (version 4) UUID.
    pub fn new() -> (id: Self)
        ensures
            uuid_version(id.0) == 4,
            uuid_variant(id.0) == 2,
    {
        OrgId(uuid_new_v4())
    }

    /// What `OrgId::parse` reads from `s`.
    pub open spec fn parse_spec(s: Seq<char>) -> Option<Self> {
        match uuid_parse_result(s) {
            Some(v) => Some(OrgId(v)),
            None => None,
        }
    }

    /// The hyphenated UUID; the text reads back as this identifier.
    pub fn to_string(&self) -> (s: String)
        ensures
            s@ == uuid_hyphenated(self.0),
            Self::parse_spec(s@) == Some(*self),
    {
        uuid_to_text(self.0)
    }

    /// Reads a UUID in any form that `uuid::Uuid::parse_str` accepts.
    pub fn parse(s: &str) -> (r: Result<Self, uuid::Error>)
        ensures
            r is Ok <==> Self::parse_spec(s@) is Some,
            r matches Ok(id) ==> Self::parse_spec(s@) == Some(id),
    {
        match uuid_parse(s) {
            Ok(v) => Ok(OrgId(v)),
            Err(e) => Err(e),
        }
    }
}

impl Default for OrgId {
    fn default() -> Self {
        Self::new()
    }
}

impl std::str::FromStr for OrgId {
    type Err = uuid::Error;

    fn from_str(s: &str) -> (r: Result<Self, uuid::Error>)
        ensures
            r is Ok <==> Self::parse_spec(s@) is Some,
            r matches Ok(id) ==> Self::parse_spec(s@) == Some(id),
    {
        Self::parse(s)
    }
}

} // verus!
