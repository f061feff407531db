//! The enumerations of the synchronisation layer, with the names they are stored under,
//! and the priorities change-log entries are queued with.

use vstd::prelude::*;
use crate::errors::{DomainError, ValidationError};
use crate::text::{join2, same_text};

verus! {

/// What `str::to_lowercase` gives for a text (full Unicode lower-casing).
pub uninterp spec fn lowercase(text: Seq<char>) -> Seq<char>;

/// The lower-case form of an ASCII character: `A` to `Z` become `a` to `z`, every other
/// character stays.
pub open spec fn ascii_lower(c: char) -> char {
    if 'A' <= c && c <= 'Z' {
        ((c as u32) + 32) as char
    } else {
        c
    }
}

/// True when every character of a text is ASCII.
pub open spec fn all_ascii(s: Seq<char>) -> bool {
    forall|i: int| 0 <= i < s.len() ==> (#[trigger] s[i] as u32) < 128
}

/// The lower-case form of a text: character by character for ASCII text, otherwise
/// what `str::to_lowercase` gives.
pub open spec fn lower_text(s: Seq<char>) -> Seq<char> {
    if all_ascii(s) {
        s.map_values(|c: char| ascii_lower(c))
    } else {
        lowercase(s)
    }
}

/// Calls `str::to_lowercase`. Stated besides the name: a text of ASCII characters is
/// lower-cased character by character, `A` to `Z` becoming `a` to `z`, as the Unicode
/// case mapping that std documents gives for that range.
#[verifier::external_body]
pub(crate) fn to_lowercase_text(text: &str) -> (r: String)
    ensures
        r@ == lowercase(text@),
        r@ == lower_text(text@),
{
    text.to_lowercase()
}

/// The direction of a sync operation.
#[derive(Clone, Copy, Debug, PartialEq, Eq, Structural)]
pub enum SyncDirection {
    Upload,
    Download,
}

impl SyncDirection {
    /// The name the value is stored under.
    pub open spec fn name(self) -> Seq<char> {
        match self {
            SyncDirection::Upload => "upload"@,
            SyncDirection::Download => "download"@,
        }
    }

    /// The value stored under a name, if any.
    pub open spec fn named(s: Seq<char>) -> Option<Self> {
        if s == "upload"@ {
            Some(SyncDirection::Upload)
        } else if s == "download"@ {
            Some(SyncDirection::Download)
        } else {
            None
        }
    }

    pub fn as_str(&self) -> (r: &'static str)
        ensures
            r@ == self.name(),
    {
        match self {
            SyncDirection::Upload => "upload",
            SyncDirection::Download => "download",
        }
    }

    /// The value stored under a name; any other
    /// text is refused with `Invalid SyncDirection string: TEXT`.
    pub fn from_str(s: &str) -> (r: Result<Self, DomainError>)
        ensures
            match Self::named(s@) {
                Some(v) => r == Ok::<Self, DomainError>(v),
                None => r matches Err(DomainError::Validation(ValidationError::Custom(m)))
                    && m@ == "Invalid SyncDirection string: "@ + s@,
            },
    {
        if same_text(s, "upload") {
            Ok(SyncDirection::Upload)
        } else if same_text(s, "download") {
            Ok(SyncDirection::Download)
        } else {
            Err(DomainError::Validation(ValidationError::Custom(join2("Invalid SyncDirection string: ", s))))
        }
    }
}

/// Reads a value from its name, as `SyncDirection::from_str` does.
impl core::str::FromStr for SyncDirection {
    type Err = DomainError;

    fn from_str(s: &str) -> Result<SyncDirection, DomainError> {
        SyncDirection::from_str(s)
    }
}

/// The name a value is stored under, as a `String`.
impl From<SyncDirection> for String {
    fn from(direction: SyncDirection) -> (r: String)
        ensures
            r@ == direction.name(),
    {
        String::from_str(direction.as_str())
    }
}

/// The conversion into a `String` is stated on its `from` alone.
impl vstd::std_specs::convert::FromSpecImpl<SyncDirection> for String {
    open spec fn obeys_from_spec() -> bool {
        false
    }

    open spec fn from_spec(v: SyncDirection) -> String {
        choose|s: String| s@ == v.name()
    }
}

/// The status of a sync batch.
#[derive(Clone, Copy, Debug, PartialEq, Eq, Structural)]
pub enum SyncBatchStatus {
    Pending,
    Processing,
    Completed,
    Failed,
    PartiallyFailed,
}

impl SyncBatchStatus {
    /// The name the value is stored under.
    pub open spec fn name(self) -> Seq<char> {
        match self {
            SyncBatchStatus::Pending => "pending"@,
            SyncBatchStatus::Processing => "processing"@,
            SyncBatchStatus::Completed => "completed"@,
            SyncBatchStatus::Failed => "failed"@,
            SyncBatchStatus::PartiallyFailed => "partially_failed"@,
        }
    }

    /// The value stored under a name, if any.
    pub open spec fn named(s: Seq<char>) -> Option<Self> {
        if s == "pending"@ {
            Some(SyncBatchStatus::Pending)
        } else if s == "processing"@ {
            Some(SyncBatchStatus::Processing)
        } else if s == "completed"@ {
            Some(SyncBatchStatus::Completed)
        } else if s == "failed"@ {
            Some(SyncBatchStatus::Failed)
        } else if s == "partially_failed"@ {
            Some(SyncBatchStatus::PartiallyFailed)
        } else {
            None
        }
    }

    pub fn as_str(&self) -> (r: &'static str)
        ensures
            r@ == self.name(),
    {
        match self {
            SyncBatchStatus::Pending => "pending",
            SyncBatchStatus::Processing => "processing",
            SyncBatchStatus::Completed => "completed",
            SyncBatchStatus::Failed => "failed",
            SyncBatchStatus::PartiallyFailed => "partially_failed",
        }
    }

    /// The value stored under a name; any other
    /// text is refused with `Invalid SyncBatchStatus string: TEXT`.
    pub fn from_str(s: &str) -> (r: Result<Self, DomainError>)
        ensures
            match Self::named(s@) {
                Some(v) => r == Ok::<Self, DomainError>(v),
                None => r matches Err(DomainError::Validation(ValidationError::Custom(m)))
                    && m@ == "Invalid SyncBatchStatus string: "@ + s@,
            },
    {
        if same_text(s, "pending") {
            Ok(SyncBatchStatus::Pending)
        } else if same_text(s, "processing") {
            Ok(SyncBatchStatus::Processing)
        } else if same_text(s, "completed") {
            Ok(SyncBatchStatus::Completed)
        } else if same_text(s, "failed") {
            Ok(SyncBatchStatus::Failed)
        } else if same_text(s, "partially_failed") {
            Ok(SyncBatchStatus::PartiallyFailed)
        } else {
            Err(DomainError::Validation(ValidationError::Custom(join2("Invalid SyncBatchStatus string: ", s))))
        }
    }
}

/// Reads a value from its name, as `SyncBatchStatus::from_str` does.
impl core::str::FromStr for SyncBatchStatus {
    type Err = DomainError;

    fn from_str(s: &str) -> Result<SyncBatchStatus, DomainError> {
        SyncBatchStatus::from_str(s)
    }
}

/// The name a value is stored under, as a `String`.
impl From<SyncBatchStatus> for String {
    fn from(status: SyncBatchStatus) -> (r: String)
        ensures
            r@ == status.name(),
    {
        String::from_str(status.as_str())
    }
}

/// The conversion into a `String` is stated on its `from` alone.
impl vstd::std_specs::convert::FromSpecImpl<SyncBatchStatus> for String {
    open spec fn obeys_from_spec() -> bool {
        false
    }

    open spec fn from_spec(v: SyncBatchStatus) -> String {
        choose|s: String| s@ == v.name()
    }
}

/// The status of a device's last synchronisation.
#[derive(Clone, Copy, Debug, PartialEq, Eq, Structural)]
pub enum DeviceSyncStatus {
    Success,
    PartialSuccess,
    Failed,
    InProgress,
}

impl DeviceSyncStatus {
    /// The name the value is stored under.
    pub open spec fn name(self) -> Seq<char> {
        match self {
            DeviceSyncStatus::Success => "success"@,
            DeviceSyncStatus::PartialSuccess => "partial_success"@,
            DeviceSyncStatus::Failed => "failed"@,
            DeviceSyncStatus::InProgress => "in_progress"@,
        }
    }

    /// The value stored under a name, if any.
    pub open spec fn named(s: Seq<char>) -> Option<Self> {
        if s == "success"@ {
            Some(DeviceSyncStatus::Success)
        } else if s == "partial_success"@ {
            Some(DeviceSyncStatus::PartialSuccess)
        } else if s == "failed"@ {
            Some(DeviceSyncStatus::Failed)
        } else if s == "in_progress"@ {
            Some(DeviceSyncStatus::InProgress)
        } else {
            None
        }
    }

    pub fn as_str(&self) -> (r: &'static str)
        ensures
            r@ == self.name(),
    {
        match self {
            DeviceSyncStatus::Success => "success",
            DeviceSyncStatus::PartialSuccess => "partial_success",
            DeviceSyncStatus::Failed => "failed",
            DeviceSyncStatus::InProgress => "in_progress",
        }
    }

    /// The value stored under a name; any other
    /// text is refused with `Invalid DeviceSyncStatus string: TEXT`.
    pub fn from_str(s: &str) -> (r: Result<Self, DomainError>)
        ensures
            match Self::named(s@) {
                Some(v) => r == Ok::<Self, DomainError>(v),
                None => r matches Err(DomainError::Validation(ValidationError::Custom(m)))
                    && m@ == "Invalid DeviceSyncStatus string: "@ + s@,
            },
    {
        if same_text(s, "success") {
            Ok(DeviceSyncStatus::Success)
        } else if same_text(s, "partial_success") {
            Ok(DeviceSyncStatus::PartialSuccess)
        } else if same_text(s, "failed") {
            Ok(DeviceSyncStatus::Failed)
        } else if same_text(s, "in_progress") {
            Ok(DeviceSyncStatus::InProgress)
        } else {
            Err(DomainError::Validation(ValidationError::Custom(join2("Invalid DeviceSyncStatus string: ", s))))
        }
    }
}

/// Reads a value from its name, as `DeviceSyncStatus::from_str` does.
impl core::str::FromStr for DeviceSyncStatus {
    type Err = DomainError;

    fn from_str(s: &str) -> Result<DeviceSyncStatus, DomainError> {
        DeviceSyncStatus::from_str(s)
    }
}

/// The name a value is stored under, as a `String`.
impl From<DeviceSyncStatus> for String {
    fn from(status: DeviceSyncStatus) -> (r: String)
        ensures
            r@ == status.name(),
    {
        String::from_str(status.as_str())
    }
}

/// The conversion into a `String` is stated on its `from` alone.
impl vstd::std_specs::convert::FromSpecImpl<DeviceSyncStatus> for String {
    open spec fn obeys_from_spec() -> bool {
        false
    }

    open spec fn from_spec(v: DeviceSyncStatus) -> String {
        choose|s: String| s@ == v.name()
    }
}

/// The kind of change a change-log entry records.
#[derive(Clone, Copy, Debug, PartialEq, Eq, Structural)]
pub enum ChangeOperationType {
    Create,
    Update,
    Delete,
    HardDelete,
}

impl ChangeOperationType {
    /// The name the value is stored under.
    pub open spec fn name(self) -> Seq<char> {
        match self {
            ChangeOperationType::Create => "create"@,
            ChangeOperationType::Update => "update"@,
            ChangeOperationType::Delete => "delete"@,
            ChangeOperationType::HardDelete => "hard_delete"@,
        }
    }

    /// The value stored under a name, if any.
    pub open spec fn named(s: Seq<char>) -> Option<Self> {
        if s == "create"@ {
            Some(ChangeOperationType::Create)
        } else if s == "update"@ {
            Some(ChangeOperationType::Update)
        } else if s == "delete"@ {
            Some(ChangeOperationType::Delete)
        } else if s == "hard_delete"@ {
            Some(ChangeOperationType::HardDelete)
        } else {
            None
        }
    }

    pub fn as_str(&self) -> (r: &'static str)
        ensures
            r@ == self.name(),
    {
        match self {
            ChangeOperationType::Create => "create",
            ChangeOperationType::Update => "update",
            ChangeOperationType::Delete => "delete",
            ChangeOperationType::HardDelete => "hard_delete",
        }
    }

    /// The value stored under a name; `None` for any other text.
    pub fn from_str(s: &str) -> (r: Option<Self>)
        ensures
            r == Self::named(s@),
    {
        if same_text(s, "create") {
            Some(ChangeOperationType::Create)
        } else if same_text(s, "update") {
            Some(ChangeOperationType::Update)
        } else if same_text(s, "delete") {
            Some(ChangeOperationType::Delete)
        } else if same_text(s, "hard_delete") {
            Some(ChangeOperationType::HardDelete)
        } else {
            None
        }
    }
}

/// The name a value is stored under, as a `String`.
impl From<ChangeOperationType> for String {
    fn from(op_type: ChangeOperationType) -> (r: String)
        ensures
            r@ == op_type.name(),
    {
        String::from_str(op_type.as_str())
    }
}

/// The conversion into a `String` is stated on its `from` alone.
impl vstd::std_specs::convert::FromSpecImpl<ChangeOperationType> for String {
    open spec fn obeys_from_spec() -> bool {
        false
    }

    open spec fn from_spec(v: ChangeOperationType) -> String {
        choose|s: String| s@ == v.name()
    }
}

/// Where the resolution of a sync conflict stands.
#[derive(Clone, Copy, Debug, PartialEq, Eq, Structural)]
pub enum ConflictResolutionStatus {
    Resolved,
    Unresolved,
    Manual,
    Ignored,
}

impl ConflictResolutionStatus {
    /// The name the value is stored under.
    pub open spec fn name(self) -> Seq<char> {
        match self {
            ConflictResolutionStatus::Resolved => "resolved"@,
            ConflictResolutionStatus::Unresolved => "unresolved"@,
            ConflictResolutionStatus::Manual => "manual"@,
            ConflictResolutionStatus::Ignored => "ignored"@,
        }
    }

    /// The value stored under a name, if any.
    pub open spec fn named(s: Seq<char>) -> Option<Self> {
        if s == "resolved"@ {
            Some(ConflictResolutionStatus::Resolved)
        } else if s == "unresolved"@ {
            Some(ConflictResolutionStatus::Unresolved)
        } else if s == "manual"@ {
            Some(ConflictResolutionStatus::Manual)
        } else if s == "ignored"@ {
            Some(ConflictResolutionStatus::Ignored)
        } else {
            None
        }
    }

    pub fn as_str(&self) -> (r: &'static str)
        ensures
            r@ == self.name(),
    {
        match self {
            ConflictResolutionStatus::Resolved => "resolved",
            ConflictResolutionStatus::Unresolved => "unresolved",
            ConflictResolutionStatus::Manual => "manual",
            ConflictResolutionStatus::Ignored => "ignored",
        }
    }

    /// The value stored under a name; any other
    /// text is refused with `Invalid ConflictResolutionStatus string: TEXT`.
    pub fn from_str(s: &str) -> (r: Result<Self, DomainError>)
        ensures
            match Self::named(s@) {
                Some(v) => r == Ok::<Self, DomainError>(v),
                None => r matches Err(DomainError::Validation(ValidationError::Custom(m)))
                    && m@ == "Invalid ConflictResolutionStatus string: "@ + s@,
            },
    {
        if same_text(s, "resolved") {
            Ok(ConflictResolutionStatus::Resolved)
        } else if same_text(s, "unresolved") {
            Ok(ConflictResolutionStatus::Unresolved)
        } else if same_text(s, "manual") {
            Ok(ConflictResolutionStatus::Manual)
        } else if same_text(s, "ignored") {
            Ok(ConflictResolutionStatus::Ignored)
        } else {
            Err(DomainError::Validation(ValidationError::Custom(join2("Invalid ConflictResolutionStatus string: ", s))))
        }
    }
}

/// Reads a value from its name, as `ConflictResolutionStatus::from_str` does.
impl core::str::FromStr for ConflictResolutionStatus {
    type Err = DomainError;

    fn from_str(s: &str) -> Result<ConflictResolutionStatus, DomainError> {
        ConflictResolutionStatus::from_str(s)
    }
}

/// How a sync conflict is resolved.
#[derive(Clone, Copy, Debug, PartialEq, Eq, Structural)]
pub enum ConflictResolutionStrategy {
    ServerWins,
    ClientWins,
    LastWriteWins,
    MergePrioritizeServer,
    MergePrioritizeClient,
    Manual,
}

impl ConflictResolutionStrategy {
    /// The name the value is stored under.
    pub open spec fn name(self) -> Seq<char> {
        match self {
            ConflictResolutionStrategy::ServerWins => "server_wins"@,
            ConflictResolutionStrategy::ClientWins => "client_wins"@,
            ConflictResolutionStrategy::LastWriteWins => "last_write_wins"@,
            ConflictResolutionStrategy::MergePrioritizeServer => "merge_prioritize_server"@,
            ConflictResolutionStrategy::MergePrioritizeClient => "merge_prioritize_client"@,
            ConflictResolutionStrategy::Manual => "manual"@,
        }
    }

    /// The value stored under a name, if any.
    pub open spec fn named(s: Seq<char>) -> Option<Self> {
        if s == "server_wins"@ {
            Some(ConflictResolutionStrategy::ServerWins)
        } else if s == "client_wins"@ {
            Some(ConflictResolutionStrategy::ClientWins)
        } else if s == "last_write_wins"@ {
            Some(ConflictResolutionStrategy::LastWriteWins)
        } else if s == "merge_prioritize_server"@ {
            Some(ConflictResolutionStrategy::MergePrioritizeServer)
        } else if s == "merge_prioritize_client"@ {
            Some(ConflictResolutionStrategy::MergePrioritizeClient)
        } else if s == "manual"@ {
            Some(ConflictResolutionStrategy::Manual)
        } else {
            None
        }
    }

    pub fn as_str(&self) -> (r: &'static str)
        ensures
            r@ == self.name(),
    {
        match self {
            ConflictResolutionStrategy::ServerWins => "server_wins",
            ConflictResolutionStrategy::ClientWins => "client_wins",
            ConflictResolutionStrategy::LastWriteWins => "last_write_wins",
            ConflictResolutionStrategy::MergePrioritizeServer => "merge_prioritize_server",
            ConflictResolutionStrategy::MergePrioritizeClient => "merge_prioritize_client",
            ConflictResolutionStrategy::Manual => "manual",
        }
    }

    /// The value stored under a name; any other
    /// text is refused with `Invalid ConflictResolutionStrategy string: TEXT`.
    pub fn from_str(s: &str) -> (r: Result<Self, DomainError>)
        ensures
            match Self::named(s@) {
                Some(v) => r == Ok::<Self, DomainError>(v),
                None => r matches Err(DomainError::Validation(ValidationError::Custom(m)))
                    && m@ == "Invalid ConflictResolutionStrategy string: "@ + s@,
            },
    {
        if same_text(s, "server_wins") {
            Ok(ConflictResolutionStrategy::ServerWins)
        } else if same_text(s, "client_wins") {
            Ok(ConflictResolutionStrategy::ClientWins)
        } else if same_text(s, "last_write_wins") {
            Ok(ConflictResolutionStrategy::LastWriteWins)
        } else if same_text(s, "merge_prioritize_server") {
            Ok(ConflictResolutionStrategy::MergePrioritizeServer)
        } else if same_text(s, "merge_prioritize_client") {
            Ok(ConflictResolutionStrategy::MergePrioritizeClient)
        } else if same_text(s, "manual") {
            Ok(ConflictResolutionStrategy::Manual)
        } else {
            Err(DomainError::Validation(ValidationError::Custom(join2("Invalid ConflictResolutionStrategy string: ", s))))
        }
    }
}

/// Reads a value from its name, as `ConflictResolutionStrategy::from_str` does.
impl core::str::FromStr for ConflictResolutionStrategy {
    type Err = DomainError;

    fn from_str(s: &str) -> Result<ConflictResolutionStrategy, DomainError> {
        ConflictResolutionStrategy::from_str(s)
    }
}

/// Which data a sync session moves.
#[derive(Clone, Copy, Debug, PartialEq, Eq, Structural)]
pub enum SyncMode {
    Full,
    Incremental,
    Minimal,
    Selective,
}

impl SyncMode {
    /// The name the value is stored under.
    pub open spec fn name(self) -> Seq<char> {
        match self {
            SyncMode::Full => "full"@,
            SyncMode::Incremental => "incremental"@,
            SyncMode::Minimal => "minimal"@,
            SyncMode::Selective => "selective"@,
        }
    }

    /// The value stored under a name, if any.
    pub open spec fn named(s: Seq<char>) -> Option<Self> {
        if s == "full"@ {
            Some(SyncMode::Full)
        } else if s == "incremental"@ {
            Some(SyncMode::Incremental)
        } else if s == "minimal"@ {
            Some(SyncMode::Minimal)
        } else if s == "selective"@ {
            Some(SyncMode::Selective)
        } else {
            None
        }
    }

    pub fn as_str(&self) -> (r: &'static str)
        ensures
            r@ == self.name(),
    {
        match self {
            SyncMode::Full => "full",
            SyncMode::Incremental => "incremental",
            SyncMode::Minimal => "minimal",
            SyncMode::Selective => "selective",
        }
    }

    /// The value stored under a name; any other
    /// text is refused with `Invalid SyncMode string: TEXT`.
    pub fn from_str(s: &str) -> (r: Result<Self, DomainError>)
        ensures
            match Self::named(s@) {
                Some(v) => r == Ok::<Self, DomainError>(v),
                None => r matches Err(DomainError::Validation(ValidationError::Custom(m)))
                    && m@ == "Invalid SyncMode string: "@ + s@,
            },
    {
        if same_text(s, "full") {
            Ok(SyncMode::Full)
        } else if same_text(s, "incremental") {
            Ok(SyncMode::Incremental)
        } else if same_text(s, "minimal") {
            Ok(SyncMode::Minimal)
        } else if same_text(s, "selective") {
            Ok(SyncMode::Selective)
        } else {
            Err(DomainError::Validation(ValidationError::Custom(join2("Invalid SyncMode string: ", s))))
        }
    }
}

/// Reads a value from its name, as `SyncMode::from_str` does.
impl core::str::FromStr for SyncMode {
    type Err = DomainError;

    fn from_str(s: &str) -> Result<SyncMode, DomainError> {
        SyncMode::from_str(s)
    }
}

/// How urgently an entity is synchronised.
#[derive(Clone, Copy, Debug, PartialEq, Eq, Structural)]
pub enum SyncPriority {
    High,
    Normal,
    Low,
    Never,
}

impl SyncPriority {
    /// The name the value is stored under.
    pub open spec fn name(self) -> Seq<char> {
        match self {
            SyncPriority::High => "high"@,
            SyncPriority::Normal => "normal"@,
            SyncPriority::Low => "low"@,
            SyncPriority::Never => "never"@,
        }
    }

    /// The value stored under a name, if any.
    pub open spec fn named(s: Seq<char>) -> Option<Self> {
        if s == "high"@ {
            Some(SyncPriority::High)
        } else if s == "normal"@ {
            Some(SyncPriority::Normal)
        } else if s == "low"@ {
            Some(SyncPriority::Low)
        } else if s == "never"@ {
            Some(SyncPriority::Never)
        } else {
            None
        }
    }

    pub fn as_str(&self) -> (r: &'static str)
        ensures
            r@ == self.name(),
    {
        match self {
            SyncPriority::High => "high",
            SyncPriority::Normal => "normal",
            SyncPriority::Low => "low",
            SyncPriority::Never => "never",
        }
    }

    /// The value stored under a name, read without regard to case; any other
    /// text is refused with `Invalid SyncPriority string: TEXT`.
    pub fn from_str(s: &str) -> (r: Result<Self, DomainError>)
        ensures
            match Self::named(lower_text(s@)) {
                Some(v) => r == Ok::<Self, DomainError>(v),
                None => r matches Err(DomainError::Validation(ValidationError::Custom(m)))
                    && m@ == "Invalid SyncPriority string: "@ + s@,
            },
    {
        let low = to_lowercase_text(s);
        let t = low.as_str();
        if same_text(t, "high") {
            Ok(SyncPriority::High)
        } else if same_text(t, "normal") {
            Ok(SyncPriority::Normal)
        } else if same_text(t, "low") {
            Ok(SyncPriority::Low)
        } else if same_text(t, "never") {
            Ok(SyncPriority::Never)
        } else {
            Err(DomainError::Validation(ValidationError::Custom(join2("Invalid SyncPriority string: ", s))))
        }
    }
}

/// Reads a value from its name, as `SyncPriority::from_str` does.
impl core::str::FromStr for SyncPriority {
    type Err = DomainError;

    fn from_str(s: &str) -> Result<SyncPriority, DomainError> {
        SyncPriority::from_str(s)
    }
}

impl Default for SyncPriority {
    fn default() -> (r: Self)
        ensures
            r == SyncPriority::Normal,
    {
        SyncPriority::Normal
    }
}

/// The name a value is stored under, as a `String`.
impl From<SyncPriority> for String {
    fn from(priority: SyncPriority) -> (r: String)
        ensures
            r@ == priority.name(),
    {
        String::from_str(priority.as_str())
    }
}

/// The conversion into a `String` is stated on its `from` alone.
impl vstd::std_specs::convert::FromSpecImpl<SyncPriority> for String {
    open spec fn obeys_from_spec() -> bool {
        false
    }

    open spec fn from_spec(v: SyncPriority) -> String {
        choose|s: String| s@ == v.name()
    }
}

/// Finer priority levels, ordered from the most urgent.
#[derive(Clone, Copy, Debug, PartialEq, Eq, Structural, PartialOrd, Ord)]
pub enum DetailedSyncPriority {
    High,
    Normal,
    Low,
    Never,
}

/// When locally held data may be purged.
#[derive(Clone, Copy, Debug, PartialEq, Eq, Structural)]
pub enum DataPurgeStrategy {
    /// Never purge this data.
    Never,
    /// Purge when storage is low.
    WhenStorageLow,
    /// Purge after a set time.
    AfterTime,
    /// Purge once the server has confirmed the sync.
    AfterSync,
    /// Purge right after use.
    Immediate,
}

/// The queue priority a change-log entry is stored with: deletions first, then
/// creations, then updates.
pub open spec fn change_priority_value(op: ChangeOperationType) -> i64 {
    match op {
        ChangeOperationType::Create => 7,
        ChangeOperationType::Update => 5,
        ChangeOperationType::Delete => 8,
        ChangeOperationType::HardDelete => 9,
    }
}

impl ChangeOperationType {
    /// The queue priority an entry of this kind is stored with.
    pub fn priority_value(&self) -> (r: i64)
        ensures
            r == change_priority_value(*self),
    {
        match self {
            ChangeOperationType::Create => 7,
            ChangeOperationType::Update => 5,
            ChangeOperationType::Delete => 8,
            ChangeOperationType::HardDelete => 9,
        }
    }
}

/// The lowest queue priority that a request for unprocessed changes at this priority
/// takes in.
pub open spec fn priority_floor(p: SyncPriority) -> i64 {
    match p {
        SyncPriority::High => 8,
        SyncPriority::Normal => 5,
        SyncPriority::Low => 3,
        SyncPriority::Never => 0,
    }
}

impl SyncPriority {
    /// The lowest queue priority taken in when unprocessed changes are fetched at this
    /// priority.
    pub fn queue_floor(&self) -> (r: i64)
        ensures
            r == priority_floor(*self),
    {
        match self {
            SyncPriority::High => 8,
            SyncPriority::Normal => 5,
            SyncPriority::Low => 3,
            SyncPriority::Never => 0,
        }
    }

    /// True when an entry of this kind is taken in by a fetch at this priority.
    pub fn admits(&self, op: ChangeOperationType) -> (r: bool)
        ensures
            r == (change_priority_value(op) >= priority_floor(*self)),
    {
        op.priority_value() >= self.queue_floor()
    }
}

/// A fetch at a more urgent priority takes in no entry that a less urgent one leaves
/// out, and deletions are taken in at every priority.
pub proof fn priority_floors_nest(op: ChangeOperationType)
    ensures
        change_priority_value(op) >= priority_floor(SyncPriority::High)
            ==> change_priority_value(op) >= priority_floor(SyncPriority::Normal),
        change_priority_value(op) >= priority_floor(SyncPriority::Normal)
            ==> change_priority_value(op) >= priority_floor(SyncPriority::Low),
        change_priority_value(op) >= priority_floor(SyncPriority::Low)
            ==> change_priority_value(op) >= priority_floor(SyncPriority::Never),
        change_priority_value(ChangeOperationType::Delete) >= priority_floor(SyncPriority::High),
        change_priority_value(ChangeOperationType::HardDelete) >= priority_floor(SyncPriority::High),
{
}

/// Every SyncDirection is read back from the name it is stored under, and a name is read
/// as a SyncDirection only when it is that value's name.
pub proof fn sync_direction_names_round_trip(v: SyncDirection, s: Seq<char>)
    ensures
        SyncDirection::named(v.name()) == Some(v),
        SyncDirection::named(s) == Some(v) ==> s == v.name(),
{
    reveal_strlit("upload");
    reveal_strlit("download");
    match v {
        SyncDirection::Upload => {
        },
        SyncDirection::Download => {
            assert("download"@.len() != "upload"@.len());
        },
    }
}

/// Every SyncBatchStatus is read back from the name it is stored under, and a name is read
/// as a SyncBatchStatus only when it is that value's name.
pub proof fn sync_batch_status_names_round_trip(v: SyncBatchStatus, s: Seq<char>)
    ensures
        SyncBatchStatus::named(v.name()) == Some(v),
        SyncBatchStatus::named(s) == Some(v) ==> s == v.name(),
{
    reveal_strlit("pending");
    reveal_strlit("processing");
    reveal_strlit("completed");
    reveal_strlit("failed");
    reveal_strlit("partially_failed");
    match v {
        SyncBatchStatus::Pending => {
        },
        SyncBatchStatus::Processing => {
            assert("processing"@.len() != "pending"@.len());
        },
        SyncBatchStatus::Completed => {
            assert("completed"@.len() != "pending"@.len());
            assert("completed"@.len() != "processing"@.len());
        },
        SyncBatchStatus::Failed => {
            assert("failed"@.len() != "pending"@.len());
            assert("failed"@.len() != "processing"@.len());
            assert("failed"@.len() != "completed"@.len());
        },
        SyncBatchStatus::PartiallyFailed => {
            assert("partially_failed"@.len() != "pending"@.len());
            assert("partially_failed"@.len() != "processing"@.len());
            assert("partially_failed"@.len() != "completed"@.len());
            assert("partially_failed"@.len() != "failed"@.len());
        },
    }
}

/// Every DeviceSyncStatus is read back from the name it is stored under, and a name is read
/// as a DeviceSyncStatus only when it is that value's name.
pub proof fn device_sync_status_names_round_trip(v: DeviceSyncStatus, s: Seq<char>)
    ensures
        DeviceSyncStatus::named(v.name()) == Some(v),
        DeviceSyncStatus::named(s) == Some(v) ==> s == v.name(),
{
    reveal_strlit("success");
    reveal_strlit("partial_success");
    reveal_strlit("failed");
    reveal_strlit("in_progress");
    match v {
        DeviceSyncStatus::Success => {
        },
        DeviceSyncStatus::PartialSuccess => {
            assert("partial_success"@.len() != "success"@.len());
        },
        DeviceSyncStatus::Failed => {
            assert("failed"@.len() != "success"@.len());
            assert("failed"@.len() != "partial_success"@.len());
        },
        DeviceSyncStatus::InProgress => {
            assert("in_progress"@.len() != "success"@.len());
            assert("in_progress"@.len() != "partial_success"@.len());
            assert("in_progress"@.len() != "failed"@.len());
        },
    }
}

/// Every ChangeOperationType is read back from the name it is stored under, and a name is read
/// as a ChangeOperationType only when it is that value's name.
pub proof fn change_operation_type_names_round_trip(v: ChangeOperationType, s: Seq<char>)
    ensures
        ChangeOperationType::named(v.name()) == Some(v),
        ChangeOperationType::named(s) == Some(v) ==> s == v.name(),
{
    reveal_strlit("create");
    reveal_strlit("update");
    reveal_strlit("delete");
    reveal_strlit("hard_delete");
    match v {
        ChangeOperationType::Create => {
        },
        ChangeOperationType::Update => {
            assert("update"@[0] != "create"@[0]);
        },
        ChangeOperationType::Delete => {
            assert("delete"@[0] != "create"@[0]);
            assert("delete"@[0] != "update"@[0]);
        },
        ChangeOperationType::HardDelete => {
            assert("hard_delete"@.len() != "create"@.len());
            assert("hard_delete"@.len() != "update"@.len());
            assert("hard_delete"@.len() != "delete"@.len());
        },
    }
}

/// Every ConflictResolutionStatus is read back from the name it is stored under, and a name is read
/// as a ConflictResolutionStatus only when it is that value's name.
pub proof fn conflict_resolution_status_names_round_trip(v: ConflictResolutionStatus, s: Seq<char>)
    ensures
        ConflictResolutionStatus::named(v.name()) == Some(v),
        ConflictResolutionStatus::named(s) == Some(v) ==> s == v.name(),
{
    reveal_strlit("resolved");
    reveal_strlit("unresolved");
    reveal_strlit("manual");
    reveal_strlit("ignored");
    match v {
        ConflictResolutionStatus::Resolved => {
        },
        ConflictResolutionStatus::Unresolved => {
            assert("unresolved"@.len() != "resolved"@.len());
        },
        ConflictResolutionStatus::Manual => {
            assert("manual"@.len() != "resolved"@.len());
            assert("manual"@.len() != "unresolved"@.len());
        },
        ConflictResolutionStatus::Ignored => {
            assert("ignored"@.len() != "resolved"@.len());
            assert("ignored"@.len() != "unresolved"@.len());
            assert("ignored"@.len() != "manual"@.len());
        },
    }
}

/// Every ConflictResolutionStrategy is read back from the name it is stored under, and a name is read
/// as a ConflictResolutionStrategy only when it is that value's name.
pub proof fn conflict_resolution_strategy_names_round_trip(v: ConflictResolutionStrategy, s: Seq<char>)
    ensures
        ConflictResolutionStrategy::named(v.name()) == Some(v),
        ConflictResolutionStrategy::named(s) == Some(v) ==> s == v.name(),
{
    reveal_strlit("server_wins");
    reveal_strlit("client_wins");
    reveal_strlit("last_write_wins");
    reveal_strlit("merge_prioritize_server");
    reveal_strlit("merge_prioritize_client");
    reveal_strlit("manual");
    match v {
        ConflictResolutionStrategy::ServerWins => {
        },
        ConflictResolutionStrategy::ClientWins => {
            assert("client_wins"@[0] != "server_wins"@[0]);
        },
        ConflictResolutionStrategy::LastWriteWins => {
            assert("last_write_wins"@.len() != "server_wins"@.len());
            assert("last_write_wins"@.len() != "client_wins"@.len());
        },
        ConflictResolutionStrategy::MergePrioritizeServer => {
            assert("merge_prioritize_server"@.len() != "server_wins"@.len());
            assert("merge_prioritize_server"@.len() != "client_wins"@.len());
            assert("merge_prioritize_server"@.len() != "last_write_wins"@.len());
        },
        ConflictResolutionStrategy::MergePrioritizeClient => {
            assert("merge_prioritize_client"@.len() != "server_wins"@.len());
            assert("merge_prioritize_client"@.len() != "client_wins"@.len());
            assert("merge_prioritize_client"@.len() != "last_write_wins"@.len());
            assert("merge_prioritize_client"@[17] != "merge_prioritize_server"@[17]);
        },
        ConflictResolutionStrategy::Manual => {
            assert("manual"@.len() != "server_wins"@.len());
            assert("manual"@.len() != "client_wins"@.len());
            assert("manual"@.len() != "last_write_wins"@.len());
            assert("manual"@.len() != "merge_prioritize_server"@.len());
            assert("manual"@.len() != "merge_prioritize_client"@.len());
        },
    }
}

/// Every SyncMode is read back from the name it is stored under, and a name is read
/// as a SyncMode only when it is that value's name.
pub proof fn sync_mode_names_round_trip(v: SyncMode, s: Seq<char>)
    ensures
        SyncMode::named(v.name()) == Some(v),
        SyncMode::named(s) == Some(v) ==> s == v.name(),
{
    reveal_strlit("full");
    reveal_strlit("incremental");
    reveal_strlit("minimal");
    reveal_strlit("selective");
    match v {
        SyncMode::Full => {
        },
        SyncMode::Incremental => {
            assert("incremental"@.len() != "full"@.len());
        },
        SyncMode::Minimal => {
            assert("minimal"@.len() != "full"@.len());
            assert("minimal"@.len() != "incremental"@.len());
        },
        SyncMode::Selective => {
            assert("selective"@.len() != "full"@.len());
            assert("selective"@.len() != "incremental"@.len());
            assert("selective"@.len() != "minimal"@.len());
        },
    }
}

/// Every SyncPriority is read back from the name it is stored under, and a name is read
/// as a SyncPriority only when it is that value's name.
pub proof fn sync_priority_names_round_trip(v: SyncPriority, s: Seq<char>)
    ensures
        SyncPriority::named(v.name()) == Some(v),
        SyncPriority::named(s) == Some(v) ==> s == v.name(),
{
    reveal_strlit("high");
    reveal_strlit("normal");
    reveal_strlit("low");
    reveal_strlit("never");
    match v {
        SyncPriority::High => {
        },
        SyncPriority::Normal => {
            assert("normal"@.len() != "high"@.len());
        },
        SyncPriority::Low => {
            assert("low"@.len() != "high"@.len());
            assert("low"@.len() != "normal"@.len());
        },
        SyncPriority::Never => {
            assert("never"@.len() != "high"@.len());
            assert("never"@.len() != "normal"@.len());
            assert("never"@.len() != "low"@.len());
        },
    }
}

} // verus!
