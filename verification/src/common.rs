//! Typed views over the raw `i32` wire fields shared by the orchestrator:
//! task status, priority, model specialization, agent health, finish reason,
//! component type, security level and tool-call status.

use vstd::prelude::*;
use vstd::std_specs::convert::FromSpecImpl;
use vstd::std_specs::convert::TryFromSpecImpl;

pub mod instrumentation;

verus! {

/// A raw `i32` from the wire that matches no variant of the named enum.
#[derive(Debug, Clone, Copy, PartialEq, Eq)]
pub struct UnknownEnumValue {
    pub enum_name: &'static str,
    pub value: i32,
}

impl UnknownEnumValue {
    /// The error's text.
    pub open spec fn text(self) -> Seq<char> {
        "valor i32 desconhecido para "@ + self.enum_name@ + ": "@ + crate::text::signed_decimal(self.value as int)
    }

    /// The error's text.
    pub fn message(&self) -> (r: String)
        ensures
            r@ == self.text(),
    {
        let mut r = crate::text::lit("valor i32 desconhecido para ");
        crate::text::append(&mut r, self.enum_name);
        crate::text::append(&mut r, ": ");
        crate::text::append(&mut r, crate::text::decimal_signed(self.value as i64).as_str());
        r
    }
}

/// Task state (`Task.status`).
#[derive(Debug, Clone, Copy, PartialEq, Eq, Structural)]
pub enum TaskStatus {
    Pending,
    Assigned,
    Running,
    Done,
    Failed,
}

impl TaskStatus {
    /// The wire value of the variant.
    pub open spec fn wire(self) -> i32 {
        match self {
            TaskStatus::Pending => 0,
            TaskStatus::Assigned => 1,
            TaskStatus::Running => 2,
            TaskStatus::Done => 3,
            TaskStatus::Failed => 4,
        }
    }

    /// The variant a wire value carries, or the error naming the enum.
    pub open spec fn from_wire(v: i32) -> Result<TaskStatus, UnknownEnumValue> {
        if v == 0 {
            Ok(TaskStatus::Pending)
        } else if v == 1 {
            Ok(TaskStatus::Assigned)
        } else if v == 2 {
            Ok(TaskStatus::Running)
        } else if v == 3 {
            Ok(TaskStatus::Done)
        } else if v == 4 {
            Ok(TaskStatus::Failed)
        } else {
            Err(UnknownEnumValue { enum_name: "TaskStatus", value: v })
        }
    }

    /// The wire value of the variant.
    pub fn code(self) -> (r: i32)
        ensures
            r == self.wire(),
    {
        match self {
            TaskStatus::Pending => 0,
            TaskStatus::Assigned => 1,
            TaskStatus::Running => 2,
            TaskStatus::Done => 3,
            TaskStatus::Failed => 4,
        }
    }
}

impl From<TaskStatus> for i32 {
    fn from(v: TaskStatus) -> (r: i32) {
        v.code()
    }
}

impl FromSpecImpl<TaskStatus> for i32 {
    open spec fn obeys_from_spec() -> bool {
        true
    }

    open spec fn from_spec(v: TaskStatus) -> i32 {
        v.wire()
    }
}

impl TryFrom<i32> for TaskStatus {
    type Error = UnknownEnumValue;

    fn try_from(v: i32) -> (r: Result<TaskStatus, UnknownEnumValue>) {
        match v {
            0 => Ok(TaskStatus::Pending),
            1 => Ok(TaskStatus::Assigned),
            2 => Ok(TaskStatus::Running),
            3 => Ok(TaskStatus::Done),
            4 => Ok(TaskStatus::Failed),
            _ => Err(UnknownEnumValue { enum_name: "TaskStatus", value: v }),
        }
    }
}

impl TryFromSpecImpl<i32> for TaskStatus {
    open spec fn obeys_try_from_spec() -> bool {
        true
    }

    open spec fn try_from_spec(v: i32) -> Result<TaskStatus, UnknownEnumValue> {
        TaskStatus::from_wire(v)
    }
}

/// Decoding the wire value of a variant gives the variant back; exactly the
/// known values decode, and what decodes encodes to the same value.
pub proof fn lemma_task_status_roundtrip(s: TaskStatus, v: i32)
    ensures
        TaskStatus::from_wire(s.wire()) == Ok::<TaskStatus, UnknownEnumValue>(s),
        TaskStatus::from_wire(v) is Ok <==> (v == 0 || v == 1 || v == 2 || v == 3 || v == 4),
        TaskStatus::from_wire(v) matches Ok(t) ==> t.wire() == v,
        TaskStatus::from_wire(v) matches Err(e) ==> e.value == v,
{
}

/// Task priority (`Task.priority`): the values in use are 1/5/10, not the declaration order.
#[derive(Debug, Clone, Copy, PartialEq, Eq, Structural)]
pub enum TaskPriority {
    Low,
    Normal,
    High,
}

impl TaskPriority {
    /// The wire value of the variant.
    pub open spec fn wire(self) -> i32 {
        match self {
            TaskPriority::Low => 1,
            TaskPriority::Normal => 5,
            TaskPriority::High => 10,
        }
    }

    /// The variant a wire value carries, or the error naming the enum.
    pub open spec fn from_wire(v: i32) -> Result<TaskPriority, UnknownEnumValue> {
        if v == 1 {
            Ok(TaskPriority::Low)
        } else if v == 5 {
            Ok(TaskPriority::Normal)
        } else if v == 10 {
            Ok(TaskPriority::High)
        } else {
            Err(UnknownEnumValue { enum_name: "TaskPriority", value: v })
        }
    }

    /// The wire value of the variant.
    pub fn code(self) -> (r: i32)
        ensures
            r == self.wire(),
    {
        match self {
            TaskPriority::Low => 1,
            TaskPriority::Normal => 5,
            TaskPriority::High => 10,
        }
    }
}

impl From<TaskPriority> for i32 {
    fn from(v: TaskPriority) -> (r: i32) {
        v.code()
    }
}

impl FromSpecImpl<TaskPriority> for i32 {
    open spec fn obeys_from_spec() -> bool {
        true
    }

    open spec fn from_spec(v: TaskPriority) -> i32 {
        v.wire()
    }
}

impl TryFrom<i32> for TaskPriority {
    type Error = UnknownEnumValue;

    fn try_from(v: i32) -> (r: Result<TaskPriority, UnknownEnumValue>) {
        match v {
            1 => Ok(TaskPriority::Low),
            5 => Ok(TaskPriority::Normal),
            10 => Ok(TaskPriority::High),
            _ => Err(UnknownEnumValue { enum_name: "TaskPriority", value: v }),
        }
    }
}

impl TryFromSpecImpl<i32> for TaskPriority {
    open spec fn obeys_try_from_spec() -> bool {
        true
    }

    open spec fn try_from_spec(v: i32) -> Result<TaskPriority, UnknownEnumValue> {
        TaskPriority::from_wire(v)
    }
}

/// Decoding the wire value of a variant gives the variant back; exactly the
/// known values decode, and what decodes encodes to the same value.
pub proof fn lemma_task_priority_roundtrip(s: TaskPriority, v: i32)
    ensures
        TaskPriority::from_wire(s.wire()) == Ok::<TaskPriority, UnknownEnumValue>(s),
        TaskPriority::from_wire(v) is Ok <==> (v == 1 || v == 5 || v == 10),
        TaskPriority::from_wire(v) matches Ok(t) ==> t.wire() == v,
        TaskPriority::from_wire(v) matches Err(e) ==> e.value == v,
{
}

/// Model specialization (`Task.model_required`).
#[derive(Debug, Clone, Copy, PartialEq, Eq, Structural)]
pub enum ModelSpecialization {
    Text,
    Vision,
    Embedding,
    Transcription,
}

impl ModelSpecialization {
    /// The wire value of the variant.
    pub open spec fn wire(self) -> i32 {
        match self {
            ModelSpecialization::Text => 0,
            ModelSpecialization::Vision => 1,
            ModelSpecialization::Embedding => 2,
            ModelSpecialization::Transcription => 3,
        }
    }

    /// The variant a wire value carries, or the error naming the enum.
    pub open spec fn from_wire(v: i32) -> Result<ModelSpecialization, UnknownEnumValue> {
        if v == 0 {
            Ok(ModelSpecialization::Text)
        } else if v == 1 {
            Ok(ModelSpecialization::Vision)
        } else if v == 2 {
            Ok(ModelSpecialization::Embedding)
        } else if v == 3 {
            Ok(ModelSpecialization::Transcription)
        } else {
            Err(UnknownEnumValue { enum_name: "ModelSpecialization", value: v })
        }
    }

    /// The wire value of the variant.
    pub fn code(self) -> (r: i32)
        ensures
            r == self.wire(),
    {
        match self {
            ModelSpecialization::Text => 0,
            ModelSpecialization::Vision => 1,
            ModelSpecialization::Embedding => 2,
            ModelSpecialization::Transcription => 3,
        }
    }
}

impl From<ModelSpecialization> for i32 {
    fn from(v: ModelSpecialization) -> (r: i32) {
        v.code()
    }
}

impl FromSpecImpl<ModelSpecialization> for i32 {
    open spec fn obeys_from_spec() -> bool {
        true
    }

    open spec fn from_spec(v: ModelSpecialization) -> i32 {
        v.wire()
    }
}

impl TryFrom<i32> for ModelSpecialization {
    type Error = UnknownEnumValue;

    fn try_from(v: i32) -> (r: Result<ModelSpecialization, UnknownEnumValue>) {
        match v {
            0 => Ok(ModelSpecialization::Text),
            1 => Ok(ModelSpecialization::Vision),
            2 => Ok(ModelSpecialization::Embedding),
            3 => Ok(ModelSpecialization::Transcription),
            _ => Err(UnknownEnumValue { enum_name: "ModelSpecialization", value: v }),
        }
    }
}

impl TryFromSpecImpl<i32> for ModelSpecialization {
    open spec fn obeys_try_from_spec() -> bool {
        true
    }

    open spec fn try_from_spec(v: i32) -> Result<ModelSpecialization, UnknownEnumValue> {
        ModelSpecialization::from_wire(v)
    }
}

/// Decoding the wire value of a variant gives the variant back; exactly the
/// known values decode, and what decodes encodes to the same value.
pub proof fn lemma_model_specialization_roundtrip(s: ModelSpecialization, v: i32)
    ensures
        ModelSpecialization::from_wire(s.wire()) == Ok::<ModelSpecialization, UnknownEnumValue>(s),
        ModelSpecialization::from_wire(v) is Ok <==> (v == 0 || v == 1 || v == 2 || v == 3),
        ModelSpecialization::from_wire(v) matches Ok(t) ==> t.wire() == v,
        ModelSpecialization::from_wire(v) matches Err(e) ==> e.value == v,
{
}

/// Agent health (`AgentState.health`).
#[derive(Debug, Clone, Copy, PartialEq, Eq, Structural)]
pub enum AgentHealth {
    Offline,
    Degraded,
    Healthy,
}

impl AgentHealth {
    /// The wire value of the variant.
    pub open spec fn wire(self) -> i32 {
        match self {
            AgentHealth::Offline => 0,
            AgentHealth::Degraded => 1,
            AgentHealth::Healthy => 2,
        }
    }

    /// The variant a wire value carries, or the error naming the enum.
    pub open spec fn from_wire(v: i32) -> Result<AgentHealth, UnknownEnumValue> {
        if v == 0 {
            Ok(AgentHealth::Offline)
        } else if v == 1 {
            Ok(AgentHealth::Degraded)
        } else if v == 2 {
            Ok(AgentHealth::Healthy)
        } else {
            Err(UnknownEnumValue { enum_name: "AgentHealth", value: v })
        }
    }

    /// The wire value of the variant.
    pub fn code(self) -> (r: i32)
        ensures
            r == self.wire(),
    {
        match self {
            AgentHealth::Offline => 0,
            AgentHealth::Degraded => 1,
            AgentHealth::Healthy => 2,
        }
    }
}

impl From<AgentHealth> for i32 {
    fn from(v: AgentHealth) -> (r: i32) {
        v.code()
    }
}

impl FromSpecImpl<AgentHealth> for i32 {
    open spec fn obeys_from_spec() -> bool {
        true
    }

    open spec fn from_spec(v: AgentHealth) -> i32 {
        v.wire()
    }
}

impl TryFrom<i32> for AgentHealth {
    type Error = UnknownEnumValue;

    fn try_from(v: i32) -> (r: Result<AgentHealth, UnknownEnumValue>) {
        match v {
            0 => Ok(AgentHealth::Offline),
            1 => Ok(AgentHealth::Degraded),
            2 => Ok(AgentHealth::Healthy),
            _ => Err(UnknownEnumValue { enum_name: "AgentHealth", value: v }),
        }
    }
}

impl TryFromSpecImpl<i32> for AgentHealth {
    open spec fn obeys_try_from_spec() -> bool {
        true
    }

    open spec fn try_from_spec(v: i32) -> Result<AgentHealth, UnknownEnumValue> {
        AgentHealth::from_wire(v)
    }
}

/// Decoding the wire value of a variant gives the variant back; exactly the
/// known values decode, and what decodes encodes to the same value.
pub proof fn lemma_agent_health_roundtrip(s: AgentHealth, v: i32)
    ensures
        AgentHealth::from_wire(s.wire()) == Ok::<AgentHealth, UnknownEnumValue>(s),
        AgentHealth::from_wire(v) is Ok <==> (v == 0 || v == 1 || v == 2),
        AgentHealth::from_wire(v) matches Ok(t) ==> t.wire() == v,
        AgentHealth::from_wire(v) matches Err(e) ==> e.value == v,
{
}

/// Finish reason of a task output.
#[derive(Debug, Clone, Copy, PartialEq, Eq, Structural)]
pub enum FinishReason {
    Unset,
    Completion,
    Length,
    Timeout,
    Error,
}

impl FinishReason {
    /// The wire value of the variant.
    pub open spec fn wire(self) -> i32 {
        match self {
            FinishReason::Unset => 0,
            FinishReason::Completion => 1,
            FinishReason::Length => 2,
            FinishReason::Timeout => 3,
            FinishReason::Error => 4,
        }
    }

    /// The variant a wire value carries, or the error naming the enum.
    pub open spec fn from_wire(v: i32) -> Result<FinishReason, UnknownEnumValue> {
        if v == 0 {
            Ok(FinishReason::Unset)
        } else if v == 1 {
            Ok(FinishReason::Completion)
        } else if v == 2 {
            Ok(FinishReason::Length)
        } else if v == 3 {
            Ok(FinishReason::Timeout)
        } else if v == 4 {
            Ok(FinishReason::Error)
        } else {
            Err(UnknownEnumValue { enum_name: "FinishReason", value: v })
        }
    }

    /// The wire value of the variant.
    pub fn code(self) -> (r: i32)
        ensures
            r == self.wire(),
    {
        match self {
            FinishReason::Unset => 0,
            FinishReason::Completion => 1,
            FinishReason::Length => 2,
            FinishReason::Timeout => 3,
            FinishReason::Error => 4,
        }
    }
}

impl From<FinishReason> for i32 {
    fn from(v: FinishReason) -> (r: i32) {
        v.code()
    }
}

impl FromSpecImpl<FinishReason> for i32 {
    open spec fn obeys_from_spec() -> bool {
        true
    }

    open spec fn from_spec(v: FinishReason) -> i32 {
        v.wire()
    }
}

impl TryFrom<i32> for FinishReason {
    type Error = UnknownEnumValue;

    fn try_from(v: i32) -> (r: Result<FinishReason, UnknownEnumValue>) {
        match v {
            0 => Ok(FinishReason::Unset),
            1 => Ok(FinishReason::Completion),
            2 => Ok(FinishReason::Length),
            3 => Ok(FinishReason::Timeout),
            4 => Ok(FinishReason::Error),
            _ => Err(UnknownEnumValue { enum_name: "FinishReason", value: v }),
        }
    }
}

impl TryFromSpecImpl<i32> for FinishReason {
    open spec fn obeys_try_from_spec() -> bool {
        true
    }

    open spec fn try_from_spec(v: i32) -> Result<FinishReason, UnknownEnumValue> {
        FinishReason::from_wire(v)
    }
}

/// Decoding the wire value of a variant gives the variant back; exactly the
/// known values decode, and what decodes encodes to the same value.
pub proof fn lemma_finish_reason_roundtrip(s: FinishReason, v: i32)
    ensures
        FinishReason::from_wire(s.wire()) == Ok::<FinishReason, UnknownEnumValue>(s),
        FinishReason::from_wire(v) is Ok <==> (v == 0 || v == 1 || v == 2 || v == 3 || v == 4),
        FinishReason::from_wire(v) matches Ok(t) ==> t.wire() == v,
        FinishReason::from_wire(v) matches Err(e) ==> e.value == v,
{
}

/// System component (`SystemMetric.component_type`).
#[derive(Debug, Clone, Copy, PartialEq, Eq, Structural)]
pub enum ComponentType {
    Orchestrator,
    Agent,
    LlamaServer,
    Client,
}

impl ComponentType {
    /// The wire value of the variant.
    pub open spec fn wire(self) -> i32 {
        match self {
            ComponentType::Orchestrator => 0,
            ComponentType::Agent => 1,
            ComponentType::LlamaServer => 2,
            ComponentType::Client => 3,
        }
    }

    /// The variant a wire value carries, or the error naming the enum.
    pub open spec fn from_wire(v: i32) -> Result<ComponentType, UnknownEnumValue> {
        if v == 0 {
            Ok(ComponentType::Orchestrator)
        } else if v == 1 {
            Ok(ComponentType::Agent)
        } else if v == 2 {
            Ok(ComponentType::LlamaServer)
        } else if v == 3 {
            Ok(ComponentType::Client)
        } else {
            Err(UnknownEnumValue { enum_name: "ComponentType", value: v })
        }
    }

    /// The wire value of the variant.
    pub fn code(self) -> (r: i32)
        ensures
            r == self.wire(),
    {
        match self {
            ComponentType::Orchestrator => 0,
            ComponentType::Agent => 1,
            ComponentType::LlamaServer => 2,
            ComponentType::Client => 3,
        }
    }
}

impl From<ComponentType> for i32 {
    fn from(v: ComponentType) -> (r: i32) {
        v.code()
    }
}

impl FromSpecImpl<ComponentType> for i32 {
    open spec fn obeys_from_spec() -> bool {
        true
    }

    open spec fn from_spec(v: ComponentType) -> i32 {
        v.wire()
    }
}

impl TryFrom<i32> for ComponentType {
    type Error = UnknownEnumValue;

    fn try_from(v: i32) -> (r: Result<ComponentType, UnknownEnumValue>) {
        match v {
            0 => Ok(ComponentType::Orchestrator),
            1 => Ok(ComponentType::Agent),
            2 => Ok(ComponentType::LlamaServer),
            3 => Ok(ComponentType::Client),
            _ => Err(UnknownEnumValue { enum_name: "ComponentType", value: v }),
        }
    }
}

impl TryFromSpecImpl<i32> for ComponentType {
    open spec fn obeys_try_from_spec() -> bool {
        true
    }

    open spec fn try_from_spec(v: i32) -> Result<ComponentType, UnknownEnumValue> {
        ComponentType::from_wire(v)
    }
}

/// Decoding the wire value of a variant gives the variant back; exactly the
/// known values decode, and what decodes encodes to the same value.
pub proof fn lemma_component_type_roundtrip(s: ComponentType, v: i32)
    ensures
        ComponentType::from_wire(s.wire()) == Ok::<ComponentType, UnknownEnumValue>(s),
        ComponentType::from_wire(v) is Ok <==> (v == 0 || v == 1 || v == 2 || v == 3),
        ComponentType::from_wire(v) matches Ok(t) ==> t.wire() == v,
        ComponentType::from_wire(v) matches Err(e) ==> e.value == v,
{
}

/// Security level of a context snapshot or request.
#[derive(Debug, Clone, Copy, PartialEq, Eq, Structural)]
pub enum SecurityLevel {
    Public,
    Internal,
}

impl SecurityLevel {
    /// The wire value of the variant.
    pub open spec fn wire(self) -> i32 {
        match self {
            SecurityLevel::Public => 0,
            SecurityLevel::Internal => 1,
        }
    }

    /// The variant a wire value carries, or the error naming the enum.
    pub open spec fn from_wire(v: i32) -> Result<SecurityLevel, UnknownEnumValue> {
        if v == 0 {
            Ok(SecurityLevel::Public)
        } else if v == 1 {
            Ok(SecurityLevel::Internal)
        } else {
            Err(UnknownEnumValue { enum_name: "SecurityLevel", value: v })
        }
    }

    /// The wire value of the variant.
    pub fn code(self) -> (r: i32)
        ensures
            r == self.wire(),
    {
        match self {
            SecurityLevel::Public => 0,
            SecurityLevel::Internal => 1,
        }
    }
}

impl From<SecurityLevel> for i32 {
    fn from(v: SecurityLevel) -> (r: i32) {
        v.code()
    }
}

impl FromSpecImpl<SecurityLevel> for i32 {
    open spec fn obeys_from_spec() -> bool {
        true
    }

    open spec fn from_spec(v: SecurityLevel) -> i32 {
        v.wire()
    }
}

impl TryFrom<i32> for SecurityLevel {
    type Error = UnknownEnumValue;

    fn try_from(v: i32) -> (r: Result<SecurityLevel, UnknownEnumValue>) {
        match v {
            0 => Ok(SecurityLevel::Public),
            1 => Ok(SecurityLevel::Internal),
            _ => Err(UnknownEnumValue { enum_name: "SecurityLevel", value: v }),
        }
    }
}

impl TryFromSpecImpl<i32> for SecurityLevel {
    open spec fn obeys_try_from_spec() -> bool {
        true
    }

    open spec fn try_from_spec(v: i32) -> Result<SecurityLevel, UnknownEnumValue> {
        SecurityLevel::from_wire(v)
    }
}

/// Decoding the wire value of a variant gives the variant back; exactly the
/// known values decode, and what decodes encodes to the same value.
pub proof fn lemma_security_level_roundtrip(s: SecurityLevel, v: i32)
    ensures
        SecurityLevel::from_wire(s.wire()) == Ok::<SecurityLevel, UnknownEnumValue>(s),
        SecurityLevel::from_wire(v) is Ok <==> (v == 0 || v == 1),
        SecurityLevel::from_wire(v) matches Ok(t) ==> t.wire() == v,
        SecurityLevel::from_wire(v) matches Err(e) ==> e.value == v,
{
}

/// Status of a tool call (`ToolCallRequest.status`).
#[derive(Debug, Clone, Copy, PartialEq, Eq, Structural)]
pub enum ToolCallStatus {
    Pending,
    Completed,
    Failed,
}

impl ToolCallStatus {
    /// The wire value of the variant.
    pub open spec fn wire(self) -> i32 {
        match self {
            ToolCallStatus::Pending => 0,
            ToolCallStatus::Completed => 1,
            ToolCallStatus::Failed => 2,
        }
    }

    /// The variant a wire value carries, or the error naming the enum.
    pub open spec fn from_wire(v: i32) -> Result<ToolCallStatus, UnknownEnumValue> {
        if v == 0 {
            Ok(ToolCallStatus::Pending)
        } else if v == 1 {
            Ok(ToolCallStatus::Completed)
        } else if v == 2 {
            Ok(ToolCallStatus::Failed)
        } else {
            Err(UnknownEnumValue { enum_name: "ToolCallStatus", value: v })
        }
    }

    /// The wire value of the variant.
    pub fn code(self) -> (r: i32)
        ensures
            r == self.wire(),
    {
        match self {
            ToolCallStatus::Pending => 0,
            ToolCallStatus::Completed => 1,
            ToolCallStatus::Failed => 2,
        }
    }
}

impl From<ToolCallStatus> for i32 {
    fn from(v: ToolCallStatus) -> (r: i32) {
        v.code()
    }
}

impl FromSpecImpl<ToolCallStatus> for i32 {
    open spec fn obeys_from_spec() -> bool {
        true
    }

    open spec fn from_spec(v: ToolCallStatus) -> i32 {
        v.wire()
    }
}

impl TryFrom<i32> for ToolCallStatus {
    type Error = UnknownEnumValue;

    fn try_from(v: i32) -> (r: Result<ToolCallStatus, UnknownEnumValue>) {
        match v {
            0 => Ok(ToolCallStatus::Pending),
            1 => Ok(ToolCallStatus::Completed),
            2 => Ok(ToolCallStatus::Failed),
            _ => Err(UnknownEnumValue { enum_name: "ToolCallStatus", value: v }),
        }
    }
}

impl TryFromSpecImpl<i32> for ToolCallStatus {
    open spec fn obeys_try_from_spec() -> bool {
        true
    }

    open spec fn try_from_spec(v: i32) -> Result<ToolCallStatus, UnknownEnumValue> {
        ToolCallStatus::from_wire(v)
    }
}

/// Decoding the wire value of a variant gives the variant back; exactly the
/// known values decode, and what decodes encodes to the same value.
pub proof fn lemma_tool_call_status_roundtrip(s: ToolCallStatus, v: i32)
    ensures
        ToolCallStatus::from_wire(s.wire()) == Ok::<ToolCallStatus, UnknownEnumValue>(s),
        ToolCallStatus::from_wire(v) is Ok <==> (v == 0 || v == 1 || v == 2),
        ToolCallStatus::from_wire(v) matches Ok(t) ==> t.wire() == v,
        ToolCallStatus::from_wire(v) matches Err(e) ==> e.value == v,
{
}

impl ModelSpecialization {
    /// Which required specializations an agent of this one serves.
    pub open spec fn serves(self, required: ModelSpecialization) -> bool {
        match (self, required) {
            (ModelSpecialization::Text, _) => true,
            (ModelSpecialization::Vision, ModelSpecialization::Text) => true,
            (ModelSpecialization::Vision, ModelSpecialization::Vision) => true,
            (ModelSpecialization::Embedding, ModelSpecialization::Embedding) => true,
            (ModelSpecialization::Transcription, ModelSpecialization::Transcription) => true,
            _ => false,
        }
    }

    /// Whether an agent of this specialization can serve `required`: text
    /// agents are the generic fallback, vision also accepts text tasks.
    pub fn can_serve(self, required: ModelSpecialization) -> (b: bool)
        ensures
            b == self.serves(required),
    {
        match (self, required) {
            (ModelSpecialization::Text, _) => true,
            (ModelSpecialization::Vision, ModelSpecialization::Text) => true,
            (ModelSpecialization::Vision, ModelSpecialization::Vision) => true,
            (ModelSpecialization::Embedding, ModelSpecialization::Embedding) => true,
            (ModelSpecialization::Transcription, ModelSpecialization::Transcription) => true,
            _ => false,
        }
    }
}

/// Every specialization serves its own tasks, a text agent serves every
/// task, and only a text agent serves tasks outside its own kind other than
/// the vision agent taking text tasks.
pub proof fn lemma_can_serve_routing(s: ModelSpecialization, r: ModelSpecialization)
    ensures
        s.serves(s),
        ModelSpecialization::Text.serves(r),
        s.serves(r) && s != r ==> s == ModelSpecialization::Text || (s
            == ModelSpecialization::Vision && r == ModelSpecialization::Text),
{
}

} // verus!
