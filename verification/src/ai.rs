//! Types of the AI task-routing boundary.  The routing itself is an
//! external collaborator; the library only owns the vocabulary that
//! crosses the boundary and the developer-facing settings.

use vstd::prelude::*;

verus! {

/// Kind of task handed to a model.
#[derive(Debug, Clone, Copy, PartialEq, Eq, Structural)]
pub enum AITaskType {
    CodeAnalysis,
    NarrationGeneration,
    EngagementPrediction,
    PersonaSimulation,
    ImportanceScoring,
    ContentSummarization,
    TitleOptimization,
    ThumbnailOptimization,
    UserPersonalization,
    PerformanceAnalysis,
    ErrorAnalysis,
    TestValidation,
    QualityAssurance,
    BrandOptimization,
}

/// Style of generated content.
#[derive(Debug, Clone, Copy, PartialEq, Eq, Structural)]
pub enum ContentStyle {
    Formal,
    Casual,
    Technical,
    Educational,
    Entertaining,
    Professional,
}

/// Technical depth of generated content.
#[derive(Debug, Clone, Copy, PartialEq, Eq, Structural)]
pub enum TechnicalLevel {
    Beginner,
    Intermediate,
    Advanced,
    Expert,
}

/// Required quality of a task's output.
#[derive(Debug, Clone, Copy, PartialEq, Eq, Structural)]
pub enum QualityLevel {
    Draft,
    Standard,
    High,
    Premium,
}

/// Scheduling priority of a task.
#[derive(Debug, Clone, Copy, PartialEq, Eq, Structural)]
pub enum TaskPriority {
    Low,
    Normal,
    High,
    Critical,
    Emergency,
}

/// Where a task prefers to run.
#[derive(Debug, Clone, Copy, PartialEq, Eq, Structural)]
pub enum LocalityPreference {
    Local,
    Cloud,
    Hybrid,
    Edge,
}

/// Lifecycle state of a task.
#[derive(Debug, Clone, Copy, PartialEq, Eq, Structural)]
pub enum TaskStatus {
    Queued,
    Running,
    Completed,
    Failed,
    Cancelled,
    Retrying,
}

/// Performance tier of a routed model.
#[derive(Debug, Clone, Copy, PartialEq, Eq, Structural)]
pub enum PerformanceTier {
    Free,
    Standard,
    Premium,
    Elite,
    Experimental,
}

/// One per-task model override.
#[derive(Debug, Clone)]
pub struct ModelOverride {
    /// The task kind the override applies to.
    pub task_type: String,
    /// The model normally used.
    pub original_model: String,
    /// The model to use instead.
    pub override_model: String,
    /// Why the override exists.
    pub reason: String,
    /// Whether the override is active.
    pub enabled: bool,
}

/// Connection settings of the remote model router.
#[derive(Debug, Clone)]
pub struct OpenRouterConfig {
    /// API key; empty when unset.
    pub api_key: String,
    /// Service base URL.
    pub base_url: String,
    /// Application name sent with requests.
    pub app_name: String,
    /// Whether routing through the service is on.
    pub enabled: bool,
    /// Whether developer mode is on.
    pub developer_mode: bool,
    /// Whether local fallback is allowed.
    pub fallback_enabled: bool,
}

impl Default for OpenRouterConfig {
    /// Routing off, with the service's public endpoint.
    fn default() -> (c: Self)
        ensures
            c.api_key@.len() == 0,
            c.app_name@ == "DailyDoco Pro"@,
            !c.enabled,
            !c.developer_mode,
            c.fallback_enabled,
    {
        OpenRouterConfig {
            api_key: String::new(),
            base_url: "https://openrouter.ai/api/v1".to_owned(),
            app_name: "DailyDoco Pro".to_owned(),
            enabled: false,
            developer_mode: false,
            fallback_enabled: true,
        }
    }
}

/// One chat message of a routed request.
#[derive(Debug, Clone)]
pub struct OpenRouterMessage {
    /// Speaker role.
    pub role: String,
    /// Message text.
    pub content: String,
}

/// One completion choice of a routed response.
#[derive(Debug, Clone)]
pub struct OpenRouterChoice {
    /// Index of the choice.
    pub index: u32,
    /// The produced message.
    pub message: OpenRouterMessage,
    /// Why generation stopped.
    pub finish_reason: String,
}

/// Token usage of a routed response.
#[derive(Debug, Clone, Copy, PartialEq, Eq, Structural)]
pub struct OpenRouterUsage {
    /// Tokens in the prompt.
    pub prompt_tokens: u32,
    /// Tokens in the completion.
    pub completion_tokens: u32,
    /// Total tokens billed.
    pub total_tokens: u32,
}

/// A routed response.
#[derive(Debug, Clone)]
pub struct OpenRouterResponse {
    /// Response identifier.
    pub id: String,
    /// Object kind label.
    pub object: String,
    /// Creation time, seconds since the epoch.
    pub created: u64,
    /// The model that answered.
    pub model: String,
    /// The completion choices.
    pub choices: Vec<OpenRouterChoice>,
    /// Token usage.
    pub usage: OpenRouterUsage,
}

/// Developer-facing settings of the router integration.
#[derive(Debug, Clone)]
pub struct DeveloperSettings {
    /// Whether routing through the remote service is on.
    pub openrouter_enabled: bool,
    /// API key, when set.
    pub openrouter_api_key: Option<String>,
    /// Per-task model overrides.
    pub model_overrides: Vec<ModelOverride>,
    /// Whether experimental features are on.
    pub experimental_features: bool,
    /// Whether debug mode is on.
    pub debug_mode: bool,
}

impl Default for DeveloperSettings {
    /// Everything off, no key, no overrides.
    fn default() -> (s: Self)
        ensures
            !s.openrouter_enabled,
            s.openrouter_api_key is None,
            s.model_overrides@.len() == 0,
            !s.experimental_features,
            !s.debug_mode,
    {
        DeveloperSettings {
            openrouter_enabled: false,
            openrouter_api_key: None,
            model_overrides: Vec::new(),
            experimental_features: false,
            debug_mode: false,
        }
    }
}

} // verus!
