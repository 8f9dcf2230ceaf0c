//! Routing rules of the composite "Free" provider: OpenCode Zen first,
//! the OpenRouter free router as fallback.

use vstd::prelude::*;

use crate::text::{char_vec, chars_equal, has_prefix, string_from_range};

verus! {

/// The identifier of a provider.
#[derive(Debug)]
pub struct ProviderId {
    id: String,
}

impl View for ProviderId {
    type V = Seq<char>;

    closed spec fn view(&self) -> Seq<char> {
        self.id@
    }
}

/// The identifier of the composite provider.
pub open spec fn free_provider_id() -> Seq<char> {
    "free"@
}

impl ProviderId {
    pub fn new(id: &str) -> (r: Self)
        ensures
            r@ == id@,
    {
        ProviderId { id: id.to_string() }
    }

    /// The identifier of the composite provider.
    pub fn free() -> (r: Self)
        ensures
            r@ == free_provider_id(),
    {
        ProviderId::new("free")
    }

    pub fn as_str(&self) -> (r: &str)
        ensures
            r@ == self@,
    {
        self.id.as_str()
    }
}

impl Clone for ProviderId {
    fn clone(&self) -> (r: Self)
        ensures
            r@ == self@,
    {
        ProviderId { id: self.id.clone() }
    }
}

/// The identifier of a model.
#[derive(Debug)]
pub struct ModelId {
    id: String,
}

impl View for ModelId {
    type V = Seq<char>;

    closed spec fn view(&self) -> Seq<char> {
        self.id@
    }
}

impl ModelId {
    pub fn new(id: &str) -> (r: Self)
        ensures
            r@ == id@,
    {
        ModelId { id: id.to_string() }
    }

    pub fn as_str(&self) -> (r: &str)
        ensures
            r@ == self@,
    {
        self.id.as_str()
    }
}

/// Why an upstream request failed.
#[derive(Debug)]
pub enum ProviderError {
    AuthFailed { provider: ProviderId, message: String },
    RateLimited { provider: ProviderId, retry_after: Option<u64> },
    ServerError { provider: ProviderId, status: Option<u16>, message: String, is_retryable: bool },
    InvalidRequest { provider: ProviderId, message: String },
    ContentFiltered { provider: ProviderId, message: String },
}

/// Errors that the fallback would answer the same way: the request itself
/// is at fault, so another upstream cannot help.
pub open spec fn is_user_fixable(err: ProviderError) -> bool {
    err is InvalidRequest || err is ContentFiltered
}

/// The health of a provider.
#[derive(Debug)]
pub enum ProviderStatus {
    Healthy,
    Degraded { reason: String },
    Unavailable { reason: String },
}

/// Whether a health probe reported a healthy provider.
pub open spec fn reports_healthy(r: Result<ProviderStatus, ProviderError>) -> bool {
    r matches Ok(ProviderStatus::Healthy)
}

/// The combined health answer for a primary probe `p` and a fallback probe `f`:
/// the first healthy one, else the primary when it answered, else the fallback.
pub open spec fn combined_health(
    p: Result<ProviderStatus, ProviderError>,
    f: Result<ProviderStatus, ProviderError>,
) -> Result<ProviderStatus, ProviderError> {
    if reports_healthy(p) {
        p
    } else if reports_healthy(f) {
        f
    } else if p is Ok {
        p
    } else {
        f
    }
}

/// The synthetic model names that ask for the default free model.
pub open spec fn is_auto_alias(m: Seq<char>) -> bool {
    m == "free"@ || m == "free/auto"@ || m == "auto"@
}

/// The short prefix that pins a Zen model.
pub open spec fn zen_prefix() -> Seq<char> {
    "zen/"@
}

/// The long prefix that pins a Zen model.
pub open spec fn opencode_zen_prefix() -> Seq<char> {
    "opencode-zen/"@
}

/// Whether `m` names a Zen model by one of the two prefixes.
pub open spec fn pins_zen(m: Seq<char>) -> bool {
    zen_prefix().is_prefix_of(m) || opencode_zen_prefix().is_prefix_of(m)
}

/// The default free model on Zen.
pub open spec fn zen_default_model() -> Seq<char> {
    "minimax-m2.5-free"@
}

/// The OpenRouter free router.
pub open spec fn openrouter_free_model() -> Seq<char> {
    "openrouter/free"@
}

/// The model sent to Zen for the caller's model `m`.
pub open spec fn primary_model(m: Seq<char>) -> Seq<char> {
    if is_auto_alias(m) {
        zen_default_model()
    } else if zen_prefix().is_prefix_of(m) {
        m.skip(zen_prefix().len() as int)
    } else if opencode_zen_prefix().is_prefix_of(m) {
        m.skip(opencode_zen_prefix().len() as int)
    } else {
        m
    }
}

/// The model sent to OpenRouter for the caller's model `m`: Zen-only models
/// go to the generic free router, since OpenRouter cannot serve them.
pub open spec fn fallback_model(m: Seq<char>) -> Seq<char> {
    if is_auto_alias(m) || pins_zen(m) {
        openrouter_free_model()
    } else {
        m
    }
}

/// What to do once the primary upstream has answered.
pub enum Dispatch<T> {
    /// Hand this result to the caller.
    Done(Result<T, ProviderError>),
    /// Send the same request to the fallback upstream with `model`; `error`
    /// is the primary's failure.
    Fallback { model: String, error: ProviderError },
}

/// What to do once the primary upstream's health is known.
pub enum HealthStep {
    /// The primary is healthy: this is the answer.
    Done(Result<ProviderStatus, ProviderError>),
    /// Probe the fallback; the primary's answer is kept for the final answer.
    ProbeFallback(Result<ProviderStatus, ProviderError>),
}

/// How a provider expects the system prompt.
pub enum SystemPromptStyle {
    SystemMessage,
    TopLevel,
}

/// The features a provider supports.
pub struct ProviderCapabilities {
    pub streaming: bool,
    pub tool_calling: bool,
    pub thinking: bool,
    pub image_input: bool,
    pub pdf_input: bool,
    pub audio_input: bool,
    pub video_input: bool,
    pub caching: bool,
    pub structured_output: bool,
    pub system_prompt_style: SystemPromptStyle,
}

/// A model that a provider offers.
pub struct ModelInfo {
    pub id: ModelId,
    pub provider_id: ProviderId,
    pub name: String,
    pub context_window: u32,
    pub max_output_tokens: u32,
}

/// An entry of the advertised model list: identifier, display name, context window.
pub struct CatalogEntry {
    pub id: Seq<char>,
    pub name: Seq<char>,
    pub context_window: u32,
}

/// The curated list of free models, the synthetic `free/auto` first.
pub open spec fn free_catalog() -> Seq<CatalogEntry> {
    seq![
        CatalogEntry {
            id: "free/auto"@,
            name: "Free \u{2014} Auto (Zen \u{2192} OpenRouter)"@,
            context_window: 200_000,
        },
        CatalogEntry {
            id: "zen/minimax-m2.5-free"@,
            name: "MiniMax M2.5 (Free, via Zen)"@,
            context_window: 200_000,
        },
        CatalogEntry {
            id: "zen/big-pickle"@,
            name: "Big Pickle (Free, via Zen)"@,
            context_window: 128_000,
        },
        CatalogEntry {
            id: "zen/ring-2.6-1t-free"@,
            name: "Ring 2.6 1T (Free, via Zen)"@,
            context_window: 128_000,
        },
        CatalogEntry {
            id: "zen/nemotron-3-super-free"@,
            name: "Nemotron 3 Super (Free, via Zen)"@,
            context_window: 128_000,
        },
        CatalogEntry {
            id: "openrouter/free"@,
            name: "OpenRouter Free Router (random pick)"@,
            context_window: 200_000,
        },
    ]
}

/// The output limit of every advertised free model.
pub open spec fn free_max_output_tokens() -> u32 {
    8_192
}

/// The display name of the composite provider.
pub open spec fn free_provider_name() -> Seq<char> {
    "Free (Zen \u{2192} OpenRouter)"@
}

/// Whether `info` is the advertised form of `entry` for provider `provider`.
pub open spec fn describes(info: ModelInfo, entry: CatalogEntry, provider: Seq<char>) -> bool {
    &&& info.id@ == entry.id
    &&& info.provider_id@ == provider
    &&& info.name@ == entry.name
    &&& info.context_window == entry.context_window
    &&& info.max_output_tokens == free_max_output_tokens()
}

/// The composite provider's own identity; the two upstreams it routes
/// between are held by the caller.
pub struct FreeProvider {
    id: ProviderId,
}

impl FreeProvider {
    pub closed spec fn spec_id(&self) -> Seq<char> {
        self.id@
    }

    pub fn new() -> (r: Self)
        ensures
            r.spec_id() == free_provider_id(),
    {
        FreeProvider { id: ProviderId::free() }
    }

    pub fn id(&self) -> (r: &ProviderId)
        ensures
            r@ == self.spec_id(),
    {
        &self.id
    }

    pub fn name(&self) -> (r: &'static str)
        ensures
            r@ == free_provider_name(),
    {
        "Free (Zen \u{2192} OpenRouter)"
    }

    /// The model to request from Zen for the caller's `model`.
    pub fn translate_for_primary(model: &str) -> (r: String)
        ensures
            r@ == primary_model(model@),
    {
        let m = char_vec(model);
        if chars_equal(&m, &char_vec("free")) || chars_equal(&m, &char_vec("free/auto"))
            || chars_equal(&m, &char_vec("auto")) {
            return "minimax-m2.5-free".to_string();
        }
        let zen = char_vec("zen/");
        if has_prefix(&m, &zen) {
            return string_from_range(&m, zen.len(), m.len());
        }
        let opencode_zen = char_vec("opencode-zen/");
        if has_prefix(&m, &opencode_zen) {
            return string_from_range(&m, opencode_zen.len(), m.len());
        }
        model.to_string()
    }

    /// The model to request from OpenRouter for the caller's `model`.
    pub fn translate_for_fallback(model: &str) -> (r: String)
        ensures
            r@ == fallback_model(model@),
    {
        let m = char_vec(model);
        if chars_equal(&m, &char_vec("free")) || chars_equal(&m, &char_vec("free/auto"))
            || chars_equal(&m, &char_vec("auto")) || has_prefix(&m, &char_vec("zen/"))
            || has_prefix(&m, &char_vec("opencode-zen/")) {
            return "openrouter/free".to_string();
        }
        model.to_string()
    }

    /// Whether a failure of the primary upstream is retried on the fallback.
    pub fn should_fallback(err: &ProviderError) -> (r: bool)
        ensures
            r == !is_user_fixable(*err),
            r == !(*err is InvalidRequest || *err is ContentFiltered),
    {
        match err {
            ProviderError::InvalidRequest { .. } => false,
            ProviderError::ContentFiltered { .. } => false,
            _ => true,
        }
    }

    /// Decides what follows the primary upstream's answer to a request for
    /// the caller's `model`: a success or a user-fixable error goes back as
    /// it is; any other error sends the request to the fallback.
    pub fn after_primary<T>(model: &str, outcome: Result<T, ProviderError>) -> (r: Dispatch<T>)
        ensures
            match outcome {
                Ok(v) => r == Dispatch::<T>::Done(Ok(v)),
                Err(e) => if is_user_fixable(e) {
                    r == Dispatch::<T>::Done(Err(e))
                } else {
                    r matches Dispatch::Fallback { model: m, error } && m@ == fallback_model(model@)
                        && error == e
                },
            },
    {
        match outcome {
            Ok(v) => Dispatch::Done(Ok(v)),
            Err(err) => {
                if Self::should_fallback(&err) {
                    Dispatch::Fallback { model: Self::translate_for_fallback(model), error: err }
                } else {
                    Dispatch::Done(Err(err))
                }
            },
        }
    }

    /// Decides what follows the primary upstream's health probe.
    pub fn health_after_primary(primary: Result<ProviderStatus, ProviderError>) -> (r: HealthStep)
        ensures
            reports_healthy(primary) ==> r == HealthStep::Done(primary),
            !reports_healthy(primary) ==> r == HealthStep::ProbeFallback(primary),
            r is Done <==> primary matches Ok(ProviderStatus::Healthy),
    {
        let healthy = match &primary {
            Ok(ProviderStatus::Healthy) => true,
            _ => false,
        };
        if healthy {
            HealthStep::Done(primary)
        } else {
            HealthStep::ProbeFallback(primary)
        }
    }

    /// The health answer once both upstreams were probed.
    pub fn health_after_fallback(
        primary: Result<ProviderStatus, ProviderError>,
        fallback: Result<ProviderStatus, ProviderError>,
    ) -> (r: Result<ProviderStatus, ProviderError>)
        ensures
            r == combined_health(primary, fallback),
            (primary matches Ok(ProviderStatus::Healthy) || fallback matches Ok(ProviderStatus::Healthy))
                ==> r matches Ok(ProviderStatus::Healthy),
            !(primary matches Ok(ProviderStatus::Healthy)) && !(fallback matches Ok(ProviderStatus::Healthy))
                ==> r == (if primary is Ok { primary } else { fallback }),
    {
        let healthy = match &fallback {
            Ok(ProviderStatus::Healthy) => true,
            _ => false,
        };
        if healthy {
            fallback
        } else {
            match primary {
                Ok(s) => Ok(s),
                Err(_) => fallback,
            }
        }
    }

    /// The curated list of free models.
    pub fn list_models(&self) -> (r: Vec<ModelInfo>)
        ensures
            r@.len() == free_catalog().len(),
            forall|i: int| 0 <= i < r@.len() ==> describes(#[trigger] r@[i], free_catalog()[i], self.spec_id()),
    {
        let mut v: Vec<ModelInfo> = Vec::new();
        v.push(self.model_info("free/auto", "Free \u{2014} Auto (Zen \u{2192} OpenRouter)", 200_000));
        v.push(self.model_info("zen/minimax-m2.5-free", "MiniMax M2.5 (Free, via Zen)", 200_000));
        v.push(self.model_info("zen/big-pickle", "Big Pickle (Free, via Zen)", 128_000));
        v.push(self.model_info("zen/ring-2.6-1t-free", "Ring 2.6 1T (Free, via Zen)", 128_000));
        v.push(self.model_info("zen/nemotron-3-super-free", "Nemotron 3 Super (Free, via Zen)", 128_000));
        v.push(self.model_info("openrouter/free", "OpenRouter Free Router (random pick)", 200_000));
        v
    }

    fn model_info(&self, id: &str, name: &str, ctx: u32) -> (r: ModelInfo)
        ensures
            describes(r, CatalogEntry { id: id@, name: name@, context_window: ctx }, self.spec_id()),
    {
        ModelInfo {
            id: ModelId::new(id),
            provider_id: self.id.clone(),
            name: name.to_string(),
            context_window: ctx,
            max_output_tokens: 8_192,
        }
    }

    /// Streaming and tool calls, with the system prompt as a system message.
    pub fn capabilities(&self) -> (r: ProviderCapabilities)
        ensures
            r.streaming && r.tool_calling,
            !r.thinking && !r.image_input && !r.pdf_input && !r.audio_input && !r.video_input,
            !r.caching && !r.structured_output,
            r.system_prompt_style is SystemMessage,
    {
        ProviderCapabilities {
            streaming: true,
            tool_calling: true,
            thinking: false,
            image_input: false,
            pdf_input: false,
            audio_input: false,
            video_input: false,
            caching: false,
            structured_output: false,
            system_prompt_style: SystemPromptStyle::SystemMessage,
        }
    }
}

} // verus!
