//! AI provider settings and conversations: the text rules, the model catalog rules, the
//! revision fence of settings writes, and conversation exchange checks.
use vstd::prelude::*;

verus! {

/// The provider key every AI setting is stored under.
pub const AI_PROVIDER_KEY: &'static str = "openai-compatible";
/// The most models one provider may list.
pub const MAX_MODELS: usize = 64;
/// The most messages loaded for one conversation.
pub const MAX_CONVERSATION_MESSAGES: u64 = 200;
/// The largest serialized metadata of an assistant message, in bytes.
pub const MAX_METADATA_BYTES: usize = 65536;

#[derive(Clone, Copy, Debug, PartialEq, Eq, Structural)]
pub enum AiSettingsRepositoryError {
    InvalidSettings,
    InvalidModels,
    InvalidRevision,
    RevisionConflict,
    CredentialIdentityConflict,
    InvalidStoredEnvelope,
}

#[derive(Clone, Copy, Debug, PartialEq, Eq, Structural)]
pub enum AiConversationRepositoryError {
    InvalidTitle,
    InvalidMessage,
    InvalidMetadata,
    InvalidLimit,
    NotFound,
}

#[derive(Clone, Copy, Debug, PartialEq, Eq, Structural)]
pub enum AiReasoningEffort {
    Off,
    Low,
    Medium,
    High,
    Xhigh,
    Max,
}

pub open spec fn effort_text(e: AiReasoningEffort) -> Seq<char> {
    match e {
        AiReasoningEffort::Off => "off"@,
        AiReasoningEffort::Low => "low"@,
        AiReasoningEffort::Medium => "medium"@,
        AiReasoningEffort::High => "high"@,
        AiReasoningEffort::Xhigh => "xhigh"@,
        AiReasoningEffort::Max => "max"@,
    }
}

pub open spec fn effort_of(s: Seq<char>) -> Option<AiReasoningEffort> {
    if s == "off"@ {
        Some(AiReasoningEffort::Off)
    } else if s == "low"@ {
        Some(AiReasoningEffort::Low)
    } else if s == "medium"@ {
        Some(AiReasoningEffort::Medium)
    } else if s == "high"@ {
        Some(AiReasoningEffort::High)
    } else if s == "xhigh"@ {
        Some(AiReasoningEffort::Xhigh)
    } else if s == "max"@ {
        Some(AiReasoningEffort::Max)
    } else {
        None
    }
}

impl AiReasoningEffort {
    pub fn as_str(self) -> (r: &'static str)
        ensures
            r@ == effort_text(self),
    {
        match self {
            AiReasoningEffort::Off => "off",
            AiReasoningEffort::Low => "low",
            AiReasoningEffort::Medium => "medium",
            AiReasoningEffort::High => "high",
            AiReasoningEffort::Xhigh => "xhigh",
            AiReasoningEffort::Max => "max",
        }
    }

    pub fn parse(value: &str) -> (r: Option<Self>)
        ensures
            r == effort_of(value@),
    {
        if crate::text::str_eq(value, "off") {
            Some(AiReasoningEffort::Off)
        } else if crate::text::str_eq(value, "low") {
            Some(AiReasoningEffort::Low)
        } else if crate::text::str_eq(value, "medium") {
            Some(AiReasoningEffort::Medium)
        } else if crate::text::str_eq(value, "high") {
            Some(AiReasoningEffort::High)
        } else if crate::text::str_eq(value, "xhigh") {
            Some(AiReasoningEffort::Xhigh)
        } else if crate::text::str_eq(value, "max") {
            Some(AiReasoningEffort::Max)
        } else {
            None
        }
    }
}

impl Default for AiReasoningEffort {
    fn default() -> (r: Self)
        ensures
            r == AiReasoningEffort::Off,
    {
        AiReasoningEffort::Off
    }
}

/// Every reasoning effort is read back from its stored text.
pub proof fn effort_text_round_trip(e: AiReasoningEffort)
    ensures
        effort_of(effort_text(e)) == Some(e),
{
    reveal_strlit("off");
    reveal_strlit("low");
    reveal_strlit("medium");
    reveal_strlit("high");
    reveal_strlit("xhigh");
    reveal_strlit("max");
    assert("off"@[0] != "low"@[0] && "off"@[0] != "max"@[0] && "low"@[0] != "max"@[0]);
    assert("off"@.len() == 3 && "low"@.len() == 3 && "max"@.len() == 3 && "medium"@.len() == 6
        && "high"@.len() == 4 && "xhigh"@.len() == 5);
}

/// A text that reads as a reasoning effort is that effort's text.
pub proof fn effort_of_is_exact(s: Seq<char>)
    ensures
        effort_of(s) matches Some(e) ==> effort_text(e) == s,
{
}

/// Text accepted in AI settings and messages: not blank, at most `max` characters, and no
/// character below U+0020 other than line feed and tab.
pub open spec fn ai_text(s: Seq<char>, max: nat) -> bool {
    &&& !crate::text::is_blank(s)
    &&& s.len() <= max
    &&& !(exists|i: int| 0 <= i < s.len() && low_control(#[trigger] s[i]))
}

pub open spec fn low_control(c: char) -> bool {
    (c as u32) < 0x20 && c != '\n' && c != '\t'
}

pub fn valid_text(value: &str, max_chars: usize) -> (r: bool)
    ensures
        r == ai_text(value@, max_chars as nat),
{
    let chars = crate::text::chars_of(value);
    if crate::text::blank(chars.as_slice()) || chars.len() > max_chars {
        return false;
    }
    let mut i: usize = 0;
    while i < chars.len()
        invariant
            chars@ == value@,
            i <= chars.len(),
            forall|j: int| 0 <= j < i ==> !low_control(#[trigger] chars@[j]),
        decreases chars.len() - i,
    {
        let c = chars[i];
        if (c as u32) < 0x20 && c != '\n' && c != '\t' {
            assert(low_control(chars@[i as int]));
            return false;
        }
        i = i + 1;
    }
    true
}

/// One model of the provider catalog as submitted.
pub struct AiModelInput {
    id: u128,
    upstream_id: String,
    display_name: String,
    reasoning_effort: AiReasoningEffort,
    is_visible: bool,
    is_default: bool,
    sort_order: i32,
}

impl AiModelInput {
    /// A model with reasoning turned off.
    pub fn new(
        id: u128,
        upstream_id: String,
        display_name: String,
        is_visible: bool,
        is_default: bool,
        sort_order: i32,
    ) -> (r: Self)
        ensures
            r.spec_id() == id && r.spec_upstream_id() == upstream_id@ && r.spec_display_name()
                == display_name@,
            r.spec_reasoning_effort() == AiReasoningEffort::Off,
            r.spec_is_visible() == is_visible && r.spec_is_default() == is_default
                && r.spec_sort_order() == sort_order,
    {
        AiModelInput {
            id,
            upstream_id,
            display_name,
            reasoning_effort: AiReasoningEffort::Off,
            is_visible,
            is_default,
            sort_order,
        }
    }

    /// The same model with another reasoning effort.
    pub fn with_reasoning_effort(self, reasoning_effort: AiReasoningEffort) -> (r: Self)
        ensures
            r.spec_id() == self.spec_id() && r.spec_upstream_id() == self.spec_upstream_id()
                && r.spec_display_name() == self.spec_display_name(),
            r.spec_reasoning_effort() == reasoning_effort,
            r.spec_is_visible() == self.spec_is_visible() && r.spec_is_default()
                == self.spec_is_default() && r.spec_sort_order() == self.spec_sort_order(),
    {
        let mut m = self;
        m.reasoning_effort = reasoning_effort;
        m
    }

    pub closed spec fn spec_id(&self) -> u128 {
        self.id
    }

    pub closed spec fn spec_upstream_id(&self) -> Seq<char> {
        self.upstream_id@
    }

    pub closed spec fn spec_display_name(&self) -> Seq<char> {
        self.display_name@
    }

    pub closed spec fn spec_reasoning_effort(&self) -> AiReasoningEffort {
        self.reasoning_effort
    }

    pub closed spec fn spec_is_visible(&self) -> bool {
        self.is_visible
    }

    pub closed spec fn spec_is_default(&self) -> bool {
        self.is_default
    }

    pub closed spec fn spec_sort_order(&self) -> i32 {
        self.sort_order
    }

    pub fn id(&self) -> (r: u128)
        ensures
            r == self.spec_id(),
    {
        self.id
    }

    pub fn upstream_id(&self) -> (r: &str)
        ensures
            r@ == self.spec_upstream_id(),
    {
        self.upstream_id.as_str()
    }

    pub fn display_name(&self) -> (r: &str)
        ensures
            r@ == self.spec_display_name(),
    {
        self.display_name.as_str()
    }

    pub fn reasoning_effort(&self) -> (r: AiReasoningEffort)
        ensures
            r == self.spec_reasoning_effort(),
    {
        self.reasoning_effort
    }

    pub fn is_visible(&self) -> (r: bool)
        ensures
            r == self.spec_is_visible(),
    {
        self.is_visible
    }

    pub fn is_default(&self) -> (r: bool)
        ensures
            r == self.spec_is_default(),
    {
        self.is_default
    }

    pub fn sort_order(&self) -> (r: i32)
        ensures
            r == self.spec_sort_order(),
    {
        self.sort_order
    }

}

/// A stored model of the provider catalog.
pub struct AiModelRecord {
    model: AiModelInput,
}

impl AiModelRecord {
    pub closed spec fn spec_model(&self) -> AiModelInput {
        self.model
    }

    pub open spec fn spec_id(&self) -> u128 {
        self.spec_model().spec_id()
    }

    pub open spec fn spec_is_visible(&self) -> bool {
        self.spec_model().spec_is_visible()
    }

    pub open spec fn spec_is_default(&self) -> bool {
        self.spec_model().spec_is_default()
    }

    /// Assembles a stored model; an unknown reasoning-effort text is an invalid catalog.
    pub fn from_stored(
        id: u128,
        upstream_id: String,
        display_name: String,
        reasoning_effort: &str,
        is_visible: bool,
        is_default: bool,
        sort_order: i32,
    ) -> (r: Result<Self, AiSettingsRepositoryError>)
        ensures
            match r {
                Ok(m) => effort_of(reasoning_effort@) == Some(m.spec_model().spec_reasoning_effort())
                    && m.spec_id() == id && m.spec_model().spec_upstream_id() == upstream_id@
                    && m.spec_model().spec_display_name() == display_name@ && m.spec_is_visible()
                    == is_visible && m.spec_is_default() == is_default
                    && m.spec_model().spec_sort_order() == sort_order,
                Err(e) => effort_of(reasoning_effort@) is None && e
                    == AiSettingsRepositoryError::InvalidModels,
            },
    {
        match AiReasoningEffort::parse(reasoning_effort) {
            Some(effort) => Ok(
                AiModelRecord {
                    model: AiModelInput {
                        id,
                        upstream_id,
                        display_name,
                        reasoning_effort: effort,
                        is_visible,
                        is_default,
                        sort_order,
                    },
                },
            ),
            None => Err(AiSettingsRepositoryError::InvalidModels),
        }
    }

    pub fn id(&self) -> (r: u128)
        ensures
            r == self.spec_id(),
    {
        self.model.id()
    }

    pub fn upstream_id(&self) -> (r: &str)
        ensures
            r@ == self.spec_model().spec_upstream_id(),
    {
        self.model.upstream_id()
    }

    pub fn display_name(&self) -> (r: &str)
        ensures
            r@ == self.spec_model().spec_display_name(),
    {
        self.model.display_name()
    }

    pub fn reasoning_effort(&self) -> (r: AiReasoningEffort)
        ensures
            r == self.spec_model().spec_reasoning_effort(),
    {
        self.model.reasoning_effort()
    }

    pub fn is_visible(&self) -> (r: bool)
        ensures
            r == self.spec_is_visible(),
    {
        self.model.is_visible()
    }

    pub fn is_default(&self) -> (r: bool)
        ensures
            r == self.spec_is_default(),
    {
        self.model.is_default()
    }

    pub fn sort_order(&self) -> (r: i32)
        ensures
            r == self.spec_model().spec_sort_order(),
    {
        self.model.sort_order()
    }
}

/// The stored provider settings and their model catalog.
pub struct AiSettingsRecord {
    provider: String,
    enabled: bool,
    base_url: String,
    system_prompt: String,
    credential_id: u128,
    revision: i64,
    updated_at: i64,
    models: Vec<AiModelRecord>,
}

impl AiSettingsRecord {
    pub closed spec fn spec_provider(&self) -> Seq<char> {
        self.provider@
    }

    pub closed spec fn spec_enabled(&self) -> bool {
        self.enabled
    }

    pub closed spec fn spec_base_url(&self) -> Seq<char> {
        self.base_url@
    }

    pub closed spec fn spec_system_prompt(&self) -> Seq<char> {
        self.system_prompt@
    }

    pub closed spec fn spec_credential_id(&self) -> u128 {
        self.credential_id
    }

    pub closed spec fn spec_revision(&self) -> i64 {
        self.revision
    }

    pub closed spec fn spec_updated_at(&self) -> i64 {
        self.updated_at
    }

    pub closed spec fn spec_models(&self) -> Seq<AiModelRecord> {
        self.models@
    }

    /// Assembles the value from its parts.
    pub fn from_parts(provider: String, enabled: bool, base_url: String, system_prompt: String, credential_id: u128, revision: i64, updated_at: i64, models: Vec<AiModelRecord>) -> (r: Self)
        ensures
            r.spec_provider() == provider@,
            r.spec_enabled() == enabled,
            r.spec_base_url() == base_url@,
            r.spec_system_prompt() == system_prompt@,
            r.spec_credential_id() == credential_id,
            r.spec_revision() == revision,
            r.spec_updated_at() == updated_at,
            r.spec_models() == models@,
    {
        AiSettingsRecord { provider, enabled, base_url, system_prompt, credential_id, revision, updated_at, models }
    }

    pub fn provider(&self) -> (r: &str)
        ensures
            r@ == self.spec_provider(),
    {
        self.provider.as_str()
    }

    pub fn enabled(&self) -> (r: bool)
        ensures
            r == self.spec_enabled(),
    {
        self.enabled
    }

    pub fn base_url(&self) -> (r: &str)
        ensures
            r@ == self.spec_base_url(),
    {
        self.base_url.as_str()
    }

    pub fn system_prompt(&self) -> (r: &str)
        ensures
            r@ == self.spec_system_prompt(),
    {
        self.system_prompt.as_str()
    }

    pub fn credential_id(&self) -> (r: u128)
        ensures
            r == self.spec_credential_id(),
    {
        self.credential_id
    }

    pub fn revision(&self) -> (r: i64)
        ensures
            r == self.spec_revision(),
    {
        self.revision
    }

    pub fn updated_at(&self) -> (r: i64)
        ensures
            r == self.spec_updated_at(),
    {
        self.updated_at
    }

    pub fn models(&self) -> (r: &[AiModelRecord])
        ensures
            r@ == self.spec_models(),
    {
        self.models.as_slice()
    }

}

/// The visible models, in catalog order.
pub open spec fn visible_models_of(s: Seq<AiModelRecord>) -> Seq<AiModelRecord>
    decreases s.len(),
{
    if s.len() == 0 {
        Seq::empty()
    } else if s.last().spec_is_visible() {
        visible_models_of(s.drop_last()).push(s.last())
    } else {
        visible_models_of(s.drop_last())
    }
}

pub open spec fn is_default_choice(m: AiModelRecord) -> bool {
    m.spec_is_visible() && m.spec_is_default()
}

/// `i` is the first position of `s` holding a visible default model.
pub open spec fn first_default(s: Seq<AiModelRecord>, i: int) -> bool {
    &&& 0 <= i < s.len()
    &&& is_default_choice(s[i])
    &&& forall|j: int| 0 <= j < i ==> !is_default_choice(#[trigger] s[j])
}

/// `i` is the first position of `s` holding a model with this id.
pub open spec fn first_with_id(s: Seq<AiModelRecord>, id: u128, i: int) -> bool {
    &&& 0 <= i < s.len()
    &&& s[i].spec_id() == id
    &&& forall|j: int| 0 <= j < i ==> (#[trigger] s[j]).spec_id() != id
}

impl AiSettingsRecord {
    /// The visible models, in catalog order.
    pub fn visible_models(&self) -> (r: Vec<&AiModelRecord>)
        ensures
            r@.len() == visible_models_of(self.spec_models()).len(),
            forall|i: int| 0 <= i < r@.len() ==> *r@[i] == visible_models_of(self.spec_models())[i],
    {
        let mut out: Vec<&AiModelRecord> = Vec::new();
        let mut i: usize = 0;
        while i < self.models.len()
            invariant
                i <= self.models@.len(),
                out@.len() == visible_models_of(self.models@.take(i as int)).len(),
                forall|k: int|
                    0 <= k < out@.len() ==> *out@[k] == visible_models_of(self.models@.take(i as int))[k],
            decreases self.models.len() - i,
        {
            let m = &self.models[i];
            assert(self.models@.take(i + 1).drop_last() =~= self.models@.take(i as int));
            if m.is_visible() {
                out.push(m);
            }
            i = i + 1;
        }
        assert(self.models@.take(self.models@.len() as int) =~= self.models@);
        out
    }

    /// The first visible default model.
    pub fn default_model(&self) -> (r: Option<&AiModelRecord>)
        ensures
            match r {
                Some(m) => exists|i: int| first_default(self.spec_models(), i)
                    && *m == self.spec_models()[i],
                None => forall|i: int|
                    0 <= i < self.spec_models().len() ==> !is_default_choice(
                        #[trigger] self.spec_models()[i],
                    ),
            },
    {
        let mut i: usize = 0;
        while i < self.models.len()
            invariant
                i <= self.models@.len(),
                forall|j: int| 0 <= j < i ==> !is_default_choice(#[trigger] self.models@[j]),
            decreases self.models.len() - i,
        {
            if self.models[i].is_visible() && self.models[i].is_default() {
                assert(first_default(self.spec_models(), i as int));
                return Some(&self.models[i]);
            }
            i = i + 1;
        }
        None
    }

    /// The first model with this id.
    pub fn model(&self, id: u128) -> (r: Option<&AiModelRecord>)
        ensures
            match r {
                Some(m) => exists|i: int| first_with_id(self.spec_models(), id, i)
                    && *m == self.spec_models()[i],
                None => forall|i: int|
                    0 <= i < self.spec_models().len() ==> (#[trigger] self.spec_models()[i]).spec_id()
                        != id,
            },
    {
        let mut i: usize = 0;
        while i < self.models.len()
            invariant
                i <= self.models@.len(),
                forall|j: int| 0 <= j < i ==> (#[trigger] self.models@[j]).spec_id() != id,
            decreases self.models.len() - i,
        {
            if self.models[i].id() == id {
                assert(first_with_id(self.spec_models(), id, i as int));
                return Some(&self.models[i]);
            }
            i = i + 1;
        }
        None
    }
}

/// How many models of `s` are marked default.
pub open spec fn default_count(s: Seq<AiModelInput>) -> nat
    decreases s.len(),
{
    if s.len() == 0 {
        0
    } else {
        default_count(s.drop_last()) + if s.last().spec_is_default() {
            1nat
        } else {
            0nat
        }
    }
}

/// One model's own fields are acceptable: bounded texts, a non-negative sort order, and a
/// default model that is visible.
pub open spec fn model_fields_valid(m: AiModelInput) -> bool {
    &&& ai_text(m.spec_upstream_id(), 255)
    &&& ai_text(m.spec_display_name(), 128)
    &&& m.spec_sort_order() >= 0
    &&& m.spec_is_default() ==> m.spec_is_visible()
}

/// The catalog rule: 1 to `MAX_MODELS` models with distinct ids and distinct upstream ids,
/// each acceptable, exactly one of them the default.
pub open spec fn models_valid(s: Seq<AiModelInput>) -> bool {
    &&& 1 <= s.len() <= MAX_MODELS
    &&& forall|i: int, j: int|
        0 <= i < j < s.len() ==> (#[trigger] s[i]).spec_id() != (#[trigger] s[j]).spec_id()
            && s[i].spec_upstream_id() != s[j].spec_upstream_id()
    &&& forall|i: int| 0 <= i < s.len() ==> model_fields_valid(#[trigger] s[i])
    &&& default_count(s) == 1
}

/// The outcome of validating submitted settings, in the order the checks are made.
pub open spec fn settings_outcome(
    provider: Seq<char>,
    base_url: Seq<char>,
    prompt: Seq<char>,
    models: Seq<AiModelInput>,
    revision: Option<i64>,
) -> Result<(), AiSettingsRepositoryError> {
    if provider != AI_PROVIDER_KEY@ || !ai_text(base_url, 2048) || !ai_text(prompt, 16000) {
        Err(AiSettingsRepositoryError::InvalidSettings)
    } else if revision matches Some(v) && v <= 0 {
        Err(AiSettingsRepositoryError::InvalidRevision)
    } else if !models_valid(models) {
        Err(AiSettingsRepositoryError::InvalidModels)
    } else {
        Ok(())
    }
}

fn models_check(models: &[AiModelInput]) -> (r: bool)
    ensures
        r == models_valid(models@),
{
    if models.len() == 0 || models.len() > MAX_MODELS {
        return false;
    }
    let mut defaults: usize = 0;
    let mut i: usize = 0;
    while i < models.len()
        invariant
            1 <= models@.len() <= MAX_MODELS,
            i <= models@.len(),
            defaults == default_count(models@.take(i as int)),
            defaults <= i,
            forall|a: int, b: int|
                0 <= a < b < i ==> (#[trigger] models@[a]).spec_id() != (#[trigger] models@[b]).spec_id()
                    && models@[a].spec_upstream_id() != models@[b].spec_upstream_id(),
            forall|a: int| 0 <= a < i ==> model_fields_valid(#[trigger] models@[a]),
        decreases models.len() - i,
    {
        let m = &models[i];
        let mut j: usize = 0;
        while j < i
            invariant
                i < models@.len(),
                j <= i,
                *m == models@[i as int],
                forall|a: int|
                    0 <= a < j ==> (#[trigger] models@[a]).spec_id() != models@[i as int].spec_id()
                        && models@[a].spec_upstream_id() != models@[i as int].spec_upstream_id(),
            decreases i - j,
        {
            if models[j].id == m.id || crate::text::str_eq(
                models[j].upstream_id.as_str(),
                m.upstream_id.as_str(),
            ) {
                return false;
            }
            j = j + 1;
        }
        if !valid_text(m.upstream_id.as_str(), 255) || !valid_text(m.display_name.as_str(), 128)
            || m.sort_order < 0 || (m.is_default && !m.is_visible) {
            return false;
        }
        assert(models@.take(i + 1).drop_last() =~= models@.take(i as int));
        if m.is_default {
            defaults = defaults + 1;
        }
        i = i + 1;
    }
    assert(models@.take(models@.len() as int) =~= models@);
    defaults == 1
}

/// Validates submitted provider settings: the provider key and bounded texts, then a
/// positive expected revision, then the model catalog.
pub fn validate_settings(
    provider: &str,
    base_url: &str,
    prompt: &str,
    models: &[AiModelInput],
    revision: Option<i64>,
) -> (r: Result<(), AiSettingsRepositoryError>)
    ensures
        r == settings_outcome(provider@, base_url@, prompt@, models@, revision),
{
    if !crate::text::str_eq(provider, AI_PROVIDER_KEY) || !valid_text(base_url, 2048) || !valid_text(
        prompt,
        16000,
    ) {
        return Err(AiSettingsRepositoryError::InvalidSettings);
    }
    match revision {
        Some(v) => {
            if v <= 0 {
                return Err(AiSettingsRepositoryError::InvalidRevision);
            }
        },
        None => {},
    }
    if !models_check(models) {
        return Err(AiSettingsRepositoryError::InvalidModels);
    }
    Ok(())
}

/// The fence of a settings write: with no expected revision the settings must not exist
/// yet and start at revision 1; otherwise they must exist at that revision with the same
/// credential, and advance by one.
pub open spec fn settings_write_outcome(
    current: Option<(i64, u128)>,
    expected_revision: Option<i64>,
    credential_id: u128,
) -> Result<i64, AiSettingsRepositoryError> {
    match expected_revision {
        None => if current is Some {
            Err(AiSettingsRepositoryError::RevisionConflict)
        } else {
            Ok(1)
        },
        Some(r) => match current {
            None => Err(AiSettingsRepositoryError::RevisionConflict),
            Some((rev, cred)) => if rev != r {
                Err(AiSettingsRepositoryError::RevisionConflict)
            } else if cred != credential_id {
                Err(AiSettingsRepositoryError::CredentialIdentityConflict)
            } else if r == i64::MAX {
                Err(AiSettingsRepositoryError::InvalidRevision)
            } else {
                Ok((r + 1) as i64)
            },
        },
    }
}

/// Decides a settings write against the stored `(revision, credential id)`, if any, and
/// gives the revision to store.
pub fn plan_settings_write(
    current: Option<(i64, u128)>,
    expected_revision: Option<i64>,
    credential_id: u128,
) -> (r: Result<i64, AiSettingsRepositoryError>)
    ensures
        r == settings_write_outcome(current, expected_revision, credential_id),
{
    match expected_revision {
        None => if current.is_some() {
            Err(AiSettingsRepositoryError::RevisionConflict)
        } else {
            Ok(1)
        },
        Some(r) => match current {
            None => Err(AiSettingsRepositoryError::RevisionConflict),
            Some((rev, cred)) => if rev != r {
                Err(AiSettingsRepositoryError::RevisionConflict)
            } else if cred != credential_id {
                Err(AiSettingsRepositoryError::CredentialIdentityConflict)
            } else {
                match r.checked_add(1) {
                    Some(next) => Ok(next),
                    None => Err(AiSettingsRepositoryError::InvalidRevision),
                }
            },
        },
    }
}

/// A settings write that succeeded at an expected revision cannot be repeated at that
/// revision: the stored revision has moved on.
pub proof fn settings_writes_are_fenced(
    current: Option<(i64, u128)>,
    expected_revision: Option<i64>,
    credential_id: u128,
)
    ensures
        settings_write_outcome(current, expected_revision, credential_id) matches Ok(next) ==> (
        settings_write_outcome(Some((next, credential_id)), expected_revision, credential_id)
            == Err::<i64, AiSettingsRepositoryError>(AiSettingsRepositoryError::RevisionConflict)),
{
}

/// The outcome of deleting settings: a non-positive fence is invalid; with a fence, no
/// deleted row is a conflict; without one, the result says whether a row was deleted.
pub open spec fn settings_delete_outcome(expected_revision: Option<i64>, rows_affected: u64) -> Result<
    bool,
    AiSettingsRepositoryError,
> {
    if expected_revision matches Some(v) && v <= 0 {
        Err(AiSettingsRepositoryError::InvalidRevision)
    } else if rows_affected == 1 || expected_revision is None {
        Ok(rows_affected == 1)
    } else {
        Err(AiSettingsRepositoryError::RevisionConflict)
    }
}

/// Checks the fence of a settings deletion before it runs.
pub fn check_settings_delete(expected_revision: Option<i64>) -> (r: Result<(), AiSettingsRepositoryError>)
    ensures
        r is Ok <==> !(expected_revision matches Some(v) && v <= 0),
        r is Err ==> r == Err::<(), AiSettingsRepositoryError>(AiSettingsRepositoryError::InvalidRevision),
{
    match expected_revision {
        Some(v) => if v <= 0 {
            Err(AiSettingsRepositoryError::InvalidRevision)
        } else {
            Ok(())
        },
        None => Ok(()),
    }
}

/// The result of a settings deletion once it ran.
pub fn settings_delete_result(expected_revision: Option<i64>, rows_affected: u64) -> (r: Result<
    bool,
    AiSettingsRepositoryError,
>)
    ensures
        r == settings_delete_outcome(expected_revision, rows_affected),
{
    check_settings_delete(expected_revision)?;
    if rows_affected == 1 || expected_revision.is_none() {
        Ok(rows_affected == 1)
    } else {
        Err(AiSettingsRepositoryError::RevisionConflict)
    }
}

/// A conversation listing takes 1 to 100 conversations.
pub fn check_conversation_limit(limit: u64) -> (r: Result<(), AiConversationRepositoryError>)
    ensures
        r is Ok <==> 1 <= limit <= 100,
        r is Err ==> r == Err::<(), AiConversationRepositoryError>(AiConversationRepositoryError::InvalidLimit),
{
    if limit == 0 || limit > 100 {
        Err(AiConversationRepositoryError::InvalidLimit)
    } else {
        Ok(())
    }
}

/// A conversation title is AI text of at most 160 characters.
pub fn check_conversation_title(title: &str) -> (r: Result<(), AiConversationRepositoryError>)
    ensures
        r is Ok <==> ai_text(title@, 160),
        r is Err ==> r == Err::<(), AiConversationRepositoryError>(AiConversationRepositoryError::InvalidTitle),
{
    if !valid_text(title, 160) {
        Err(AiConversationRepositoryError::InvalidTitle)
    } else {
        Ok(())
    }
}

/// The outcome of checking an exchange: both messages must be AI text of at most 32000
/// characters, and the serialized metadata at most `MAX_METADATA_BYTES` bytes.
pub open spec fn exchange_outcome(user: Seq<char>, assistant: Seq<char>, metadata_json: Seq<char>) -> Result<
    (),
    AiConversationRepositoryError,
> {
    if !ai_text(user, 32000) || !ai_text(assistant, 32000) {
        Err(AiConversationRepositoryError::InvalidMessage)
    } else if vstd::utf8::encode_utf8(metadata_json).len() > MAX_METADATA_BYTES {
        Err(AiConversationRepositoryError::InvalidMetadata)
    } else {
        Ok(())
    }
}

pub fn check_exchange(user_content: &str, assistant_content: &str, metadata_json: &str) -> (r: Result<
    (),
    AiConversationRepositoryError,
>)
    ensures
        r == exchange_outcome(user_content@, assistant_content@, metadata_json@),
{
    if !valid_text(user_content, 32000) || !valid_text(assistant_content, 32000) {
        return Err(AiConversationRepositoryError::InvalidMessage);
    }
    if metadata_json.as_bytes().len() > MAX_METADATA_BYTES {
        return Err(AiConversationRepositoryError::InvalidMetadata);
    }
    Ok(())
}

/// Checks an exchange before it is stored and gives the metadata's JSON text
/// (`serde_json::to_string`): both messages must be AI text of at most 32000 characters,
/// and the metadata's text must take at most `MAX_METADATA_BYTES` bytes.
pub fn validate_exchange(user_content: &str, assistant_content: &str, metadata: &serde_json::Value) -> (r: Result<
    String,
    AiConversationRepositoryError,
>)
    ensures
        match r {
            Ok(text) => text@ == crate::json::json_text(*metadata) && exchange_outcome(
                user_content@,
                assistant_content@,
                text@,
            ) is Ok,
            Err(e) => exchange_outcome(user_content@, assistant_content@, crate::json::json_text(*metadata))
                == Err::<(), AiConversationRepositoryError>(e),
        },
{
    if !valid_text(user_content, 32000) || !valid_text(assistant_content, 32000) {
        return Err(AiConversationRepositoryError::InvalidMessage);
    }
    match crate::json::serialized_text(metadata) {
        Some(text) => match check_exchange(user_content, assistant_content, text.as_str()) {
            Ok(()) => Ok(text),
            Err(e) => Err(e),
        },
        None => Err(AiConversationRepositoryError::InvalidMetadata),
    }
}

} // verus!
