//! The completion service: configuration resolved once, reused per call.
//!
//! Construction fills every absent configuration value with its built-in
//! default and resolves the request URL; both are fixed for the service's
//! lifetime. The service also assembles the conversation of a generation
//! call. Sending the request and reading the response are transport I/O and
//! live outside the library, against this module's contracts.

use vstd::prelude::*;

use crate::endpoint::build_api_endpoint;
use crate::endpoint::spec_resolved_endpoint;
use crate::prompt::assemble_conversation;
use crate::prompt::spec_conversation;
use crate::prompt::turns_of;
use crate::prompt::ChatMessage;

verus! {

/// The base URL used when the configuration names none.
pub const DEFAULT_API_ENDPOINT: &'static str = "https://api.openai.com/v1";

/// The model id used when the configuration names none.
pub const DEFAULT_MODEL: &'static str = "gpt-3.5-turbo";

/// The system prompt used when the configuration names none.
pub const SYSTEM_PROMPT: &'static str = "
    You are a professional software development assistant. Based on the git diff code changes and any additional 
    information provided by the user, generate a commit message that adheres to the following standards:

    1. **Format Specifications**
    - The title format: `<type>: <subject>` (e.g., `fix: handle null pointer exception when user is not logged in`), 
      allowed types: fix/feat/update/refactor/docs/style/test/chore
    - The title length should not exceed **72** characters.
    - The body part describ detail of the change, use `-` to list bullet points, should break lines at 72nd character if sentence is too long.
    - Use English for English-speaking users and Chinese for Chinese-speaking users.
    - **Start the subject with a lowercase letter** (unless it's a proper noun or an exception).

    2. **Content Requirements**
    - The commit title should be concise and focus on a single change (ensuer no more than 72 characters).
    - The commit body should provide detailed information about the changes, including the technical impact and business impact.
    - Accurately reflect the essence of the code changes (do not simply repeat the diff content).
    - **User input is the highest priority.** If the user provides any textual clues, prioritize them over the git diff analysis. Correct any typos or grammatical errors in the user input while preserving the intended meaning.
    - Do not use ending punctuation.
    - Do not generate commit body/detail unless requested.

    3. **Processing Logic**
    ▫️ When both git_diff and textual clues are provided:
        1. Correct any typos or grammatical errors in user input while maintaining the original intent.
        2. Parse the technical impact of the code changes to ensure the commit message accurately reflects the changes.
        3. Combine the corrected user input with the technical analysis to generate a precise and professional commit message.

    ▫️ When only git_diff is provided:
        1. Analyze the functional modules affected by the changes.
        2. Identify the type of code issue being resolved.
        3. Infer the business-level impact.

    4. **Commit Message Format**
    ▫️ Respond in the following format (without brackets):
    <Generated commit message>
    
    <Generated commit body, if requested>
    

    ▫️ Output Example 1(Without body requested):
    fix: add exception handling for non-existent users

    ▫️ Output Example 2(With Body Requested):
    fix: add exception handling for non-existent users

    - Previously, the system would crash when a non-existent username was provided during login.
    - Added a null check for the `user` object and threw a `UserNotFoundException` to handle this case gracefully.
    - This improves error handling and prevents unexpected system crashes.
    ";

/// The value of an optional setting after its default is applied.
pub open spec fn spec_defaulted(value: Option<Seq<char>>, default: Seq<char>) -> Seq<char> {
    match value {
        Some(v) => v,
        None => default,
    }
}

/// The completion service: the resolved endpoint URL, the model id, the
/// system prompt and the optional API key, all fixed at construction and
/// reused for every call made through the service.
pub struct AiService {
    api_endpoint: String,
    model: String,
    prompt: String,
    api_key: Option<String>,
}

impl AiService {
    /// The resolved request URL.
    pub closed spec fn spec_endpoint(&self) -> Seq<char> {
        self.api_endpoint@
    }

    /// The model id named in every request.
    pub closed spec fn spec_model(&self) -> Seq<char> {
        self.model@
    }

    /// The system prompt that opens every conversation.
    pub closed spec fn spec_prompt(&self) -> Seq<char> {
        self.prompt@
    }

    /// The bearer key, when one is configured.
    pub closed spec fn spec_api_key(&self) -> Option<Seq<char>> {
        self.api_key.deep_view()
    }

    /// Builds the service: absent values fall back to the built-in
    /// defaults, and the endpoint URL is resolved once from the base URL,
    /// the hosting-convention flag, the model id and the API version.
    pub fn new(
        api_endpoint: Option<String>,
        model: Option<String>,
        api_key: Option<String>,
        is_azure: bool,
        api_version: Option<String>,
        prompt: Option<String>,
    ) -> (s: AiService)
        ensures
            s.spec_model() == spec_defaulted(model.deep_view(), DEFAULT_MODEL@),
            s.spec_endpoint() == spec_resolved_endpoint(
                spec_defaulted(api_endpoint.deep_view(), DEFAULT_API_ENDPOINT@),
                is_azure,
                s.spec_model(),
                api_version.deep_view(),
            ),
            s.spec_prompt() == spec_defaulted(prompt.deep_view(), SYSTEM_PROMPT@),
            s.spec_api_key() == api_key.deep_view(),
    {
        let base = match api_endpoint {
            Some(e) => e,
            None => String::from_str(DEFAULT_API_ENDPOINT),
        };
        let model = match model {
            Some(m) => m,
            None => String::from_str(DEFAULT_MODEL),
        };
        let api_endpoint = build_api_endpoint(base.as_str(), is_azure, model.as_str(), api_version);
        let prompt = match prompt {
            Some(p) => p,
            None => String::from_str(SYSTEM_PROMPT),
        };
        AiService { api_endpoint, model, prompt, api_key }
    }

    /// The resolved request URL, for the caller that issues the request.
    pub fn endpoint(&self) -> (r: &str)
        ensures
            r@ == self.spec_endpoint(),
    {
        self.api_endpoint.as_str()
    }

    /// The model id, for the request body.
    pub fn model(&self) -> (r: &str)
        ensures
            r@ == self.spec_model(),
    {
        self.model.as_str()
    }

    /// The bearer key, for the request's authorization header.
    pub fn api_key(&self) -> (r: &Option<String>)
        ensures
            r.deep_view() == self.spec_api_key(),
    {
        &self.api_key
    }

    /// The conversation of one generation call: this service's system
    /// prompt first, the labelled diff second, the labelled hint third when
    /// one is given, and the body directive last.
    pub fn build_messages(&self, diff: &str, hint: Option<String>, include_body: bool) -> (msgs:
        Vec<ChatMessage>)
        ensures
            turns_of(msgs@) == spec_conversation(
                self.spec_prompt(),
                diff@,
                hint.deep_view(),
                include_body,
            ),
    {
        assemble_conversation(self.prompt.as_str(), diff, hint, include_body)
    }
}

} // verus!
