//! The configuration of the engine.

use vstd::prelude::*;
use vstd::string::StringExecFns;
use vstd::utf8::encode_utf8;
use crate::encoding::base64_encodable;

verus! {

/// The number of characters that the ellipsis marker of a shortened URL takes.
pub const ELLIPSIS_LEN: usize = 4;

/// The sentinel target of the built-in configuration.
pub const TARGET: &'static str = "http://google.com/";

/// The body of the synthetic response of the built-in configuration: a page
/// that redirects to `http://www.example.com/`.
pub const CONTENT: &'static str =
    "<html><head><meta http-equiv=\"refresh\" content=\"0;URL='http://www.example.com/'\" /></head><body><h1>TEST</h1></body></html>";

/// The status code of the synthetic response of the built-in configuration.
pub const RESPONSE_CODE: i64 = 200;

/// The character budget of a logged URL in the built-in configuration.
pub const MAX_STRING_SIZE: usize = 100;

/// The mathematical content of an [`InterceptorConfig`].
pub struct ConfigView {
    /// The sentinel target: a request to exactly this URL is fulfilled.
    pub target: Seq<char>,
    /// The body of the synthetic response.
    pub content: Seq<char>,
    /// The status code of the synthetic response.
    pub response_code: i64,
    /// The character budget of a logged URL.
    pub max_string_size: nat,
}

impl ConfigView {
    /// A configuration is valid when the budget leaves room for the ellipsis
    /// marker and the body can be encoded for transport.
    pub open spec fn valid(self) -> bool {
        &&& self.max_string_size >= ELLIPSIS_LEN
        &&& self.max_string_size <= usize::MAX
        &&& base64_encodable(encode_utf8(self.content).len())
    }

    /// The configuration that `InterceptorConfig::default` builds.
    pub open spec fn standard() -> ConfigView {
        ConfigView {
            target: TARGET@,
            content: CONTENT@,
            response_code: RESPONSE_CODE,
            max_string_size: MAX_STRING_SIZE as nat,
        }
    }
}

/// Why a configuration was rejected.
#[derive(Clone, Copy, Debug, PartialEq, Eq, Structural)]
pub enum ConfigError {
    /// The URL budget is smaller than the ellipsis marker.
    BudgetTooSmall,
    /// The base64 text of the body would not fit the machine's word.
    ContentTooLarge,
}

/// The sentinel target, the synthetic response and the URL budget.
#[derive(Debug)]
pub struct InterceptorConfig {
    target: String,
    content: String,
    response_code: i64,
    max_string_size: usize,
}

impl View for InterceptorConfig {
    type V = ConfigView;

    closed spec fn view(&self) -> ConfigView {
        ConfigView {
            target: self.target@,
            content: self.content@,
            response_code: self.response_code,
            max_string_size: self.max_string_size as nat,
        }
    }
}

/// No character takes more than four bytes in UTF-8.
pub proof fn lemma_encode_utf8_len(chars: Seq<char>)
    ensures
        encode_utf8(chars).len() <= 4 * chars.len(),
    decreases chars.len(),
{
    if chars.len() > 0 {
        lemma_encode_utf8_len(chars.drop_first());
    }
}

impl InterceptorConfig {
    #[verifier::type_invariant]
    pub open spec fn well_formed(&self) -> bool {
        self@.valid()
    }

    /// Validates and builds a configuration.
    pub fn new(
        target: String,
        content: String,
        response_code: i64,
        max_string_size: usize,
    ) -> (config: Result<Self, ConfigError>)
        ensures
            match config {
                Ok(accepted) => {
                    &&& accepted@ == (ConfigView {
                        target: target@,
                        content: content@,
                        response_code,
                        max_string_size: max_string_size as nat,
                    })
                    &&& accepted@.valid()
                },
                Err(ConfigError::BudgetTooSmall) => max_string_size < ELLIPSIS_LEN,
                Err(ConfigError::ContentTooLarge) => {
                    &&& max_string_size >= ELLIPSIS_LEN
                    &&& !base64_encodable(encode_utf8(content@).len())
                },
            },
    {
        if max_string_size < ELLIPSIS_LEN {
            return Err(ConfigError::BudgetTooSmall);
        }
        let len = content.as_str().as_bytes().len();
        if len / 3 > (usize::MAX - 4) / 4 {
            return Err(ConfigError::ContentTooLarge);
        }
        Ok(InterceptorConfig { target, content, response_code, max_string_size })
    }

    /// The sentinel target.
    pub fn target(&self) -> (target: &String)
        ensures
            target@ == self@.target,
    {
        &self.target
    }

    /// The body of the synthetic response.
    pub fn content(&self) -> (content: &str)
        ensures
            content@ == self@.content,
    {
        self.content.as_str()
    }

    /// The status code of the synthetic response.
    pub fn response_code(&self) -> (code: i64)
        ensures
            code == self@.response_code,
    {
        self.response_code
    }

    /// The character budget of a logged URL.
    pub fn max_string_size(&self) -> (budget: usize)
        ensures
            budget == self@.max_string_size,
            budget >= ELLIPSIS_LEN,
    {
        proof {
            use_type_invariant(self);
        }
        self.max_string_size
    }
}

impl Default for InterceptorConfig {
    /// The built-in configuration: a request to [`TARGET`] is answered with
    /// [`RESPONSE_CODE`] and [`CONTENT`], and a logged URL has a budget of
    /// [`MAX_STRING_SIZE`] characters.
    fn default() -> (config: Self)
        ensures
            config@ == ConfigView::standard(),
            config@.valid(),
    {
        proof {
            reveal_strlit(
                "<html><head><meta http-equiv=\"refresh\" content=\"0;URL='http://www.example.com/'\" /></head><body><h1>TEST</h1></body></html>",
            );
            lemma_encode_utf8_len(CONTENT@);
        }
        InterceptorConfig {
            target: String::from_str(TARGET),
            content: String::from_str(CONTENT),
            response_code: RESPONSE_CODE,
            max_string_size: MAX_STRING_SIZE,
        }
    }
}

} // verus!
