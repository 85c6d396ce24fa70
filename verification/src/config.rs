//! What a client is configured with: the base URL of the API and the key
//! that is sent with every request.

use vstd::prelude::*;

verus! {

/// The environment variable that holds the base URL of the API.
pub const API_BASE_URL_VAR: &'static str = "ACTIVECAMPAIGN_API_BASE_URL";

/// The environment variable that holds the API key.
pub const API_KEY_VAR: &'static str = "ACTIVECAMPAIGN_API_KEY";

/// The header in which the API key is sent.
pub const API_TOKEN_HEADER: &'static str = "Api-Token";

/// Whether `c` may occur in the value of a header: a tab, or any character
/// from the space on but DEL.
pub open spec fn is_header_value_char(c: char) -> bool {
    c == '\t' || (c as u32 >= 32 && c as u32 != 127)
}

/// Whether `text` can be the value of a header.
pub open spec fn is_header_value(text: Seq<char>) -> bool {
    forall|i: int| 0 <= i < text.len() ==> is_header_value_char(#[trigger] text[i])
}

/// `reqwest::header::HeaderValue::from_str`, asked only whether it accepts
/// `text`. It goes through the bytes of the text and refuses it where one of
/// them is below 32 and no tab, or is 127. Every byte of a character beyond
/// ASCII is 128 or more, so the contract can speak of characters.
#[verifier::external_body]
fn accepted_as_header_value(text: &str) -> (accepted: bool)
    ensures
        accepted == is_header_value(text@),
{
    reqwest::header::HeaderValue::from_str(text).is_ok()
}

/// The configuration of a client. The API key of a configuration can be
/// sent as the value of a header.
#[derive(Debug)]
pub struct Config {
    base_url: String,
    api_key: String,
}

impl Config {
    #[verifier::type_invariant]
    spec fn key_is_header_value(&self) -> bool {
        is_header_value(self.api_key@)
    }

    /// The base URL of the API.
    pub closed spec fn base_url(&self) -> Seq<char> {
        self.base_url@
    }

    /// The API key.
    pub closed spec fn api_key(&self) -> Seq<char> {
        self.api_key@
    }

    /// A configuration with the given base URL and API key, or `None` where
    /// the key cannot be sent as the value of a header.
    pub fn new(base_url: String, api_key: String) -> (config: Option<Config>)
        ensures
            config is Some <==> is_header_value(api_key@),
            config matches Some(made) ==> made.base_url() == base_url@ && made.api_key()
                == api_key@,
    {
        if accepted_as_header_value(api_key.as_str()) {
            Some(Config { base_url, api_key })
        } else {
            None
        }
    }

    /// The base URL of the API.
    pub fn get_base_url(&self) -> (base_url: &str)
        ensures
            base_url@ == self.base_url(),
    {
        self.base_url.as_str()
    }

    /// The API key.
    pub fn get_api_key(&self) -> (api_key: &str)
        ensures
            api_key@ == self.api_key(),
            is_header_value(api_key@),
    {
        proof {
            use_type_invariant(self);
        }
        self.api_key.as_str()
    }
}

} // verus!
