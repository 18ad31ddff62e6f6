use vstd::prelude::*;

verus! {

/// The key written into a fresh key file, to be replaced by a real one.
pub open spec fn placeholder_key() -> Seq<char> {
    "YOUR_API_KEY_HERE"@
}

/// The API key used to authenticate transcription requests.
pub struct ApiKeyConfig {
    pub key: String,
}

impl Default for ApiKeyConfig {
    fn default() -> (r: Self)
        ensures
            r.key@ == placeholder_key(),
    {
        ApiKeyConfig { key: String::from_str("YOUR_API_KEY_HERE") }
    }
}

impl ApiKeyConfig {
    /// Whether the key is still the placeholder of a fresh key file.
    pub fn is_placeholder(&self) -> (r: bool)
        ensures
            r == (self.key@ == placeholder_key()),
    {
        let placeholder = String::from_str("YOUR_API_KEY_HERE");
        self.key == placeholder
    }
}

} // verus!
