use vstd::prelude::*;
use vstd::string::*;

use crate::common::consts::{ALPACA_API_KEY_HEADER, ALPACA_API_SECRET_HEADER};

verus! {

/// Names of the environment variables that hold the API key and secret.
pub fn credential_env_vars() -> (r: (&'static str, &'static str))
    ensures
        r.0@ == "ALPACA_API_KEY"@,
        r.1@ == "ALPACA_API_SECRET"@,
{
    ("ALPACA_API_KEY", "ALPACA_API_SECRET")
}

/// The masked form of an API key: at most eight characters become asterisks; longer keys keep
/// their first and last four characters around an ellipsis.
pub open spec fn spec_masked_key(key: Seq<char>) -> Seq<char> {
    if key.len() <= 8 {
        Seq::new(key.len(), |i: int| '*')
    } else {
        key.subrange(0, 4) + "..."@ + key.subrange(key.len() - 4, key.len() as int)
    }
}

/// The masked key never shows more than eight characters of the key: a key of up to eight
/// characters is hidden entirely, and a longer one shows only its first and last four.
pub proof fn lemma_masked_key_hides_middle(key: Seq<char>)
    ensures
        key.len() <= 8 ==> spec_masked_key(key).len() == key.len() && forall|i: int|
            0 <= i < key.len() ==> spec_masked_key(key)[i] == '*',
        key.len() > 8 ==> spec_masked_key(key).len() == 11 && spec_masked_key(key).subrange(0, 4)
            == key.subrange(0, 4) && spec_masked_key(key).subrange(4, 7) == "..."@
            && spec_masked_key(key).subrange(7, 11) == key.subrange(key.len() - 4, key.len() as int),
{
    reveal_strlit("...");
    if key.len() > 8 {
        let m = spec_masked_key(key);
        assert(m.subrange(0, 4) =~= key.subrange(0, 4));
        assert(m.subrange(4, 7) =~= "..."@);
        assert(m.subrange(7, 11) =~= key.subrange(key.len() - 4, key.len() as int));
    }
}

/// API key and secret used on every authenticated request and stream.
///
/// The type deliberately has no `Debug`: neither value may reach a log.
pub struct AlpacaCredential {
    api_key: String,
    api_secret: String,
}

impl AlpacaCredential {
    pub closed spec fn key_view(&self) -> Seq<char> {
        self.api_key@
    }

    pub closed spec fn secret_view(&self) -> Seq<char> {
        self.api_secret@
    }

    pub fn new(api_key: &str, api_secret: &str) -> (r: AlpacaCredential)
        ensures
            r.key_view() == api_key@,
            r.secret_view() == api_secret@,
    {
        AlpacaCredential { api_key: String::from_str(api_key), api_secret: String::from_str(api_secret) }
    }

    /// Builds a credential when both values are present, as the environment fallback does.
    pub fn from_pair(api_key: Option<String>, api_secret: Option<String>) -> (r: Option<AlpacaCredential>)
        ensures
            r is Some <==> (api_key is Some && api_secret is Some),
            r matches Some(c) ==> c.key_view() == api_key->0@ && c.secret_view() == api_secret->0@,
    {
        match (api_key, api_secret) {
            (Some(key), Some(secret)) => Some(AlpacaCredential { api_key: key, api_secret: secret }),
            _ => None,
        }
    }

    pub fn api_key(&self) -> (r: &str)
        ensures
            r@ == self.key_view(),
    {
        self.api_key.as_str()
    }

    /// Returns the API secret for authentication transport boundaries; never log or persist it.
    pub fn api_secret(&self) -> (r: &str)
        ensures
            r@ == self.secret_view(),
    {
        self.api_secret.as_str()
    }

    /// The API key in a form safe for diagnostics.
    pub fn masked_api_key(&self) -> (r: String)
        ensures
            r@ == spec_masked_key(self.key_view()),
    {
        let key = self.api_key.as_str();
        let n = key.unicode_len();
        if n <= 8 {
            let mut masked = String::new();
            let mut i: usize = 0;
            while i < n
                invariant
                    i <= n,
                    masked@ == Seq::new(i as nat, |j: int| '*'),
                decreases n - i,
            {
                masked.append("*");
                proof {
                    reveal_strlit("*");
                }
                assert(masked@ =~= Seq::new((i + 1) as nat, |j: int| '*'));
                i = i + 1;
            }
            masked
        } else {
            let mut masked = String::from_str(key.substring_char(0, 4));
            masked.append("...");
            masked.append(key.substring_char(n - 4, n));
            masked
        }
    }

    /// Authentication headers sent with every REST request.
    pub fn headers(&self) -> (r: Vec<(String, String)>)
        ensures
            r@.len() == 2,
            r@[0].0@ == "APCA-API-KEY-ID"@,
            r@[0].1@ == self.key_view(),
            r@[1].0@ == "APCA-API-SECRET-KEY"@,
            r@[1].1@ == self.secret_view(),
    {
        let mut headers: Vec<(String, String)> = Vec::new();
        headers.push((String::from_str(ALPACA_API_KEY_HEADER), self.api_key.clone()));
        headers.push((String::from_str(ALPACA_API_SECRET_HEADER), self.api_secret.clone()));
        headers
    }
}

} // verus!
