//! An explicit snapshot of the configuration that the backend reads from the
//! process environment. The shell constructs one [`Env`] per command from the
//! real environment; tests construct fixtures directly. The library itself
//! never touches the process environment, so everything that depends on the
//! configuration is a verified function of this value.

use vstd::prelude::*;
use vstd::utf8::encode_utf8;

verus! {

/// The environment keys the backend recognizes. Every lookup the library
/// performs goes through one of these; nothing else in the process
/// environment can be reached.
#[derive(Clone, Copy, PartialEq, Eq, Structural)]
pub enum EnvKey {
    GoogleClientId,
    GoogleClientSecret,
    GoogleRedirectUri,
    SupabaseServiceRoleKey,
    CalendarTokenSecret,
    SupabaseUrl,
    ViteSupabaseUrl,
}

impl EnvKey {
    /// The name under which the key appears in the process environment.
    pub open spec fn spec_name(self) -> Seq<char> {
        match self {
            EnvKey::GoogleClientId => "GOOGLE_CLIENT_ID"@,
            EnvKey::GoogleClientSecret => "GOOGLE_CLIENT_SECRET"@,
            EnvKey::GoogleRedirectUri => "GOOGLE_REDIRECT_URI"@,
            EnvKey::SupabaseServiceRoleKey => "SUPABASE_SERVICE_ROLE_KEY"@,
            EnvKey::CalendarTokenSecret => "CALENDAR_TOKEN_SECRET"@,
            EnvKey::SupabaseUrl => "SUPABASE_URL"@,
            EnvKey::ViteSupabaseUrl => "VITE_SUPABASE_URL"@,
        }
    }

    /// The key's environment name, as a string.
    pub fn name(self) -> (s: &'static str)
        ensures
            s@ == self.spec_name(),
    {
        match self {
            EnvKey::GoogleClientId => "GOOGLE_CLIENT_ID",
            EnvKey::GoogleClientSecret => "GOOGLE_CLIENT_SECRET",
            EnvKey::GoogleRedirectUri => "GOOGLE_REDIRECT_URI",
            EnvKey::SupabaseServiceRoleKey => "SUPABASE_SERVICE_ROLE_KEY",
            EnvKey::CalendarTokenSecret => "CALENDAR_TOKEN_SECRET",
            EnvKey::SupabaseUrl => "SUPABASE_URL",
            EnvKey::ViteSupabaseUrl => "VITE_SUPABASE_URL",
        }
    }
}

/// The configuration snapshot. A field is `None` when the variable is unset;
/// an explicitly empty value is `Some` of the empty string, and is accepted.
#[derive(Debug)]
pub struct Env {
    pub google_client_id: Option<String>,
    pub google_client_secret: Option<String>,
    pub google_redirect_uri: Option<String>,
    pub supabase_service_role_key: Option<String>,
    pub calendar_token_secret: Option<String>,
    pub supabase_url: Option<String>,
    pub vite_supabase_url: Option<String>,
}

impl Env {
    /// The value stored under `key`, if any.
    pub open spec fn spec_get(&self, key: EnvKey) -> Option<String> {
        match key {
            EnvKey::GoogleClientId => self.google_client_id,
            EnvKey::GoogleClientSecret => self.google_client_secret,
            EnvKey::GoogleRedirectUri => self.google_redirect_uri,
            EnvKey::SupabaseServiceRoleKey => self.supabase_service_role_key,
            EnvKey::CalendarTokenSecret => self.calendar_token_secret,
            EnvKey::SupabaseUrl => self.supabase_url,
            EnvKey::ViteSupabaseUrl => self.vite_supabase_url,
        }
    }

    /// A machine limit: the service-role secret, if set, is small enough
    /// that a base64 encoding of its UTF-8 bytes cannot overflow a length
    /// computation. Every value read from a real process environment is far
    /// below this bound.
    pub open spec fn wf(&self) -> bool {
        self.supabase_service_role_key matches Some(k) ==> encode_utf8(k@).len() <= usize::MAX
            / 8
    }

    /// Looks the key up, cloning the stored value.
    pub fn get(&self, key: EnvKey) -> (r: Option<String>)
        ensures
            r == self.spec_get(key),
    {
        let field: &Option<String> = match key {
            EnvKey::GoogleClientId => &self.google_client_id,
            EnvKey::GoogleClientSecret => &self.google_client_secret,
            EnvKey::GoogleRedirectUri => &self.google_redirect_uri,
            EnvKey::SupabaseServiceRoleKey => &self.supabase_service_role_key,
            EnvKey::CalendarTokenSecret => &self.calendar_token_secret,
            EnvKey::SupabaseUrl => &self.supabase_url,
            EnvKey::ViteSupabaseUrl => &self.vite_supabase_url,
        };
        match field {
            Some(v) => Some(v.clone()),
            None => None,
        }
    }
}

} // verus!
