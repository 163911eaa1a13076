//! Upserting a calendar-connection record into the remote backend: the URL
//! and payload construction and the reading of the backend's reply. The
//! HTTP call itself stays outside the library.

use crate::env::{Env, EnvKey};
use crate::text::{dec_str, u16_to_string};
use vstd::prelude::*;

verus! {

/// The record the backend returns for an upserted calendar connection.
#[derive(Debug)]
pub struct CalendarConnectionRecord {
    pub id: String,
    pub user_id: String,
    pub provider: String,
    pub account_email: String,
    pub token_expiry: Option<String>,
    pub scopes: Vec<String>,
    pub is_primary: bool,
    pub created_at: String,
    pub updated_at: String,
    pub sync_token: Option<String>,
    pub last_synced_at: Option<String>,
}

/// The parameters of the upsert call, defaults already applied.
#[derive(Debug)]
pub struct UpsertPayload {
    pub user_id: String,
    pub provider: String,
    pub account_email: String,
    pub access_token: String,
    pub refresh_token: Option<String>,
    pub token_expiry: Option<String>,
    pub scopes: Vec<String>,
    pub is_primary: bool,
    pub secret: String,
    pub connection_id: Option<String>,
}

/// Everything the shell needs to perform the upsert call: where to POST,
/// the bearer credential, and the payload.
#[derive(Debug)]
pub struct StoreRequest {
    pub url: String,
    pub service_key: String,
    pub payload: UpsertPayload,
}

/// `s` with every trailing `'/'` removed.
pub open spec fn spec_trim_trailing_slashes(s: Seq<char>) -> Seq<char>
    decreases s.len(),
{
    if s.len() > 0 && s[s.len() - 1] == '/' {
        spec_trim_trailing_slashes(s.drop_last())
    } else {
        s
    }
}

fn trim_trailing_slashes(s: &str) -> (r: String)
    ensures
        r@ == spec_trim_trailing_slashes(s@),
{
    let len = s.unicode_len();
    let mut cut = len;
    proof {
        assert(s@.subrange(0, cut as int) =~= s@);
    }
    while cut > 0 && s.get_char(cut - 1) == '/'
        invariant
            cut <= len,
            len == s@.len(),
            spec_trim_trailing_slashes(s@) == spec_trim_trailing_slashes(
                s@.subrange(0, cut as int),
            ),
        decreases cut,
    {
        proof {
            assert(s@.subrange(0, cut as int).drop_last() =~= s@.subrange(0, cut as int - 1));
        }
        cut = cut - 1;
    }
    proof {
        assert(spec_trim_trailing_slashes(s@.subrange(0, cut as int)) == s@.subrange(
            0,
            cut as int,
        ));
    }
    s.substring_char(0, cut).to_owned()
}

/// The fixed path of the upsert RPC, appended to the base URL with its
/// trailing slashes removed.
pub open spec fn spec_rpc_url(base: Seq<char>) -> Seq<char> {
    spec_trim_trailing_slashes(base) + "/rest/v1/rpc/upsert_calendar_connection"@
}

/// Builds the URL of the upsert RPC from the backend's base URL.
pub fn rpc_url(base: &str) -> (r: String)
    ensures
        r@ == spec_rpc_url(base@),
{
    let mut url = trim_trailing_slashes(base);
    url.append("/rest/v1/rpc/upsert_calendar_connection");
    url
}

/// The store commands' missing-variable message.
pub open spec fn store_missing_message(key: Seq<char>) -> Seq<char> {
    "Missing "@ + key + " environment variable"@
}

/// Looks up a variable the store command requires, with the command's own
/// flat error message.
pub fn store_env_var(env: &Env, key: EnvKey) -> (r: Result<String, String>)
    ensures
        env.spec_get(key) matches Some(v) ==> r == Ok::<String, String>(v),
        env.spec_get(key) is None ==> (r matches Err(m) && m@ == store_missing_message(
            key.spec_name(),
        )),
{
    match env.get(key) {
        Some(v) => Ok(v),
        None => {
            let mut m = "Missing ".to_owned();
            m.append(key.name());
            m.append(" environment variable");
            Err(m)
        },
    }
}

/// The backend's base URL: `SUPABASE_URL`, or `VITE_SUPABASE_URL` as a
/// fallback.
pub open spec fn spec_base_url(env: &Env) -> Seq<char>
    recommends
        env.supabase_url is Some || env.vite_supabase_url is Some,
{
    match env.supabase_url {
        Some(v) => v@,
        None => env.vite_supabase_url->0@,
    }
}

/// Resolves the backend's base URL, preferring `SUPABASE_URL` and falling
/// back to `VITE_SUPABASE_URL`; the error names only the primary variable.
pub fn supabase_url(env: &Env) -> (r: Result<String, String>)
    ensures
        env.supabase_url matches Some(v) ==> r == Ok::<String, String>(v),
        env.vite_supabase_url matches Some(v) ==> (env.supabase_url is None ==> r == Ok::<
            String,
            String,
        >(v)),
        env.supabase_url is None && env.vite_supabase_url is None ==> (r matches Err(m) && m@
            == store_missing_message("SUPABASE_URL"@)),
{
    if let Some(v) = env.get(EnvKey::SupabaseUrl) {
        return Ok(v);
    }
    match env.get(EnvKey::ViteSupabaseUrl) {
        Some(v) => Ok(v),
        None => {
            let mut m = "Missing ".to_owned();
            m.append("SUPABASE_URL");
            m.append(" environment variable");
            Err(m)
        },
    }
}

/// Step one of the store command: resolve the secrets and the backend URL
/// and assemble the upsert request, applying the defaults — provider
/// `"google"`, primary `false`. The first missing variable aborts the
/// command with its flat message.
pub fn prepare_store(
    env: &Env,
    user_id: String,
    provider: Option<String>,
    account_email: String,
    access_token: String,
    refresh_token: Option<String>,
    token_expiry: Option<String>,
    scopes: Vec<String>,
    is_primary: Option<bool>,
    connection_id: Option<String>,
) -> (r: Result<StoreRequest, String>)
    ensures
        env.calendar_token_secret is None ==> (r matches Err(m) && m@ == store_missing_message(
            "CALENDAR_TOKEN_SECRET"@,
        )),
        env.calendar_token_secret is Some && env.supabase_url is None && env.vite_supabase_url
            is None ==> (r matches Err(m) && m@ == store_missing_message("SUPABASE_URL"@)),
        env.calendar_token_secret is Some && (env.supabase_url is Some || env.vite_supabase_url
            is Some) && env.supabase_service_role_key is None ==> (r matches Err(m) && m@
            == store_missing_message("SUPABASE_SERVICE_ROLE_KEY"@)),
        env.calendar_token_secret is Some && (env.supabase_url is Some || env.vite_supabase_url
            is Some) && env.supabase_service_role_key is Some ==> (r matches Ok(req) && req.url@
            == spec_rpc_url(spec_base_url(env)) && req.service_key
            == env.supabase_service_role_key->0 && req.payload.user_id == user_id
            && req.payload.provider@ == (match provider {
            Some(p) => p@,
            None => "google"@,
        }) && req.payload.account_email == account_email && req.payload.access_token
            == access_token && req.payload.refresh_token == refresh_token
            && req.payload.token_expiry == token_expiry && req.payload.scopes == scopes
            && req.payload.is_primary == (match is_primary {
            Some(b) => b,
            None => false,
        }) && req.payload.secret == env.calendar_token_secret->0 && req.payload.connection_id
            == connection_id),
{
    let calendar_secret = match store_env_var(env, EnvKey::CalendarTokenSecret) {
        Ok(v) => v,
        Err(m) => {
            return Err(m);
        },
    };
    let base = match supabase_url(env) {
        Ok(v) => v,
        Err(m) => {
            return Err(m);
        },
    };
    let service_key = match store_env_var(env, EnvKey::SupabaseServiceRoleKey) {
        Ok(v) => v,
        Err(m) => {
            return Err(m);
        },
    };
    let provider_value = match provider {
        Some(p) => p,
        None => "google".to_owned(),
    };
    let is_primary_value = match is_primary {
        Some(b) => b,
        None => false,
    };
    let payload = UpsertPayload {
        user_id,
        provider: provider_value,
        account_email,
        access_token,
        refresh_token,
        token_expiry,
        scopes,
        is_primary: is_primary_value,
        secret: calendar_secret,
        connection_id,
    };
    Ok(StoreRequest { url: rpc_url(base.as_str()), service_key, payload })
}

/// The backend's reply to the upsert call: a transport failure, or a
/// status with the decoded record (or the decoder's message) and the raw
/// body text, where it could be read.
#[derive(Debug)]
pub enum StoreReply {
    Transport(String),
    Response(u16, Result<CalendarConnectionRecord, String>, Option<String>),
}

/// The body text quoted in a failure message.
pub open spec fn spec_reply_text(text: Option<String>) -> Seq<char> {
    match text {
        Some(t) => t@,
        None => "<unable to read response body>"@,
    }
}

/// Decides what the backend's reply means: a 401 is the service-role
/// rejection, any other bad status quotes the body text, an undecodable
/// 2xx body is a parse failure, and a decoded 2xx body is the record.
pub fn store_outcome(reply: StoreReply) -> (r: Result<CalendarConnectionRecord, String>)
    ensures
        reply matches StoreReply::Transport(d) ==> (r matches Err(m) && m@
            == "Failed to contact Supabase: "@ + d@),
        reply matches StoreReply::Response(status, parsed, text) ==> {
            &&& status == 401 ==> (r matches Err(m) && m@
                == "Supabase rejected service role credentials"@)
            &&& status != 401 && !crate::google::is_success_status(status) ==> (r matches Err(m)
                && m@ == "Supabase RPC upsert_calendar_connection failed ("@ + dec_str(
                status as nat,
            ) + "): "@ + spec_reply_text(text))
            &&& parsed matches Ok(rec) ==> (crate::google::is_success_status(status) ==> r == Ok::<
                CalendarConnectionRecord,
                String,
            >(rec))
            &&& parsed matches Err(d) ==> (crate::google::is_success_status(status) ==> (r
                matches Err(m) && m@ == "Failed to parse calendar connection: "@ + d@))
        },
{
    match reply {
        StoreReply::Transport(detail) => {
            let mut m = "Failed to contact Supabase: ".to_owned();
            m.append(detail.as_str());
            Err(m)
        },
        StoreReply::Response(status, parsed, text) => {
            if status == 401 {
                return Err("Supabase rejected service role credentials".to_owned());
            }
            if !(200 <= status && status < 300) {
                let digits = u16_to_string(status);
                let mut m = "Supabase RPC upsert_calendar_connection failed (".to_owned();
                m.append(digits.as_str());
                m.append("): ");
                match text {
                    Some(t) => m.append(t.as_str()),
                    None => m.append("<unable to read response body>"),
                }
                return Err(m);
            }
            match parsed {
                Ok(record) => Ok(record),
                Err(detail) => {
                    let mut m = "Failed to parse calendar connection: ".to_owned();
                    m.append(detail.as_str());
                    Err(m)
                },
            }
        },
    }
}

} // verus!
