use vstd::prelude::*;
use crate::text::{concat2, concat3};
use base64::Engine as _;

verus! {

/// The Jira account the client acts for.
#[derive(Debug)]
pub struct UserData {
    pub account_id: String,
    pub display_name: String,
}

impl Clone for UserData {
    fn clone(&self) -> (r: Self)
        ensures
            r == *self,
    {
        UserData { account_id: self.account_id.clone(), display_name: self.display_name.clone() }
    }
}

/// What the client needs to call the Jira REST API.
#[derive(Debug, Clone)]
pub struct JiraClient {
    /// The Base64 encoding of `email:token`, sent as basic authorization.
    pub api_key: String,
    pub api_version: String,
    pub email: String,
    /// The REST API root, such as `https://example.atlassian.net/rest/api/3`.
    pub url: String,
    pub user: Option<UserData>,
}

/// The header names and values that every API request carries.
pub open spec fn basic_auth_headers(api_key: Seq<char>) -> Seq<(Seq<char>, Seq<char>)> {
    seq![
        ("content-type"@, "application/json"@),
        ("accept"@, "application/json"@),
        ("authorization"@, "Basic "@ + api_key),
    ]
}

/// The characters of each header name and value.
pub open spec fn header_views(headers: Seq<(String, String)>) -> Seq<(Seq<char>, Seq<char>)> {
    headers.map_values(|h: (String, String)| (h.0@, h.1@))
}

/// The Base64 text, in the URL-safe alphabet with padding, of the UTF-8 bytes of a text.
pub uninterp spec fn url_safe_base64(text: Seq<char>) -> Seq<char>;

/// Calls `base64::engine::general_purpose::URL_SAFE.encode` on the UTF-8 bytes of `text`.
/// The contract names the result, which depends on the text alone. The crate works out the
/// length of the encoding, four characters for every three bytes, and allocates a buffer of
/// that length; it panics when the length or the allocation overflows. A text of at most
/// `usize::MAX / 16` characters, each of at most four bytes, keeps the encoding below
/// `isize::MAX` bytes, where neither overflows.
#[verifier::external_body]
fn encode_url_safe(text: &str) -> (encoded: String)
    requires
        text@.len() <= usize::MAX / 16,
    ensures
        encoded@ == url_safe_base64(text@),
{
    base64::engine::general_purpose::URL_SAFE.encode(text)
}

impl JiraClient {
    /// A client for the REST API at `jira_url`; the current user is not known yet.
    pub fn new(
        jira_api_version: String,
        jira_api_key: String,
        jira_email: String,
        jira_url: String,
    ) -> (c: Self)
        ensures
            c.api_key == jira_api_key,
            c.api_version == jira_api_version,
            c.email == jira_email,
            c.url == jira_url,
            c.user is None,
    {
        JiraClient {
            api_key: jira_api_key,
            api_version: jira_api_version,
            email: jira_email,
            url: jira_url,
            user: None,
        }
    }

    /// The headers of every request: JSON content, and the basic authorization.
    pub fn get_basic_auth(&self) -> (headers: Vec<(String, String)>)
        ensures
            header_views(headers@) == basic_auth_headers(self.api_key@),
    {
        let mut headers = Vec::new();
        headers.push((String::from_str("content-type"), String::from_str("application/json")));
        headers.push((String::from_str("accept"), String::from_str("application/json")));
        headers.push((String::from_str("authorization"), concat2("Basic ", self.api_key.as_str())));
        proof {
            assert(header_views(headers@) =~= basic_auth_headers(self.api_key@));
        }
        headers
    }

    pub fn get_domain(&self) -> (d: &String)
        ensures
            d == &self.url,
    {
        &self.url
    }

    /// The address of an API path.
    pub fn api_url(&self, api_path: &str) -> (u: String)
        ensures
            u@ == self.url@ + "/"@ + api_path@,
    {
        concat3(self.url.as_str(), "/", api_path)
    }

    /// The API path that looks up the client's own account by its email address.
    pub fn current_user_path(&self) -> (p: String)
        ensures
            p@ == "user/search?query="@ + self.email@,
    {
        concat2("user/search?query=", self.email.as_str())
    }

    /// Records the accounts that the user search found: the first one is the current user.
    /// When the search found nobody the user stays unknown.
    pub fn set_current_user(&mut self, found: &Vec<UserData>)
        ensures
            found@.len() > 0 ==> final(self).user == Some(found@[0]),
            found@.len() == 0 ==> final(self).user == old(self).user,
            final(self).api_key == old(self).api_key,
            final(self).api_version == old(self).api_version,
            final(self).email == old(self).email,
            final(self).url == old(self).url,
    {
        if found.len() > 0 {
            self.user = Some(found[0].clone());
        }
    }
}

/// The client for a Jira site: the account's email and API token, joined by a colon and
/// encoded in Base64, authorize the requests, and the REST API of the given version
/// lives under `/rest/api/` on the site.
pub fn jira_authentication(
    jira_domain: &str,
    jira_api_key: &str,
    jira_api_version: &str,
    jira_user_email: &str,
) -> (c: JiraClient)
    requires
        jira_user_email@.len() + jira_api_key@.len() + 1 <= usize::MAX / 16,
    ensures
        c.api_key@ == url_safe_base64(jira_user_email@ + ":"@ + jira_api_key@),
        c.api_version@ == jira_api_version@,
        c.email@ == jira_user_email@,
        c.url@ == jira_domain@ + "/rest/api/"@ + jira_api_version@,
        c.user is None,
{
    let credentials = concat3(jira_user_email, ":", jira_api_key);
    proof { reveal_strlit(":"); }
    let jira_encoded_auth = encode_url_safe(credentials.as_str());
    let jira_rest_domain = concat3(jira_domain, "/rest/api/", jira_api_version);
    JiraClient::new(
        String::from_str(jira_api_version),
        jira_encoded_auth,
        String::from_str(jira_user_email),
        jira_rest_domain,
    )
}

} // verus!
