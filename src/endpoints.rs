//! URLs of this and neighbouring services: a configured base plus a path.
use vstd::prelude::*;
use vstd::string::*;

verus! {

/// A path on one of the services.
#[derive(Clone, Copy, Debug)]
pub enum Endpoint<'a> {
    /// The public base URL of this service, used in links sent to users.
    Base(&'a str),
    Payment(&'a str),
    User(&'a str),
    Content(&'a str),
    Upload(&'a str),
    Gateway(&'a str),
    Shopping(&'a str),
    Notify(&'a str),
}

pub open spec fn with_leading_slash(s: Seq<char>) -> Seq<char> {
    if s.len() > 0 && s[0] == '/' {
        s
    } else {
        seq!['/'] + s
    }
}

pub open spec fn without_trailing_slash(s: Seq<char>) -> Seq<char> {
    if s.len() > 0 && s.last() == '/' {
        s.drop_last()
    } else {
        s
    }
}

pub open spec fn endpoint_path<'a>(e: Endpoint<'a>) -> Seq<char> {
    match e {
        Endpoint::Base(p) => p@,
        Endpoint::Payment(p) => p@,
        Endpoint::User(p) => p@,
        Endpoint::Content(p) => p@,
        Endpoint::Upload(p) => p@,
        Endpoint::Gateway(p) => p@,
        Endpoint::Shopping(p) => p@,
        Endpoint::Notify(p) => p@,
    }
}

/// `s` with a leading `/`, added where missing.
pub fn check_leading_slash(s: &str) -> (r: String)
    ensures
        r@ == with_leading_slash(s@),
{
    if s.unicode_len() > 0 && s.get_char(0) == '/' {
        String::from_str(s)
    } else {
        proof {
            reveal_strlit("/");
        }
        let mut r = String::from_str("/");
        r.append(s);
        r
    }
}

/// A configured base URL without its one trailing `/`, if it has one; a missing
/// setting passes through.
pub fn trim_trailing_slash(var: Result<String, String>) -> (r: Result<String, String>)
    ensures
        var matches Ok(s) ==> (r matches Ok(t) && t@ == without_trailing_slash(s@)),
        var matches Err(e) ==> (r matches Err(f) && f@ == e@),
{
    match var {
        Err(e) => Err(e),
        Ok(s) => {
            let n = s.as_str().unicode_len();
            if n > 0 && s.as_str().get_char(n - 1) == '/' {
                let t = String::from_str(s.as_str().substring_char(0, n - 1));
                assert(t@ =~= s@.drop_last());
                Ok(t)
            } else {
                Ok(s)
            }
        },
    }
}

/// The URL of `path` under the configured `base`; a missing setting passes through.
pub fn format_endpoint(base: Result<String, String>, path: &str) -> (r: Result<String, String>)
    ensures
        base matches Ok(b) ==> (r matches Ok(u) && u@ == without_trailing_slash(b@)
            + with_leading_slash(path@)),
        base matches Err(e) ==> (r matches Err(f) && f@ == e@),
{
    match trim_trailing_slash(base) {
        Err(e) => Err(e),
        Ok(mut uri) => {
            let p = check_leading_slash(path);
            uri.append(p.as_str());
            Ok(uri)
        },
    }
}

impl<'a> Endpoint<'a> {
    /// The setting that holds this service's base URL.
    pub fn env_var(&self) -> (r: &'static str)
        ensures
            r@ == (match *self {
                Endpoint::Base(_) => "ENDPOINT"@,
                Endpoint::Payment(_) => "GUN_PAYMENT_URL"@,
                Endpoint::User(_) => "GUN_USER_URL"@,
                Endpoint::Content(_) => "GUN_CONTENT_URL"@,
                Endpoint::Upload(_) => "GUN_UPLOAD_URL"@,
                Endpoint::Gateway(_) => "GUN_GATEWAY_URL"@,
                Endpoint::Shopping(_) => "GUN_SHOPPING_URL"@,
                Endpoint::Notify(_) => "GUN_NOTIFY_URL"@,
            }),
    {
        match *self {
            Endpoint::Base(_) => "ENDPOINT",
            Endpoint::Payment(_) => "GUN_PAYMENT_URL",
            Endpoint::User(_) => "GUN_USER_URL",
            Endpoint::Content(_) => "GUN_CONTENT_URL",
            Endpoint::Upload(_) => "GUN_UPLOAD_URL",
            Endpoint::Gateway(_) => "GUN_GATEWAY_URL",
            Endpoint::Shopping(_) => "GUN_SHOPPING_URL",
            Endpoint::Notify(_) => "GUN_NOTIFY_URL",
        }
    }

    pub fn as_path(&self) -> (r: &'a str)
        ensures
            r@ == endpoint_path(*self),
    {
        match *self {
            Endpoint::Base(path) => path,
            Endpoint::Payment(path) => path,
            Endpoint::User(path) => path,
            Endpoint::Content(path) => path,
            Endpoint::Upload(path) => path,
            Endpoint::Gateway(path) => path,
            Endpoint::Shopping(path) => path,
            Endpoint::Notify(path) => path,
        }
    }

    /// The full URL of the path under the service's configured `base` URL.
    pub fn as_url(&self, base: &str) -> (r: String)
        ensures
            r@ == without_trailing_slash(base@) + with_leading_slash(endpoint_path(*self)),
    {
        match format_endpoint(Ok(String::from_str(base)), self.as_path()) {
            Ok(u) => u,
            Err(e) => e,
        }
    }
}

} // verus!
