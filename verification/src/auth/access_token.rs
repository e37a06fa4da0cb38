use vstd::prelude::*;
use crate::constant::CGI_BIN_TOKEN_WECHAT_HOST;

verus! {

/// Credentials for the client-credential token endpoint.
#[derive(Debug, Clone)]
pub struct AccessToken {
    /// Application identifier.
    pub app_id: String,
    /// Application secret.
    pub secret: String,
}

impl AccessToken {
    /// The exact URL of the token request; the transport sends a GET to it.
    pub fn request_url(&self) -> (r: String)
        ensures
            r@ == CGI_BIN_TOKEN_WECHAT_HOST@ + ("?grant_type=client_credential&appid=")@
                + self.app_id@ + ("&secret=")@ + self.secret@,
    {
        let mut out = String::from_str(CGI_BIN_TOKEN_WECHAT_HOST);
        out.append("?grant_type=client_credential&appid=");
        out.append(self.app_id.as_str());
        out.append("&secret=");
        out.append(self.secret.as_str());
        proof {
            assert(out@ =~= CGI_BIN_TOKEN_WECHAT_HOST@ + ("?grant_type=client_credential&appid=")@
                + self.app_id@ + ("&secret=")@ + self.secret@);
        }
        out
    }
}

/// The token endpoint's answer.
#[derive(Debug, Clone)]
pub struct Response {
    /// The granted token.
    pub access_token: Option<String>,
    /// Lifetime of the token, in seconds.
    pub expires_in: Option<i64>,
    /// Error code, where the request was refused.
    pub errcode: Option<i64>,
    /// Error description, where the request was refused.
    pub errmsg: Option<String>,
}

} // verus!
