use vstd::prelude::*;
use crate::common::{GrantType, LoginType};

verus! {

/// Credentials and code of one login exchange.
#[derive(Debug, Clone)]
pub struct Auth {
    /// Application identifier.
    pub app_id: String,
    /// Application secret.
    pub secret: String,
    /// The single-use login code handed in by the client.
    pub wx_code: String,
    /// OAuth grant type of the exchange.
    pub grant_type: GrantType,
    /// Which login flow the exchange belongs to.
    pub login_type: LoginType,
}

impl Auth {
    /// The exact URL of the web-login exchange.
    pub fn web_login_url(&self) -> (r: String)
        ensures
            r@ == ("https://api.weixin.qq.com/sns/oauth2/access_token?appid=")@ + self.app_id@
                + ("&secret=")@ + self.secret@ + ("&code=")@ + self.wx_code@
                + ("&grant_type=authorization_code")@,
    {
        let mut out = String::from_str("https://api.weixin.qq.com/sns/oauth2/access_token?appid=");
        out.append(self.app_id.as_str());
        out.append("&secret=");
        out.append(self.secret.as_str());
        out.append("&code=");
        out.append(self.wx_code.as_str());
        out.append("&grant_type=authorization_code");
        proof {
            assert(out@ =~= ("https://api.weixin.qq.com/sns/oauth2/access_token?appid=")@
                + self.app_id@ + ("&secret=")@ + self.secret@ + ("&code=")@ + self.wx_code@
                + ("&grant_type=authorization_code")@);
        }
        out
    }

    /// The exact URL of the token-refresh exchange.
    pub fn web_refresh_token_url(&self, refresh_token: &str) -> (r: String)
        ensures
            r@ == ("https://api.weixin.qq.com/sns/oauth2/refresh_token?appid=")@ + self.app_id@
                + ("&grant_type=refresh_token&refresh_token=")@ + refresh_token@,
    {
        let mut out = String::from_str("https://api.weixin.qq.com/sns/oauth2/refresh_token?appid=");
        out.append(self.app_id.as_str());
        out.append("&grant_type=refresh_token&refresh_token=");
        out.append(refresh_token);
        proof {
            assert(out@ =~= ("https://api.weixin.qq.com/sns/oauth2/refresh_token?appid=")@
                + self.app_id@ + ("&grant_type=refresh_token&refresh_token=")@ + refresh_token@);
        }
        out
    }

    /// The exact URL of the user-information lookup after a web login.
    pub fn web_sn_sapi_user_info_url(&self, access_token: &str, openid: &str) -> (r: String)
        ensures
            r@ == ("https://api.weixin.qq.com/sns/userinfo?access_token=")@ + access_token@
                + ("&openid=")@ + openid@ + ("&lang=zh_CN")@,
    {
        let mut out = String::from_str("https://api.weixin.qq.com/sns/userinfo?access_token=");
        out.append(access_token);
        out.append("&openid=");
        out.append(openid);
        out.append("&lang=zh_CN");
        proof {
            assert(out@ =~= ("https://api.weixin.qq.com/sns/userinfo?access_token=")@
                + access_token@ + ("&openid=")@ + openid@ + ("&lang=zh_CN")@);
        }
        out
    }

    /// The exact URL of the mini-program login exchange.
    pub fn mini_program_login_url(&self) -> (r: String)
        ensures
            r@ == ("https://api.weixin.qq.com/sns/jscode2session?appid=")@ + self.app_id@
                + ("&secret=")@ + self.secret@ + ("&js_code=")@ + self.wx_code@
                + ("&grant_type=authorization_code")@,
    {
        let mut out = String::from_str("https://api.weixin.qq.com/sns/jscode2session?appid=");
        out.append(self.app_id.as_str());
        out.append("&secret=");
        out.append(self.secret.as_str());
        out.append("&js_code=");
        out.append(self.wx_code.as_str());
        out.append("&grant_type=authorization_code");
        proof {
            assert(out@ =~= ("https://api.weixin.qq.com/sns/jscode2session?appid=")@
                + self.app_id@ + ("&secret=")@ + self.secret@ + ("&js_code=")@ + self.wx_code@
                + ("&grant_type=authorization_code")@);
        }
        out
    }
}

/// The user information a web login can fetch.
#[derive(Debug, Clone)]
pub struct WeLoginUserResponse {
    pub openid: Option<String>,
    pub nickname: Option<String>,
    pub sex: Option<i64>,
    pub province: Option<String>,
    pub city: Option<String>,
    pub country: Option<String>,
    pub headimgurl: Option<String>,
    pub privilege: Option<Vec<String>>,
    pub unionid: Option<String>,
}

/// The token-refresh endpoint's answer.
#[derive(Debug, Clone)]
pub struct WebRefreshTokenResponse {
    pub access_token: String,
    pub expires_in: i64,
    pub refresh_token: String,
    pub openid: String,
    pub scope: String,
    pub errcode: Option<i32>,
    pub errmsg: Option<String>,
}

/// The web-login endpoint's answer.
#[derive(Debug, Clone)]
pub struct WebLoginResponse {
    pub access_token: Option<String>,
    pub expires_in: Option<i64>,
    pub refresh_token: Option<String>,
    pub openid: Option<String>,
    pub scope: Option<String>,
    pub is_snapshotuser: Option<i64>,
    pub unionid: Option<String>,
    pub errcode: Option<i32>,
    pub errmsg: Option<String>,
}

/// The mini-program login endpoint's answer.
#[derive(Debug, Clone)]
pub struct MiniProgramResponse {
    pub session_key: Option<String>,
    pub unionid: Option<String>,
    pub errmsg: Option<String>,
    pub openid: Option<String>,
    pub errcode: Option<i32>,
}

} // verus!
