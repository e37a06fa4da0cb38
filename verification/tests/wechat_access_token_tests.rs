use rpay::auth::access_token::AccessToken;
use rpay::auth::auth::Auth;
use rpay::common::{GrantType, LoginType};

#[test]
fn test_get_access_token() {
    let at = AccessToken {
        app_id: "APPID".to_string(),
        secret: "app-secret-0000".to_string(),
    };
    assert_eq!(
        at.request_url(),
        "https://api.weixin.qq.com/cgi-bin/token?grant_type=client_credential&appid=APPID&secret=app-secret-0000"
    );
}

#[test]
fn login_urls_are_exact() {
    let auth = Auth {
        app_id: "APPID".to_string(),
        secret: "app-secret-0000".to_string(),
        wx_code: "CODE".to_string(),
        grant_type: GrantType::AuthorizationCode,
        login_type: LoginType::Web,
    };
    assert_eq!(
        auth.web_login_url(),
        "https://api.weixin.qq.com/sns/oauth2/access_token?appid=APPID&secret=app-secret-0000&code=CODE&grant_type=authorization_code"
    );
    assert_eq!(
        auth.web_refresh_token_url("RTOKEN"),
        "https://api.weixin.qq.com/sns/oauth2/refresh_token?appid=APPID&grant_type=refresh_token&refresh_token=RTOKEN"
    );
    assert_eq!(
        auth.web_sn_sapi_user_info_url("ATOKEN", "OPENID"),
        "https://api.weixin.qq.com/sns/userinfo?access_token=ATOKEN&openid=OPENID&lang=zh_CN"
    );
    assert_eq!(
        auth.mini_program_login_url(),
        "https://api.weixin.qq.com/sns/jscode2session?appid=APPID&secret=app-secret-0000&js_code=CODE&grant_type=authorization_code"
    );
}
