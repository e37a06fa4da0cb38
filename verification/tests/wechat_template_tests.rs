use rpay::template::template::Templates;

#[test]
fn test_get_category() {
    let t = Templates { access_token: "TOKEN".to_string() };
    assert_eq!(
        t.get_category_url(),
        "https://api.weixin.qq.com/wxaapi/newtmpl/getcategory?access_token=TOKEN"
    );
}

#[test]
fn test_get_keywords() {
    let t = Templates { access_token: "TOKEN".to_string() };
    assert_eq!(
        t.get_pub_template_keywords_url("818"),
        "https://api.weixin.qq.com/wxaapi/newtmpl/getpubtemplatekeywords?access_token=TOKEN&tid=818"
    );
}

#[test]
fn delete_body_is_exact_json() {
    let t = Templates { access_token: "TOKEN".to_string() };
    assert_eq!(
        t.delete_url(),
        "https://api.weixin.qq.com/wxaapi/newtmpl/deltemplate?access_token=TOKEN"
    );
    assert_eq!(t.delete_body("pri\"Id"), "{\"priTmplId\":\"pri\\\"Id\"}");
}
