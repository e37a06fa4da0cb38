use std::collections::HashMap;

use rpay::common::Lang;
use rpay::message::customer_service::{CustomerService, Image, Link, Miniprogrampage, MsgType, Text};
use rpay::message::message::{DataItem, Message, MiniProgram};

fn base_message(data: HashMap<String, DataItem>) -> Message {
    Message {
        access_token: "TOKEN".to_string(),
        touser: "aZHCMNQEVOQjF5SSYuPI_eV0tuBj7R7-UQYuQ9FQWx4".to_string(),
        template_id: "TEMPLATE".to_string(),
        page: None,
        mini_program: None,
        data,
        miniprogram_state: "developer".to_string(),
        lang: Lang::ZhCn,
    }
}

#[test]
fn test_kf_send_link_msg() {
    let cs = CustomerService {
        access_token: "TOKEN".to_string(),
        touser: "OPENID1".to_string(),
        msg_type: MsgType::Link,
        text: None,
        image: None,
        link: Some(Link {
            title: Some("新订单来了".to_string()),
            description: Some("五香辣椒248g两包<br/>麻辣498一包".to_string()),
            url: Some("https://www.baidu.com".to_string()),
            thumb_url: None,
        }),
        miniprogrampage: None,
    };
    assert_eq!(cs.msg_type.as_str(), "link");
    assert_eq!(
        cs.send_url(),
        "https://api.weixin.qq.com/cgi-bin/message/custom/send?access_token=TOKEN"
    );
}

#[test]
fn test_kf_card_send() {
    let cs = CustomerService {
        access_token: "TOKEN".to_string(),
        touser: "OPENID1".to_string(),
        msg_type: MsgType::Miniprogrampage,
        text: None,
        image: None,
        link: None,
        miniprogrampage: Some(Miniprogrampage {
            title: Some("测试玩一把".to_string()),
            pagepath: Some("pages/index/index".to_string()),
            thumb_media_id: None,
        }),
    };
    assert_eq!(cs.msg_type.as_str(), "miniprogrampage");
    assert_eq!(
        cs.thumb_media_url(),
        "https://api.weixin.qq.com/cgi-bin/material/add_material?access_token=TOKEN&type=thumb"
    );
}

#[test]
fn test_kf_text_send() {
    let cs = CustomerService {
        access_token: "TOKEN".to_string(),
        touser: "OPENID1".to_string(),
        msg_type: MsgType::Text,
        text: Some(Text {
            content: "我是后台接口主动发起的信息，王先生起来接单了，以后就用这个给你推送订单信息哈"
                .to_string(),
        }),
        image: Some(Image { media_id: "MEDIA".to_string() }),
        link: None,
        miniprogrampage: None,
    };
    assert_eq!(cs.msg_type.as_str(), "text");
    assert_eq!(
        cs.send_url(),
        "https://api.weixin.qq.com/cgi-bin/message/custom/send?access_token=TOKEN"
    );
}

#[test]
fn test_message_send() {
    let mut data = HashMap::new();
    data.insert(
        "character_string5".to_string(),
        DataItem { value: "快递单号".to_string() },
    );
    data.insert(
        "character_string1".to_string(),
        DataItem { value: "订单编号".to_string() },
    );
    data.insert("thing20".to_string(), DataItem { value: "快递公司".to_string() });
    data.insert("thing21".to_string(), DataItem { value: "物品名称".to_string() });
    data.insert("thing25".to_string(), DataItem { value: "发货门店".to_string() });
    let msg = base_message(data);
    assert_eq!(
        msg.send_url(),
        "https://api.weixin.qq.com/cgi-bin/message/subscribe/send?access_token=TOKEN"
    );
    assert_eq!(msg.data.len(), 5);
}

#[test]
fn test_message_send_create_order() {
    let mut data = HashMap::new();
    data.insert("thing1".to_string(), DataItem { value: "大洋芋".to_string() });
    data.insert("amount2".to_string(), DataItem { value: "18.00".to_string() });
    data.insert("number3".to_string(), DataItem { value: "1".to_string() });
    data.insert(
        "time4".to_string(),
        DataItem { value: "2024-06-21 14:16:33".to_string() },
    );
    let mut msg = base_message(data);
    msg.touser = "rc-r-FZ6gwiq2tvkWwJeFckWRkU-RmReKyeFfkfFQLs".to_string();
    msg.page = Some("pages/order/index".to_string());
    msg.mini_program = Some(MiniProgram {
        app_id: "wx1234567890abcdef".to_string(),
        page_path: "pages/order/index".to_string(),
    });
    assert_eq!(msg.data.get("time4").unwrap().value, "2024-06-21 14:16:33");
}

#[test]
fn test_message_send_have_order() {
    let mut data = HashMap::new();
    data.insert("name7".to_string(), DataItem { value: "下单人".to_string() });
    data.insert("thing9".to_string(), DataItem { value: "收货地址".to_string() });
    data.insert("thing5".to_string(), DataItem { value: "备注信息".to_string() });
    data.insert("thing6".to_string(), DataItem { value: "商品名称".to_string() });
    data.insert("number12".to_string(), DataItem { value: "1".to_string() });
    let mut msg = base_message(data);
    msg.touser = "rc-r-FZ6gwiq2tvkWwJeFckWRkU-RmReKyeFfkfFQLs".to_string();
    assert_eq!(msg.data.len(), 5);
    assert_eq!(
        msg.send_url(),
        "https://api.weixin.qq.com/cgi-bin/message/subscribe/send?access_token=TOKEN"
    );
}
