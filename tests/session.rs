use webdriver_client::action_chain::Action;
use webdriver_client::command::{By, Command, Cookie, Rect, SessionId, TimeoutConfiguration};
use webdriver_client::error::{Expected, WebDriverError};
use webdriver_client::json::JsonValue;
use webdriver_client::keys::{Keys, TypingData};
use webdriver_client::response::{
    cookie_to_json, decode_cookie, unwrap, unwrap_cookie, unwrap_cookies, unwrap_rect, unwrap_string, unwrap_unit, unwrap_vec,
    unwrap_window_handle, unwrap_window_handles,
};
use webdriver_client::webdriver::{decode_screenshot, screenshot_as_png, WebDriver};
use webdriver_client::webelement::{unwrap_element, unwrap_elements};

fn s(text: &str) -> JsonValue {
    JsonValue::Str(text.to_string())
}

fn obj(fields: Vec<(&str, JsonValue)>) -> JsonValue {
    JsonValue::Object(fields.into_iter().map(|(k, v)| (k.to_string(), v)).collect())
}

fn envelope(value: JsonValue) -> JsonValue {
    obj(vec![("value", value)])
}

fn element_ref(id: &str) -> JsonValue {
    obj(vec![("element-6066-11e4-a52e-4f735466cecf", s(id))])
}

fn driver(id: &str) -> WebDriver {
    WebDriver::new(obj(vec![("sessionId", s(id)), ("value", obj(vec![]))])).unwrap()
}

#[test]
fn key_pair_gives_both_code_points_in_order() {
    let t = Keys::Shift + Keys::Tab;
    assert_eq!(t.as_vec(), vec!['\u{e008}', '\u{e004}']);
    let u = Keys::Tab + Keys::Shift;
    assert_eq!(u.as_vec(), vec!['\u{e004}', '\u{e008}']);
}

#[test]
fn key_codes_follow_the_protocol() {
    assert_eq!(Keys::Null.value(), '\u{e000}');
    assert_eq!(Keys::Enter.value(), '\u{e007}');
    assert_eq!(Keys::Divide.value(), '\u{e029}');
    assert_eq!(Keys::F1.value(), '\u{e031}');
    assert_eq!(Keys::F12.value(), '\u{e03c}');
}

#[test]
fn meta_and_command_share_a_code_point() {
    assert_eq!(Keys::Meta.value(), Keys::Command.value());
    assert_eq!(Keys::Meta.value(), '\u{e03d}');
}

#[test]
fn concatenation_is_associative() {
    let a = || TypingData::from(String::from("ab"));
    let b = || TypingData::from(String::from("c"));
    let c = || Keys::Control + Keys::Alt;
    let left = (a() + b()) + c();
    let right = a() + (b() + c());
    assert_eq!(left.as_vec(), right.as_vec());
    assert_eq!(left.as_vec(), vec!['a', 'b', 'c', '\u{e009}', '\u{e00a}']);
}

#[test]
fn text_round_trips_through_typing_data() {
    let text = String::from("héllo ✓ wörld");
    let t = TypingData::from(text.clone());
    assert_eq!(t.to_string(), text);
    assert_eq!(TypingData::from(String::new()).to_string(), "");
}

#[test]
fn typing_data_plus_key_appends_the_code_point() {
    let t = TypingData::from(String::from("x")) + Keys::Enter;
    assert_eq!(t.as_vec(), vec!['x', '\u{e007}']);
}

#[test]
fn session_id_at_top_level() {
    let resp = obj(vec![("sessionId", s("abc")), ("value", obj(vec![("capabilities", obj(vec![("browserName", s("firefox"))]))]))]);
    let d = WebDriver::new(resp).unwrap();
    assert_eq!(d.session_id().id, "abc");
    assert!(d.is_live());
    match d.capabilities().get("browserName") {
        Some(JsonValue::Str(name)) => assert_eq!(name, "firefox"),
        other => panic!("unexpected capabilities: {:?}", other),
    }
}

#[test]
fn capabilities_at_top_level() {
    let resp = obj(vec![("sessionId", s("s1")), ("capabilities", JsonValue::Bool(true))]);
    let d = WebDriver::new(resp).unwrap();
    assert_eq!(d.session_id().id, "s1");
    assert_eq!(d.capabilities(), &JsonValue::Bool(true));
}

#[test]
fn top_level_capabilities_are_preferred() {
    let resp = obj(vec![
        ("sessionId", s("s1")),
        ("capabilities", obj(vec![("browserName", s("chrome"))])),
        ("value", obj(vec![("capabilities", obj(vec![("browserName", s("firefox"))]))])),
    ]);
    let d = WebDriver::new(resp).unwrap();
    assert_eq!(d.capabilities(), &obj(vec![("browserName", s("chrome"))]));
    let resp = obj(vec![
        ("sessionId", s("s1")),
        ("capabilities", JsonValue::Null),
        ("value", obj(vec![("capabilities", obj(vec![("browserName", s("firefox"))]))])),
    ]);
    let d = WebDriver::new(resp).unwrap();
    assert_eq!(d.capabilities(), &obj(vec![("browserName", s("firefox"))]));
    let d = WebDriver::new(obj(vec![("sessionId", s("s1"))])).unwrap();
    assert_eq!(d.capabilities(), &JsonValue::Null);
}

#[test]
fn empty_top_level_capabilities_are_kept_when_alone() {
    let resp = obj(vec![("sessionId", s("s1")), ("capabilities", obj(vec![]))]);
    assert_eq!(WebDriver::new(resp).unwrap().capabilities(), &obj(vec![]));
    let resp = obj(vec![("sessionId", s("s1")), ("capabilities", obj(vec![])), ("value", obj(vec![]))]);
    assert_eq!(WebDriver::new(resp).unwrap().capabilities(), &obj(vec![]));
    let resp = obj(vec![
        ("sessionId", s("s1")),
        ("capabilities", obj(vec![])),
        ("value", obj(vec![("capabilities", obj(vec![("browserName", s("firefox"))]))])),
    ]);
    assert_eq!(WebDriver::new(resp).unwrap().capabilities(), &obj(vec![("browserName", s("firefox"))]));
}

#[test]
fn session_id_nested_under_value() {
    let resp = obj(vec![("value", obj(vec![("sessionId", s("abc")), ("capabilities", obj(vec![]))]))]);
    let d = WebDriver::new(resp).unwrap();
    assert_eq!(d.session_id().id, "abc");
}

#[test]
fn top_level_session_id_is_preferred() {
    let resp = obj(vec![("sessionId", s("top")), ("value", obj(vec![("sessionId", s("nested"))]))]);
    assert_eq!(WebDriver::new(resp).unwrap().session_id().id, "top");
    let resp = obj(vec![("sessionId", s("")), ("value", obj(vec![("sessionId", s("nested"))]))]);
    assert_eq!(WebDriver::new(resp).unwrap().session_id().id, "nested");
}

#[test]
fn missing_session_id_is_an_initialization_error() {
    let resp = obj(vec![("value", obj(vec![("capabilities", obj(vec![]))]))]);
    assert_eq!(WebDriver::new(resp).unwrap_err(), WebDriverError::Initialization);
    assert_eq!(WebDriver::new(obj(vec![])).unwrap_err(), WebDriverError::Initialization);
}

#[test]
fn unwrap_yields_string_value() {
    assert_eq!(unwrap_string(envelope(s("abc"))).unwrap(), "abc");
}

#[test]
fn unwrap_yields_ordered_vector() {
    let resp = envelope(JsonValue::Array(vec![JsonValue::Integer(1), JsonValue::Integer(2), JsonValue::Integer(3)]));
    let items = unwrap_vec(resp).unwrap();
    assert_eq!(items, vec![JsonValue::Integer(1), JsonValue::Integer(2), JsonValue::Integer(3)]);
}

#[test]
fn unwrap_reports_server_error() {
    let resp = envelope(obj(vec![("error", s("no such element"))]));
    assert_eq!(unwrap_cookie(resp).unwrap_err(), WebDriverError::Protocol("no such element".to_string()));
    let resp = envelope(obj(vec![("error", s("no such element"))]));
    assert_eq!(unwrap(resp).unwrap_err(), WebDriverError::Protocol("no such element".to_string()));
}

#[test]
fn envelope_without_value_is_a_transport_error() {
    assert!(matches!(unwrap_unit(obj(vec![])), Err(WebDriverError::Transport(_))));
    assert!(matches!(unwrap_string(s("abc")), Err(WebDriverError::Transport(_))));
}

#[test]
fn value_of_wrong_shape_is_a_decode_error() {
    assert_eq!(unwrap_string(envelope(JsonValue::Integer(4))).unwrap_err(), WebDriverError::Decode(Expected::Text));
    assert_eq!(unwrap_vec(envelope(s("x"))).unwrap_err(), WebDriverError::Decode(Expected::Array));
    assert_eq!(unwrap_rect(envelope(obj(vec![("x", JsonValue::Integer(1))]))).unwrap_err(), WebDriverError::Decode(Expected::Rect));
}

#[test]
fn null_result_is_not_an_error() {
    assert_eq!(unwrap_unit(envelope(JsonValue::Null)), Ok(()));
    assert_eq!(unwrap(envelope(JsonValue::Null)).unwrap(), JsonValue::Null);
}

#[test]
fn screenshot_decodes_base64() {
    let png = screenshot_as_png(envelope(s("aGVsbG8gd29ybGQ="))).unwrap();
    assert_eq!(png, b"hello world".to_vec());
    assert_eq!(decode_screenshot(&String::from("AAEC/w==")).unwrap(), vec![0u8, 1, 2, 255]);
}

#[test]
fn screenshot_that_is_not_base64_is_a_decode_error() {
    assert_eq!(screenshot_as_png(envelope(s("not base64!"))).unwrap_err(), WebDriverError::Decode(Expected::Base64));
}

#[test]
fn quit_is_issued_once() {
    let mut d = driver("s1");
    match d.quit() {
        Some(Command::DeleteSession(id)) => assert_eq!(id, SessionId::new("s1".to_string())),
        other => panic!("unexpected: {:?}", other),
    }
    assert!(!d.is_live());
    assert!(d.quit().is_none());
}

#[test]
fn elements_address_their_own_nodes() {
    let d = driver("s1");
    let resp = envelope(JsonValue::Array(vec![element_ref("n1"), element_ref("n2")]));
    let elements = unwrap_elements(d.session_id(), resp).unwrap();
    assert_eq!(elements.len(), 2);
    match (elements[0].click(), elements[1].click()) {
        (Command::ElementClick(s0, e0), Command::ElementClick(s1, e1)) => {
            assert_eq!(e0.id, "n1");
            assert_eq!(e1.id, "n2");
            assert_eq!(s0.id, "s1");
            assert_eq!(s1.id, "s1");
        },
        other => panic!("unexpected: {:?}", other),
    }
}

#[test]
fn element_reference_legacy_key() {
    let sid = SessionId::new("s".to_string());
    let e = unwrap_element(&sid, envelope(obj(vec![("ELEMENT", s("old"))]))).unwrap();
    assert_eq!(e.element_id.id, "old");
    assert_eq!(unwrap_element(&sid, envelope(obj(vec![]))).unwrap_err(), WebDriverError::Decode(Expected::Element));
    let bad = envelope(JsonValue::Array(vec![element_ref("a"), s("b")]));
    assert_eq!(unwrap_elements(&sid, bad).unwrap_err(), WebDriverError::Decode(Expected::Element));
}

#[test]
fn rect_is_decoded() {
    let resp = envelope(obj(vec![("x", JsonValue::Integer(10)), ("y", JsonValue::Integer(-5)), ("width", JsonValue::Integer(800)), ("height", JsonValue::Integer(600))]));
    assert_eq!(unwrap_rect(resp).unwrap(), Rect { x: 10, y: -5, width: 800, height: 600 });
}

#[test]
fn cookies_keep_optional_fields() {
    let full = obj(vec![("name", s("a")), ("value", s("1")), ("path", s("/")), ("domain", s("example.com")), ("secure", JsonValue::Bool(true)), ("httpOnly", JsonValue::Bool(false)), ("expiry", JsonValue::Integer(1700000000)), ("sameSite", s("Lax"))]);
    let bare = obj(vec![("name", s("b")), ("value", s("2")), ("path", JsonValue::Null)]);
    let cookies = unwrap_cookies(envelope(JsonValue::Array(vec![full, bare]))).unwrap();
    assert_eq!(cookies[0], Cookie { name: "a".into(), value: "1".into(), path: Some("/".into()), domain: Some("example.com".into()), secure: Some(true), http_only: Some(false), expiry: Some(1700000000), same_site: Some("Lax".into()) });
    assert_eq!(cookies[1], Cookie { name: "b".into(), value: "2".into(), path: None, domain: None, secure: None, http_only: None, expiry: None, same_site: None });
    let wrong = envelope(obj(vec![("name", s("a")), ("value", s("1")), ("secure", s("yes"))]));
    assert_eq!(unwrap_cookie(wrong).unwrap_err(), WebDriverError::Decode(Expected::Cookie));
    let wrong = envelope(obj(vec![("name", s("a")), ("value", s("1")), ("httpOnly", s("yes"))]));
    assert_eq!(unwrap_cookie(wrong).unwrap_err(), WebDriverError::Decode(Expected::Cookie));
}

#[test]
fn window_handles_are_decoded_in_order() {
    let hs = unwrap_window_handles(envelope(JsonValue::Array(vec![s("w1"), s("w2")]))).unwrap();
    assert_eq!(hs.iter().map(|h| h.handle.clone()).collect::<Vec<_>>(), vec!["w1", "w2"]);
    assert_eq!(unwrap_window_handle(envelope(s("w3"))).unwrap().handle, "w3");
    assert_eq!(unwrap_window_handles(envelope(JsonValue::Array(vec![JsonValue::Null]))).unwrap_err(), WebDriverError::Decode(Expected::Text));
}

#[test]
fn title_that_is_not_a_string_is_a_decode_error() {
    assert_eq!(unwrap_string(envelope(s("Home"))).unwrap(), "Home");
    assert_eq!(unwrap_string(envelope(s(""))).unwrap(), "");
    assert_eq!(unwrap_string(envelope(JsonValue::Null)).unwrap_err(), WebDriverError::Decode(Expected::Text));
    assert_eq!(unwrap_string(envelope(JsonValue::Integer(42))).unwrap_err(), WebDriverError::Decode(Expected::Text));
}

#[test]
fn timeout_helpers_set_one_category() {
    let d = driver("s1");
    match d.implicitly_wait(500) {
        Command::SetTimeouts(_, t) => assert_eq!(t, TimeoutConfiguration { script: None, page_load: None, implicit: Some(500) }),
        other => panic!("unexpected: {:?}", other),
    }
    match d.set_script_timeout(7) {
        Command::SetTimeouts(_, t) => assert_eq!(t, TimeoutConfiguration::new(Some(7), None, None)),
        other => panic!("unexpected: {:?}", other),
    }
    match d.set_page_load_timeout(9) {
        Command::SetTimeouts(_, t) => assert_eq!(t, TimeoutConfiguration::new(None, Some(9), None)),
        other => panic!("unexpected: {:?}", other),
    }
}

#[test]
fn commands_carry_the_session_and_operands() {
    let d = driver("s9");
    match d.find_element(By::Css("div.x".to_string())) {
        Command::FindElement(id, By::Css(sel)) => {
            assert_eq!(id.id, "s9");
            assert_eq!(sel, "div.x");
        },
        other => panic!("unexpected: {:?}", other),
    }
    match d.execute_script("return 1", vec![JsonValue::Integer(2)]) {
        Command::ExecuteScript(id, body, args) => {
            assert_eq!(id.id, "s9");
            assert_eq!(body, "return 1");
            assert_eq!(args, vec![JsonValue::Integer(2)]);
        },
        other => panic!("unexpected: {:?}", other),
    }
    assert!(matches!(d.get_cookie("c"), Command::GetNamedCookie(_, n) if n == "c"));
}

#[test]
fn action_chain_builds_one_sequence() {
    let d = driver("s1");
    let chain = d.action_chain().key_down(Keys::Shift).send_keys(&vec!['a']).key_up(Keys::Shift).drag(1, 2, 3, 4);
    assert_eq!(chain.actions, vec![
        Action::KeyDown('\u{e008}'),
        Action::KeyDown('a'),
        Action::KeyUp('a'),
        Action::KeyUp('\u{e008}'),
        Action::PointerMove(1, 2),
        Action::PointerDown(0),
        Action::PointerMove(3, 4),
        Action::PointerUp(0),
    ]);
    match chain.perform() {
        Command::PerformActions(id, actions) => {
            assert_eq!(id.id, "s1");
            assert_eq!(actions.len(), 8);
        },
        other => panic!("unexpected: {:?}", other),
    }
    assert!(d.action_chain().actions.is_empty());
}

#[test]
fn cookie_round_trips_through_json() {
    let c = Cookie { name: "sid".into(), value: "42".into(), path: None, domain: Some("a.org".into()), secure: Some(false), http_only: Some(true), expiry: None, same_site: Some("Strict".into()) };
    let v = cookie_to_json(&c);
    assert_eq!(v.get("path"), Some(&JsonValue::Null));
    assert_eq!(v.get("domain"), Some(&JsonValue::Str("a.org".into())));
    assert_eq!(decode_cookie(&v), Some(c));
}
