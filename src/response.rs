use vstd::prelude::*;
use crate::command::{Cookie, Rect, WindowHandle};
use crate::error::{Expected, WebDriverError};
use crate::json::{member, text_of, JsonValue};

verus! {

/// The payload of a response envelope: its `value` member.
pub open spec fn payload_of(resp: JsonValue) -> Option<JsonValue> {
    member(resp, "value"@)
}

/// The error code that a payload reports, if it reports one.
pub open spec fn server_error_of(v: JsonValue) -> Option<Seq<char>> {
    match member(v, "error"@) {
        Some(e) => text_of(e),
        None => None,
    }
}

/// The payload of an envelope that carries a result rather than an error.
pub open spec fn accepted(resp: JsonValue) -> Option<JsonValue> {
    match payload_of(resp) {
        Some(v) => if server_error_of(v) is None {
            Some(v)
        } else {
            None
        },
        None => None,
    }
}

/// The error that an envelope without a result gives: a transport error for a
/// malformed envelope, else the protocol error that the server reported.
pub open spec fn rejected_as(resp: JsonValue, e: WebDriverError) -> bool {
    match payload_of(resp) {
        None => e is Transport,
        Some(v) => match server_error_of(v) {
            Some(code) => e matches WebDriverError::Protocol(c) && c@ == code,
            None => false,
        },
    }
}

/// The items of a JSON array.
pub open spec fn items_of(v: JsonValue) -> Option<Seq<JsonValue>> {
    match v {
        JsonValue::Array(items) => Some(items@),
        _ => None,
    }
}

/// The error code that a payload reports.
fn server_error(v: &JsonValue) -> (r: Option<String>)
    ensures
        r is Some <==> server_error_of(*v) is Some,
        r matches Some(s) ==> s@ == server_error_of(*v)->0,
{
    match v.get("error") {
        Some(e) => match e.as_str() {
            Some(s) => Some(s.clone()),
            None => None,
        },
        None => None,
    }
}

/// The payload of a response envelope, or the error it stands for.
pub fn unwrap(resp: JsonValue) -> (r: Result<JsonValue, WebDriverError>)
    ensures
        accepted(resp) matches Some(v) ==> r == Ok::<JsonValue, WebDriverError>(v),
        accepted(resp) is None ==> (r matches Err(e) && rejected_as(resp, e)),
{
    match resp.into_member("value") {
        None => Err(WebDriverError::Transport("response holds no value".to_owned())),
        Some(v) => match server_error(&v) {
            Some(code) => Err(WebDriverError::Protocol(code)),
            None => Ok(v),
        },
    }
}

/// Checks that a response envelope carries a result, for commands that return
/// nothing.
pub fn unwrap_unit(resp: JsonValue) -> (r: Result<(), WebDriverError>)
    ensures
        accepted(resp) is Some ==> r is Ok,
        accepted(resp) is None ==> (r matches Err(e) && rejected_as(resp, e)),
{
    match unwrap(resp) {
        Ok(_) => Ok(()),
        Err(e) => Err(e),
    }
}

/// The string that a response carries.
pub fn unwrap_string(resp: JsonValue) -> (r: Result<String, WebDriverError>)
    ensures
        accepted(resp) matches Some(v) ==> match text_of(v) {
            Some(t) => (r matches Ok(s) && s@ == t),
            None => r == Err::<String, WebDriverError>(WebDriverError::Decode(Expected::Text)),
        },
        accepted(resp) is None ==> (r matches Err(e) && rejected_as(resp, e)),
{
    match unwrap(resp) {
        Ok(JsonValue::Str(s)) => Ok(s),
        Ok(_) => Err(WebDriverError::Decode(Expected::Text)),
        Err(e) => Err(e),
    }
}

/// The items, in order, of the array that a response carries.
pub fn unwrap_vec(resp: JsonValue) -> (r: Result<Vec<JsonValue>, WebDriverError>)
    ensures
        accepted(resp) matches Some(v) ==> match items_of(v) {
            Some(items) => (r matches Ok(x) && x@ == items),
            None => r == Err::<Vec<JsonValue>, WebDriverError>(
                WebDriverError::Decode(Expected::Array),
            ),
        },
        accepted(resp) is None ==> (r matches Err(e) && rejected_as(resp, e)),
{
    match unwrap(resp) {
        Ok(JsonValue::Array(items)) => Ok(items),
        Ok(_) => Err(WebDriverError::Decode(Expected::Array)),
        Err(e) => Err(e),
    }
}

/// The characters of the string member `key`.
pub open spec fn text_member(v: JsonValue, key: Seq<char>) -> Option<Seq<char>> {
    match member(v, key) {
        Some(x) => text_of(x),
        None => None,
    }
}

/// The integer member `key`.
pub open spec fn int_member(v: JsonValue, key: Seq<char>) -> Option<i64> {
    match member(v, key) {
        Some(JsonValue::Integer(n)) => Some(n),
        _ => None,
    }
}

/// An optional string member: absent or null gives `Some(None)`; a value of
/// another type gives `None`.
pub open spec fn opt_text(v: JsonValue, key: Seq<char>) -> Option<Option<Seq<char>>> {
    match member(v, key) {
        None => Some(None),
        Some(JsonValue::Null) => Some(None),
        Some(JsonValue::Str(s)) => Some(Some(s@)),
        Some(_) => None,
    }
}

/// An optional boolean member, read as `opt_text` reads strings.
pub open spec fn opt_bool(v: JsonValue, key: Seq<char>) -> Option<Option<bool>> {
    match member(v, key) {
        None => Some(None),
        Some(JsonValue::Null) => Some(None),
        Some(JsonValue::Bool(b)) => Some(Some(b)),
        Some(_) => None,
    }
}

/// An optional integer member, read as `opt_text` reads strings.
pub open spec fn opt_int(v: JsonValue, key: Seq<char>) -> Option<Option<i64>> {
    match member(v, key) {
        None => Some(None),
        Some(JsonValue::Null) => Some(None),
        Some(JsonValue::Integer(n)) => Some(Some(n)),
        Some(_) => None,
    }
}

pub open spec fn opt_view(o: Option<String>) -> Option<Seq<char>> {
    match o {
        Some(s) => Some(s@),
        None => None,
    }
}

/// The window geometry that a value describes.
pub open spec fn rect_of(v: JsonValue) -> Option<Rect> {
    match (int_member(v, "x"@), int_member(v, "y"@), int_member(v, "width"@), int_member(
        v,
        "height"@,
    )) {
        (Some(x), Some(y), Some(width), Some(height)) => Some(Rect { x, y, width, height }),
        _ => None,
    }
}

/// Whether a value describes a cookie.
pub open spec fn cookie_decodes(v: JsonValue) -> bool {
    &&& text_member(v, "name"@) is Some
    &&& text_member(v, "value"@) is Some
    &&& opt_text(v, "path"@) is Some
    &&& opt_text(v, "domain"@) is Some
    &&& opt_bool(v, "secure"@) is Some
    &&& opt_bool(v, "httpOnly"@) is Some
    &&& opt_int(v, "expiry"@) is Some
    &&& opt_text(v, "sameSite"@) is Some
}

/// Whether every value of `items` describes a cookie.
pub open spec fn all_cookies(items: Seq<JsonValue>) -> bool {
    forall|i: int| 0 <= i < items.len() ==> #[trigger] cookie_decodes(items[i])
}

/// Whether `c` holds exactly what the value `v` describes.
pub open spec fn cookie_from(c: Cookie, v: JsonValue) -> bool {
    &&& Some(c.name@) == text_member(v, "name"@)
    &&& Some(c.value@) == text_member(v, "value"@)
    &&& Some(opt_view(c.path)) == opt_text(v, "path"@)
    &&& Some(opt_view(c.domain)) == opt_text(v, "domain"@)
    &&& Some(c.secure) == opt_bool(v, "secure"@)
    &&& Some(c.http_only) == opt_bool(v, "httpOnly"@)
    &&& Some(c.expiry) == opt_int(v, "expiry"@)
    &&& Some(opt_view(c.same_site)) == opt_text(v, "sameSite"@)
}

fn text_field(v: &JsonValue, key: &str) -> (r: Option<String>)
    ensures
        opt_view(r) == text_member(*v, key@),
{
    match v.get(key) {
        Some(x) => match x.as_str() {
            Some(s) => Some(s.clone()),
            None => None,
        },
        None => None,
    }
}

fn int_field(v: &JsonValue, key: &str) -> (r: Option<i64>)
    ensures
        r == int_member(*v, key@),
{
    match v.get(key) {
        Some(JsonValue::Integer(n)) => Some(*n),
        _ => None,
    }
}

fn opt_text_field(v: &JsonValue, key: &str) -> (r: Option<Option<String>>)
    ensures
        r is Some <==> opt_text(*v, key@) is Some,
        r matches Some(o) ==> opt_view(o) == opt_text(*v, key@)->0,
{
    match v.get(key) {
        None => Some(None),
        Some(JsonValue::Null) => Some(None),
        Some(JsonValue::Str(s)) => Some(Some(s.clone())),
        Some(_) => None,
    }
}

fn opt_bool_field(v: &JsonValue, key: &str) -> (r: Option<Option<bool>>)
    ensures
        r == opt_bool(*v, key@),
{
    match v.get(key) {
        None => Some(None),
        Some(JsonValue::Null) => Some(None),
        Some(JsonValue::Bool(b)) => Some(Some(*b)),
        Some(_) => None,
    }
}

fn opt_int_field(v: &JsonValue, key: &str) -> (r: Option<Option<i64>>)
    ensures
        r == opt_int(*v, key@),
{
    match v.get(key) {
        None => Some(None),
        Some(JsonValue::Null) => Some(None),
        Some(JsonValue::Integer(n)) => Some(Some(*n)),
        Some(_) => None,
    }
}

/// The window geometry that a value describes.
pub fn decode_rect(v: &JsonValue) -> (r: Option<Rect>)
    ensures
        r == rect_of(*v),
{
    let x = int_field(v, "x");
    let y = int_field(v, "y");
    let width = int_field(v, "width");
    let height = int_field(v, "height");
    match (x, y, width, height) {
        (Some(x), Some(y), Some(width), Some(height)) => Some(Rect { x, y, width, height }),
        _ => None,
    }
}

/// The cookie that a value describes.
pub fn decode_cookie(v: &JsonValue) -> (r: Option<Cookie>)
    ensures
        r is Some <==> cookie_decodes(*v),
        r matches Some(c) ==> cookie_from(c, *v),
{
    let name = text_field(v, "name");
    let value = text_field(v, "value");
    let path = opt_text_field(v, "path");
    let domain = opt_text_field(v, "domain");
    let secure = opt_bool_field(v, "secure");
    let http_only = opt_bool_field(v, "httpOnly");
    let expiry = opt_int_field(v, "expiry");
    let same_site = opt_text_field(v, "sameSite");
    match (name, value, path, domain, secure, http_only, expiry, same_site) {
        (
            Some(name),
            Some(value),
            Some(path),
            Some(domain),
            Some(secure),
            Some(http_only),
            Some(expiry),
            Some(same_site),
        ) => Some(Cookie { name, value, path, domain, secure, http_only, expiry, same_site }),
        _ => None,
    }
}

fn opt_text_json(o: &Option<String>) -> (r: JsonValue)
    ensures
        o is None ==> r == JsonValue::Null,
        o matches Some(s) ==> (r matches JsonValue::Str(t) && t@ == s@),
{
    match o {
        Some(s) => JsonValue::Str(s.clone()),
        None => JsonValue::Null,
    }
}

/// A cookie as the protocol's JSON object: every attribute is written, an
/// absent one as null, so that reading it back gives the same cookie.
pub fn cookie_to_json(c: &Cookie) -> (r: JsonValue)
    ensures
        cookie_decodes(r),
        cookie_from(*c, r),
{
    proof {
        reveal_strlit("name");
        reveal_strlit("value");
        reveal_strlit("path");
        reveal_strlit("domain");
        reveal_strlit("secure");
        reveal_strlit("expiry");
        reveal_strlit("httpOnly");
        reveal_strlit("sameSite");
    }
    let mut fields: Vec<(String, JsonValue)> = Vec::new();
    fields.push(("name".to_owned(), JsonValue::Str(c.name.clone())));
    fields.push(("value".to_owned(), JsonValue::Str(c.value.clone())));
    fields.push(("path".to_owned(), opt_text_json(&c.path)));
    fields.push(("domain".to_owned(), opt_text_json(&c.domain)));
    fields.push(
        (
            "secure".to_owned(),
            match c.secure {
                Some(b) => JsonValue::Bool(b),
                None => JsonValue::Null,
            },
        ),
    );
    fields.push(
        (
            "httpOnly".to_owned(),
            match c.http_only {
                Some(b) => JsonValue::Bool(b),
                None => JsonValue::Null,
            },
        ),
    );
    fields.push(
        (
            "expiry".to_owned(),
            match c.expiry {
                Some(n) => JsonValue::Integer(n),
                None => JsonValue::Null,
            },
        ),
    );
    fields.push(("sameSite".to_owned(), opt_text_json(&c.same_site)));
    proof {
        let f = fields@;
        assert(f.len() == 8);
        assert(f[0].0@ == "name"@ && f[1].0@ == "value"@ && f[2].0@ == "path"@);
        assert(f[3].0@ == "domain"@ && f[4].0@ == "secure"@ && f[5].0@ == "httpOnly"@);
        assert(f[6].0@ == "expiry"@ && f[7].0@ == "sameSite"@);
        assert("name"@[0] != "path"@[0] && "name"@[0] != "value"@[0]);
        assert("value"@[0] != "path"@[0]);
        assert("domain"@[0] != "secure"@[0] && "domain"@[0] != "expiry"@[0]);
        assert("secure"@[0] != "expiry"@[0]);
        assert("httpOnly"@[0] != "name"@[0] && "httpOnly"@[0] != "value"@[0]);
        assert("httpOnly"@[0] != "path"@[0] && "httpOnly"@[0] != "domain"@[0]);
        assert("httpOnly"@[0] != "secure"@[0] && "httpOnly"@[0] != "expiry"@[0]);
        assert("sameSite"@[1] != "secure"@[1] && "sameSite"@[0] != "name"@[0]);
        assert("sameSite"@[0] != "value"@[0] && "sameSite"@[0] != "path"@[0]);
        assert("sameSite"@[0] != "domain"@[0] && "sameSite"@[0] != "expiry"@[0]);
        assert("sameSite"@[0] != "httpOnly"@[0]);
        reveal_with_fuel(crate::json::field_of, 9);
    }
    JsonValue::Object(fields)
}

/// Writing a cookie as JSON and reading it back gives the same cookie.
pub proof fn lemma_cookie_round_trip(c: Cookie, v: JsonValue, back: Cookie)
    requires
        cookie_from(c, v),
        cookie_from(back, v),
    ensures
        back.name@ == c.name@,
        back.value@ == c.value@,
        opt_view(back.path) == opt_view(c.path),
        opt_view(back.domain) == opt_view(c.domain),
        back.secure == c.secure,
        back.http_only == c.http_only,
        back.expiry == c.expiry,
        opt_view(back.same_site) == opt_view(c.same_site),
{
}

/// The window geometry that a response carries.
pub fn unwrap_rect(resp: JsonValue) -> (r: Result<Rect, WebDriverError>)
    ensures
        accepted(resp) matches Some(v) ==> match rect_of(v) {
            Some(rect) => r == Ok::<Rect, WebDriverError>(rect),
            None => r == Err::<Rect, WebDriverError>(WebDriverError::Decode(Expected::Rect)),
        },
        accepted(resp) is None ==> (r matches Err(e) && rejected_as(resp, e)),
{
    match unwrap(resp) {
        Ok(v) => match decode_rect(&v) {
            Some(rect) => Ok(rect),
            None => Err(WebDriverError::Decode(Expected::Rect)),
        },
        Err(e) => Err(e),
    }
}

/// The cookie that a response carries.
pub fn unwrap_cookie(resp: JsonValue) -> (r: Result<Cookie, WebDriverError>)
    ensures
        accepted(resp) matches Some(v) ==> if cookie_decodes(v) {
            r matches Ok(c) && cookie_from(c, v)
        } else {
            r == Err::<Cookie, WebDriverError>(WebDriverError::Decode(Expected::Cookie))
        },
        accepted(resp) is None ==> (r matches Err(e) && rejected_as(resp, e)),
{
    match unwrap(resp) {
        Ok(v) => match decode_cookie(&v) {
            Some(c) => Ok(c),
            None => Err(WebDriverError::Decode(Expected::Cookie)),
        },
        Err(e) => Err(e),
    }
}

/// The cookies, in order, that a response carries.
pub fn unwrap_cookies(resp: JsonValue) -> (r: Result<Vec<Cookie>, WebDriverError>)
    ensures
        accepted(resp) matches Some(v) ==> match items_of(v) {
            None => r == Err::<Vec<Cookie>, WebDriverError>(
                WebDriverError::Decode(Expected::Array),
            ),
            Some(items) => if all_cookies(items) {
                r matches Ok(cs) && cs@.len() == items.len() && forall|i: int|
                    0 <= i < items.len() ==> cookie_from(#[trigger] cs@[i], items[i])
            } else {
                r == Err::<Vec<Cookie>, WebDriverError>(WebDriverError::Decode(Expected::Cookie))
            },
        },
        accepted(resp) is None ==> (r matches Err(e) && rejected_as(resp, e)),
{
    let items = match unwrap_vec(resp) {
        Ok(items) => items,
        Err(e) => {
            return Err(e);
        },
    };
    let mut cookies: Vec<Cookie> = Vec::new();
    let mut i: usize = 0;
    while i < items.len()
        invariant
            i <= items@.len(),
            accepted(resp) is Some,
            items_of(accepted(resp)->0) == Some(items@),
            cookies@.len() == i,
            forall|j: int| 0 <= j < i ==> cookie_decodes(#[trigger] items@[j]),
            forall|j: int| 0 <= j < i ==> cookie_from(#[trigger] cookies@[j], items@[j]),
        decreases items@.len() - i,
    {
        match decode_cookie(&items[i]) {
            Some(c) => {
                cookies.push(c);
            },
            None => {
                assert(!cookie_decodes(items@[i as int]));
                assert(!all_cookies(items@));
                return Err(WebDriverError::Decode(Expected::Cookie));
            },
        }
        i = i + 1;
    }
    Ok(cookies)
}

/// The window handle that a response carries.
pub fn unwrap_window_handle(resp: JsonValue) -> (r: Result<WindowHandle, WebDriverError>)
    ensures
        accepted(resp) matches Some(v) ==> match text_of(v) {
            Some(t) => (r matches Ok(h) && h.handle@ == t),
            None => r == Err::<WindowHandle, WebDriverError>(
                WebDriverError::Decode(Expected::Text),
            ),
        },
        accepted(resp) is None ==> (r matches Err(e) && rejected_as(resp, e)),
{
    match unwrap_string(resp) {
        Ok(handle) => Ok(WindowHandle { handle }),
        Err(e) => Err(e),
    }
}

/// The window handles, in order, that a response carries.
pub fn unwrap_window_handles(resp: JsonValue) -> (r: Result<Vec<WindowHandle>, WebDriverError>)
    ensures
        accepted(resp) matches Some(v) ==> match items_of(v) {
            None => r == Err::<Vec<WindowHandle>, WebDriverError>(
                WebDriverError::Decode(Expected::Array),
            ),
            Some(items) => if forall|i: int| 0 <= i < items.len() ==> (#[trigger] text_of(items[i])) is Some {
                r matches Ok(hs) && hs@.len() == items.len() && forall|i: int|
                    0 <= i < items.len() ==> Some((#[trigger] hs@[i]).handle@) == text_of(items[i])
            } else {
                r == Err::<Vec<WindowHandle>, WebDriverError>(
                    WebDriverError::Decode(Expected::Text),
                )
            },
        },
        accepted(resp) is None ==> (r matches Err(e) && rejected_as(resp, e)),
{
    let items = match unwrap_vec(resp) {
        Ok(items) => items,
        Err(e) => {
            return Err(e);
        },
    };
    let mut handles: Vec<WindowHandle> = Vec::new();
    let mut i: usize = 0;
    while i < items.len()
        invariant
            i <= items@.len(),
            accepted(resp) is Some,
            items_of(accepted(resp)->0) == Some(items@),
            handles@.len() == i,
            forall|j: int| 0 <= j < i ==> (#[trigger] text_of(items@[j])) is Some,
            forall|j: int| 0 <= j < i ==> Some((#[trigger] handles@[j]).handle@) == text_of(items@[j]),
        decreases items@.len() - i,
    {
        match items[i].as_str() {
            Some(s) => {
                handles.push(WindowHandle { handle: s.clone() });
            },
            None => {
                return Err(WebDriverError::Decode(Expected::Text));
            },
        }
        i = i + 1;
    }
    Ok(handles)
}

} // verus!
