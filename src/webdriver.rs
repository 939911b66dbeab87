use vstd::prelude::*;
use crate::action_chain::ActionChain;
use crate::command::{By, Command, Cookie, OptionRect, SessionId, TimeoutConfiguration};
use crate::error::{Expected, WebDriverError};
use crate::json::{member, text_of, JsonValue};
use crate::response::{accepted, payload_of, rejected_as, unwrap, unwrap_string};

verus! {

/// The bytes that a base64 text in the standard alphabet encodes (padding may
/// be present or not), or `None` where the text is not such an encoding.
pub uninterp spec fn base64_decoded(s: Seq<char>) -> Option<Seq<u8>>;

/// The error type of `base64::decode`, carried only as far as it is mapped to
/// `WebDriverError::Decode`.
#[verifier::external_type_specification]
#[verifier::external_body]
pub struct ExBase64DecodeError(base64::DecodeError);

/// Relies on `base64::decode`: the decoded bytes, or an error where the text is
/// not valid base64. Its one panic, a length overflow, cannot happen for the
/// length of a `String`.
#[verifier::external_body]
fn decode_base64(s: &String) -> (r: Result<Vec<u8>, base64::DecodeError>)
    ensures
        r is Ok <==> base64_decoded(s@) is Some,
        r matches Ok(b) ==> b@ == base64_decoded(s@)->0,
{
    base64::decode(s)
}

/// The characters of a non-empty string value.
pub open spec fn nonempty_text(v: Option<JsonValue>) -> Option<Seq<char>> {
    match v {
        Some(x) => match text_of(x) {
            Some(t) => if t.len() > 0 {
                Some(t)
            } else {
                None
            },
            None => None,
        },
        None => None,
    }
}

/// The session id at the top level of a new-session response.
pub open spec fn top_level_id(resp: JsonValue) -> Option<Seq<char>> {
    nonempty_text(member(resp, "sessionId"@))
}

/// The session id nested in the payload of a new-session response.
pub open spec fn nested_id(resp: JsonValue) -> Option<Seq<char>> {
    match payload_of(resp) {
        Some(v) => nonempty_text(member(v, "sessionId"@)),
        None => None,
    }
}

/// The session a new-session response names: the top-level id where there is
/// one, else the nested one.
pub open spec fn resolved_session_id(resp: JsonValue) -> Option<Seq<char>> {
    if top_level_id(resp) is Some {
        top_level_id(resp)
    } else {
        nested_id(resp)
    }
}

/// Whether a member is there with content: not null and not an empty object.
pub open spec fn present(v: Option<JsonValue>) -> bool {
    match v {
        Some(JsonValue::Null) => false,
        Some(JsonValue::Object(fields)) => fields@.len() > 0,
        Some(_) => true,
        None => false,
    }
}

/// The capabilities nested under the payload of a new-session response.
pub open spec fn nested_capabilities(resp: JsonValue) -> Option<JsonValue> {
    match payload_of(resp) {
        Some(v) => member(v, "capabilities"@),
        None => None,
    }
}

/// Whether the top-level capabilities of a new-session response are the ones
/// it reports: they are there, and either they have content or there is no
/// nested member to prefer.
pub open spec fn top_level_capabilities_win(resp: JsonValue) -> bool {
    member(resp, "capabilities"@) is Some && (present(member(resp, "capabilities"@))
        || nested_capabilities(resp) is None)
}

/// The capabilities a new-session response reports: the top-level member where
/// it has content or stands alone, else the nested member, else null.
pub open spec fn negotiated_capabilities(resp: JsonValue) -> JsonValue {
    if top_level_capabilities_win(resp) {
        member(resp, "capabilities"@)->0
    } else {
        match nested_capabilities(resp) {
            Some(c) => c,
            None => JsonValue::Null,
        }
    }
}

fn is_present(v: Option<&JsonValue>) -> (r: bool)
    ensures
        r == present(
            match v {
                Some(x) => Some(*x),
                None => None,
            },
        ),
{
    match v {
        Some(JsonValue::Null) => false,
        Some(JsonValue::Object(fields)) => fields.len() > 0,
        Some(_) => true,
        None => false,
    }
}

/// The session id is taken at the top level where it is there, else nested
/// under the payload, and there is none where neither place holds one. The
/// capabilities are resolved in the same order.
pub proof fn lemma_session_id_resolution(resp: JsonValue)
    ensures
        present(member(resp, "capabilities"@)) ==> Some(negotiated_capabilities(resp)) == member(
            resp,
            "capabilities"@,
        ),
        nested_capabilities(resp) is None && member(resp, "capabilities"@) is Some ==> Some(
            negotiated_capabilities(resp),
        ) == member(resp, "capabilities"@),
        member(resp, "capabilities"@) is None && nested_capabilities(resp) is Some ==> Some(
            negotiated_capabilities(resp),
        ) == nested_capabilities(resp),
        member(resp, "capabilities"@) is None && nested_capabilities(resp) is None
            ==> negotiated_capabilities(resp) == JsonValue::Null,
        top_level_id(resp) is Some ==> resolved_session_id(resp) == top_level_id(resp),
        top_level_id(resp) is None ==> resolved_session_id(resp) == nested_id(resp),
        top_level_id(resp) is None && nested_id(resp) is None ==> resolved_session_id(
            resp,
        ) is None,
{
}

fn nonempty_string(v: Option<&JsonValue>) -> (r: Option<String>)
    ensures
        r is Some <==> nonempty_text(
            match v {
                Some(x) => Some(*x),
                None => None,
            },
        ) is Some,
        r matches Some(s) ==> Some(s@) == nonempty_text(
            match v {
                Some(x) => Some(*x),
                None => None,
            },
        ),
{
    match v {
        Some(x) => match x.as_str() {
            Some(s) => if s.as_str().is_empty() {
                None
            } else {
                Some(s.clone())
            },
            None => None,
        },
        None => None,
    }
}

/// The decoded bytes of a base64 screenshot.
pub fn decode_screenshot(s: &String) -> (r: Result<Vec<u8>, WebDriverError>)
    ensures
        match base64_decoded(s@) {
            Some(bytes) => (r matches Ok(b) && b@ == bytes),
            None => r == Err::<Vec<u8>, WebDriverError>(WebDriverError::Decode(Expected::Base64)),
        },
{
    match decode_base64(s) {
        Ok(bytes) => Ok(bytes),
        Err(_) => Err(WebDriverError::Decode(Expected::Base64)),
    }
}

/// The screenshot that a response carries, as image bytes.
pub fn screenshot_as_png(resp: JsonValue) -> (r: Result<Vec<u8>, WebDriverError>)
    ensures
        accepted(resp) matches Some(v) ==> match text_of(v) {
            Some(t) => match base64_decoded(t) {
                Some(bytes) => (r matches Ok(b) && b@ == bytes),
                None => r == Err::<Vec<u8>, WebDriverError>(
                    WebDriverError::Decode(Expected::Base64),
                ),
            },
            None => r == Err::<Vec<u8>, WebDriverError>(WebDriverError::Decode(Expected::Text)),
        },
        accepted(resp) is None ==> (r matches Err(e) && rejected_as(resp, e)),
{
    match unwrap_string(resp) {
        Ok(s) => decode_screenshot(&s),
        Err(e) => Err(e),
    }
}

/// The client side of one remote session: its id and the capabilities the server
/// negotiated. Each operation is a command addressed to this session; the
/// response is then read by the matching function of `response`.
#[derive(Debug)]
pub struct WebDriver {
    session_id: SessionId,
    capabilities: JsonValue,
}

impl WebDriver {
    /// The id of the session; empty once the session has been ended.
    pub closed spec fn id(&self) -> SessionId {
        self.session_id
    }

    /// The negotiated capabilities.
    pub closed spec fn caps(&self) -> JsonValue {
        self.capabilities
    }

    /// Whether the session has not been ended.
    pub open spec fn live(&self) -> bool {
        self.id().id@.len() > 0
    }

    /// The command that opens a session with the desired capabilities.
    pub fn new_session(capabilities: JsonValue) -> (r: Command)
        ensures
            r == Command::NewSession(capabilities),
    {
        Command::NewSession(capabilities)
    }

    /// The session that a new-session response opened.
    pub fn new(resp: JsonValue) -> (r: Result<WebDriver, WebDriverError>)
        ensures
            resolved_session_id(resp) matches Some(id) ==> (r matches Ok(d) && d.id().id@ == id
                && d.caps() == negotiated_capabilities(resp) && d.live()),
            resolved_session_id(resp) is None ==> r == Err::<WebDriver, WebDriverError>(
                WebDriverError::Initialization,
            ),
    {
        let top = nonempty_string(resp.get("sessionId"));
        let nested = match resp.get("value") {
            Some(v) => nonempty_string(v.get("sessionId")),
            None => None,
        };
        let nested_caps = match resp.get("value") {
            Some(v) => v.get("capabilities").is_some(),
            None => false,
        };
        let top_caps = match resp.get("capabilities") {
            Some(c) => is_present(Some(c)) || !nested_caps,
            None => false,
        };
        let id = match top {
            Some(id) => id,
            None => match nested {
                Some(id) => id,
                None => {
                    return Err(WebDriverError::Initialization);
                },
            },
        };
        let capabilities = if top_caps {
            match resp.into_member("capabilities") {
                Some(c) => c,
                None => JsonValue::Null,
            }
        } else {
            match resp.into_member("value") {
                Some(v) => match v.into_member("capabilities") {
                    Some(c) => c,
                    None => JsonValue::Null,
                },
                None => JsonValue::Null,
            }
        };
        Ok(WebDriver { session_id: SessionId { id }, capabilities })
    }

    pub fn session_id(&self) -> (r: &SessionId)
        ensures
            *r == self.id(),
    {
        &self.session_id
    }

    pub fn capabilities(&self) -> (r: &JsonValue)
        ensures
            *r == self.caps(),
    {
        &self.capabilities
    }

    /// Whether the session has not been ended.
    pub fn is_live(&self) -> (r: bool)
        ensures
            r == self.live(),
    {
        !self.session_id.id.as_str().is_empty()
    }

    /// The command that ends the session, once: the first call on a live session
    /// returns it and marks the session ended; any later call returns nothing.
    pub fn quit(&mut self) -> (r: Option<Command>)
        ensures
            old(self).live() ==> r == Some(Command::DeleteSession(old(self).id())),
            !old(self).live() ==> r is None,
            !final(self).live(),
            final(self).caps() == old(self).caps(),
    {
        if self.session_id.id.as_str().is_empty() {
            None
        } else {
            let id = self.session_id.duplicate();
            self.session_id = SessionId { id: String::new() };
            Some(Command::DeleteSession(id))
        }
    }

    /// The command that closes the current window.
    pub fn close(&self) -> (r: Command)
        ensures
            r == Command::CloseWindow(self.id()),
    {
        Command::CloseWindow(self.session_id.duplicate())
    }

    /// The command that navigates to `url`.
    pub fn get(&self, url: String) -> (r: Command)
        ensures
            r == Command::NavigateTo(self.id(), url),
    {
        Command::NavigateTo(self.session_id.duplicate(), url)
    }

    pub fn current_url(&self) -> (r: Command)
        ensures
            r == Command::GetCurrentUrl(self.id()),
    {
        Command::GetCurrentUrl(self.session_id.duplicate())
    }

    pub fn page_source(&self) -> (r: Command)
        ensures
            r == Command::GetPageSource(self.id()),
    {
        Command::GetPageSource(self.session_id.duplicate())
    }

    pub fn title(&self) -> (r: Command)
        ensures
            r == Command::GetTitle(self.id()),
    {
        Command::GetTitle(self.session_id.duplicate())
    }

    pub fn find_element(&self, by: By) -> (r: Command)
        ensures
            r == Command::FindElement(self.id(), by),
    {
        Command::FindElement(self.session_id.duplicate(), by)
    }

    pub fn find_elements(&self, by: By) -> (r: Command)
        ensures
            r == Command::FindElements(self.id(), by),
    {
        Command::FindElements(self.session_id.duplicate(), by)
    }

    pub fn execute_script(&self, script: &str, args: Vec<JsonValue>) -> (r: Command)
        ensures
            r matches Command::ExecuteScript(id, body, a) && id == self.id() && body@ == script@
                && a == args,
    {
        Command::ExecuteScript(self.session_id.duplicate(), script.to_owned(), args)
    }

    pub fn execute_async_script(&self, script: &str, args: Vec<JsonValue>) -> (r: Command)
        ensures
            r matches Command::ExecuteAsyncScript(id, body, a) && id == self.id() && body@
                == script@ && a == args,
    {
        Command::ExecuteAsyncScript(self.session_id.duplicate(), script.to_owned(), args)
    }

    pub fn current_window_handle(&self) -> (r: Command)
        ensures
            r == Command::GetWindowHandle(self.id()),
    {
        Command::GetWindowHandle(self.session_id.duplicate())
    }

    pub fn window_handles(&self) -> (r: Command)
        ensures
            r == Command::GetWindowHandles(self.id()),
    {
        Command::GetWindowHandles(self.session_id.duplicate())
    }

    pub fn mazimize_window(&self) -> (r: Command)
        ensures
            r == Command::MaximizeWindow(self.id()),
    {
        Command::MaximizeWindow(self.session_id.duplicate())
    }

    pub fn minimize_window(&self) -> (r: Command)
        ensures
            r == Command::MinimizeWindow(self.id()),
    {
        Command::MinimizeWindow(self.session_id.duplicate())
    }

    pub fn fullscreen_window(&self) -> (r: Command)
        ensures
            r == Command::FullscreenWindow(self.id()),
    {
        Command::FullscreenWindow(self.session_id.duplicate())
    }

    pub fn get_window_rect(&self) -> (r: Command)
        ensures
            r == Command::GetWindowRect(self.id()),
    {
        Command::GetWindowRect(self.session_id.duplicate())
    }

    pub fn set_window_rect(&self, rect: OptionRect) -> (r: Command)
        ensures
            r == Command::SetWindowRect(self.id(), rect),
    {
        Command::SetWindowRect(self.session_id.duplicate(), rect)
    }

    pub fn back(&self) -> (r: Command)
        ensures
            r == Command::Back(self.id()),
    {
        Command::Back(self.session_id.duplicate())
    }

    pub fn forward(&self) -> (r: Command)
        ensures
            r == Command::Forward(self.id()),
    {
        Command::Forward(self.session_id.duplicate())
    }

    pub fn refresh(&self) -> (r: Command)
        ensures
            r == Command::Refresh(self.id()),
    {
        Command::Refresh(self.session_id.duplicate())
    }

    /// Sets the timeouts that `timeouts` names, and only those.
    pub fn set_timeouts(&self, timeouts: TimeoutConfiguration) -> (r: Command)
        ensures
            r == Command::SetTimeouts(self.id(), timeouts),
    {
        Command::SetTimeouts(self.session_id.duplicate(), timeouts)
    }

    /// Sets the implicit wait, in milliseconds, and no other timeout.
    pub fn implicitly_wait(&self, millis: u64) -> (r: Command)
        ensures
            r == Command::SetTimeouts(
                self.id(),
                TimeoutConfiguration { script: None, page_load: None, implicit: Some(millis) },
            ),
    {
        self.set_timeouts(TimeoutConfiguration::new(None, None, Some(millis)))
    }

    /// Sets the script timeout, in milliseconds, and no other timeout.
    pub fn set_script_timeout(&self, millis: u64) -> (r: Command)
        ensures
            r == Command::SetTimeouts(
                self.id(),
                TimeoutConfiguration { script: Some(millis), page_load: None, implicit: None },
            ),
    {
        self.set_timeouts(TimeoutConfiguration::new(Some(millis), None, None))
    }

    /// Sets the page-load timeout, in milliseconds, and no other timeout.
    pub fn set_page_load_timeout(&self, millis: u64) -> (r: Command)
        ensures
            r == Command::SetTimeouts(
                self.id(),
                TimeoutConfiguration { script: None, page_load: Some(millis), implicit: None },
            ),
    {
        self.set_timeouts(TimeoutConfiguration::new(None, Some(millis), None))
    }

    /// A fresh, empty action sequence for this session.
    pub fn action_chain(&self) -> (r: ActionChain)
        ensures
            r.session_id == self.id(),
            r.actions@.len() == 0,
    {
        ActionChain::new(self.session_id.duplicate())
    }

    pub fn get_cookies(&self) -> (r: Command)
        ensures
            r == Command::GetAllCookies(self.id()),
    {
        Command::GetAllCookies(self.session_id.duplicate())
    }

    pub fn get_cookie(&self, name: &str) -> (r: Command)
        ensures
            r matches Command::GetNamedCookie(id, n) && id == self.id() && n@ == name@,
    {
        Command::GetNamedCookie(self.session_id.duplicate(), name.to_owned())
    }

    pub fn delete_cookie(&self, name: &str) -> (r: Command)
        ensures
            r matches Command::DeleteCookie(id, n) && id == self.id() && n@ == name@,
    {
        Command::DeleteCookie(self.session_id.duplicate(), name.to_owned())
    }

    pub fn delete_all_cookies(&self) -> (r: Command)
        ensures
            r == Command::DeleteAllCookies(self.id()),
    {
        Command::DeleteAllCookies(self.session_id.duplicate())
    }

    pub fn add_cookie(&self, cookie: Cookie) -> (r: Command)
        ensures
            r == Command::AddCookie(self.id(), cookie),
    {
        Command::AddCookie(self.session_id.duplicate(), cookie)
    }

    pub fn screenshot_as_base64(&self) -> (r: Command)
        ensures
            r == Command::TakeScreenshot(self.id()),
    {
        Command::TakeScreenshot(self.session_id.duplicate())
    }
}

} // verus!
