use vstd::prelude::*;
use crate::action_chain::Action;
use crate::json::JsonValue;
use crate::keys::TypingData;

verus! {

/// The identifier of a remote session, as the server issued it.
#[derive(Debug, PartialEq, Eq)]
pub struct SessionId {
    pub id: String,
}

impl SessionId {
    pub fn new(id: String) -> (r: SessionId)
        ensures
            r.id == id,
    {
        SessionId { id }
    }

    /// A copy of this identifier, for a handle that addresses the same session.
    pub fn duplicate(&self) -> (r: SessionId)
        ensures
            r == *self,
    {
        SessionId { id: self.id.clone() }
    }
}

/// The identifier of a browser window.
#[derive(Debug, PartialEq, Eq)]
pub struct WindowHandle {
    pub handle: String,
}

/// The server-assigned identifier of a DOM node.
#[derive(Debug, PartialEq, Eq)]
pub struct ElementId {
    pub id: String,
}

impl ElementId {
    pub fn duplicate(&self) -> (r: ElementId)
        ensures
            r == *self,
    {
        ElementId { id: self.id.clone() }
    }
}

/// A strategy and value for locating elements.
#[derive(Debug, PartialEq, Eq)]
pub enum By {
    Id(String),
    XPath(String),
    LinkText(String),
    PartialLinkText(String),
    Name(String),
    Tag(String),
    ClassName(String),
    Css(String),
}

/// Window geometry.
#[derive(Debug, PartialEq, Eq)]
pub struct Rect {
    pub x: i64,
    pub y: i64,
    pub width: i64,
    pub height: i64,
}

/// Window geometry to set; an absent field is left as it is.
#[derive(Debug, PartialEq, Eq)]
pub struct OptionRect {
    pub x: Option<i64>,
    pub y: Option<i64>,
    pub width: Option<i64>,
    pub height: Option<i64>,
}

/// Timeouts in milliseconds; an absent category is left unchanged by the server.
#[derive(Debug, PartialEq, Eq)]
pub struct TimeoutConfiguration {
    pub script: Option<u64>,
    pub page_load: Option<u64>,
    pub implicit: Option<u64>,
}

impl TimeoutConfiguration {
    pub fn new(script: Option<u64>, page_load: Option<u64>, implicit: Option<u64>) -> (r:
        TimeoutConfiguration)
        ensures
            r.script == script,
            r.page_load == page_load,
            r.implicit == implicit,
    {
        TimeoutConfiguration { script, page_load, implicit }
    }
}

/// A cookie with its optional attributes.
#[derive(Debug, PartialEq, Eq)]
pub struct Cookie {
    pub name: String,
    pub value: String,
    pub path: Option<String>,
    pub domain: Option<String>,
    pub secure: Option<bool>,
    pub http_only: Option<bool>,
    pub expiry: Option<i64>,
    pub same_site: Option<String>,
}

/// One protocol operation with the operands needed to send it. Every variant but
/// `NewSession` names the session it addresses.
#[derive(Debug)]
pub enum Command {
    NewSession(JsonValue),
    DeleteSession(SessionId),
    NavigateTo(SessionId, String),
    GetCurrentUrl(SessionId),
    Back(SessionId),
    Forward(SessionId),
    Refresh(SessionId),
    GetTitle(SessionId),
    GetWindowHandle(SessionId),
    CloseWindow(SessionId),
    GetWindowHandles(SessionId),
    GetWindowRect(SessionId),
    SetWindowRect(SessionId, OptionRect),
    MaximizeWindow(SessionId),
    MinimizeWindow(SessionId),
    FullscreenWindow(SessionId),
    FindElement(SessionId, By),
    FindElements(SessionId, By),
    GetPageSource(SessionId),
    ExecuteScript(SessionId, String, Vec<JsonValue>),
    ExecuteAsyncScript(SessionId, String, Vec<JsonValue>),
    GetAllCookies(SessionId),
    GetNamedCookie(SessionId, String),
    AddCookie(SessionId, Cookie),
    DeleteCookie(SessionId, String),
    DeleteAllCookies(SessionId),
    TakeScreenshot(SessionId),
    SetTimeouts(SessionId, TimeoutConfiguration),
    PerformActions(SessionId, Vec<Action>),
    ElementClick(SessionId, ElementId),
    ElementClear(SessionId, ElementId),
    GetElementText(SessionId, ElementId),
    GetElementAttribute(SessionId, ElementId, String),
    ElementSendKeys(SessionId, ElementId, TypingData),
}

} // verus!
