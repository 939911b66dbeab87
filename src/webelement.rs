use vstd::prelude::*;
use crate::command::{Command, ElementId, SessionId};
use crate::error::{Expected, WebDriverError};
use crate::json::{member, text_of, JsonValue};
use crate::keys::TypingData;
use crate::response::{accepted, items_of, rejected_as, unwrap, unwrap_vec};

verus! {

/// The member under which the protocol names an element.
pub open spec fn w3c_key() -> Seq<char> {
    "element-6066-11e4-a52e-4f735466cecf"@
}

/// The node id that an element reference names: its standard member, else the
/// legacy `ELEMENT` member.
pub open spec fn element_id_of(v: JsonValue) -> Option<Seq<char>> {
    match member(v, w3c_key()) {
        Some(x) if text_of(x) is Some => text_of(x),
        _ => match member(v, "ELEMENT"@) {
            Some(x) => text_of(x),
            None => None,
        },
    }
}

/// Whether every value of `items` is an element reference.
pub open spec fn all_elements(items: Seq<JsonValue>) -> bool {
    forall|i: int| 0 <= i < items.len() ==> (#[trigger] element_id_of(items[i])) is Some
}

/// A handle to a remote DOM node of one session. It holds no state of the node:
/// each operation is a fresh command.
#[derive(Debug, PartialEq, Eq)]
pub struct WebElement {
    pub element_id: ElementId,
    pub session_id: SessionId,
}

/// The node id that an element reference names.
pub fn decode_element_id(v: &JsonValue) -> (r: Option<String>)
    ensures
        r is Some <==> element_id_of(*v) is Some,
        r matches Some(s) ==> s@ == element_id_of(*v)->0,
{
    proof {
        reveal_strlit("element-6066-11e4-a52e-4f735466cecf");
    }
    match v.get("element-6066-11e4-a52e-4f735466cecf") {
        Some(x) => match x.as_str() {
            Some(s) => {
                return Some(s.clone());
            },
            None => {},
        },
        None => {},
    }
    match v.get("ELEMENT") {
        Some(x) => match x.as_str() {
            Some(s) => Some(s.clone()),
            None => None,
        },
        None => None,
    }
}

/// The element that a response carries, bound to `session_id`.
pub fn unwrap_element(session_id: &SessionId, resp: JsonValue) -> (r: Result<
    WebElement,
    WebDriverError,
>)
    ensures
        accepted(resp) matches Some(v) ==> match element_id_of(v) {
            Some(id) => (r matches Ok(e) && e.element_id.id@ == id && e.session_id == *session_id),
            None => r == Err::<WebElement, WebDriverError>(
                WebDriverError::Decode(Expected::Element),
            ),
        },
        accepted(resp) is None ==> (r matches Err(e) && rejected_as(resp, e)),
{
    match unwrap(resp) {
        Ok(v) => match decode_element_id(&v) {
            Some(id) => Ok(
                WebElement { element_id: ElementId { id }, session_id: session_id.duplicate() },
            ),
            None => Err(WebDriverError::Decode(Expected::Element)),
        },
        Err(e) => Err(e),
    }
}

/// The elements, in order, that a response carries, each bound to `session_id`
/// and to the node id of its own reference.
pub fn unwrap_elements(session_id: &SessionId, resp: JsonValue) -> (r: Result<
    Vec<WebElement>,
    WebDriverError,
>)
    ensures
        accepted(resp) matches Some(v) ==> match items_of(v) {
            None => r == Err::<Vec<WebElement>, WebDriverError>(
                WebDriverError::Decode(Expected::Array),
            ),
            Some(items) => if all_elements(items) {
                r matches Ok(es) && es@.len() == items.len() && forall|i: int|
                    0 <= i < items.len() ==> Some((#[trigger] es@[i]).element_id.id@)
                        == element_id_of(items[i]) && es@[i].session_id == *session_id
            } else {
                r == Err::<Vec<WebElement>, WebDriverError>(
                    WebDriverError::Decode(Expected::Element),
                )
            },
        },
        accepted(resp) is None ==> (r matches Err(e) && rejected_as(resp, e)),
{
    let items = match unwrap_vec(resp) {
        Ok(items) => items,
        Err(e) => {
            return Err(e);
        },
    };
    let mut elements: Vec<WebElement> = Vec::new();
    let mut i: usize = 0;
    while i < items.len()
        invariant
            i <= items@.len(),
            accepted(resp) is Some,
            items_of(accepted(resp)->0) == Some(items@),
            elements@.len() == i,
            forall|j: int| 0 <= j < i ==> (#[trigger] element_id_of(items@[j])) is Some,
            forall|j: int|
                0 <= j < i ==> Some((#[trigger] elements@[j]).element_id.id@) == element_id_of(
                    items@[j],
                ) && elements@[j].session_id == *session_id,
        decreases items@.len() - i,
    {
        match decode_element_id(&items[i]) {
            Some(id) => {
                elements.push(
                    WebElement { element_id: ElementId { id }, session_id: session_id.duplicate() },
                );
            },
            None => {
                assert(!all_elements(items@));
                return Err(WebDriverError::Decode(Expected::Element));
            },
        }
        i = i + 1;
    }
    Ok(elements)
}

impl WebElement {
    /// The command that clicks this node.
    pub fn click(&self) -> (r: Command)
        ensures
            r == Command::ElementClick(self.session_id, self.element_id),
    {
        Command::ElementClick(self.session_id.duplicate(), self.element_id.duplicate())
    }

    /// The command that clears this node's value.
    pub fn clear(&self) -> (r: Command)
        ensures
            r == Command::ElementClear(self.session_id, self.element_id),
    {
        Command::ElementClear(self.session_id.duplicate(), self.element_id.duplicate())
    }

    /// The command that reads this node's text.
    pub fn text(&self) -> (r: Command)
        ensures
            r == Command::GetElementText(self.session_id, self.element_id),
    {
        Command::GetElementText(self.session_id.duplicate(), self.element_id.duplicate())
    }

    /// The command that reads one of this node's attributes.
    pub fn get_attribute(&self, name: String) -> (r: Command)
        ensures
            r == Command::GetElementAttribute(self.session_id, self.element_id, name),
    {
        Command::GetElementAttribute(self.session_id.duplicate(), self.element_id.duplicate(), name)
    }

    /// The command that types `keys` into this node.
    pub fn send_keys(&self, keys: TypingData) -> (r: Command)
        ensures
            r == Command::ElementSendKeys(self.session_id, self.element_id, keys),
    {
        Command::ElementSendKeys(self.session_id.duplicate(), self.element_id.duplicate(), keys)
    }
}

/// Two handles that name different nodes issue commands that name different
/// nodes: a click on one is never a click on the other.
pub proof fn lemma_distinct_handles_distinct_commands(a: WebElement, b: WebElement)
    requires
        a.element_id != b.element_id,
    ensures
        Command::ElementClick(a.session_id, a.element_id) != Command::ElementClick(
            b.session_id,
            b.element_id,
        ),
        Command::GetElementText(a.session_id, a.element_id) != Command::GetElementText(
            b.session_id,
            b.element_id,
        ),
{
}

} // verus!
