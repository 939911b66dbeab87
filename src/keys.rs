use vstd::prelude::*;
use vstd::std_specs::iter::IteratorSpec;

verus! {

/// A symbolic (non-printable) key, sent to the remote end as a single code point
/// of the Unicode private-use area.
#[derive(Clone, Copy, Debug, PartialEq, Eq, Structural)]
pub enum Keys {
    Null,
    Cancel,
    Help,
    Backspace,
    Tab,
    Clear,
    Return,
    Enter,
    Shift,
    Control,
    Alt,
    Pause,
    Escape,
    Space,
    PageUp,
    PageDown,
    End,
    Home,
    Left,
    Up,
    Right,
    Down,
    Insert,
    Delete,
    Semicolon,
    Equals,
    NumPad0,
    NumPad1,
    NumPad2,
    NumPad3,
    NumPad4,
    NumPad5,
    NumPad6,
    NumPad7,
    NumPad8,
    NumPad9,
    Multiply,
    Add,
    Separator,
    Subtract,
    Decimal,
    Divide,
    F1,
    F2,
    F3,
    F4,
    F5,
    F6,
    F7,
    F8,
    F9,
    F10,
    F11,
    F12,
    Meta,
    Command,
}

impl Keys {
    /// The protocol code point of a key. `Meta` and `Command` share one code point.
    pub open spec fn code(self) -> char {
        match self {
            Keys::Null => '\u{e000}',
            Keys::Cancel => '\u{e001}',
            Keys::Help => '\u{e002}',
            Keys::Backspace => '\u{e003}',
            Keys::Tab => '\u{e004}',
            Keys::Clear => '\u{e005}',
            Keys::Return => '\u{e006}',
            Keys::Enter => '\u{e007}',
            Keys::Shift => '\u{e008}',
            Keys::Control => '\u{e009}',
            Keys::Alt => '\u{e00a}',
            Keys::Pause => '\u{e00b}',
            Keys::Escape => '\u{e00c}',
            Keys::Space => '\u{e00d}',
            Keys::PageUp => '\u{e00e}',
            Keys::PageDown => '\u{e00f}',
            Keys::End => '\u{e010}',
            Keys::Home => '\u{e011}',
            Keys::Left => '\u{e012}',
            Keys::Up => '\u{e013}',
            Keys::Right => '\u{e014}',
            Keys::Down => '\u{e015}',
            Keys::Insert => '\u{e016}',
            Keys::Delete => '\u{e017}',
            Keys::Semicolon => '\u{e018}',
            Keys::Equals => '\u{e019}',
            Keys::NumPad0 => '\u{e01a}',
            Keys::NumPad1 => '\u{e01b}',
            Keys::NumPad2 => '\u{e01c}',
            Keys::NumPad3 => '\u{e01d}',
            Keys::NumPad4 => '\u{e01e}',
            Keys::NumPad5 => '\u{e01f}',
            Keys::NumPad6 => '\u{e020}',
            Keys::NumPad7 => '\u{e021}',
            Keys::NumPad8 => '\u{e022}',
            Keys::NumPad9 => '\u{e023}',
            Keys::Multiply => '\u{e024}',
            Keys::Add => '\u{e025}',
            Keys::Separator => '\u{e026}',
            Keys::Subtract => '\u{e027}',
            Keys::Decimal => '\u{e028}',
            Keys::Divide => '\u{e029}',
            Keys::F1 => '\u{e031}',
            Keys::F2 => '\u{e032}',
            Keys::F3 => '\u{e033}',
            Keys::F4 => '\u{e034}',
            Keys::F5 => '\u{e035}',
            Keys::F6 => '\u{e036}',
            Keys::F7 => '\u{e037}',
            Keys::F8 => '\u{e038}',
            Keys::F9 => '\u{e039}',
            Keys::F10 => '\u{e03a}',
            Keys::F11 => '\u{e03b}',
            Keys::F12 => '\u{e03c}',
            Keys::Meta => '\u{e03d}',
            Keys::Command => '\u{e03d}',
        }
    }

    pub fn value(&self) -> (r: char)
        ensures
            r == self.code(),
    {
        match self {
            Keys::Null => '\u{e000}',
            Keys::Cancel => '\u{e001}',
            Keys::Help => '\u{e002}',
            Keys::Backspace => '\u{e003}',
            Keys::Tab => '\u{e004}',
            Keys::Clear => '\u{e005}',
            Keys::Return => '\u{e006}',
            Keys::Enter => '\u{e007}',
            Keys::Shift => '\u{e008}',
            Keys::Control => '\u{e009}',
            Keys::Alt => '\u{e00a}',
            Keys::Pause => '\u{e00b}',
            Keys::Escape => '\u{e00c}',
            Keys::Space => '\u{e00d}',
            Keys::PageUp => '\u{e00e}',
            Keys::PageDown => '\u{e00f}',
            Keys::End => '\u{e010}',
            Keys::Home => '\u{e011}',
            Keys::Left => '\u{e012}',
            Keys::Up => '\u{e013}',
            Keys::Right => '\u{e014}',
            Keys::Down => '\u{e015}',
            Keys::Insert => '\u{e016}',
            Keys::Delete => '\u{e017}',
            Keys::Semicolon => '\u{e018}',
            Keys::Equals => '\u{e019}',
            Keys::NumPad0 => '\u{e01a}',
            Keys::NumPad1 => '\u{e01b}',
            Keys::NumPad2 => '\u{e01c}',
            Keys::NumPad3 => '\u{e01d}',
            Keys::NumPad4 => '\u{e01e}',
            Keys::NumPad5 => '\u{e01f}',
            Keys::NumPad6 => '\u{e020}',
            Keys::NumPad7 => '\u{e021}',
            Keys::NumPad8 => '\u{e022}',
            Keys::NumPad9 => '\u{e023}',
            Keys::Multiply => '\u{e024}',
            Keys::Add => '\u{e025}',
            Keys::Separator => '\u{e026}',
            Keys::Subtract => '\u{e027}',
            Keys::Decimal => '\u{e028}',
            Keys::Divide => '\u{e029}',
            Keys::F1 => '\u{e031}',
            Keys::F2 => '\u{e032}',
            Keys::F3 => '\u{e033}',
            Keys::F4 => '\u{e034}',
            Keys::F5 => '\u{e035}',
            Keys::F6 => '\u{e036}',
            Keys::F7 => '\u{e037}',
            Keys::F8 => '\u{e038}',
            Keys::F9 => '\u{e039}',
            Keys::F10 => '\u{e03a}',
            Keys::F11 => '\u{e03b}',
            Keys::F12 => '\u{e03c}',
            Keys::Meta => '\u{e03d}',
            Keys::Command => '\u{e03d}',
        }
    }
}

impl core::ops::Add for Keys {
    type Output = TypingData;

    /// Two keys pressed in sequence: exactly their two code points, in order.
    fn add(self, rhs: Keys) -> (r: TypingData)
        ensures
            r@ == seq![self.code(), rhs.code()],
    {
        let mut data: Vec<char> = Vec::new();
        data.push(self.value());
        data.push(rhs.value());
        TypingData { data }
    }
}

impl vstd::std_specs::ops::AddSpecImpl for Keys {
    open spec fn obeys_add_spec() -> bool {
        false
    }

    open spec fn add_req(self, rhs: Keys) -> bool {
        true
    }

    open spec fn add_spec(self, rhs: Keys) -> TypingData {
        arbitrary()
    }
}

/// A composed input string: the ordered code points sent as one input operation.
#[derive(Debug)]
pub struct TypingData {
    data: Vec<char>,
}

impl View for TypingData {
    type V = Seq<char>;

    closed spec fn view(&self) -> Seq<char> {
        self.data@
    }
}

impl TypingData {
    /// The composed text as a string.
    pub fn to_string(&self) -> (r: String)
        ensures
            r@ == self@,
    {
        string_of_chars(&self.data)
    }

    /// The composed code points, in order.
    pub fn as_vec(&self) -> (r: Vec<char>)
        ensures
            r@ == self@,
    {
        self.data.clone()
    }
}

/// Relies on `String`'s `FromIterator<char>`: the string holds the given
/// characters in order.
#[verifier::external_body]
fn string_of_chars(v: &Vec<char>) -> (r: String)
    ensures
        r@ == v@,
{
    v.iter().collect()
}

impl From<String> for TypingData {
    /// A literal string as its sequence of Unicode scalar values.
    fn from(value: String) -> (r: TypingData)
        ensures
            r@ == value@,
    {
        broadcast use vstd::string::axiom_spec_iter, vstd::string::next_postcondition;

        let mut data: Vec<char> = Vec::new();
        let mut it = value.as_str().chars();
        loop
            invariant
                data@ + it.remaining() == value@,
                it.decrease() is Some,
            ensures
                data@ == value@,
            decreases it.decrease()->0,
        {
            match it.next() {
                Some(c) => {
                    data.push(c);
                },
                None => {
                    assert(data@ =~= value@);
                    break;
                },
            }
        }
        TypingData { data }
    }
}

impl vstd::std_specs::convert::FromSpecImpl<String> for TypingData {
    open spec fn obeys_from_spec() -> bool {
        false
    }

    open spec fn from_spec(v: String) -> TypingData {
        arbitrary()
    }
}

impl core::ops::Add for TypingData {
    type Output = TypingData;

    /// Concatenation: the left operand's code points, then the right one's.
    fn add(self, rhs: TypingData) -> (r: TypingData)
        ensures
            r@ == self@ + rhs@,
    {
        let mut data = self.data;
        let mut rest = rhs.data;
        data.append(&mut rest);
        TypingData { data }
    }
}

impl vstd::std_specs::ops::AddSpecImpl for TypingData {
    open spec fn obeys_add_spec() -> bool {
        false
    }

    open spec fn add_req(self, rhs: TypingData) -> bool {
        true
    }

    open spec fn add_spec(self, rhs: TypingData) -> TypingData {
        arbitrary()
    }
}

impl core::ops::Add<Keys> for TypingData {
    type Output = TypingData;

    /// Appends the key's code point.
    fn add(self, rhs: Keys) -> (r: TypingData)
        ensures
            r@ == self@.push(rhs.code()),
    {
        let mut data = self.data;
        data.push(rhs.value());
        TypingData { data }
    }
}

impl vstd::std_specs::ops::AddSpecImpl<Keys> for TypingData {
    open spec fn obeys_add_spec() -> bool {
        false
    }

    open spec fn add_req(self, rhs: Keys) -> bool {
        true
    }

    open spec fn add_spec(self, rhs: Keys) -> TypingData {
        arbitrary()
    }
}

/// Concatenation of typing data is associative: `(a + b) + c` and `a + (b + c)`
/// hold the same code points.
pub proof fn lemma_concat_associative(a: TypingData, b: TypingData, c: TypingData)
    ensures
        (a@ + b@) + c@ == a@ + (b@ + c@),
{
    assert((a@ + b@) + c@ =~= a@ + (b@ + c@));
}

/// `Meta` and `Command` are one key to the remote end: same code point.
pub proof fn lemma_meta_is_command()
    ensures
        Keys::Meta.code() == Keys::Command.code(),
{
}

} // verus!
