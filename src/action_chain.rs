use vstd::prelude::*;
use crate::command::{Command, SessionId};
use crate::keys::Keys;

verus! {

/// One input step of an action sequence.
#[derive(Clone, Copy, Debug, PartialEq, Eq, Structural)]
pub enum Action {
    KeyDown(char),
    KeyUp(char),
    PointerMove(i64, i64),
    PointerDown(u8),
    PointerUp(u8),
    Pause(u64),
}

fn push_keystroke(actions: &mut Vec<Action>, c: char)
    ensures
        final(actions)@ == old(actions)@.push(Action::KeyDown(c)).push(Action::KeyUp(c)),
{
    actions.push(Action::KeyDown(c));
    actions.push(Action::KeyUp(c));
}

proof fn lemma_keystroke_appended(s: Seq<Action>, c: char)
    ensures
        s.push(Action::KeyDown(c)).push(Action::KeyUp(c)).len() == s.len() + 2,
        s.push(Action::KeyDown(c)).push(Action::KeyUp(c))[s.len() as int] == Action::KeyDown(c),
        s.push(Action::KeyDown(c)).push(Action::KeyUp(c))[s.len() + 1int] == Action::KeyUp(c),
        forall|j: int|
            0 <= j < s.len() ==> #[trigger] s.push(Action::KeyDown(c)).push(Action::KeyUp(c))[j]
                == s[j],
{
}

/// Accumulates input steps for one session, to be performed as one action.
#[derive(Debug)]
pub struct ActionChain {
    pub session_id: SessionId,
    pub actions: Vec<Action>,
}

impl ActionChain {
    /// An empty sequence for the given session.
    pub fn new(session_id: SessionId) -> (r: ActionChain)
        ensures
            r.session_id == session_id,
            r.actions@ == Seq::<Action>::empty(),
    {
        ActionChain { session_id, actions: Vec::new() }
    }

    fn step(self, a: Action) -> (r: ActionChain)
        ensures
            r.session_id == self.session_id,
            r.actions@ == self.actions@.push(a),
    {
        let mut actions = self.actions;
        actions.push(a);
        ActionChain { session_id: self.session_id, actions }
    }

    /// Presses a key (without releasing it).
    pub fn key_down(self, key: Keys) -> (r: ActionChain)
        ensures
            r.session_id == self.session_id,
            r.actions@ == self.actions@.push(Action::KeyDown(key.code())),
    {
        let c = key.value();
        self.step(Action::KeyDown(c))
    }

    /// Releases a key.
    pub fn key_up(self, key: Keys) -> (r: ActionChain)
        ensures
            r.session_id == self.session_id,
            r.actions@ == self.actions@.push(Action::KeyUp(key.code())),
    {
        let c = key.value();
        self.step(Action::KeyUp(c))
    }

    /// Presses and releases each character of `text`, in order.
    pub fn send_keys(self, text: &Vec<char>) -> (r: ActionChain)
        ensures
            r.session_id == self.session_id,
            r.actions@.len() == self.actions@.len() + 2 * text@.len(),
            r.actions@.subrange(0, self.actions@.len() as int) == self.actions@,
            forall|i: int|
                0 <= i < text@.len() ==> r.actions@[self.actions@.len() + 2 * i] == Action::KeyDown(
                    text@[i],
                ) && r.actions@[self.actions@.len() + 2 * i + 1] == Action::KeyUp(text@[i]),
    {
        let mut actions = self.actions;
        let ghost start = actions@;
        let mut i: usize = 0;
        while i < text.len()
            invariant
                i <= text@.len(),
                actions@.len() == start.len() + 2 * i,
                actions@.subrange(0, start.len() as int) == start,
                forall|j: int|
                    0 <= j < i ==> actions@[start.len() + 2 * j] == Action::KeyDown(text@[j])
                        && actions@[start.len() + 2 * j + 1] == Action::KeyUp(text@[j]),
            decreases text@.len() - i,
        {
            let c = text[i];
            let ghost before = actions@;
            push_keystroke(&mut actions, c);
            proof {
                lemma_keystroke_appended(before, c);
            }
            assert(actions@.subrange(0, start.len() as int) =~= start);
            i = i + 1;
        }
        ActionChain { session_id: self.session_id, actions }
    }

    /// Moves the pointer to a point of the viewport.
    pub fn move_to(self, x: i64, y: i64) -> (r: ActionChain)
        ensures
            r.session_id == self.session_id,
            r.actions@ == self.actions@.push(Action::PointerMove(x, y)),
    {
        self.step(Action::PointerMove(x, y))
    }

    /// Presses and releases the primary pointer button.
    pub fn click(self) -> (r: ActionChain)
        ensures
            r.session_id == self.session_id,
            r.actions@ == self.actions@.push(Action::PointerDown(0)).push(Action::PointerUp(0)),
    {
        self.step(Action::PointerDown(0)).step(Action::PointerUp(0))
    }

    /// Drags from one point to another with the primary button held.
    pub fn drag(self, from_x: i64, from_y: i64, to_x: i64, to_y: i64) -> (r: ActionChain)
        ensures
            r.session_id == self.session_id,
            r.actions@ == self.actions@.push(Action::PointerMove(from_x, from_y)).push(
                Action::PointerDown(0),
            ).push(Action::PointerMove(to_x, to_y)).push(Action::PointerUp(0)),
    {
        self.step(Action::PointerMove(from_x, from_y)).step(Action::PointerDown(0)).step(
            Action::PointerMove(to_x, to_y),
        ).step(Action::PointerUp(0))
    }

    /// Waits between steps.
    pub fn pause(self, millis: u64) -> (r: ActionChain)
        ensures
            r.session_id == self.session_id,
            r.actions@ == self.actions@.push(Action::Pause(millis)),
    {
        self.step(Action::Pause(millis))
    }

    /// The whole sequence as one command, addressed to the chain's session.
    pub fn perform(self) -> (r: Command)
        ensures
            r == Command::PerformActions(self.session_id, self.actions),
    {
        Command::PerformActions(self.session_id, self.actions)
    }
}

} // verus!
