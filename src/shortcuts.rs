use crate::Actions;
use vstd::prelude::*;

verus! {

/// A key press: a letter key, with or without the platform's command modifier.
#[derive(Clone, Copy, Debug, PartialEq, Eq, Structural, Hash)]
pub struct KeyChord {
    /// The letter on the key, upper case.
    pub key: char,
    /// Whether the command modifier (Ctrl, or Cmd on macOS) is held.
    pub command: bool,
}

/// A letter key pressed alone.
pub open spec fn plain(key: char) -> KeyChord {
    KeyChord { key, command: false }
}

/// The keys that select an action.
#[derive(Clone, Debug)]
pub struct ActionKeyboardShortcuts {
    shortcuts: Vec<(Actions, KeyChord)>,
}

impl View for ActionKeyboardShortcuts {
    type V = Seq<(Actions, KeyChord)>;

    closed spec fn view(&self) -> Seq<(Actions, KeyChord)> {
        self.shortcuts@
    }
}

impl ActionKeyboardShortcuts {
    /// X explains, S summarizes, E edits, A asks.
    pub fn new() -> (r: Self)
        ensures
            r@ == seq![
                (Actions::Explain, plain('X')),
                (Actions::Summarize, plain('S')),
                (Actions::Edit, plain('E')),
                (Actions::Ask, plain('A')),
            ],
    {
        let shortcuts = vec![
            (Actions::Explain, KeyChord { key: 'X', command: false }),
            (Actions::Summarize, KeyChord { key: 'S', command: false }),
            (Actions::Edit, KeyChord { key: 'E', command: false }),
            (Actions::Ask, KeyChord { key: 'A', command: false }),
        ];
        ActionKeyboardShortcuts { shortcuts }
    }

    /// Retrieves the key that selects `action`, if there is one.
    pub fn get(&self, action: &Actions) -> (r: Option<KeyChord>)
        ensures
            match r {
                Some(k) => exists|i: int| 0 <= i < self@.len() && self@[i] == (*action, k),
                None => forall|i: int| 0 <= i < self@.len() ==> self@[i].0 != *action,
            },
    {
        let mut i: usize = 0;
        while i < self.shortcuts.len()
            invariant
                i <= self@.len(),
                self@ == self.shortcuts@,
                forall|j: int| 0 <= j < i ==> self@[j].0 != *action,
            decreases self@.len() - i,
        {
            let (a, k) = self.shortcuts[i];
            if a == *action {
                assert(self@[i as int] == (*action, k));
                return Some(k);
            }
            i = i + 1;
        }
        None
    }

    /// The bindings, in order.
    pub fn bindings(&self) -> (r: &Vec<(Actions, KeyChord)>)
        ensures
            r@ == self@,
    {
        &self.shortcuts
    }
}

impl Default for ActionKeyboardShortcuts {
    fn default() -> (r: Self)
        ensures
            r@ == seq![
                (Actions::Explain, plain('X')),
                (Actions::Summarize, plain('S')),
                (Actions::Edit, plain('E')),
                (Actions::Ask, plain('A')),
            ],
    {
        ActionKeyboardShortcuts::new()
    }
}

/// The key that sends the request.
#[derive(Clone, Copy, Debug)]
pub struct SubmitKeyboardShortcut {
    pub shortcut: KeyChord,
}

impl Default for SubmitKeyboardShortcut {
    /// Command and S.
    fn default() -> (r: Self)
        ensures
            r.shortcut == (KeyChord { key: 'S', command: true }),
    {
        SubmitKeyboardShortcut { shortcut: KeyChord { key: 'S', command: true } }
    }
}

/// The keys that act on a reply.
#[derive(Clone, Copy, Debug)]
pub struct ResponseKeyboardShortcuts {
    /// The key that copies the reply.
    pub copy: KeyChord,
}

impl Default for ResponseKeyboardShortcuts {
    /// C copies.
    fn default() -> (r: Self)
        ensures
            r.copy == plain('C'),
    {
        ResponseKeyboardShortcuts { copy: KeyChord { key: 'C', command: false } }
    }
}

} // verus!
