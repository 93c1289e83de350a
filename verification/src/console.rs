use vstd::prelude::*;

use crate::text::string_push;

verus! {

/// `String::pop` from std: removes and returns the last character, or `None` on an
/// empty string, which stays empty.
#[verifier::external_body]
fn string_pop(s: &mut String) -> (c: Option<char>)
    ensures
        old(s)@.len() == 0 ==> c is None && final(s)@ == old(s)@,
        old(s)@.len() > 0 ==> c == Some(old(s)@.last()) && final(s)@ == old(s)@.drop_last(),
{
    s.pop()
}

/// The commands entered at the console so far, oldest first.
#[derive(Debug, Clone, Default)]
pub struct ConsoleCommandHistory(pub Vec<String>);

impl View for ConsoleCommandHistory {
    type V = Seq<Seq<char>>;

    open spec fn view(&self) -> Seq<Seq<char>> {
        self.0@.map_values(|s: String| s@)
    }
}

/// The prompt of an open console: the text typed so far, and which entry of the
/// history it shows while the player walks through it (`None` while typing).
#[derive(Debug, Clone)]
pub struct ConsolePrompt {
    pub text: String,
    pub history_entry: Option<usize>,
}

/// The prompt as values.
#[verifier::ext_equal]
pub struct PromptView {
    pub text: Seq<char>,
    pub history_entry: Option<usize>,
}

impl View for ConsolePrompt {
    type V = PromptView;

    open spec fn view(&self) -> PromptView {
        PromptView { text: self.text@, history_entry: self.history_entry }
    }
}

/// A prompt whose history entry, if any, names an entry of `history`.
pub open spec fn spec_prompt_wf(p: PromptView, history: Seq<Seq<char>>) -> bool {
    match p.history_entry {
        Some(i) => i < history.len(),
        None => true,
    }
}

/// A key press delivered as text: a character, the space bar, or anything else.
#[derive(Debug, Clone, Copy, PartialEq, Eq, Structural)]
pub enum TypedKey {
    Character(char),
    Space,
    Other,
}

/// The console's keys this frame: which control keys were just pressed, and the keys
/// typed, in order.
#[derive(Debug, Clone)]
pub struct ConsoleKeys {
    pub escape: bool,
    pub enter: bool,
    pub backspace: bool,
    pub up: bool,
    pub down: bool,
    pub typed: Vec<TypedKey>,
}

/// What becomes of the console after a frame of input.
#[derive(Debug, Clone, PartialEq, Eq)]
pub enum PromptOutcome {
    /// The console stays open.
    Open,
    /// The console closes.
    Close,
    /// The command is run and the console closes.
    Run(String),
}

/// The text after the typed keys: characters and spaces are appended, others ignored.
pub open spec fn spec_type_keys(text: Seq<char>, typed: Seq<TypedKey>) -> Seq<char>
    decreases typed.len(),
{
    if typed.len() == 0 {
        text
    } else {
        let before = spec_type_keys(text, typed.drop_last());
        match typed.last() {
            TypedKey::Character(c) => before.push(c),
            TypedKey::Space => before.push(' '),
            TypedKey::Other => before,
        }
    }
}

/// The control key that acts this frame, by priority: escape, enter, backspace, up, down.
pub open spec fn spec_prompt_next(
    p: PromptView,
    history: Seq<Seq<char>>,
    escape: bool,
    enter: bool,
    backspace: bool,
    up: bool,
    down: bool,
    typed: Seq<TypedKey>,
) -> PromptView {
    if escape || enter {
        p
    } else if backspace {
        PromptView {
            text: if p.text.len() == 0 { p.text } else { p.text.drop_last() },
            history_entry: None,
        }
    } else if up {
        let i: usize = match p.history_entry {
            Some(i) => if i > 0 { (i - 1) as usize } else { i },
            None => (history.len() - 1) as usize,
        };
        PromptView { text: history[i as int], history_entry: Some(i) }
    } else if down {
        match p.history_entry {
            Some(i) => {
                let j: usize = if i < history.len() - 1 { (i + 1) as usize } else { i };
                PromptView { text: history[j as int], history_entry: Some(j) }
            },
            None => p,
        }
    } else if typed.len() == 0 {
        p
    } else {
        PromptView { text: spec_type_keys(p.text, typed), history_entry: None }
    }
}

impl ConsolePrompt {
    /// A fresh prompt, as the console opens.
    pub fn new() -> (p: Self)
        ensures
            p@.text == Seq::<char>::empty(),
            p@.history_entry is None,
    {
        ConsolePrompt { text: String::new(), history_entry: None }
    }

    /// Handles a frame of console input. Escape closes the console; enter records the
    /// command in the history and runs it; backspace removes the last character, and
    /// closes the console when there was none; up and down walk through the history;
    /// otherwise the typed keys are appended. Walking up with no entry shown starts at
    /// the newest command, so it needs a history.
    pub fn console_text_input(&mut self, keys: &ConsoleKeys, history: &mut ConsoleCommandHistory) -> (out:
        PromptOutcome)
        requires
            spec_prompt_wf(old(self)@, old(history)@),
            !keys.escape && !keys.enter && !keys.backspace && keys.up ==> old(history)@.len() > 0,
        ensures
            final(self)@ == spec_prompt_next(
                old(self)@,
                old(history)@,
                keys.escape,
                keys.enter,
                keys.backspace,
                keys.up,
                keys.down,
                keys.typed@,
            ),
            spec_prompt_wf(final(self)@, final(history)@),
            final(history)@ == (if !keys.escape && keys.enter {
                old(history)@.push(old(self)@.text)
            } else {
                old(history)@
            }),
            keys.escape ==> out == PromptOutcome::Close,
            !keys.escape && keys.enter ==> (out matches PromptOutcome::Run(cmd) && cmd@ == old(self)@.text),
            !keys.escape && !keys.enter && keys.backspace ==> out == (if old(self)@.text.len() == 0 {
                PromptOutcome::Close
            } else {
                PromptOutcome::Open
            }),
            !keys.escape && !keys.enter && !keys.backspace ==> out == PromptOutcome::Open,
    {
        if keys.escape {
            return PromptOutcome::Close;
        }
        if keys.enter {
            let cmd = self.text.clone();
            let ghost old_view = history@;
            history.0.push(self.text.clone());
            assert(history@ =~= old_view.push(self.text@));
            return PromptOutcome::Run(cmd);
        }
        if keys.backspace {
            let closes = self.text.unicode_len() == 0;
            let _ = string_pop(&mut self.text);
            self.history_entry = None;
            return if closes {
                PromptOutcome::Close
            } else {
                PromptOutcome::Open
            };
        }
        if keys.up {
            let i: usize = match self.history_entry {
                Some(i) => if i > 0 {
                    i - 1
                } else {
                    i
                },
                None => history.0.len() - 1,
            };
            self.history_entry = Some(i);
            self.text = history.0[i].clone();
            return PromptOutcome::Open;
        }
        if keys.down {
            match self.history_entry {
                Some(i) => {
                    let j: usize = if i < history.0.len() - 1 {
                        i + 1
                    } else {
                        i
                    };
                    self.history_entry = Some(j);
                    self.text = history.0[j].clone();
                },
                None => {},
            }
            return PromptOutcome::Open;
        }
        let mut k: usize = 0;
        let ghost start = self.text@;
        let ghost start_entry = self.history_entry;
        while k < keys.typed.len()
            invariant
                k <= keys.typed@.len(),
                k == 0 ==> self.history_entry == start_entry,
                self.text@ == spec_type_keys(start, keys.typed@.take(k as int)),
                k > 0 ==> self.history_entry is None,
                spec_prompt_wf(self@, history@),
            decreases keys.typed@.len() - k,
        {
            assert(keys.typed@.take(k + 1).drop_last() =~= keys.typed@.take(k as int));
            match keys.typed[k] {
                TypedKey::Character(c) => string_push(&mut self.text, c),
                TypedKey::Space => string_push(&mut self.text, ' '),
                TypedKey::Other => {},
            }
            self.history_entry = None;
            k = k + 1;
        }
        assert(keys.typed@.take(keys.typed@.len() as int) =~= keys.typed@);
        PromptOutcome::Open
    }
}

/// What the console toggle key does.
#[derive(Debug, Clone, Copy, PartialEq, Eq, Structural)]
pub enum ConsoleToggle {
    Spawn,
    Despawn,
    Nothing,
}

/// The toggle key opens the console where none is open and closes every open one.
pub fn toggle_console(pressed: bool, open_consoles: usize) -> (t: ConsoleToggle)
    ensures
        !pressed ==> t == ConsoleToggle::Nothing,
        pressed && open_consoles == 0 ==> t == ConsoleToggle::Spawn,
        pressed && open_consoles > 0 ==> t == ConsoleToggle::Despawn,
{
    if !pressed {
        ConsoleToggle::Nothing
    } else if open_consoles == 0 {
        ConsoleToggle::Spawn
    } else {
        ConsoleToggle::Despawn
    }
}

/// Typing a character and then pressing backspace leaves the text as it was.
pub proof fn lemma_backspace_undoes_typing(p: PromptView, history: Seq<Seq<char>>, c: char)
    ensures
        ({
            let typed = spec_prompt_next(p, history, false, false, false, false, false, seq![TypedKey::Character(c)]);
            let erased = spec_prompt_next(typed, history, false, false, true, false, false, Seq::empty());
            erased.text == p.text && erased.history_entry is None
        }),
{
    let typed_keys = seq![TypedKey::Character(c)];
    assert(typed_keys.drop_last() =~= Seq::<TypedKey>::empty());
    reveal_with_fuel(spec_type_keys, 2);
    assert(spec_type_keys(p.text, typed_keys) == p.text.push(c));
    assert(p.text.push(c).drop_last() =~= p.text);
}

/// Walking up from a fresh prompt shows the newest command; walking up never leaves
/// the history, and walking down from the newest stays there.
pub proof fn lemma_history_walk(p: PromptView, history: Seq<Seq<char>>)
    requires
        0 < history.len() <= usize::MAX,
        spec_prompt_wf(p, history),
    ensures
        p.history_entry is None ==> spec_prompt_next(p, history, false, false, false, true, false, Seq::empty())
            == (PromptView { text: history.last(), history_entry: Some((history.len() - 1) as usize) }),
        spec_prompt_wf(spec_prompt_next(p, history, false, false, false, true, false, Seq::empty()), history),
        spec_prompt_wf(spec_prompt_next(p, history, false, false, false, false, true, Seq::empty()), history),
        p.history_entry == Some((history.len() - 1) as usize) ==> spec_prompt_next(
            p,
            history,
            false,
            false,
            false,
            false,
            true,
            Seq::empty(),
        ).history_entry == p.history_entry,
{
}

} // verus!
