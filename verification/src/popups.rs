//! The popups: a message to acknowledge, a choice between yes and no, a line
//! of text to type. A popup takes every key while it is open. Each has two
//! flags that do not depend on each other: open or not, finished or not.

use crate::keys::Key;
use crate::ui::{Completable, InputMode, InputReceptor, InputReturn};
use vstd::prelude::*;
use vstd::string::StringExecFns;

verus! {

/// A message popup, as a mathematical value.
pub ghost struct MessageWindowView {
    pub description: Seq<char>,
    pub active: bool,
    pub completed: bool,
}

impl MessageWindowView {
    /// The popup that `MessageWindow::new` makes: open, not acknowledged.
    pub open spec fn shown(description: Seq<char>) -> MessageWindowView {
        MessageWindowView { description, active: true, completed: false }
    }

    /// The popup that `MessageWindow::default` makes: closed, without text.
    pub open spec fn hidden() -> MessageWindowView {
        MessageWindowView { description: Seq::empty(), active: false, completed: false }
    }

    /// The popup after a key: Enter acknowledges it, no other key does
    /// anything.
    pub open spec fn pressed(self, key: Key) -> MessageWindowView {
        match key {
            Key::Enter => MessageWindowView { completed: true, ..self },
            _ => self,
        }
    }
}

/// A popup that shows a text until the user acknowledges it with Enter.
pub struct MessageWindow {
    description: String,
    is_active: bool,
    is_done: bool,
}

impl View for MessageWindow {
    type V = MessageWindowView;

    closed spec fn view(&self) -> MessageWindowView {
        MessageWindowView {
            description: self.description@,
            active: self.is_active,
            completed: self.is_done,
        }
    }
}

impl Default for MessageWindow {
    fn default() -> (popup: MessageWindow)
        ensures
            popup@ == MessageWindowView::hidden(),
    {
        MessageWindow { description: String::new(), is_active: false, is_done: false }
    }
}

impl MessageWindow {
    /// An open popup with the given text.
    pub fn new(popup_message: String) -> (popup: MessageWindow)
        ensures
            popup@ == MessageWindowView::shown(popup_message@),
    {
        MessageWindow { description: popup_message, is_active: true, is_done: false }
    }

    /// The text that the popup shows.
    pub fn description(&self) -> (text: &String)
        ensures
            text@ == self@.description,
    {
        &self.description
    }
}

impl Completable for MessageWindow {
    open spec fn completed(&self) -> bool {
        self@.completed
    }

    open spec fn active(&self) -> bool {
        self@.active
    }

    fn is_completed(&self) -> (completed: bool) {
        self.is_done
    }

    fn reset_completion(&mut self)
        ensures
            final(self)@ == (MessageWindowView { completed: false, ..old(self)@ }),
    {
        self.is_done = false;
    }

    fn is_active(&self) -> (active: bool) {
        self.is_active
    }

    fn set_active(&mut self, new_active: bool)
        ensures
            final(self)@ == (MessageWindowView { active: new_active, ..old(self)@ }),
    {
        self.is_active = new_active;
    }
}

impl InputReceptor for MessageWindow {
    fn handle_input_key(&mut self, key_code: Key) -> (consumed: bool)
        ensures
            consumed,
            final(self)@ == old(self)@.pressed(key_code),
    {
        match key_code {
            Key::Enter => {
                self.is_done = true;
            },
            _ => {},
        }
        true
    }

    fn get_controls_description(&self) -> (controls: String)
        ensures
            controls@ == "Press enter to continue"@,
    {
        String::from_str("Press enter to continue")
    }

    fn get_input_mode(&self) -> (mode: InputMode)
        ensures
            mode == InputMode::CommandMode,
    {
        InputMode::CommandMode
    }
}

/// A yes-or-no popup, as a mathematical value.
pub ghost struct BinaryChoiceView {
    pub choice_message: Seq<char>,
    pub current_choice: bool,
    pub completed: bool,
    pub active: bool,
}

impl BinaryChoiceView {
    /// The popup that `BinaryChoice::new` makes: open, on "no", not
    /// confirmed.
    pub open spec fn shown(choice_message: Seq<char>) -> BinaryChoiceView {
        BinaryChoiceView { choice_message, current_choice: false, completed: false, active: true }
    }

    /// The popup that `BinaryChoice::default` makes: closed, without text.
    pub open spec fn hidden() -> BinaryChoiceView {
        BinaryChoiceView {
            choice_message: Seq::empty(),
            current_choice: false,
            completed: false,
            active: false,
        }
    }

    /// The popup after a key: Left moves to "yes", Right moves to "no",
    /// Enter confirms, no other key does anything.
    pub open spec fn pressed(self, key: Key) -> BinaryChoiceView {
        match key {
            Key::Left => BinaryChoiceView { current_choice: true, ..self },
            Key::Right => BinaryChoiceView { current_choice: false, ..self },
            Key::Enter => BinaryChoiceView { completed: true, ..self },
            _ => self,
        }
    }
}

/// A popup that asks a question with the answers yes, on the left, and no,
/// on the right. There is no key that closes it without an answer.
pub struct BinaryChoice {
    choice_message: String,
    current_choice: bool,
    is_completed: bool,
    is_active: bool,
}

impl View for BinaryChoice {
    type V = BinaryChoiceView;

    closed spec fn view(&self) -> BinaryChoiceView {
        BinaryChoiceView {
            choice_message: self.choice_message@,
            current_choice: self.current_choice,
            completed: self.is_completed,
            active: self.is_active,
        }
    }
}

impl Default for BinaryChoice {
    fn default() -> (popup: BinaryChoice)
        ensures
            popup@ == BinaryChoiceView::hidden(),
    {
        BinaryChoice {
            choice_message: String::new(),
            current_choice: false,
            is_completed: false,
            is_active: false,
        }
    }
}

impl BinaryChoice {
    /// An open popup with the given question, on "no".
    pub fn new(message: String) -> (popup: BinaryChoice)
        ensures
            popup@ == BinaryChoiceView::shown(message@),
    {
        BinaryChoice {
            choice_message: message,
            current_choice: false,
            is_completed: false,
            is_active: true,
        }
    }

    /// The answer that the popup stands on: `true` for yes.
    pub fn get_choice(&self) -> (choice: bool)
        ensures
            choice == self@.current_choice,
    {
        self.current_choice
    }

    /// The question that the popup asks.
    pub fn choice_message(&self) -> (text: &String)
        ensures
            text@ == self@.choice_message,
    {
        &self.choice_message
    }
}

impl InputReceptor for BinaryChoice {
    fn handle_input_key(&mut self, key_code: Key) -> (consumed: bool)
        ensures
            consumed,
            final(self)@ == old(self)@.pressed(key_code),
    {
        match key_code {
            Key::Left => {
                self.current_choice = true;
            },
            Key::Right => {
                self.current_choice = false;
            },
            Key::Enter => {
                self.is_completed = true;
            },
            _ => {},
        }
        true
    }

    fn get_controls_description(&self) -> (controls: String)
        ensures
            controls@ == "<-: Go Left  |  ->: Go Right  |  Enter: Confirm Selection "@,
    {
        String::from_str("<-: Go Left  |  ->: Go Right  |  Enter: Confirm Selection ")
    }

    fn get_input_mode(&self) -> (mode: InputMode)
        ensures
            mode == InputMode::CommandMode,
    {
        InputMode::CommandMode
    }
}

impl Completable for BinaryChoice {
    open spec fn completed(&self) -> bool {
        self@.completed
    }

    open spec fn active(&self) -> bool {
        self@.active
    }

    fn is_completed(&self) -> (completed: bool) {
        self.is_completed
    }

    fn reset_completion(&mut self)
        ensures
            final(self)@ == (BinaryChoiceView { completed: false, ..old(self)@ }),
    {
        self.is_completed = false;
    }

    fn is_active(&self) -> (active: bool) {
        self.is_active
    }

    fn set_active(&mut self, new_active: bool)
        ensures
            final(self)@ == (BinaryChoiceView { active: new_active, ..old(self)@ }),
    {
        self.is_active = new_active;
    }
}

/// A text popup, as a mathematical value.
pub ghost struct InputWindowView {
    pub description: Seq<char>,
    pub input: Seq<char>,
    pub active: bool,
    pub completed: bool,
}

impl InputWindowView {
    /// The popup that `InputWindow::new` makes: open, nothing typed, not
    /// finished.
    pub open spec fn shown(description: Seq<char>) -> InputWindowView {
        InputWindowView { description, input: Seq::empty(), active: true, completed: false }
    }

    /// The popup that `InputWindow::default` makes: closed, without text.
    pub open spec fn hidden() -> InputWindowView {
        InputWindowView {
            description: Seq::empty(),
            input: Seq::empty(),
            active: false,
            completed: false,
        }
    }

    /// The popup after a key: a character joins the end of the text,
    /// Backspace removes the last character if there is one, Enter finishes,
    /// Escape closes without finishing, no other key does anything.
    pub open spec fn pressed(self, key: Key) -> InputWindowView {
        match key {
            Key::Char(c) => InputWindowView { input: self.input.push(c), ..self },
            Key::Backspace => if self.input.len() > 0 {
                InputWindowView { input: self.input.drop_last(), ..self }
            } else {
                self
            },
            Key::Enter => InputWindowView { completed: true, ..self },
            Key::Esc => InputWindowView { active: false, ..self },
            _ => self,
        }
    }

    /// The popup after one character key for each character of `text`, in
    /// order.
    pub open spec fn typed(self, text: Seq<char>) -> InputWindowView
        decreases text.len(),
    {
        if text.len() == 0 {
            self
        } else {
            self.typed(text.drop_last()).pressed(Key::Char(text.last()))
        }
    }

    /// The popup as its owner leaves it once it has read the text: closed
    /// and no longer finished.
    pub open spec fn retired(self) -> InputWindowView {
        InputWindowView { active: false, completed: false, ..self }
    }
}

/// Typing a text into a popup appends it to what was typed before and
/// touches nothing else.
pub proof fn lemma_typing_appends(popup: InputWindowView, text: Seq<char>)
    ensures
        popup.typed(text) == (InputWindowView { input: popup.input + text, ..popup }),
    decreases text.len(),
{
    if text.len() == 0 {
        assert(popup.input + text =~= popup.input);
    } else {
        lemma_typing_appends(popup, text.drop_last());
        assert((popup.input + text.drop_last()).push(text.last()) =~= popup.input + text);
    }
}

/// A text typed into a fresh popup, then one Backspace, then Enter: the
/// popup is finished and still open, and holds the text without its last
/// character. Once its owner has retired it, it is neither finished nor
/// open, and still holds that text.
pub proof fn lemma_type_erase_confirm(description: Seq<char>, text: Seq<char>)
    requires
        text.len() > 0,
    ensures
        ({
            let popup = InputWindowView::shown(description).typed(text).pressed(
                Key::Backspace,
            ).pressed(Key::Enter);
            &&& popup.completed
            &&& popup.active
            &&& popup.input == text.drop_last()
            &&& !popup.retired().completed
            &&& !popup.retired().active
            &&& popup.retired().input == text.drop_last()
        }),
{
    lemma_typing_appends(InputWindowView::shown(description), text);
    assert(Seq::<char>::empty() + text =~= text);
}

/// A popup in which the user types one line of text. Enter finishes it,
/// Escape closes it unfinished. An empty text is accepted: to refuse one is
/// up to the owner.
pub struct InputWindow {
    description: String,
    input_string: String,
    is_active: bool,
    message_input_finished: bool,
}

impl View for InputWindow {
    type V = InputWindowView;

    closed spec fn view(&self) -> InputWindowView {
        InputWindowView {
            description: self.description@,
            input: self.input_string@,
            active: self.is_active,
            completed: self.message_input_finished,
        }
    }
}

impl Default for InputWindow {
    fn default() -> (popup: InputWindow)
        ensures
            popup@ == InputWindowView::hidden(),
    {
        InputWindow {
            description: String::new(),
            input_string: String::new(),
            is_active: false,
            message_input_finished: false,
        }
    }
}

impl InputWindow {
    /// An open popup with the given prompt and nothing typed.
    pub fn new(popup_description: String) -> (popup: InputWindow)
        ensures
            popup@ == InputWindowView::shown(popup_description@),
    {
        InputWindow {
            description: popup_description,
            input_string: String::new(),
            is_active: true,
            message_input_finished: false,
        }
    }

    /// Replaces what has been typed.
    pub fn set_input_string(&mut self, new_input_string: String)
        ensures
            final(self)@ == (InputWindowView { input: new_input_string@, ..old(self)@ }),
    {
        self.input_string = new_input_string;
    }

    /// The prompt that the popup shows.
    pub fn description(&self) -> (text: &String)
        ensures
            text@ == self@.description,
    {
        &self.description
    }

    /// Closes the popup and clears its finished flag; the text stays.
    pub fn retire(&mut self)
        ensures
            final(self)@ == old(self)@.retired(),
    {
        self.is_active = false;
        self.message_input_finished = false;
    }
}

impl Completable for InputWindow {
    open spec fn completed(&self) -> bool {
        self@.completed
    }

    open spec fn active(&self) -> bool {
        self@.active
    }

    fn is_completed(&self) -> (completed: bool) {
        self.message_input_finished
    }

    fn reset_completion(&mut self)
        ensures
            final(self)@ == (InputWindowView { completed: false, ..old(self)@ }),
    {
        self.message_input_finished = false;
    }

    fn is_active(&self) -> (active: bool) {
        self.is_active
    }

    fn set_active(&mut self, new_active: bool)
        ensures
            final(self)@ == (InputWindowView { active: new_active, ..old(self)@ }),
    {
        self.is_active = new_active;
    }
}

impl InputReturn for InputWindow {
    open spec fn input_data(&self) -> Seq<char> {
        self@.input
    }

    fn get_input_data(&self) -> (data: String) {
        self.input_string.clone()
    }
}

impl InputReceptor for InputWindow {
    fn handle_input_key(&mut self, key_code: Key) -> (consumed: bool)
        ensures
            consumed,
            final(self)@ == old(self)@.pressed(key_code),
    {
        match key_code {
            Key::Char(c) => {
                self.input_string.push(c);
            },
            Key::Backspace => {
                let _ = self.input_string.pop();
            },
            Key::Enter => {
                self.message_input_finished = true;
            },
            Key::Esc => {
                self.set_active(false);
            },
            _ => {},
        };
        true
    }

    fn get_controls_description(&self) -> (controls: String)
        ensures
            controls@ == "esc - Cancel | Enter - Confirm entry"@,
    {
        String::from_str("esc - Cancel | Enter - Confirm entry")
    }

    fn get_input_mode(&self) -> (mode: InputMode)
        ensures
            mode == InputMode::CommandMode,
    {
        InputMode::CommandMode
    }
}

} // verus!
