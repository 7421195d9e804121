//! The commands that the controller takes from a line of text.

use vstd::prelude::*;
use vstd::string::StringExecFns;
use crate::button::Button;
use crate::state::ControllerState;
use crate::state::ControllerView;

verus! {

/// A command: the closed set of what a token can ask for.
#[derive(Debug, Clone, Copy, PartialEq, Eq, Structural)]
pub enum Command {
    /// Hold a button.
    Press(Button),
    /// Put the left stick at `(x, y)`.
    LeftStick { x: u8, y: u8 },
    /// End the session.
    Quit,
}

/// The command that a token names, if it names one. Tokens are matched as
/// they stand: lower case, nothing around them.
pub open spec fn spec_parse(token: Seq<char>) -> Option<Command> {
    if token == "a"@ {
        Some(Command::Press(Button::A))
    } else if token == "b"@ {
        Some(Command::Press(Button::B))
    } else if token == "x"@ {
        Some(Command::Press(Button::X))
    } else if token == "y"@ {
        Some(Command::Press(Button::Y))
    } else if token == "l"@ {
        Some(Command::Press(Button::L))
    } else if token == "r"@ {
        Some(Command::Press(Button::R))
    } else if token == "zl"@ {
        Some(Command::Press(Button::ZL))
    } else if token == "zr"@ {
        Some(Command::Press(Button::ZR))
    } else if token == "minus"@ {
        Some(Command::Press(Button::MINUS))
    } else if token == "plus"@ {
        Some(Command::Press(Button::PLUS))
    } else if token == "lstick"@ {
        Some(Command::Press(Button::LSTICK))
    } else if token == "rstick"@ {
        Some(Command::Press(Button::RSTICK))
    } else if token == "home"@ {
        Some(Command::Press(Button::HOME))
    } else if token == "capture"@ {
        Some(Command::Press(Button::CAPTURE))
    } else if token == "up"@ {
        Some(Command::LeftStick { x: 128, y: 0 })
    } else if token == "down"@ {
        Some(Command::LeftStick { x: 128, y: 255 })
    } else if token == "left"@ {
        Some(Command::LeftStick { x: 0, y: 128 })
    } else if token == "right"@ {
        Some(Command::LeftStick { x: 255, y: 128 })
    } else if token == "center"@ {
        Some(Command::LeftStick { x: 128, y: 128 })
    } else if token == "quit"@ {
        Some(Command::Quit)
    } else {
        None
    }
}

/// Whether a character is white space: one of the characters with the
/// Unicode property White_Space.
pub open spec fn is_white_space(c: char) -> bool {
    let n = c as u32;
    ||| 0x09 <= n <= 0x0D
    ||| n == 0x20
    ||| n == 0x85
    ||| n == 0xA0
    ||| n == 0x1680
    ||| 0x2000 <= n <= 0x200A
    ||| n == 0x2028
    ||| n == 0x2029
    ||| n == 0x202F
    ||| n == 0x205F
    ||| n == 0x3000
}

/// The text without the white space at its start.
pub open spec fn trimmed_start(text: Seq<char>) -> Seq<char>
    decreases text.len(),
{
    if text.len() > 0 && is_white_space(text[0]) {
        trimmed_start(text.drop_first())
    } else {
        text
    }
}

/// The text without the white space at its end.
pub open spec fn trimmed_end(text: Seq<char>) -> Seq<char>
    decreases text.len(),
{
    if text.len() > 0 && is_white_space(text.last()) {
        trimmed_end(text.drop_last())
    } else {
        text
    }
}

/// The line without the white space at its two ends.
pub open spec fn trimmed(line: Seq<char>) -> Seq<char> {
    trimmed_end(trimmed_start(line))
}

/// What a text comes to in lower case: the result of `str::to_lowercase`.
pub uninterp spec fn lowercased(text: Seq<char>) -> Seq<char>;

/// `str::trim`: the text without the leading and trailing characters that
/// have the Unicode property White_Space.
#[verifier::external_body]
fn trim(line: &str) -> (r: &str)
    ensures
        r@ == trimmed(line@),
{
    line.trim()
}

/// `str::to_lowercase`: the text in lower case.
#[verifier::external_body]
fn to_lowercase(text: &str) -> (r: String)
    ensures
        r@ == lowercased(text@),
{
    text.to_lowercase()
}

fn is(token: &String, word: &str) -> (r: bool)
    ensures
        r == (token@ == word@),
{
    let w = String::from_str(word);
    *token == w
}

impl Command {
    /// The command that a token names. `None` is the answer to every token
    /// that names none.
    pub fn parse(token: &str) -> (r: Option<Command>)
        ensures
            r == spec_parse(token@),
    {
        let t = String::from_str(token);
        if is(&t, "a") {
            Some(Command::Press(Button::A))
        } else if is(&t, "b") {
            Some(Command::Press(Button::B))
        } else if is(&t, "x") {
            Some(Command::Press(Button::X))
        } else if is(&t, "y") {
            Some(Command::Press(Button::Y))
        } else if is(&t, "l") {
            Some(Command::Press(Button::L))
        } else if is(&t, "r") {
            Some(Command::Press(Button::R))
        } else if is(&t, "zl") {
            Some(Command::Press(Button::ZL))
        } else if is(&t, "zr") {
            Some(Command::Press(Button::ZR))
        } else if is(&t, "minus") {
            Some(Command::Press(Button::MINUS))
        } else if is(&t, "plus") {
            Some(Command::Press(Button::PLUS))
        } else if is(&t, "lstick") {
            Some(Command::Press(Button::LSTICK))
        } else if is(&t, "rstick") {
            Some(Command::Press(Button::RSTICK))
        } else if is(&t, "home") {
            Some(Command::Press(Button::HOME))
        } else if is(&t, "capture") {
            Some(Command::Press(Button::CAPTURE))
        } else if is(&t, "up") {
            Some(Command::LeftStick { x: 128, y: 0 })
        } else if is(&t, "down") {
            Some(Command::LeftStick { x: 128, y: 255 })
        } else if is(&t, "left") {
            Some(Command::LeftStick { x: 0, y: 128 })
        } else if is(&t, "right") {
            Some(Command::LeftStick { x: 255, y: 128 })
        } else if is(&t, "center") {
            Some(Command::LeftStick { x: 128, y: 128 })
        } else if is(&t, "quit") {
            Some(Command::Quit)
        } else {
            None
        }
    }

    /// The command that a line of input names: the line is trimmed and put
    /// in lower case, and what is left is read as a token.
    pub fn parse_line(line: &str) -> (r: Option<Command>)
        ensures
            r == spec_parse(lowercased(trimmed(line@))),
    {
        let core = trim(line);
        let lower = to_lowercase(core);
        Command::parse(lower.as_str())
    }
}

/// A trimmed line neither begins nor ends with white space, and a line that
/// does neither is its own trimmed form.
pub proof fn lemma_trimmed_is_tight(line: Seq<char>)
    ensures
        trimmed(line).len() > 0 ==> !is_white_space(trimmed(line)[0]) && !is_white_space(
            trimmed(line).last(),
        ),
        trimmed(line).len() <= line.len(),
        line.len() > 0 && !is_white_space(line[0]) && !is_white_space(line.last()) ==> trimmed(
            line,
        ) == line,
        line.len() == 0 ==> trimmed(line) == line,
{
    lemma_start_is_tight(line);
    lemma_end_keeps_start(trimmed_start(line));
}

proof fn lemma_start_is_tight(text: Seq<char>)
    ensures
        trimmed_start(text).len() <= text.len(),
        trimmed_start(text).len() > 0 ==> !is_white_space(trimmed_start(text)[0]),
    decreases text.len(),
{
    if text.len() > 0 && is_white_space(text[0]) {
        lemma_start_is_tight(text.drop_first());
    }
}

proof fn lemma_end_keeps_start(text: Seq<char>)
    ensures
        trimmed_end(text).len() <= text.len(),
        trimmed_end(text).len() > 0 ==> !is_white_space(trimmed_end(text).last())
            && trimmed_end(text)[0] == text[0],
    decreases text.len(),
{
    if text.len() > 0 && is_white_space(text.last()) {
        lemma_end_keeps_start(text.drop_last());
    }
}

impl ControllerView {
    /// The state after a command.
    pub open spec fn apply(self, command: Command) -> ControllerView {
        match command {
            Command::Press(button) => self.press(button),
            Command::LeftStick { x, y } => self.with_left_stick(x, y),
            Command::Quit => self,
        }
    }
}

impl ControllerState {
    /// Carries out a command on the state. `Quit` changes nothing.
    pub fn apply(&mut self, command: Command)
        ensures
            final(self)@ == old(self)@.apply(command),
    {
        match command {
            Command::Press(button) => self.press_button(button),
            Command::LeftStick { x, y } => self.set_left_stick(x, y),
            Command::Quit => {},
        }
    }
}

} // verus!
