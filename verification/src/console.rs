//! What the user sees: log lines and the escape sequences around them.

use colored::Colorize;
use vstd::prelude::*;
use vstd::string::*;

verus! {

/// The colors of the log.
#[derive(Clone, Copy, Debug, PartialEq, Eq, Structural)]
pub enum Tint {
    Red,
    Green,
    Yellow,
    Blue,
    White,
}

/// A text for the log, with its color. Log texts are bold.
#[derive(Debug, PartialEq, Eq)]
pub struct Message {
    pub text: String,
    pub tint: Tint,
}

/// The view of a [`Message`].
pub struct MessageView {
    pub text: Seq<char>,
    pub tint: Tint,
}

impl View for Message {
    type V = MessageView;

    open spec fn view(&self) -> MessageView {
        MessageView { text: self.text@, tint: self.tint }
    }
}

/// The escape sequence that switches to bold text of a color.
pub open spec fn tint_on(tint: Tint) -> Seq<char> {
    match tint {
        Tint::Red => "\x1B[1;31m"@,
        Tint::Green => "\x1B[1;32m"@,
        Tint::Yellow => "\x1B[1;33m"@,
        Tint::Blue => "\x1B[1;34m"@,
        Tint::White => "\x1B[1;37m"@,
    }
}

/// The escape sequence that ends colors and styles.
pub open spec fn tint_off() -> Seq<char> {
    "\x1B[0m"@
}

/// `text` with the opening sequence repeated after each closing sequence in it,
/// so that the color goes on.
pub open spec fn reopened(text: Seq<char>, tint: Tint) -> Seq<char>
    decreases text.len(),
{
    let off = tint_off();
    if text.len() == 0 {
        text
    } else if 0 < off.len() && off.is_prefix_of(text) {
        off + tint_on(tint) + reopened(text.skip(off.len() as int), tint)
    } else {
        seq![text[0]] + reopened(text.drop_first(), tint)
    }
}

/// `shown` is what a terminal that shows colors, or one that does not, is sent
/// for the text: the text between the two escape sequences, or bare.
pub open spec fn is_painted(shown: Seq<char>, text: Seq<char>, tint: Tint) -> bool {
    shown == text || shown == tint_on(tint) + reopened(text, tint) + tint_off()
}

/// Calls `Colorize::color` and `Colorize::bold` on the text and formats the
/// `ColoredString` with its `Display`. Whether colors are shown is decided by
/// the environment (or by an override), which is taken not to change while the
/// text is formatted.
#[verifier::external_body]
pub(crate) fn paint(text: &str, tint: Tint) -> (shown: String)
    ensures
        is_painted(shown@, text@, tint),
{
    let color = match tint {
        Tint::Red => colored::Color::Red,
        Tint::Green => colored::Color::Green,
        Tint::Yellow => colored::Color::Yellow,
        Tint::Blue => colored::Color::Blue,
        Tint::White => colored::Color::White,
    };
    text.color(color).bold().to_string()
}

/// What every line of the log starts with.
pub open spec fn log_prefix() -> Seq<char> {
    "🏁 CHECKPOINT: "@
}

/// A line of the log, made of its prefix and its text as they are shown.
pub fn log_line(prefix: &str, text: &str) -> (line: String)
    ensures
        line@ == prefix@ + text@ + "\n"@,
{
    prefix.to_owned().concat(text).concat("\n")
}

/// The line of the log that shows a message.
pub fn log(message: &Message) -> (line: String)
    ensures
        exists|prefix: Seq<char>, text: Seq<char>|
            #![trigger prefix + text]
            is_painted(prefix, log_prefix(), Tint::Blue) && is_painted(
                text,
                message@.text,
                message@.tint,
            ) && line@ == prefix + text + "\n"@,
{
    let prefix = paint("🏁 CHECKPOINT: ", Tint::Blue);
    let text = paint(message.text.as_str(), message.tint);
    let line = log_line(prefix.as_str(), text.as_str());
    assert(line@ == prefix@ + text@ + "\n"@);
    line
}

/// A text without an escape character is shown as it is, between the two escape
/// sequences or bare.
pub proof fn painted_plain_text(shown: Seq<char>, text: Seq<char>, tint: Tint)
    requires
        is_painted(shown, text, tint),
        !text.contains('\x1B'),
    ensures
        shown == text || shown == tint_on(tint) + text + tint_off(),
{
    lemma_reopened_plain_text(text, tint);
}

proof fn lemma_reopened_plain_text(text: Seq<char>, tint: Tint)
    requires
        !text.contains('\x1B'),
    ensures
        reopened(text, tint) == text,
    decreases text.len(),
{
    reveal_strlit("\x1B[0m");
    if text.len() > 0 {
        assert(text.contains(text[0]));
        assert(!tint_off().is_prefix_of(text)) by {
            if tint_off().is_prefix_of(text) {
                assert(text.subrange(0, 4)[0] == tint_off()[0]);
            }
        }
        assert(!text.drop_first().contains('\x1B')) by {
            if text.drop_first().contains('\x1B') {
                let i = choose|i: int|
                    0 <= i < text.drop_first().len() && text.drop_first()[i] == '\x1B';
                assert(text[i + 1] == '\x1B');
            }
        }
        lemma_reopened_plain_text(text.drop_first(), tint);
        assert(seq![text[0]] + text.drop_first() =~= text);
    }
}

/// Clears an ANSI terminal and puts the cursor at the top left.
pub fn clear() -> (sequence: String)
    ensures
        sequence@ == "\x1B[2J\x1B[1;1H"@,
{
    "\x1B[2J\x1B[1;1H".to_owned()
}


/// A text without an escape character is shown in bold and in its color, or bare.
pub proof fn painted_text_in_each_color(shown: Seq<char>, text: Seq<char>, tint: Tint)
    requires
        is_painted(shown, text, tint),
        !text.contains('\x1B'),
    ensures
        shown == text || shown == match tint {
            Tint::Red => "\x1B[1;31m"@,
            Tint::Green => "\x1B[1;32m"@,
            Tint::Yellow => "\x1B[1;33m"@,
            Tint::Blue => "\x1B[1;34m"@,
            Tint::White => "\x1B[1;37m"@,
        } + text + "\x1B[0m"@,
{
    painted_plain_text(shown, text, tint);
}

/// What every line of the log starts with is shown in bold blue, or bare.
pub proof fn log_lines_start_with_the_flag(shown: Seq<char>)
    requires
        is_painted(shown, log_prefix(), Tint::Blue),
    ensures
        shown == "🏁 CHECKPOINT: "@ || shown == "\x1B[1;34m"@ + "🏁 CHECKPOINT: "@ + "\x1B[0m"@,
{
    reveal_strlit("🏁 CHECKPOINT: ");
    painted_text_in_each_color(shown, log_prefix(), Tint::Blue);
}

} // verus!
