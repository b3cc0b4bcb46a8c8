//! The chat view: a scrollable transcript with a line of input.
use vstd::prelude::*;
use crate::keys::{clamped_step, clamped_steps, lemma_downs, lemma_steps_hold_at_ends, lemma_steps_in_range, lemma_ups, Key};
use crate::message::Message;
use crate::text::{pop_char, push_char};

verus! {

/// Terminal rows the chat view spends on its title and input boxes.
pub const CHROME_ROWS: u16 = 6;

/// Rows left for messages on a terminal `height` rows high.
pub open spec fn message_rows(height: int) -> int {
    if height > CHROME_ROWS as int {
        height - CHROME_ROWS as int
    } else {
        0
    }
}

/// The largest scroll offset: the offset that puts the newest message on the
/// bottom row.
pub open spec fn max_scroll(len: int, height: int) -> int {
    if len > message_rows(height) {
        len - message_rows(height)
    } else {
        0
    }
}

/// The largest scroll offset for `len` messages on a terminal `height` rows high.
pub fn scroll_limit(len: usize, height: u16) -> (r: usize)
    ensures
        r == max_scroll(len as int, height as int),
{
    let rows: usize = if height > CHROME_ROWS {
        (height - CHROME_ROWS) as usize
    } else {
        0
    };
    if len > rows {
        len - rows
    } else {
        0
    }
}

/// What the chat loop does after a step.
pub enum ChatAction {
    Continue,
    /// Leave the view.
    Quit,
    /// Deliver this text to the contact.
    Send(String),
    /// Fetch the transcript again.
    Reload,
}

/// The chat view as a mathematical value.
pub struct ChatState {
    pub messages: Seq<Message>,
    pub input: Seq<char>,
    pub scroll: int,
    pub contact: Seq<char>,
    pub display_name: Seq<char>,
    pub should_reset_scroll: bool,
}

/// Any run of Up and Down presses on a terminal of fixed height keeps the
/// scroll offset within `[0, max_scroll]`, and pressing towards an end that
/// is already reached, any number of times, leaves the offset there: `n`
/// Down presses from `scroll` end at `min(scroll + n, max_scroll)`, and `n`
/// Up presses at `scroll - min(scroll, n)`.
pub proof fn lemma_scroll_stays_in_range(len: nat, height: int, scroll: int, moves: Seq<bool>, n: nat)
    requires
        0 <= scroll <= max_scroll(len as int, height),
    ensures
        0 <= clamped_steps(scroll, moves, max_scroll(len as int, height)) <= max_scroll(len as int, height),
        clamped_steps(max_scroll(len as int, height), Seq::new(n, |i: int| true), max_scroll(len as int, height))
            == max_scroll(len as int, height),
        clamped_steps(0, Seq::new(n, |i: int| false), max_scroll(len as int, height)) == 0,
        clamped_steps(scroll, Seq::new(n, |i: int| true), max_scroll(len as int, height)) == if scroll + n < max_scroll(len as int, height) {
            scroll + n
        } else {
            max_scroll(len as int, height)
        },
        clamped_steps(scroll, Seq::new(n, |i: int| false), max_scroll(len as int, height)) == if n < scroll {
            scroll - n
        } else {
            0
        },
{
    lemma_downs(scroll, n, max_scroll(len as int, height));
    lemma_ups(scroll, n, max_scroll(len as int, height));
    lemma_steps_in_range(scroll, moves, max_scroll(len as int, height));
    lemma_steps_hold_at_ends(n, max_scroll(len as int, height));
}

/// Messages sorted newest first, as the history store gives them, are sorted
/// oldest first once loaded; and reversing the loaded order gives back the
/// store's order.
pub proof fn lemma_loaded_oldest_first(newest_first: Seq<Message>)
    requires
        forall|i: int, j: int|
            0 <= i < j < newest_first.len() ==> newest_first[i].unix_time >= newest_first[j].unix_time,
    ensures
        forall|i: int, j: int|
            0 <= i < j < newest_first.len() ==> newest_first.reverse()[i].unix_time
                <= newest_first.reverse()[j].unix_time,
        newest_first.reverse().reverse() == newest_first,
{
    let n = newest_first.len() as int;
    assert forall|i: int, j: int| 0 <= i < j < n implies newest_first.reverse()[i].unix_time
        <= newest_first.reverse()[j].unix_time by {
        assert(newest_first.reverse()[i] == newest_first[n - 1 - i]);
        assert(newest_first.reverse()[j] == newest_first[n - 1 - j]);
    }
    assert(newest_first.reverse().reverse() =~= newest_first);
}

/// Read-your-writes: a message that the history store returns after a
/// delivery is in the transcript once the fetched page is loaded.
pub proof fn lemma_reload_shows_sent(newest_first: Seq<Message>, sent: Message)
    requires
        newest_first.contains(sent),
    ensures
        newest_first.reverse().contains(sent),
{
    let i = choose|i: int| 0 <= i < newest_first.len() && newest_first[i] == sent;
    let n = newest_first.len() as int;
    assert(newest_first.reverse()[n - 1 - i] == sent);
}

/// The chat view for messaging with a contact
pub struct ChatView {
    messages: Vec<Message>,
    input: String,
    scroll: usize,
    contact: String,
    display_name: String,
    should_reset_scroll: bool,
}

impl View for ChatView {
    type V = ChatState;

    closed spec fn view(&self) -> ChatState {
        ChatState {
            messages: self.messages@,
            input: self.input@,
            scroll: self.scroll as int,
            contact: self.contact@,
            display_name: self.display_name@,
            should_reset_scroll: self.should_reset_scroll,
        }
    }
}

/// How a key on a terminal `height` rows high changes the chat view, and
/// the action that it asks of the loop.
pub open spec fn chat_key_effect(
    old: ChatState,
    new: ChatState,
    key: Key,
    height: int,
    r: ChatAction,
) -> bool {
    match key {
        Key::Esc | Key::CtrlC => r is Quit && new == old,
        Key::Char(c) => r is Continue && new == ChatState { input: old.input.push(c), ..old },
        Key::Backspace => r is Continue && new == ChatState {
            input: if old.input.len() > 0 {
                old.input.drop_last()
            } else {
                old.input
            },
            ..old
        },
        Key::Enter => if old.input.len() > 0 {
            (r matches ChatAction::Send(t) && t@ == old.input) && new == ChatState {
                input: Seq::empty(),
                ..old
            }
        } else {
            r is Continue && new == old
        },
        Key::Up => r is Continue && new == ChatState {
            scroll: clamped_step(old.scroll, false, max_scroll(old.messages.len() as int, height)),
            ..old
        },
        Key::Down => r is Continue && new == ChatState {
            scroll: clamped_step(old.scroll, true, max_scroll(old.messages.len() as int, height)),
            ..old
        },
        Key::Tab | Key::Other => r is Continue && new == old,
    }
}

impl ChatView {
    /// Create a new chat view for a contact
    pub fn new(contact: String, display_name: String) -> (r: Self)
        ensures
            r@ == (ChatState {
                messages: Seq::empty(),
                input: Seq::empty(),
                scroll: 0,
                contact: contact@,
                display_name: display_name@,
                should_reset_scroll: true,
            }),
    {
        ChatView {
            messages: Vec::new(),
            input: String::new(),
            scroll: 0,
            contact,
            display_name,
            should_reset_scroll: true,
        }
    }

    /// Replace the transcript with freshly fetched messages, given newest
    /// first as the history store returns them; they are kept oldest first.
    pub fn load_messages(&mut self, newest_first: Vec<Message>)
        ensures
            final(self)@ == (ChatState {
                messages: newest_first@.reverse(),
                should_reset_scroll: true,
                ..old(self)@
            }),
    {
        let ghost src = newest_first@;
        let mut rest = newest_first;
        let mut out: Vec<Message> = Vec::new();
        while rest.len() > 0
            invariant
                rest@ == src.subrange(0, rest@.len() as int),
                out@.len() + rest@.len() == src.len(),
                forall|k: int| 0 <= k < out@.len() ==> #[trigger] out@[k] == src[src.len() - 1 - k],
            decreases rest@.len(),
        {
            let ghost before = rest@;
            match rest.pop() {
                Some(m) => {
                    assert(m == src[before.len() - 1]);
                    out.push(m);
                    assert(rest@ =~= src.subrange(0, rest@.len() as int));
                },
                None => {},
            }
        }
        assert(out@ =~= src.reverse());
        self.messages = out;
        self.should_reset_scroll = true;
    }

    /// Before drawing: after a fresh load, scroll so that the newest message
    /// sits on the bottom row of a terminal `height` rows high.
    pub fn prepare_frame(&mut self, height: u16)
        ensures
            if old(self)@.should_reset_scroll && old(self)@.messages.len() > 0 {
                final(self)@ == (ChatState {
                    scroll: max_scroll(old(self)@.messages.len() as int, height as int),
                    should_reset_scroll: false,
                    ..old(self)@
                })
            } else {
                final(self)@ == old(self)@
            },
    {
        if self.should_reset_scroll && self.messages.len() > 0 {
            self.scroll = scroll_limit(self.messages.len(), height);
            self.should_reset_scroll = false;
        }
    }

    /// React to a key on a terminal `height` rows high.
    pub fn handle_key(&mut self, key: Key, height: u16) -> (r: ChatAction)
        ensures
            chat_key_effect(old(self)@, final(self)@, key, height as int, r),
    {
        match key {
            Key::Esc | Key::CtrlC => ChatAction::Quit,
            Key::Char(c) => {
                push_char(&mut self.input, c);
                ChatAction::Continue
            },
            Key::Backspace => {
                pop_char(&mut self.input);
                ChatAction::Continue
            },
            Key::Enter => {
                if self.input.unicode_len() > 0 {
                    let text = self.input.clone();
                    self.input = String::new();
                    ChatAction::Send(text)
                } else {
                    ChatAction::Continue
                }
            },
            Key::Up => {
                if self.scroll > 0 {
                    self.scroll = self.scroll - 1;
                }
                ChatAction::Continue
            },
            Key::Down => {
                let max = scroll_limit(self.messages.len(), height);
                if self.scroll < max {
                    self.scroll = self.scroll + 1;
                }
                ChatAction::Continue
            },
            Key::Tab | Key::Other => ChatAction::Continue,
        }
    }

    /// What follows a delivery attempt: the transcript is fetched again only
    /// when the text was delivered.
    pub fn send_finished(&self, delivered: bool) -> (r: ChatAction)
        ensures
            if delivered {
                r is Reload
            } else {
                r is Continue
            },
    {
        if delivered {
            ChatAction::Reload
        } else {
            ChatAction::Continue
        }
    }

    /// The positions `[start, end)` of the messages shown in a message area
    /// `area_height` rows high.
    pub fn visible_range(&self, area_height: u16) -> (r: (usize, usize))
        ensures
            r.0 == if self@.scroll < self@.messages.len() {
                self@.scroll
            } else {
                self@.messages.len() as int
            },
            r.1 == if r.0 + area_height < self@.messages.len() {
                r.0 + area_height
            } else {
                self@.messages.len() as int
            },
    {
        let len = self.messages.len();
        let start = if self.scroll < len {
            self.scroll
        } else {
            len
        };
        let room = len - start;
        let end = if (area_height as usize) < room {
            start + area_height as usize
        } else {
            len
        };
        (start, end)
    }

    pub fn messages(&self) -> (r: &Vec<Message>)
        ensures
            r@ == self@.messages,
    {
        &self.messages
    }

    pub fn input(&self) -> (r: &String)
        ensures
            r@ == self@.input,
    {
        &self.input
    }

    pub fn scroll(&self) -> (r: usize)
        ensures
            r == self@.scroll,
    {
        self.scroll
    }

    pub fn contact(&self) -> (r: &String)
        ensures
            r@ == self@.contact,
    {
        &self.contact
    }

    pub fn display_name(&self) -> (r: &String)
        ensures
            r@ == self@.display_name,
    {
        &self.display_name
    }

    pub fn should_reset_scroll(&self) -> (r: bool)
        ensures
            r == self@.should_reset_scroll,
    {
        self.should_reset_scroll
    }
}

} // verus!
