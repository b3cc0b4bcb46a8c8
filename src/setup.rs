//! The setup view: capture of a default contact and its display name.
use vstd::prelude::*;
use crate::config::{Config, ConfigView};
use crate::formatter::{format_phone_number, phone_number};
use crate::keys::{Flow, Key};
use crate::text::{pop_char, push_char};

verus! {

/// The glyph drawn after the text of the field being edited.
pub const CURSOR: char = '\u{258F}';

/// Input field enum for the setup view
#[derive(Clone, Copy, PartialEq, Eq, Structural, Debug)]
pub enum InputField {
    Contact,
    DisplayName,
}

/// The setup view as a mathematical value.
pub struct SetupState {
    pub contact_input: Seq<char>,
    pub display_name_input: Seq<char>,
    pub active_field: InputField,
    pub config: ConfigView,
}

/// The text with one character more, or one fewer, at its end.
pub open spec fn edited(s: Seq<char>, key: Key) -> Seq<char> {
    match key {
        Key::Char(c) => s.push(c),
        Key::Backspace => if s.len() > 0 {
            s.drop_last()
        } else {
            s
        },
        _ => s,
    }
}

/// How a key changes the setup view, and whether the view ends.
pub open spec fn setup_key_effect(old: SetupState, new: SetupState, key: Key, r: Flow) -> bool {
    match key {
        Key::Esc | Key::CtrlC => r == Flow::Exit && new == old,
        Key::Tab => r == Flow::Continue && new == SetupState {
            active_field: match old.active_field {
                InputField::Contact => InputField::DisplayName,
                InputField::DisplayName => InputField::Contact,
            },
            ..old
        },
        Key::Char(_) | Key::Backspace => r == Flow::Continue && new == match old.active_field {
            InputField::Contact => SetupState { contact_input: edited(old.contact_input, key), ..old },
            InputField::DisplayName => SetupState {
                display_name_input: edited(old.display_name_input, key),
                ..old
            },
        },
        Key::Enter => if old.contact_input.len() > 0 {
            r == Flow::Exit && new == SetupState {
                config: ConfigView {
                    default_contact: Some(phone_number(old.contact_input)),
                    default_display_name: if old.display_name_input.len() > 0 {
                        Some(old.display_name_input)
                    } else {
                        old.config.default_display_name
                    },
                    ..old.config
                },
                ..old
            }
        } else {
            r == Flow::Continue && new == old
        },
        Key::Up | Key::Down | Key::Other => r == Flow::Continue && new == old,
    }
}

/// The setup view for configuring default contact
pub struct SetupView {
    contact_input: String,
    display_name_input: String,
    active_field: InputField,
    config: Config,
}

impl View for SetupView {
    type V = SetupState;

    closed spec fn view(&self) -> SetupState {
        SetupState {
            contact_input: self.contact_input@,
            display_name_input: self.display_name_input@,
            active_field: self.active_field,
            config: self.config@,
        }
    }
}

impl SetupView {
    /// Create a new setup view
    pub fn new() -> (r: Self)
        ensures
            r@.contact_input.len() == 0,
            r@.display_name_input.len() == 0,
            r@.active_field == InputField::Contact,
            r@.config.default_contact is None,
            r@.config.default_display_name is None,
            r@.config.contacts.len() == 0,
    {
        SetupView {
            contact_input: String::new(),
            display_name_input: String::new(),
            active_field: InputField::Contact,
            config: Config::default(),
        }
    }

    /// Get the configuration
    pub fn get_config(&self) -> (r: Config)
        ensures
            r@ == self@.config,
    {
        self.config.snapshot()
    }

    /// React to a key.
    pub fn handle_key(&mut self, key: Key) -> (r: Flow)
        ensures
            setup_key_effect(old(self)@, final(self)@, key, r),
    {
        match key {
            Key::Esc | Key::CtrlC => Flow::Exit,
            Key::Tab => {
                self.active_field = match self.active_field {
                    InputField::Contact => InputField::DisplayName,
                    InputField::DisplayName => InputField::Contact,
                };
                Flow::Continue
            },
            Key::Char(c) => {
                match self.active_field {
                    InputField::Contact => push_char(&mut self.contact_input, c),
                    InputField::DisplayName => push_char(&mut self.display_name_input, c),
                }
                Flow::Continue
            },
            Key::Backspace => {
                match self.active_field {
                    InputField::Contact => {
                        pop_char(&mut self.contact_input);
                    },
                    InputField::DisplayName => {
                        pop_char(&mut self.display_name_input);
                    },
                }
                Flow::Continue
            },
            Key::Enter => {
                if self.contact_input.unicode_len() > 0 {
                    let formatted = format_phone_number(self.contact_input.as_str());
                    self.config.set_default_contact(formatted);
                    if self.display_name_input.unicode_len() > 0 {
                        self.config.set_default_display_name(self.display_name_input.clone());
                    }
                    Flow::Exit
                } else {
                    Flow::Continue
                }
            },
            Key::Up | Key::Down | Key::Other => Flow::Continue,
        }
    }

    /// The field being edited.
    pub fn active_field(&self) -> (r: InputField)
        ensures
            r == self@.active_field,
    {
        self.active_field
    }

    /// The contact box's text: the input, with the cursor glyph when active.
    pub fn contact_text(&self) -> (r: String)
        ensures
            r@ == if self@.active_field == InputField::Contact {
                self@.contact_input.push(CURSOR)
            } else {
                self@.contact_input
            },
    {
        let mut r = self.contact_input.clone();
        if self.active_field == InputField::Contact {
            push_char(&mut r, CURSOR);
        }
        r
    }

    /// The display-name box's text: the input, with the cursor glyph when
    /// active.
    pub fn display_name_text(&self) -> (r: String)
        ensures
            r@ == if self@.active_field == InputField::DisplayName {
                self@.display_name_input.push(CURSOR)
            } else {
                self@.display_name_input
            },
    {
        let mut r = self.display_name_input.clone();
        if self.active_field == InputField::DisplayName {
            push_char(&mut r, CURSOR);
        }
        r
    }
}

} // verus!
