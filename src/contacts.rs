//! The contacts view: read-only browsing of the directory.
use vstd::prelude::*;
use crate::config::{Config, ConfigView, EntryView};
use crate::keys::{clamped_step, clamped_steps, lemma_downs, lemma_steps_hold_at_ends, lemma_steps_in_range, lemma_ups, Flow, Key};
use crate::text::concat;

verus! {

/// The last position a selection can take in a list of `count` rows.
pub open spec fn last_row(count: int) -> int {
    if count > 0 {
        count - 1
    } else {
        0
    }
}

/// `display (identifier)` where a display name is set, else the identifier.
pub open spec fn labelled(display: Option<Seq<char>>, identifier: Seq<char>) -> Seq<char> {
    match display {
        Some(d) => d + " ("@ + identifier + ")"@,
        None => identifier,
    }
}

/// The text of the default-contact panel.
pub open spec fn default_label_of(c: ConfigView) -> Seq<char> {
    match c.default_contact {
        Some(d) => labelled(c.default_display_name, d),
        None => "None"@,
    }
}

/// The list row of a named contact.
pub open spec fn row_of(name: Seq<char>, e: EntryView) -> Seq<char> {
    name + ": "@ + labelled(e.display_name, e.identifier)
}

fn label_text(display: &Option<String>, identifier: &String) -> (r: String)
    ensures
        r@ == labelled(crate::text::opt_text(*display), identifier@),
{
    match display {
        Some(d) => {
            let a = concat(d.as_str(), " (");
            let b = concat(a.as_str(), identifier.as_str());
            let r = concat(b.as_str(), ")");
            r
        },
        None => identifier.clone(),
    }
}

/// Any run of Up and Down presses keeps the selection within
/// `[0, max(0, count - 1)]`, also over an empty directory, and pressing
/// towards an end that is already reached leaves the selection there: `n`
/// Down presses from `selected` end at `min(selected + n, last_row)`, and `n`
/// Up presses at `selected - min(selected, n)`.
pub proof fn lemma_selection_stays_in_range(count: nat, selected: int, moves: Seq<bool>, n: nat)
    requires
        0 <= selected <= last_row(count as int),
    ensures
        0 <= clamped_steps(selected, moves, last_row(count as int)) <= last_row(count as int),
        clamped_steps(last_row(count as int), Seq::new(n, |i: int| true), last_row(count as int))
            == last_row(count as int),
        clamped_steps(0, Seq::new(n, |i: int| false), last_row(count as int)) == 0,
        count == 0 ==> clamped_step(0, true, last_row(count as int)) == 0,
        clamped_steps(selected, Seq::new(n, |i: int| true), last_row(count as int)) == if selected + n < last_row(count as int) {
            selected + n
        } else {
            last_row(count as int)
        },
        clamped_steps(selected, Seq::new(n, |i: int| false), last_row(count as int)) == if n < selected {
            selected - n
        } else {
            0
        },
{
    lemma_downs(selected, n, last_row(count as int));
    lemma_ups(selected, n, last_row(count as int));
    lemma_steps_in_range(selected, moves, last_row(count as int));
    lemma_steps_hold_at_ends(n, last_row(count as int));
}

/// The contacts view for managing contacts
pub struct ContactsView {
    config: Config,
    selected_index: usize,
}

impl ContactsView {
    /// The directory that the view shows.
    pub closed spec fn directory(&self) -> ConfigView {
        self.config@
    }

    /// The selected row.
    pub closed spec fn selected(&self) -> int {
        self.selected_index as int
    }

    /// The selection lies on a row, or on 0 for an empty directory.
    pub open spec fn wf(&self) -> bool {
        0 <= self.selected() <= last_row(self.directory().contacts.len() as int)
    }

    /// Create a new contacts view
    pub fn new(config: Config) -> (r: Self)
        ensures
            r.directory() == config@,
            r.selected() == 0,
            r.wf(),
    {
        ContactsView { config, selected_index: 0 }
    }

    /// React to a key.
    pub fn handle_key(&mut self, key: Key) -> (r: Flow)
        requires
            old(self).wf(),
        ensures
            final(self).wf(),
            final(self).directory() == old(self).directory(),
            match key {
                Key::Esc | Key::CtrlC | Key::Char('q') => r == Flow::Exit && final(self).selected()
                    == old(self).selected(),
                Key::Up => r == Flow::Continue && final(self).selected() == clamped_step(
                    old(self).selected(),
                    false,
                    last_row(old(self).directory().contacts.len() as int),
                ),
                Key::Down => r == Flow::Continue && final(self).selected() == clamped_step(
                    old(self).selected(),
                    true,
                    last_row(old(self).directory().contacts.len() as int),
                ),
                _ => r == Flow::Continue && final(self).selected() == old(self).selected(),
            },
    {
        match key {
            Key::Esc | Key::CtrlC | Key::Char('q') => Flow::Exit,
            Key::Up => {
                if self.selected_index > 0 {
                    self.selected_index = self.selected_index - 1;
                }
                Flow::Continue
            },
            Key::Down => {
                let count = self.config.contact_count();
                let last: usize = if count > 0 {
                    count - 1
                } else {
                    0
                };
                if self.selected_index < last {
                    self.selected_index = self.selected_index + 1;
                }
                Flow::Continue
            },
            _ => Flow::Continue,
        }
    }

    /// The selected row.
    pub fn selected_index(&self) -> (r: usize)
        ensures
            r == self.selected(),
    {
        self.selected_index
    }

    /// The number of named contacts shown.
    pub fn contact_count(&self) -> (r: usize)
        ensures
            r == self.directory().contacts.len(),
    {
        self.config.contact_count()
    }

    /// The text of the default-contact panel.
    pub fn default_label(&self) -> (r: String)
        ensures
            r@ == default_label_of(self.directory()),
    {
        match self.config.default_contact() {
            Some(d) => match self.config.default_display_name() {
                Some(n) => {
                    let a = concat(n.as_str(), " (");
                    let b = concat(a.as_str(), d.as_str());
                    concat(b.as_str(), ")")
                },
                None => d,
            },
            None => String::from_str("None"),
        }
    }

    /// The list rows, one per named contact, in the directory's order.
    pub fn contact_rows(&self) -> (r: Vec<String>)
        ensures
            r@.len() == self.directory().contacts.len(),
            forall|i: int|
                0 <= i < r@.len() ==> (#[trigger] r@[i])@ == row_of(
                    self.directory().contacts[i].0,
                    self.directory().contacts[i].1,
                ),
    {
        let entries = self.config.list_contacts();
        let mut rows: Vec<String> = Vec::new();
        let n = entries.len();
        let mut i: usize = 0;
        while i < n
            invariant
                n == entries@.len(),
                n == self.directory().contacts.len(),
                i <= n,
                rows@.len() == i,
                forall|k: int| 0 <= k < n ==> (#[trigger] entries@[k].0)@ == self.directory().contacts[k].0
                    && entries@[k].1@ == self.directory().contacts[k].1,
                forall|k: int|
                    0 <= k < i ==> (#[trigger] rows@[k])@ == row_of(
                        self.directory().contacts[k].0,
                        self.directory().contacts[k].1,
                    ),
            decreases n - i,
        {
            let (name, entry) = entries[i];
            assert(entries@[i as int].0@ == self.directory().contacts[i as int].0);
            let head = concat(name.as_str(), ": ");
            let tail = label_text(&entry.display_name, &entry.identifier);
            let row = concat(head.as_str(), tail.as_str());
            rows.push(row);
            i = i + 1;
        }
        rows
    }
}

} // verus!
