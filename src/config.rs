//! The contact directory: a default contact and a set of named contacts.
use vstd::prelude::*;
use crate::text::{copy_opt_text, lower_of, lowercase, opt_text, same_text};

verus! {

/// A contact entry in the contacts map.
pub struct ContactEntry {
    /// The contact identifier (e.g., phone number or email).
    pub identifier: String,
    /// Optional display name for the contact.
    pub display_name: Option<String>,
}

/// The characters of a contact entry.
pub struct EntryView {
    pub identifier: Seq<char>,
    pub display_name: Option<Seq<char>>,
}

impl View for ContactEntry {
    type V = EntryView;

    open spec fn view(&self) -> EntryView {
        EntryView { identifier: self.identifier@, display_name: opt_text(self.display_name) }
    }
}

impl ContactEntry {
    /// A copy of this entry.
    pub fn copy(&self) -> (r: ContactEntry)
        ensures
            r@ == self@,
    {
        ContactEntry {
            identifier: self.identifier.clone(),
            display_name: copy_opt_text(&self.display_name),
        }
    }
}

/// The directory as a mathematical value: named contacts in the order they
/// were first added.
pub struct ConfigView {
    pub default_contact: Option<Seq<char>>,
    pub default_display_name: Option<Seq<char>>,
    pub contacts: Seq<(Seq<char>, EntryView)>,
}

impl ConfigView {
    /// No two named contacts share a name.
    pub open spec fn keys_unique(self) -> bool {
        forall|i: int, j: int|
            0 <= i < self.contacts.len() && 0 <= j < self.contacts.len() && i != j
                ==> #[trigger] self.contacts[i].0 != #[trigger] self.contacts[j].0
    }

    /// Position `i` holds the contact named `name`.
    pub open spec fn named_at(self, i: int, name: Seq<char>) -> bool {
        0 <= i < self.contacts.len() && self.contacts[i].0 == name
    }

    pub open spec fn has_contact(self, name: Seq<char>) -> bool {
        exists|i: int| self.named_at(i, name)
    }

    /// The entry stored under exactly `name`.
    pub open spec fn contact(self, name: Seq<char>) -> Option<EntryView> {
        if self.has_contact(name) {
            Some(self.contacts[choose|i: int| self.named_at(i, name)].1)
        } else {
            None
        }
    }

    /// Position `i` holds a name that equals `name` once both are lower-cased.
    pub open spec fn folds_at(self, i: int, name: Seq<char>) -> bool {
        0 <= i < self.contacts.len() && lower_of(self.contacts[i].0) == lower_of(name)
    }

    pub open spec fn has_folded(self, name: Seq<char>) -> bool {
        exists|i: int| self.folds_at(i, name)
    }

    /// The first position, in the directory's order, whose name folds to `name`.
    pub open spec fn first_folded(self, name: Seq<char>) -> int {
        choose|i: int|
            self.folds_at(i, name) && forall|j: int| 0 <= j < i ==> !#[trigger] self.folds_at(j, name)
    }
}

/// A position that is the first to fold to `name` is `first_folded(name)`.
pub proof fn lemma_first_folded(c: ConfigView, name: Seq<char>, i: int)
    requires
        c.folds_at(i, name),
        forall|j: int| 0 <= j < i ==> !#[trigger] c.folds_at(j, name),
    ensures
        c.first_folded(name) == i,
{
    let f = c.first_folded(name);
    assert(c.folds_at(f, name) && forall|j: int| 0 <= j < f ==> !#[trigger] c.folds_at(j, name));
    if f < i {
        assert(!c.folds_at(f, name));
    } else if i < f {
        assert(!c.folds_at(i, name));
    }
}

/// Where some position folds to `name`, a first one does.
proof fn lemma_first_folded_exists(c: ConfigView, name: Seq<char>, i: int)
    requires
        c.folds_at(i, name),
    ensures
        c.folds_at(c.first_folded(name), name),
        forall|j: int| 0 <= j < c.first_folded(name) ==> !#[trigger] c.folds_at(j, name),
    decreases i,
{
    if exists|j: int| 0 <= j < i && c.folds_at(j, name) {
        let j = choose|j: int| 0 <= j < i && c.folds_at(j, name);
        lemma_first_folded_exists(c, name, j);
    } else {
        lemma_first_folded(c, name, i);
    }
}

/// Case-insensitive lookup treats alike two names that fold to the same text:
/// either both find nothing, or both find the contact at the same position.
pub proof fn lemma_folded_lookup_agrees(c: ConfigView, a: Seq<char>, b: Seq<char>)
    requires
        lower_of(a) == lower_of(b),
    ensures
        c.has_folded(a) == c.has_folded(b),
        c.has_folded(a) ==> c.first_folded(a) == c.first_folded(b),
{
    assert forall|i: int| c.folds_at(i, a) == c.folds_at(i, b) by {}
    if c.has_folded(a) {
        let i = choose|i: int| c.folds_at(i, a);
        lemma_first_folded_exists(c, a, i);
        lemma_first_folded(c, b, c.first_folded(a));
    }
}

/// With unique names, the contact at a position is what the name looks up.
pub proof fn lemma_contact_at(v: ConfigView, i: int)
    requires
        v.keys_unique(),
        0 <= i < v.contacts.len(),
    ensures
        v.contact(v.contacts[i].0) == Some(v.contacts[i].1),
{
    let name = v.contacts[i].0;
    assert(v.named_at(i, name));
    let j = choose|j: int| v.named_at(j, name);
    assert(v.named_at(j, name));
    if i != j {
        assert(v.contacts[i].0 != v.contacts[j].0);
    }
}

/// The first position whose already lower-cased key equals the already
/// lower-cased name, if any.
pub fn first_folded_match(folded_keys: &Vec<String>, folded_name: &str) -> (r: Option<usize>)
    ensures
        match r {
            Some(i) => i < folded_keys@.len() && folded_keys@[i as int]@ == folded_name@ && forall|j: int|
                0 <= j < i ==> (#[trigger] folded_keys@[j])@ != folded_name@,
            None => forall|j: int| 0 <= j < folded_keys@.len() ==> (#[trigger] folded_keys@[j])@ != folded_name@,
        },
{
    let n = folded_keys.len();
    let mut i: usize = 0;
    while i < n
        invariant
            n == folded_keys@.len(),
            i <= n,
            forall|j: int| 0 <= j < i ==> (#[trigger] folded_keys@[j])@ != folded_name@,
        decreases n - i,
    {
        if same_text(folded_keys[i].as_str(), folded_name) {
            return Some(i);
        }
        i = i + 1;
    }
    None
}

/// Configuration for the application.
pub struct Config {
    /// The default contact identifier (e.g., phone number or email).
    default_contact: Option<String>,
    /// The display name for the default contact.
    default_display_name: Option<String>,
    /// Named contacts, each name at most once.
    contacts: Vec<(String, ContactEntry)>,
}

impl View for Config {
    type V = ConfigView;

    closed spec fn view(&self) -> ConfigView {
        ConfigView {
            default_contact: opt_text(self.default_contact),
            default_display_name: opt_text(self.default_display_name),
            contacts: self.contacts@.map_values(|p: (String, ContactEntry)| (p.0@, p.1@)),
        }
    }
}

impl Default for Config {
    fn default() -> (r: Self)
        ensures
            r@.default_contact is None,
            r@.default_display_name is None,
            r@.contacts.len() == 0,
    {
        let r = Config { default_contact: None, default_display_name: None, contacts: Vec::new() };
        assert(r@.contacts =~= Seq::empty());
        r
    }
}

impl Config {
    /// Well-formed: no name is stored twice.
    pub open spec fn wf(&self) -> bool {
        self@.keys_unique()
    }

    /// Position of the contact stored under exactly `name`.
    fn position(&self, name: &str) -> (r: Option<usize>)
        requires
            self.wf(),
        ensures
            match r {
                Some(i) => self@.named_at(i as int, name@),
                None => !self@.has_contact(name@),
            },
    {
        let n = self.contacts.len();
        let mut i: usize = 0;
        while i < n
            invariant
                n == self.contacts@.len(),
                n == self@.contacts.len(),
                i <= n,
                forall|k: int| 0 <= k < i ==> !self@.named_at(k, name@),
            decreases n - i,
        {
            assert(self@.contacts[i as int].0 == self.contacts@[i as int].0@);
            if same_text(self.contacts[i].0.as_str(), name) {
                return Some(i);
            }
            i = i + 1;
        }
        None
    }

    /// A copy of the whole directory.
    pub fn snapshot(&self) -> (r: Config)
        ensures
            r@ == self@,
    {
        let mut contacts: Vec<(String, ContactEntry)> = Vec::new();
        let n = self.contacts.len();
        let mut i: usize = 0;
        while i < n
            invariant
                n == self.contacts@.len(),
                i <= n,
                contacts@.len() == i,
                forall|k: int|
                    0 <= k < i ==> (#[trigger] contacts@[k]).0@ == self.contacts@[k].0@
                        && contacts@[k].1@ == self.contacts@[k].1@,
            decreases n - i,
        {
            let pair = &self.contacts[i];
            contacts.push((pair.0.clone(), pair.1.copy()));
            i = i + 1;
        }
        let r = Config {
            default_contact: copy_opt_text(&self.default_contact),
            default_display_name: copy_opt_text(&self.default_display_name),
            contacts,
        };
        assert(r@.contacts =~= self@.contacts);
        r
    }

    /// Get the default contact identifier.
    pub fn default_contact(&self) -> (r: Option<String>)
        ensures
            opt_text(r) == self@.default_contact,
    {
        copy_opt_text(&self.default_contact)
    }

    /// Set the default contact identifier.
    pub fn set_default_contact(&mut self, contact: String)
        ensures
            final(self)@ == (ConfigView { default_contact: Some(contact@), ..old(self)@ }),
    {
        self.default_contact = Some(contact);
    }

    /// Get the default display name.
    pub fn default_display_name(&self) -> (r: Option<&String>)
        ensures
            match r {
                Some(s) => self@.default_display_name == Some(s@),
                None => self@.default_display_name is None,
            },
    {
        match &self.default_display_name {
            Some(s) => Some(s),
            None => None,
        }
    }

    /// Set the default display name.
    pub fn set_default_display_name(&mut self, name: String)
        ensures
            final(self)@ == (ConfigView { default_display_name: Some(name@), ..old(self)@ }),
    {
        self.default_display_name = Some(name);
    }

    /// Add or update a named contact.
    pub fn add_contact(&mut self, name: String, identifier: String, display_name: Option<String>)
        requires
            old(self).wf(),
        ensures
            final(self).wf(),
            final(self)@.default_contact == old(self)@.default_contact,
            final(self)@.default_display_name == old(self)@.default_display_name,
            final(self)@.contact(name@) == Some(
                EntryView { identifier: identifier@, display_name: opt_text(display_name) },
            ),
            forall|k: Seq<char>| k != name@ ==> final(self)@.contact(k) == old(self)@.contact(k),
            final(self)@.contacts.len() == old(self)@.contacts.len() + if old(self)@.has_contact(
                name@,
            ) {
                0int
            } else {
                1int
            },
    {
        let ghost before = self@;
        let entry = ContactEntry { identifier, display_name };
        let ghost key = name@;
        let ghost ev = entry@;
        match self.position(name.as_str()) {
            Some(i) => {
                self.contacts.set(i, (name, entry));
                assert(self@.contacts =~= before.contacts.update(i as int, (key, ev)));
                assert forall|a: int| 0 <= a < self@.contacts.len() implies #[trigger] self@.contacts[a].0
                    == before.contacts[a].0 by {}
            },
            None => {
                self.contacts.push((name, entry));
                assert(self@.contacts =~= before.contacts.push((key, ev)));
                assert forall|a: int, b: int|
                    0 <= a < self@.contacts.len() && 0 <= b < self@.contacts.len() && a != b
                    implies #[trigger] self@.contacts[a].0 != #[trigger] self@.contacts[b].0 by {
                    if a == before.contacts.len() {
                        assert(!before.named_at(b, key));
                    } else if b == before.contacts.len() {
                        assert(!before.named_at(a, key));
                    }
                }
            },
        }
        let ghost after = self@;
        let ghost last = choose|j: int| after.named_at(j, key);
        assert(after.named_at(last, key)) by {
            assert(exists|j: int| after.named_at(j, key)) by {
                if before.has_contact(key) {
                    let j = choose|j: int| before.named_at(j, key);
                    assert(after.named_at(j, key));
                } else {
                    assert(after.named_at(before.contacts.len() as int, key));
                }
            }
        }
        proof {
            lemma_contact_at(after, last);
        }
        assert forall|k: Seq<char>| k != key implies after.contact(k) == before.contact(k) by {
            if before.has_contact(k) {
                let j = choose|j: int| before.named_at(j, k);
                assert(before.named_at(j, k));
                assert(after.named_at(j, k));
                lemma_contact_at(before, j);
                lemma_contact_at(after, j);
            } else {
                assert(!after.has_contact(k)) by {
                    if after.has_contact(k) {
                        let j = choose|j: int| after.named_at(j, k);
                        assert(before.named_at(j, k));
                    }
                }
            }
        }
    }

    /// Remove a named contact.
    pub fn remove_contact(&mut self, name: &str) -> (r: bool)
        requires
            old(self).wf(),
        ensures
            final(self).wf(),
            r == old(self)@.has_contact(name@),
            final(self)@.default_contact == old(self)@.default_contact,
            final(self)@.default_display_name == old(self)@.default_display_name,
            final(self)@.contact(name@) is None,
            forall|k: Seq<char>| k != name@ ==> final(self)@.contact(k) == old(self)@.contact(k),
            final(self)@.contacts.len() == old(self)@.contacts.len() - if r {
                1int
            } else {
                0int
            },
    {
        let ghost before = self@;
        match self.position(name) {
            None => false,
            Some(i) => {
                self.contacts.remove(i);
                let ghost after = self@;
                assert(after.contacts =~= before.contacts.remove(i as int));
                assert forall|k: Seq<char>| k != name@ implies after.contact(k) == before.contact(k) by {
                    if before.has_contact(k) {
                        let j = choose|j: int| before.named_at(j, k);
                        assert(before.named_at(j, k));
                        assert(j != i);
                        let j2 = if j < i { j } else { j - 1 };
                        assert(after.named_at(j2, k));
                        lemma_contact_at(before, j);
                        lemma_contact_at(after, j2);
                    } else {
                        if after.has_contact(k) {
                            let j = choose|j: int| after.named_at(j, k);
                            let j2 = if j < i { j } else { j + 1 };
                            assert(before.named_at(j2, k));
                        }
                    }
                }
                assert(!after.has_contact(name@)) by {
                    if after.has_contact(name@) {
                        let j = choose|j: int| after.named_at(j, name@);
                        let j2 = if j < i { j } else { j + 1 };
                        assert(before.named_at(j2, name@));
                        assert(before.contacts[j2].0 == before.contacts[i as int].0);
                    }
                }
                assert(after.keys_unique()) by {
                    assert forall|a: int, b: int|
                        0 <= a < after.contacts.len() && 0 <= b < after.contacts.len() && a != b
                        implies #[trigger] after.contacts[a].0 != #[trigger] after.contacts[b].0 by {
                        let a2 = if a < i { a } else { a + 1 };
                        let b2 = if b < i { b } else { b + 1 };
                        assert(before.contacts[a2].0 != before.contacts[b2].0);
                    }
                }
                true
            },
        }
    }

    /// Get a contact by name (case-sensitive).
    pub fn get_contact(&self, name: &str) -> (r: Option<&ContactEntry>)
        requires
            self.wf(),
        ensures
            match r {
                Some(e) => self@.contact(name@) == Some(e@),
                None => self@.contact(name@) is None,
            },
    {
        match self.position(name) {
            Some(i) => {
                proof {
                    lemma_contact_at(self@, i as int);
                }
                Some(&self.contacts[i].1)
            },
            None => None,
        }
    }

    /// Get a contact by name (case-insensitive): the first named contact, in
    /// the directory's order, whose lower-cased name equals the lower-cased
    /// `name`.
    pub fn get_contact_case_insensitive(&self, name: &str) -> (r: Option<(&String, &ContactEntry)>)
        requires
            self.wf(),
        ensures
            match r {
                Some((k, e)) => self@.has_folded(name@) && self@.folds_at(self@.first_folded(name@), name@)
                    && self@.contacts[self@.first_folded(name@)] == (k@, e@),
                None => !self@.has_folded(name@),
            },
            r matches Some((k, e)) ==> self@.contact(k@) == Some(e@),
    {
        let wanted = lowercase(name);
        let n = self.contacts.len();
        let mut folded: Vec<String> = Vec::new();
        let mut i: usize = 0;
        while i < n
            invariant
                n == self.contacts@.len(),
                n == self@.contacts.len(),
                i <= n,
                folded@.len() == i,
                forall|k: int| 0 <= k < i ==> (#[trigger] folded@[k])@ == lower_of(self@.contacts[k].0),
            decreases n - i,
        {
            assert(self@.contacts[i as int].0 == self.contacts@[i as int].0@);
            folded.push(lowercase(self.contacts[i].0.as_str()));
            i = i + 1;
        }
        match first_folded_match(&folded, wanted.as_str()) {
            Some(i) => {
                assert forall|j: int| 0 <= j < i implies !#[trigger] self@.folds_at(j, name@) by {
                    assert(folded@[j]@ != wanted@);
                }
                assert(self@.folds_at(i as int, name@));
                proof {
                    lemma_contact_at(self@, i as int);
                    lemma_first_folded(self@, name@, i as int);
                }
                let pair = &self.contacts[i];
                assert(self@.contacts[i as int] == (pair.0@, pair.1@));
                Some((&pair.0, &pair.1))
            },
            None => {
                assert(!self@.has_folded(name@)) by {
                    if self@.has_folded(name@) {
                        let j = choose|j: int| self@.folds_at(j, name@);
                        assert(folded@[j]@ != wanted@);
                    }
                }
                None
            },
        }
    }

    /// List all contacts in the configuration.
    pub fn list_contacts(&self) -> (r: Vec<(&String, &ContactEntry)>)
        ensures
            r@.len() == self@.contacts.len(),
            forall|i: int| 0 <= i < r@.len() ==> (#[trigger] r@[i].0)@ == self@.contacts[i].0
                && r@[i].1@ == self@.contacts[i].1,
    {
        let mut r: Vec<(&String, &ContactEntry)> = Vec::new();
        let n = self.contacts.len();
        let mut i: usize = 0;
        while i < n
            invariant
                n == self.contacts@.len(),
                n == self@.contacts.len(),
                i <= n,
                r@.len() == i,
                forall|k: int| 0 <= k < i ==> (#[trigger] r@[k].0)@ == self@.contacts[k].0
                    && r@[k].1@ == self@.contacts[k].1,
            decreases n - i,
        {
            let pair = &self.contacts[i];
            assert(self@.contacts[i as int] == (pair.0@, pair.1@));
            r.push((&pair.0, &pair.1));
            i = i + 1;
        }
        r
    }

    /// Get the number of configured contacts.
    pub fn contact_count(&self) -> (r: usize)
        ensures
            r == self@.contacts.len(),
    {
        self.contacts.len()
    }
}

} // verus!
