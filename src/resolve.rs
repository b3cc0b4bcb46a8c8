//! Which contact to talk to, from the command line and the directory.
use vstd::prelude::*;
use crate::config::{Config, ConfigView, EntryView};
use crate::error::Error;
use crate::formatter::{display_number, format_display_number, format_phone_number, phone_number};
use crate::text::{concat, lower_of, opt_text};

verus! {

/// Where a resolved identifier came from.
pub enum Source {
    /// Given on the command line, overriding the directory.
    Override,
    /// A named contact; `actual_name` is the name as stored.
    Named { actual_name: String },
    /// The directory's default contact.
    Default,
}

/// A contact to open the chat with.
pub struct Resolved {
    pub identifier: String,
    pub display_name: String,
    pub source: Source,
}

/// What to launch.
pub enum Launch {
    Chat(Resolved),
    /// Nothing is configured: ask for a default contact first.
    Setup,
    Fail(Error),
}

/// What removing a contact by name did.
pub enum Removal {
    /// The contact stored under `actual_name` was removed.
    Removed { actual_name: String },
    NotFound,
}

/// The name shown for a named contact: its display name, else its number as
/// shown to a person.
pub open spec fn entry_display(e: EntryView) -> Seq<char> {
    match e.display_name {
        Some(d) => d,
        None => display_number(e.identifier),
    }
}

/// The words for a contact name that the directory lacks.
pub open spec fn not_found_message(name: Seq<char>) -> Seq<char> {
    "Contact '"@ + name + "' not found in configuration"@
}

/// The outcome `r` is the contact that the arguments and directory `c` ask for.
pub open spec fn resolves_to(
    contact_name: Option<Seq<char>>,
    contact: Option<Seq<char>>,
    c: ConfigView,
    r: Result<Resolved, Error>,
) -> bool {
    match contact {
        Some(given) => match r {
            Ok(x) => x.identifier@ == phone_number(given) && x.display_name@ == display_number(
                phone_number(given),
            ) && x.source is Override,
            Err(_) => false,
        },
        None => match contact_name {
            Some(name) => if c.has_folded(name) {
                match r {
                    Ok(x) => x.identifier@ == c.contacts[c.first_folded(name)].1.identifier
                        && x.display_name@ == entry_display(c.contacts[c.first_folded(name)].1)
                        && match x.source {
                        Source::Named { actual_name } => actual_name@ == c.contacts[c.first_folded(name)].0,
                        _ => false,
                    },
                    Err(_) => false,
                }
            } else {
                match r {
                    Err(Error::Generic(m)) => m@ == not_found_message(name),
                    _ => false,
                }
            },
            None => match c.default_contact {
                Some(d) => match r {
                    Ok(x) => x.identifier@ == d && x.display_name@ == match c.default_display_name {
                        Some(n) => n,
                        None => display_number(d),
                    } && x.source is Default,
                    Err(_) => false,
                },
                None => r matches Err(Error::NoContact),
            },
        },
    }
}

/// Whether a name with no case-insensitive match has no exact match either.
proof fn lemma_exact_folds(c: ConfigView, name: Seq<char>)
    requires
        !c.has_folded(name),
    ensures
        !c.has_contact(name),
{
    if c.has_contact(name) {
        let i = choose|i: int| c.named_at(i, name);
        assert(c.folds_at(i, name));
    }
}

fn entry_display_text(e: &crate::config::ContactEntry) -> (r: String)
    ensures
        r@ == entry_display(e@),
{
    match &e.display_name {
        Some(d) => d.clone(),
        None => format_display_number(e.identifier.as_str()),
    }
}

/// Get contact information: the `contact` override first, then the named
/// contact `contact_name` (case-insensitively, then exactly), then the
/// directory's default contact.
pub fn resolve_contact(contact_name: &Option<String>, contact: &Option<String>, config: &Config) -> (r: Result<Resolved, Error>)
    requires
        config.wf(),
    ensures
        resolves_to(opt_text(*contact_name), opt_text(*contact), config@, r),
{
    if let Some(given) = contact {
        let formatted = format_phone_number(given.as_str());
        let display = format_display_number(formatted.as_str());
        return Ok(Resolved { identifier: formatted, display_name: display, source: Source::Override });
    }
    if let Some(name) = contact_name {
        match config.get_contact_case_insensitive(name.as_str()) {
            Some((actual, entry)) => {
                return Ok(Resolved {
                    identifier: entry.identifier.clone(),
                    display_name: entry_display_text(entry),
                    source: Source::Named { actual_name: actual.clone() },
                });
            },
            None => {
                proof {
                    lemma_exact_folds(config@, name@);
                }
                match config.get_contact(name.as_str()) {
                    Some(entry) => {
                        return Ok(Resolved {
                            identifier: entry.identifier.clone(),
                            display_name: entry_display_text(entry),
                            source: Source::Named { actual_name: name.clone() },
                        });
                    },
                    None => {
                        let head = concat("Contact '", name.as_str());
                        let m = concat(head.as_str(), "' not found in configuration");
                        return Err(Error::Generic(m));
                    },
                }
            },
        }
    }
    match config.default_contact() {
        Some(d) => {
            let display = match config.default_display_name() {
                Some(n) => n.clone(),
                None => format_display_number(d.as_str()),
            };
            Ok(Resolved { identifier: d, display_name: display, source: Source::Default })
        },
        None => Err(Error::NoContact),
    }
}

/// What to launch for these arguments: the chat with the resolved contact,
/// the setup view when no contact is configured at all, or the failure.
pub fn plan_launch(contact_name: &Option<String>, contact: &Option<String>, config: &Config) -> (r: Launch)
    requires
        config.wf(),
    ensures
        exists|x: Result<Resolved, Error>|
            resolves_to(opt_text(*contact_name), opt_text(*contact), config@, x) && match x {
                Ok(res) => r == Launch::Chat(res),
                Err(Error::NoContact) => r is Setup,
                Err(e) => r == Launch::Fail(e),
            },
{
    let x = resolve_contact(contact_name, contact, config);
    match x {
        Ok(res) => Launch::Chat(res),
        Err(Error::NoContact) => Launch::Setup,
        Err(e) => Launch::Fail(e),
    }
}

/// What to launch once the setup view has closed: the chat with the default
/// contact it stored, or, where it stored none, the failure that no contact
/// is configured.
pub fn launch_after_setup(config: &Config) -> (r: Launch)
    requires
        config.wf(),
    ensures
        exists|x: Result<Resolved, Error>|
            resolves_to(None, None, config@, x) && match x {
                Ok(res) => r == Launch::Chat(res),
                Err(e) => r == Launch::Fail(e),
            },
{
    match resolve_contact(&None, &None, config) {
        Ok(res) => Launch::Chat(res),
        Err(e) => Launch::Fail(e),
    }
}

/// Remove the contact that `name` names: the first whose name matches
/// case-insensitively, else the one stored under exactly `name`.
pub fn remove_named(config: &mut Config, name: &str) -> (r: Removal)
    requires
        old(config).wf(),
    ensures
        final(config).wf(),
        final(config)@.default_contact == old(config)@.default_contact,
        final(config)@.default_display_name == old(config)@.default_display_name,
        if old(config)@.has_folded(name@) {
            match r {
                Removal::Removed { actual_name } => actual_name@ == old(config)@.contacts[old(config)@.first_folded(name@)].0 && final(config)@.contact(actual_name@) is None && forall|k: Seq<char>|
                    k != actual_name@ ==> final(config)@.contact(k) == old(config)@.contact(k),
                Removal::NotFound => false,
            }
        } else {
            r is NotFound && final(config)@ == old(config)@
        },
{
    let ghost before = config@;
    let found = match config.get_contact_case_insensitive(name) {
        Some((actual, _)) => Some(actual.clone()),
        None => None,
    };
    match found {
        Some(actual) => {
            let ghost f = before.first_folded(name@);
            assert(before.named_at(f, actual@));
            assert(before.has_contact(actual@));
            config.remove_contact(actual.as_str());
            Removal::Removed { actual_name: actual }
        },
        None => {
            proof {
                lemma_exact_folds(before, name@);
            }
            Removal::NotFound
        },
    }
}

} // verus!
