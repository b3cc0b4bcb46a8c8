//! The command line, as plain values.
use vstd::prelude::*;

verus! {

/// im - a tool for sending and receiving iMessages in the terminal
pub struct Cli {
    /// Show more detailed information
    pub verbose: bool,
    /// Contact name to fetch messages from (uses contacts from the configuration)
    pub contact_name: Option<String>,
    pub command: Option<Commands>,
}

/// Subcommands for the CLI
pub enum Commands {
    /// Start messaging with a contact
    Message { contact_name: Option<String>, contact: Option<String> },
    /// Configure the application
    Config { command: ConfigCommands },
    /// Manage contacts
    Contacts { command: ContactCommands },
    /// Add or update a contact
    Add { name: String, identifier: String, display_name: Option<String> },
    /// Remove a contact
    Remove { name: String },
    /// Show contacts in an interactive TUI
    ContactsList,
}

/// Configuration subcommands
pub enum ConfigCommands {
    /// Set the default contact identifier
    SetContact { contact: String },
    /// Set the display name for the default contact
    SetName { name: String },
    /// Show the path to the configuration file
    Show,
}

/// Contact management subcommands
pub enum ContactCommands {
    /// Add or update a contact
    Add { name: String, identifier: String, display_name: Option<String> },
    /// Remove a contact
    Remove { name: String },
    /// Show contacts in an interactive TUI
    Contacts,
}

} // verus!
