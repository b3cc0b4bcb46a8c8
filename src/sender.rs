//! Delivery of outbound text through the Messages application's scripting
//! interface: the script that a runner feeds to the scripting host.
use vstd::prelude::*;
use crate::error::Error;
use crate::text::concat;

verus! {

/// The script up to the recipient's identifier.
pub open spec fn script_head() -> Seq<char> {
    "on run {textBody}\n    tell application \"Messages\"\n        set targetService to first service whose service type = iMessage\n        set targetBuddy to buddy \""@
}

/// The script after the recipient's identifier.
pub open spec fn script_tail() -> Seq<char> {
    "\" of targetService\n        send textBody to targetBuddy\n    end tell\nend run\n"@
}

/// Delivers text to one contact.
pub struct Sender {
    contact: String,
}

impl Sender {
    /// The identifier that messages go to.
    pub closed spec fn recipient(&self) -> Seq<char> {
        self.contact@
    }

    pub fn new(contact: String) -> (r: Self)
        ensures
            r.recipient() == contact@,
    {
        Sender { contact }
    }

    pub fn contact(&self) -> (r: &String)
        ensures
            r@ == self.recipient(),
    {
        &self.contact
    }

    /// The script that sends its single argument, the text, to the recipient.
    pub fn script(&self) -> (r: String)
        ensures
            r@ == script_head() + self.recipient() + script_tail(),
    {
        let head = concat(
            "on run {textBody}\n    tell application \"Messages\"\n        set targetService to first service whose service type = iMessage\n        set targetBuddy to buddy \"",
            self.contact.as_str(),
        );
        concat(
            head.as_str(),
            "\" of targetService\n        send textBody to targetBuddy\n    end tell\nend run\n",
        )
    }

    /// The error for a delivery that the scripting host reported as failed,
    /// with what it wrote to its error stream.
    pub fn delivery_failure(detail: &str) -> (r: Error)
        ensures
            r matches Error::Generic(m) && m@ == "Failed to send message: "@ + detail@,
    {
        Error::Generic(concat("Failed to send message: ", detail))
    }
}

} // verus!
