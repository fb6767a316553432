//! Accounts on other platforms that are linked to the checked one.

use vstd::prelude::*;
use crate::utils::text::{bool_to_str, decimal, truth_word, unsigned_to_string};

verus! {

/// One linked account.
#[derive(Debug, Clone, PartialEq, Eq)]
pub struct Connection {
    /// The platform, as the upstream names it.
    pub connection_type: String,
    pub name: String,
    /// Zero where the link is hidden from other users.
    pub visibility: u8,
    pub verified: bool,
    pub revoked: bool,
}

impl Connection {
    /// The entry of the linked account in the report, as number `index` of
    /// `all_connections`.
    pub open spec fn shown(&self, index: usize, all_connections: usize) -> Seq<char> {
        "\nConnection #"@
            + decimal(index as nat)
            + " of "@
            + decimal(all_connections as nat)
            + "\n\nConnection type: "@
            + self.connection_type@
            + "\nName: "@
            + self.name@
            + "\nVisible: "@
            + truth_word((self.visibility != 0))
            + "\nVerified: "@
            + truth_word(self.verified)
            + "\nRevoked: "@
            + truth_word(self.revoked)
            + "\n\n"@
    }

    /// Writes the entry of the linked account in the report.
    pub fn show(&self, index: usize, all_connections: usize) -> (shown: String)
        ensures
            shown@ == self.shown(index, all_connections),
    {
        let mut out = String::new();
        out.append("\nConnection #");
        {
            let written = unsigned_to_string(index as u128);
            out.append(written.as_str());
        }
        out.append(" of ");
        {
            let written = unsigned_to_string(all_connections as u128);
            out.append(written.as_str());
        }
        out.append("\n\nConnection type: ");
        out.append(self.connection_type.as_str());
        out.append("\nName: ");
        out.append(self.name.as_str());
        out.append("\nVisible: ");
        out.append(bool_to_str((self.visibility != 0)));
        out.append("\nVerified: ");
        out.append(bool_to_str(self.verified));
        out.append("\nRevoked: ");
        out.append(bool_to_str(self.revoked));
        out.append("\n\n");
        out
    }
}

} // verus!
