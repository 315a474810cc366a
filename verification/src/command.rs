//! Commands about the lending market.

use vstd::prelude::*;
use crate::address::Address;
use crate::position::{parse_address, parsed_address};

verus! {

/// Commands about the lending market.
#[derive(Clone, Copy, Debug, PartialEq, Eq, Structural)]
pub enum SolendSubcommands {
    /// Shows the state of the main lending market.
    Test,
}

impl SolendSubcommands {
    /// The account whose state the command shows.
    pub open spec fn account_text(&self) -> Seq<char> {
        match self {
            SolendSubcommands::Test => "6xSkPYdpga1SgjZUemGNzDFkwbV68GSdySrP7XYShhE5"@,
        }
    }

    /// The address of the account whose state the command shows.
    pub fn account(&self) -> (address: Option<Address>)
        ensures
            match address {
                Some(a) => parsed_address(self.account_text()) == Some(a@),
                None => parsed_address(self.account_text()) is None,
            },
    {
        match self {
            SolendSubcommands::Test => parse_address("6xSkPYdpga1SgjZUemGNzDFkwbV68GSdySrP7XYShhE5"),
        }
    }
}

} // verus!
