//! Capability profiles: the named bundles of instructions and tools that
//! take the steps of a plan.

use vstd::prelude::*;
use vstd::string::*;
use crate::text::equal;

verus! {

/// What the ledger profile is told before its step.
pub const LEDGER_INSTRUCTIONS: &'static str = "
        You are a helpful assistant that creates execution plans for Ethereum transactions.


        Tools:
        - send_transaction: Send a transaction to the Ethereum network
        - balance: Get the balance of an Ethereum address
        - validate_address: Validate an Ethereum address
        - get_contract_code: Get the contract code of an Ethereum address

        Known addresses:
        Alice: 0xf39Fd6e51aad88F6F4ce6aB8827279cffFb92266
        Bob: 0x70997970C51812dc3A010C7d01b50e0d17dc79C8

        ";

/// What the search profile is told before its step.
pub const SEARCH_INSTRUCTIONS: &'static str = "
        You are a helpful assistant that can search the web for information.

        Tools:
        - web_search: Search the web for information
        ";

/// A capability profile.
#[derive(Debug, Clone, Copy, PartialEq, Eq, Structural)]
pub enum Profile {
    /// Works on the ledger through the tool server.
    Ledger,
    /// Searches the web.
    Search,
}

/// The profile that a plan means by `name`, if it means one.
pub open spec fn routed(name: Seq<char>) -> Option<Profile> {
    if name == "ethereum_agent"@ {
        Some(Profile::Ledger)
    } else if name == "search_agent"@ {
        Some(Profile::Search)
    } else {
        None
    }
}

/// The profile that a plan means by `name`. `None` is a routing failure.
pub fn route(name: &str) -> (profile: Option<Profile>)
    ensures
        profile == routed(name@),
{
    if equal(name, "ethereum_agent") {
        Some(Profile::Ledger)
    } else if equal(name, "search_agent") {
        Some(Profile::Search)
    } else {
        None
    }
}

impl Profile {
    /// The name by which a plan refers to the profile.
    pub open spec fn spec_name(self) -> Seq<char> {
        match self {
            Profile::Ledger => "ethereum_agent"@,
            Profile::Search => "search_agent"@,
        }
    }

    /// The name by which a plan refers to the profile.
    pub fn name(&self) -> (name: &'static str)
        ensures
            name@ == self.spec_name(),
    {
        match self {
            Profile::Ledger => "ethereum_agent",
            Profile::Search => "search_agent",
        }
    }

    /// How the profile is called in a failure message.
    pub open spec fn spec_label(self) -> Seq<char> {
        match self {
            Profile::Ledger => "ethereum"@,
            Profile::Search => "search"@,
        }
    }

    /// How the profile is called in a failure message.
    pub fn label(&self) -> (label: &'static str)
        ensures
            label@ == self.spec_label(),
    {
        match self {
            Profile::Ledger => "ethereum",
            Profile::Search => "search",
        }
    }

    /// The most tool-use turns the profile may take within one step.
    pub open spec fn spec_max_turns(self) -> u32 {
        match self {
            Profile::Ledger => 1,
            Profile::Search => 3,
        }
    }

    /// The most tool-use turns the profile may take within one step.
    pub fn max_turns(&self) -> (turns: u32)
        ensures
            turns == self.spec_max_turns(),
    {
        match self {
            Profile::Ledger => 1,
            Profile::Search => 3,
        }
    }

    /// What the profile is told before its step.
    pub open spec fn spec_instructions(self) -> Seq<char> {
        match self {
            Profile::Ledger => LEDGER_INSTRUCTIONS@,
            Profile::Search => SEARCH_INSTRUCTIONS@,
        }
    }

    /// What the profile is told before its step.
    pub fn instructions(&self) -> (text: &'static str)
        ensures
            text@ == self.spec_instructions(),
    {
        match self {
            Profile::Ledger => LEDGER_INSTRUCTIONS,
            Profile::Search => SEARCH_INSTRUCTIONS,
        }
    }
}

/// A name routes to the profile that bears it.
pub proof fn law_route_by_name(profile: Profile)
    ensures
        routed(profile.spec_name()) == Some(profile),
{
    reveal_strlit("ethereum_agent");
    reveal_strlit("search_agent");
    assert("search_agent"@[0] == 's');
    assert("ethereum_agent"@[0] == 'e');
}

} // verus!
