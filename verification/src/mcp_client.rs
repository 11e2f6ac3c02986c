//! The bridge to the tool server: how the server is launched, and the call
//! that each tool operation sends to it.
//!
//! The bridge checks nothing about what it passes on. The server does, and
//! answers a bad argument with `success: false`.

use vstd::prelude::*;
use vstd::string::*;
use crate::text::views;

verus! {

/// The name under which the bridge presents itself to the server.
pub const CLIENT_NAME: &'static str = "eth-agent";

/// The version under which the bridge presents itself to the server.
pub const CLIENT_VERSION: &'static str = "1.0.0";

/// The value of one argument of a call.
#[derive(Debug)]
pub enum ArgumentValue {
    Text(String),
    Number(u128),
}

/// One named argument of a call.
#[derive(Debug)]
pub struct Argument {
    pub name: String,
    pub value: ArgumentValue,
}

/// A call of one tool of the server. The server's reply to it is handed
/// back whole, as it came.
#[derive(Debug)]
pub struct ToolCall {
    /// The tool's name.
    pub name: String,
    pub arguments: Vec<Argument>,
}

/// What an [`ArgumentValue`] stands for.
pub enum ValueView {
    Text(Seq<char>),
    Number(u128),
}

/// What an [`Argument`] stands for.
pub struct ArgumentView {
    pub name: Seq<char>,
    pub value: ValueView,
}

/// What a [`ToolCall`] stands for.
pub struct CallView {
    pub name: Seq<char>,
    pub arguments: Seq<ArgumentView>,
}

impl View for Argument {
    type V = ArgumentView;

    open spec fn view(&self) -> ArgumentView {
        ArgumentView {
            name: self.name@,
            value: match self.value {
                ArgumentValue::Text(text) => ValueView::Text(text@),
                ArgumentValue::Number(number) => ValueView::Number(number),
            },
        }
    }
}

impl View for ToolCall {
    type V = CallView;

    open spec fn view(&self) -> CallView {
        CallView {
            name: self.name@,
            arguments: Seq::new(self.arguments@.len(), |i: int| self.arguments@[i]@),
        }
    }
}

/// An argument that holds a text.
pub open spec fn text_argument(name: Seq<char>, text: Seq<char>) -> ArgumentView {
    ArgumentView { name, value: ValueView::Text(text) }
}

/// An argument that holds a number.
pub open spec fn number_argument(name: Seq<char>, number: u128) -> ArgumentView {
    ArgumentView { name, value: ValueView::Number(number) }
}

/// The call of a tool that takes one address.
pub open spec fn address_call(tool: Seq<char>, address: Seq<char>) -> CallView {
    CallView { name: tool, arguments: seq![text_argument("address"@, address)] }
}

/// The one argument, where there is a text.
pub open spec fn optional_text(name: Seq<char>, text: Option<Seq<char>>) -> Seq<ArgumentView> {
    match text {
        Some(text) => seq![text_argument(name, text)],
        None => Seq::empty(),
    }
}

/// The one argument, where there is a number.
pub open spec fn optional_number(name: Seq<char>, number: Option<u128>) -> Seq<ArgumentView> {
    match number {
        Some(number) => seq![number_argument(name, number)],
        None => Seq::empty(),
    }
}

/// The call that sends a transaction: sender, recipient and amount, then
/// the data, the gas limit and the gas price, each only where it is given.
pub open spec fn send_call(
    from: Seq<char>,
    to: Seq<char>,
    value: Seq<char>,
    data: Option<Seq<char>>,
    gas_limit: Option<u64>,
    gas_price: Option<u128>,
) -> CallView {
    CallView {
        name: "send_transaction"@,
        arguments: seq![
            text_argument("from"@, from),
            text_argument("to"@, to),
            text_argument("value"@, value),
        ] + optional_text("data"@, data) + optional_number(
            "gas_limit"@,
            match gas_limit {
                Some(limit) => Some(limit as u128),
                None => None,
            },
        ) + optional_number("gas_price"@, gas_price),
    }
}

/// An argument that holds a text.
fn text_of(name: &str, text: &str) -> (argument: Argument)
    ensures
        argument@ == text_argument(name@, text@),
{
    Argument { name: name.to_owned(), value: ArgumentValue::Text(text.to_owned()) }
}

/// An argument that holds a number.
fn number_of(name: &str, number: u128) -> (argument: Argument)
    ensures
        argument@ == number_argument(name@, number),
{
    Argument { name: name.to_owned(), value: ArgumentValue::Number(number) }
}

/// The call of a tool that takes one address.
fn call_with_address(tool: &str, address: &str) -> (call: ToolCall)
    ensures
        call@ == address_call(tool@, address@),
{
    let mut arguments: Vec<Argument> = Vec::new();
    arguments.push(text_of("address", address));
    let call = ToolCall { name: tool.to_owned(), arguments };
    assert(call@.arguments =~= seq![text_argument("address"@, address@)]);
    call
}

/// The bridge to the tool server.
#[derive(Debug)]
pub struct FoundryMcpClient {
    /// The program that runs the server.
    pub program: String,
    /// The arguments that the program is started with.
    pub arguments: Vec<String>,
}

/// What a [`FoundryMcpClient`] stands for: the command that starts the
/// server.
pub struct LaunchView {
    pub program: Seq<char>,
    pub arguments: Seq<Seq<char>>,
}

impl View for FoundryMcpClient {
    type V = LaunchView;

    open spec fn view(&self) -> LaunchView {
        LaunchView { program: self.program@, arguments: views(self.arguments@) }
    }
}

/// The command that has `cargo` build and start the server.
pub open spec fn cargo_launch() -> LaunchView {
    LaunchView { program: "cargo"@, arguments: seq!["run"@, "--bin"@, "foundry-mcp"@] }
}

impl Clone for FoundryMcpClient {
    fn clone(&self) -> (copy: Self)
        ensures
            copy@ == self@,
    {
        let mut arguments: Vec<String> = Vec::new();
        let mut i: usize = 0;
        while i < self.arguments.len()
            invariant
                i <= self.arguments.len(),
                arguments.len() == i,
                forall|k: int| 0 <= k < i ==> (#[trigger] arguments[k])@ == self.arguments[k]@,
            decreases self.arguments.len() - i,
        {
            arguments.push(self.arguments[i].clone());
            i += 1;
        }
        assert(views(arguments@) =~= views(self.arguments@));
        FoundryMcpClient { program: self.program.clone(), arguments }
    }
}

impl FoundryMcpClient {
    /// The bridge to a server that is built and started by `cargo`. The
    /// server's standard error stays out of the protocol.
    pub fn new() -> (client: Self)
        ensures
            client@ == cargo_launch(),
    {
        let mut arguments: Vec<String> = Vec::new();
        arguments.push("run".to_owned());
        arguments.push("--bin".to_owned());
        arguments.push("foundry-mcp".to_owned());
        assert(views(arguments@) =~= seq!["run"@, "--bin"@, "foundry-mcp"@]);
        FoundryMcpClient { program: "cargo".to_owned(), arguments }
    }

    /// The call that asks for the balance of an account.
    pub fn balance(&self, address: &str) -> (call: ToolCall)
        ensures
            call@ == address_call("balance"@, address@),
    {
        call_with_address("balance", address)
    }

    /// The call that asks whether a text writes an address.
    pub fn validate_address(&self, address: &str) -> (call: ToolCall)
        ensures
            call@ == address_call("validate_address"@, address@),
    {
        call_with_address("validate_address", address)
    }

    /// The call that sends a transaction.
    pub fn send_transaction(
        &self,
        from: &str,
        to: &str,
        value: &str,
        data: Option<&str>,
        gas_limit: Option<u64>,
        gas_price: Option<u128>,
    ) -> (call: ToolCall)
        ensures
            call@ == send_call(
                from@,
                to@,
                value@,
                match data {
                    Some(data) => Some(data@),
                    None => None,
                },
                gas_limit,
                gas_price,
            ),
    {
        let mut arguments: Vec<Argument> = Vec::new();
        arguments.push(text_of("from", from));
        arguments.push(text_of("to", to));
        arguments.push(text_of("value", value));
        if let Some(data) = data {
            arguments.push(text_of("data", data));
        }
        if let Some(limit) = gas_limit {
            arguments.push(number_of("gas_limit", limit as u128));
        }
        if let Some(price) = gas_price {
            arguments.push(number_of("gas_price", price));
        }
        let call = ToolCall { name: "send_transaction".to_owned(), arguments };
        assert(call@.arguments =~= send_call(
            from@,
            to@,
            value@,
            match data {
                Some(data) => Some(data@),
                None => None,
            },
            gas_limit,
            gas_price,
        ).arguments);
        call
    }

    /// The call that asks for the code at an address.
    pub fn get_contract_code(&self, address: &str) -> (call: ToolCall)
        ensures
            call@ == address_call("get_contract_code"@, address@),
    {
        call_with_address("get_contract_code", address)
    }

    /// The call that asks for an account's balance of a token.
    pub fn erc20_balance(&self, address: &str, token_address: &str) -> (call: ToolCall)
        ensures
            call@ == (CallView {
                name: "erc20_balance"@,
                arguments: seq![
                    text_argument("address"@, address@),
                    text_argument("token_address"@, token_address@),
                ],
            }),
    {
        let mut arguments: Vec<Argument> = Vec::new();
        arguments.push(text_of("address", address));
        arguments.push(text_of("token_address", token_address));
        let call = ToolCall { name: "erc20_balance".to_owned(), arguments };
        assert(call@.arguments =~= seq![
            text_argument("address"@, address@),
            text_argument("token_address"@, token_address@),
        ]);
        call
    }

    /// Whether the server is alive, from the outcome of asking it for its
    /// list of tools: it is alive where it answered.
    pub fn is_alive(&self, listing: &Result<String, String>) -> (alive: bool)
        ensures
            alive == listing is Ok,
    {
        match listing {
            Ok(_) => true,
            Err(_) => false,
        }
    }
}

} // verus!
