//! The tool server's side of each tool: what it checks before it turns to
//! the ledger, and the answers it writes.
//!
//! An answer is a flat JSON object. A request that fails a check is not an
//! error of the protocol: it is answered with `success: false`.

use serde_json::{Map as JsonMap, Value};
use vstd::prelude::*;
use vstd::string::*;
use crate::ethereum::{
    has_digit,
    address_fault, checksum_form, decode_data, encode_data, has_radix_mark, hex_bytes, hex_fault,
    hex_text, is_address, is_data, is_decimal_char, wei_amount, without_prefix, without_prefixes,
    EthAddress, WeiAmount,
};
use crate::text::{joined, maybe};
use crate::wire::{
    members, new_object, no_members, object_text, put, write_object, Field, Item,
};

verus! {

/// What the server says of itself when a session is opened.
pub const SERVER_INSTRUCTIONS: &'static str =
    "Foundry MCP server for Ethereum blockchain interactions";

#[derive(Debug)]
pub struct BalanceRequest {
    /// The address to check balance for.
    pub address: String,
}

#[derive(Debug)]
pub struct ValidateAddressRequest {
    /// The Ethereum address to validate.
    pub address: String,
}

#[derive(Debug)]
pub struct SendTransactionRequest {
    /// Sender address.
    pub from: String,
    /// Recipient address.
    pub to: String,
    /// Amount in wei.
    pub value: String,
    /// Transaction data (hex encoded).
    pub data: Option<String>,
    /// Gas limit for the transaction.
    pub gas_limit: Option<u64>,
    /// Gas price (in wei).
    pub gas_price: Option<u128>,
}

#[derive(Debug)]
pub struct GetContractCodeRequest {
    /// The address to get the contract code for.
    pub address: String,
}

/// What a [`SendTransactionRequest`] stands for.
pub struct SendView {
    pub from: Seq<char>,
    pub to: Seq<char>,
    pub value: Seq<char>,
    pub data: Option<Seq<char>>,
    pub gas_limit: Option<u64>,
    pub gas_price: Option<u128>,
}

impl View for SendTransactionRequest {
    type V = SendView;

    open spec fn view(&self) -> SendView {
        SendView {
            from: self.from@,
            to: self.to@,
            value: self.value@,
            data: maybe(self.data),
            gas_limit: self.gas_limit,
            gas_price: self.gas_price,
        }
    }
}

/// A transfer that has passed the server's checks.
#[derive(Debug)]
pub struct Transfer {
    pub from: EthAddress,
    pub to: EthAddress,
    pub amount: WeiAmount,
    /// The data to send along; empty where the request gave none.
    pub data: Vec<u8>,
    pub gas_limit: Option<u64>,
    pub gas_price: Option<u128>,
}

/// A transaction as it is handed to the ledger.
#[derive(Debug)]
pub struct Transaction {
    pub to: EthAddress,
    pub value: WeiAmount,
    pub nonce: u64,
    pub from: EthAddress,
    /// The input data; none where there are no bytes to send.
    pub input: Option<Vec<u8>>,
    pub gas_limit: Option<u64>,
    pub gas_price: Option<u128>,
}

/// What the server does about a balance request.
#[derive(Debug)]
pub enum BalanceStep {
    /// Ask the ledger for the balance of this account.
    Ask(EthAddress),
    /// Answer at once with this text.
    Answer(String),
}

/// What the server does about a request to send a transaction.
#[derive(Debug)]
pub enum SendStep {
    /// Ask the ledger for the sender's nonce, then send this transfer.
    Ask(Transfer),
    /// Answer at once with this text; nothing is sent to the ledger.
    Answer(String),
}

/// What the server does about a request for the code at an address.
#[derive(Debug)]
pub enum CodeStep {
    /// Ask the ledger for the code at this account.
    Ask(EthAddress),
    /// Answer at once with this text; the ledger is not asked.
    Answer(String),
}

/// What the server does once the ledger has answered for the sender's
/// nonce.
#[derive(Debug)]
pub enum SubmitStep {
    /// Hand this transaction to the ledger.
    Send(Transaction),
    /// Answer with this text; nothing is sent.
    Answer(String),
}

/// The members of an answer that refuses: `success` is false, `error` says
/// why, and one member repeats what was refused.
pub open spec fn refusal(error: Seq<char>, name: Seq<char>, given: Seq<char>) -> Map<
    Seq<char>,
    Field,
> {
    no_members().insert("success"@, Field::Flag(false)).insert("error"@, Field::Text(error)).insert(
        name,
        Field::Text(given),
    )
}

/// The members of the answer to a request to validate an address.
pub open spec fn validation(address: Seq<char>) -> Map<Seq<char>, Field> {
    if is_address(address) {
        no_members().insert("success"@, Field::Flag(true)).insert(
            "valid"@,
            Field::Flag(true),
        ).insert(
            "address"@,
            Field::Text(checksum_form(hex_bytes(without_prefix(address)))),
        ).insert("message"@, Field::Text("Valid Ethereum address"@))
    } else {
        no_members().insert("success"@, Field::Flag(false)).insert(
            "valid"@,
            Field::Flag(false),
        ).insert(
            "error"@,
            Field::Text("Invalid address: "@ + address_fault(address)),
        ).insert("address"@, Field::Text(address))
    }
}

/// The members of the answer that reports a balance.
pub open spec fn balance_report(account: Seq<char>, balance: Seq<char>) -> Map<Seq<char>, Field> {
    no_members().insert("success"@, Field::Flag(true)).insert(
        "address"@,
        Field::Text(account),
    ).insert("balance"@, Field::Text(balance)).insert("unit"@, Field::Text("wei"@)).insert(
        "message"@,
        Field::Text("Balance: "@ + balance + " wei"@),
    )
}

/// The members of the answer that refuses a request to send a transaction,
/// for the first check that the request fails: the sender's address, the
/// recipient's address, the amount, which must hold a digit and be read
/// as a number, the data. `None` where it passes all.
pub open spec fn send_refusal(request: SendView) -> Option<Map<Seq<char>, Field>> {
    if !is_address(request.from) {
        Some(
            refusal(
                "Invalid sender address: "@ + address_fault(request.from),
                "from"@,
                request.from,
            ),
        )
    } else if !is_address(request.to) {
        Some(refusal("Invalid address: "@ + address_fault(request.to), "to"@, request.to))
    } else if wei_amount(request.value) is Err {
        Some(
            refusal(
                "Invalid amount: "@ + wei_amount(request.value)->Err_0,
                "value"@,
                request.value,
            ),
        )
    } else if request.data is Some && !is_data(without_prefixes(request.data->0)) {
        Some(
            refusal(
                "Invalid data format: "@ + hex_fault(without_prefixes(request.data->0)),
                "data"@,
                request.data->0,
            ),
        )
    } else {
        None
    }
}

/// Whether a transfer is what a request asks for.
pub open spec fn transfer_of(request: SendView, transfer: Transfer) -> bool {
    &&& transfer.from.bytes@ == hex_bytes(without_prefix(request.from))
    &&& transfer.to.bytes@ == hex_bytes(without_prefix(request.to))
    &&& wei_amount(request.value) == Ok::<Seq<u64>, Seq<char>>(transfer.amount.limbs@)
    &&& transfer.data@ == match request.data {
        Some(data) => hex_bytes(without_prefixes(data)),
        None => Seq::empty(),
    }
    &&& transfer.gas_limit == request.gas_limit
    &&& transfer.gas_price == request.gas_price
}

/// Whether a transaction is the one for a transfer and the sender's nonce.
/// It carries input only where the transfer has bytes to send.
pub open spec fn transaction_of(transfer: Transfer, nonce: u64, transaction: Transaction) -> bool {
    &&& transaction.to == transfer.to
    &&& transaction.value == transfer.amount
    &&& transaction.nonce == nonce
    &&& transaction.from == transfer.from
    &&& transaction.input == if transfer.data@.len() == 0 {
        None
    } else {
        Some(transfer.data)
    }
    &&& transaction.gas_limit == transfer.gas_limit
    &&& transaction.gas_price == transfer.gas_price
}

/// The members of the answer to a request to send a transaction, once the
/// ledger has taken the transaction and given its hash, or refused it and
/// given the reason.
pub open spec fn submission(
    request: SendView,
    nonce: u64,
    outcome: Result<Seq<char>, Seq<char>>,
) -> Map<Seq<char>, Field> {
    match outcome {
        Ok(hash) => sent_report(request, hash, nonce),
        Err(reason) => ledger_refusal("Failed to send transaction: "@ + reason, request, true),
    }
}

/// The members of the answer that a request failed at the ledger: it
/// repeats the sender, and on demand the recipient too.
pub open spec fn ledger_refusal(error: Seq<char>, request: SendView, with_recipient: bool) -> Map<
    Seq<char>,
    Field,
> {
    if with_recipient {
        refusal(error, "from"@, request.from).insert("to"@, Field::Text(request.to))
    } else {
        refusal(error, "from"@, request.from)
    }
}

/// The members of the answer that a transaction was sent.
pub open spec fn sent_report(request: SendView, hash: Seq<char>, nonce: u64) -> Map<
    Seq<char>,
    Field,
> {
    no_members().insert("success"@, Field::Flag(true)).insert(
        "transaction_hash"@,
        Field::Text(hash),
    ).insert("from"@, Field::Text(request.from)).insert("to"@, Field::Text(request.to)).insert(
        "value"@,
        Field::Text(request.value),
    ).insert("nonce"@, Field::Count(nonce)).insert(
        "message"@,
        Field::Text("Transaction sent successfully"@),
    )
}

/// The members of the answer about the code at an address.
pub open spec fn code_report(address: Seq<char>, code: Seq<u8>) -> Map<Seq<char>, Field> {
    if code.len() == 0 {
        refusal("No contract code found at address"@, "address"@, address)
    } else {
        no_members().insert("success"@, Field::Flag(true)).insert(
            "address"@,
            Field::Text(address),
        ).insert("code"@, Field::Text("0x"@ + hex_text(code)))
    }
}

/// The names of the members of an answer to a request to validate an
/// address differ from each other.
proof fn lemma_member_names()
    ensures
        "success"@ != "valid"@,
        "success"@ != "address"@,
        "success"@ != "message"@,
        "success"@ != "error"@,
        "address"@ != "message"@,
        "address"@ != "valid"@,
        "address"@ != "error"@,
{
    reveal_strlit("success");
    reveal_strlit("valid");
    reveal_strlit("address");
    reveal_strlit("message");
    reveal_strlit("error");
    assert("success"@[0] == 's');
    assert("valid"@[0] == 'v');
    assert("address"@[0] == 'a');
    assert("message"@[0] == 'm');
    assert("error"@[0] == 'e');
}

/// The answer to a request to validate an address depends on the text
/// alone. For a text that writes an address it reports success and gives
/// the address in its checksum form; two texts that write the same address
/// get the same form. For any other text it reports failure and repeats
/// the text.
pub proof fn law_validation(address: Seq<char>, other: Seq<char>)
    ensures
        validation(address)["success"@] == Field::Flag(is_address(address)),
        is_address(address) ==> validation(address)["address"@] == Field::Text(
            checksum_form(hex_bytes(without_prefix(address))),
        ),
        !is_address(address) ==> validation(address)["address"@] == Field::Text(address),
        is_address(address) && is_address(other) && hex_bytes(without_prefix(address))
            == hex_bytes(without_prefix(other)) ==> validation(address) == validation(other),
{
    lemma_member_names();
}

/// Writes an answer that refuses.
fn refuse(error: &str, name: &str, given: &str) -> (object: JsonMap<String, Value>)
    ensures
        members(object) == refusal(error@, name@, given@),
{
    let mut object = new_object();
    put(&mut object, "success", Item::Flag(false));
    put(&mut object, "error", Item::text(error));
    put(&mut object, name, Item::text(given));
    object
}

/// The tool server.
#[derive(Debug)]
pub struct FoundryService {}

impl FoundryService {
    pub fn new() -> Self {
        FoundryService {  }
    }

    /// Checks an address and answers with its checksum form, or with the
    /// reason why the text writes no address.
    pub fn validate_address(&self, request: &ValidateAddressRequest) -> (answer: String)
        ensures
            answer@ == object_text(validation(request.address@)),
    {
        match EthAddress::parse(request.address.as_str()) {
            Ok(address) => {
                let account = address.checksum();
                let mut object = new_object();
                put(&mut object, "success", Item::Flag(true));
                put(&mut object, "valid", Item::Flag(true));
                put(&mut object, "address", Item::text(account.as_str()));
                put(&mut object, "message", Item::text("Valid Ethereum address"));
                write_object(&object)
            },
            Err(fault) => {
                let error = joined("Invalid address: ", fault.as_str());
                let mut object = new_object();
                put(&mut object, "success", Item::Flag(false));
                put(&mut object, "valid", Item::Flag(false));
                put(&mut object, "error", Item::text(error.as_str()));
                put(&mut object, "address", Item::text(request.address.as_str()));
                write_object(&object)
            },
        }
    }

    /// Begins a balance request: the account to ask the ledger about, or the
    /// answer that the text writes no address.
    pub fn balance(&self, request: &BalanceRequest) -> (step: BalanceStep)
        ensures
            match step {
                BalanceStep::Ask(account) => is_address(request.address@) && account.bytes@
                    == hex_bytes(without_prefix(request.address@)),
                BalanceStep::Answer(answer) => !is_address(request.address@) && answer@
                    == object_text(
                    refusal(
                        "Invalid address: "@ + address_fault(request.address@),
                        "address"@,
                        request.address@,
                    ),
                ),
            },
    {
        match EthAddress::parse(request.address.as_str()) {
            Ok(account) => BalanceStep::Ask(account),
            Err(fault) => {
                let error = joined("Invalid address: ", fault.as_str());
                let object = refuse(error.as_str(), "address", request.address.as_str());
                BalanceStep::Answer(write_object(&object))
            },
        }
    }

    /// Ends a balance request: the answer that reports the balance, given
    /// in wei as a decimal number.
    pub fn balance_answer(&self, account: &EthAddress, balance: &str) -> (answer: String)
        ensures
            answer@ == object_text(balance_report(checksum_form(account.bytes@), balance@)),
    {
        let name = account.checksum();
        let mut message = String::from_str("Balance: ");
        message.append(balance);
        message.append(" wei");
        let mut object = new_object();
        put(&mut object, "success", Item::Flag(true));
        put(&mut object, "address", Item::text(name.as_str()));
        put(&mut object, "balance", Item::text(balance));
        put(&mut object, "unit", Item::text("wei"));
        put(&mut object, "message", Item::text(message.as_str()));
        write_object(&object)
    }

    /// Begins a request to send a transaction. The request is checked
    /// before anything is asked of the ledger: the sender's address, the
    /// recipient's address, the amount, then the data. The first check that
    /// fails is answered at once.
    pub fn send_transaction(&self, request: &SendTransactionRequest) -> (step: SendStep)
        ensures
            match step {
                SendStep::Ask(transfer) => send_refusal(request@) is None && transfer_of(
                    request@,
                    transfer,
                ),
                SendStep::Answer(answer) => send_refusal(request@) is Some && answer@
                    == object_text(send_refusal(request@)->0),
            },
            !has_digit(request.value@) ==> step is Answer,
            !has_radix_mark(request.value@) && (exists|i: int|
                0 <= i < request.value@.len() && !is_decimal_char(#[trigger] request.value@[i]))
                ==> step is Answer,
    {
        let from = match EthAddress::parse(request.from.as_str()) {
            Ok(address) => address,
            Err(fault) => {
                let error = joined("Invalid sender address: ", fault.as_str());
                let object = refuse(error.as_str(), "from", request.from.as_str());
                return SendStep::Answer(write_object(&object));
            },
        };
        let to = match EthAddress::parse(request.to.as_str()) {
            Ok(address) => address,
            Err(fault) => {
                let error = joined("Invalid address: ", fault.as_str());
                let object = refuse(error.as_str(), "to", request.to.as_str());
                return SendStep::Answer(write_object(&object));
            },
        };
        let amount = match WeiAmount::parse(request.value.as_str()) {
            Ok(amount) => amount,
            Err(fault) => {
                let error = joined("Invalid amount: ", fault.as_str());
                let object = refuse(error.as_str(), "value", request.value.as_str());
                return SendStep::Answer(write_object(&object));
            },
        };
        let data = match &request.data {
            Some(text) => match decode_data(text.as_str()) {
                Ok(bytes) => bytes,
                Err(fault) => {
                    let error = joined("Invalid data format: ", fault.as_str());
                    let object = refuse(error.as_str(), "data", text.as_str());
                    return SendStep::Answer(write_object(&object));
                },
            },
            None => Vec::new(),
        };
        SendStep::Ask(
            Transfer {
                from,
                to,
                amount,
                data,
                gas_limit: request.gas_limit,
                gas_price: request.gas_price,
            },
        )
    }

    /// The transaction for a transfer, once the ledger has told the
    /// sender's nonce. Data is set only where there are bytes to send.
    pub fn transaction(&self, transfer: Transfer, nonce: u64) -> (transaction: Transaction)
        ensures
            transaction_of(transfer, nonce, transaction),
    {
        let Transfer { from, to, amount, data, gas_limit, gas_price } = transfer;
        let input = if data.len() == 0 {
            None
        } else {
            Some(data)
        };
        Transaction { to, value: amount, nonce, from, input, gas_limit, gas_price }
    }

    /// The answer where the ledger would not tell the sender's nonce.
    pub fn nonce_failure(&self, request: &SendTransactionRequest, reason: &str) -> (answer: String)
        ensures
            answer@ == object_text(
                ledger_refusal("Failed to get nonce: "@ + reason@, request@, false),
            ),
    {
        let error = joined("Failed to get nonce: ", reason);
        let object = refuse(error.as_str(), "from", request.from.as_str());
        write_object(&object)
    }

    /// The answer where the ledger would not take the transaction.
    pub fn send_failure(&self, request: &SendTransactionRequest, reason: &str) -> (answer: String)
        ensures
            answer@ == object_text(
                ledger_refusal("Failed to send transaction: "@ + reason@, request@, true),
            ),
    {
        let error = joined("Failed to send transaction: ", reason);
        let mut object = refuse(error.as_str(), "from", request.from.as_str());
        put(&mut object, "to", Item::text(request.to.as_str()));
        write_object(&object)
    }

    /// The answer that the transaction was sent, with its hash and nonce.
    pub fn sent(&self, request: &SendTransactionRequest, hash: &str, nonce: u64) -> (answer: String)
        ensures
            answer@ == object_text(sent_report(request@, hash@, nonce)),
    {
        let mut object = new_object();
        put(&mut object, "success", Item::Flag(true));
        put(&mut object, "transaction_hash", Item::text(hash));
        put(&mut object, "from", Item::text(request.from.as_str()));
        put(&mut object, "to", Item::text(request.to.as_str()));
        put(&mut object, "value", Item::text(request.value.as_str()));
        put(&mut object, "nonce", Item::Count(nonce));
        put(&mut object, "message", Item::text("Transaction sent successfully"));
        write_object(&object)
    }

    /// Goes on with a transfer once the ledger has answered for the
    /// sender's nonce: with the nonce, the transaction to send; without
    /// it, the answer that says why.
    pub fn with_nonce(
        &self,
        request: &SendTransactionRequest,
        transfer: Transfer,
        nonce: Result<u64, String>,
    ) -> (step: SubmitStep)
        ensures
            match nonce {
                Ok(number) => step matches SubmitStep::Send(transaction) && transaction_of(
                    transfer,
                    number,
                    transaction,
                ),
                Err(reason) => step matches SubmitStep::Answer(answer) && answer@ == object_text(
                    ledger_refusal("Failed to get nonce: "@ + reason@, request@, false),
                ),
            },
    {
        match nonce {
            Ok(number) => SubmitStep::Send(self.transaction(transfer, number)),
            Err(reason) => SubmitStep::Answer(self.nonce_failure(request, reason.as_str())),
        }
    }

    /// Ends a request to send a transaction: the answer that it was sent,
    /// with the hash that the ledger gave, or the answer that the ledger
    /// would not take it, with the reason.
    pub fn send_answer(
        &self,
        request: &SendTransactionRequest,
        nonce: u64,
        outcome: &Result<String, String>,
    ) -> (answer: String)
        ensures
            answer@ == object_text(
                submission(
                    request@,
                    nonce,
                    match outcome {
                        Ok(hash) => Ok(hash@),
                        Err(reason) => Err(reason@),
                    },
                ),
            ),
    {
        match outcome {
            Ok(hash) => self.sent(request, hash.as_str(), nonce),
            Err(reason) => self.send_failure(request, reason.as_str()),
        }
    }

    /// Begins a request for the code at an address: the account to ask the
    /// ledger about, or the answer that the text writes no address.
    pub fn get_contract_code(&self, request: &GetContractCodeRequest) -> (step: CodeStep)
        ensures
            match step {
                CodeStep::Ask(account) => is_address(request.address@) && account.bytes@
                    == hex_bytes(without_prefix(request.address@)),
                CodeStep::Answer(answer) => !is_address(request.address@) && answer@
                    == object_text(
                    refusal(
                        "Invalid address: "@ + address_fault(request.address@),
                        "address"@,
                        request.address@,
                    ),
                ),
            },
    {
        match EthAddress::parse(request.address.as_str()) {
            Ok(account) => CodeStep::Ask(account),
            Err(fault) => {
                let error = joined("Invalid address: ", fault.as_str());
                let object = refuse(error.as_str(), "address", request.address.as_str());
                CodeStep::Answer(write_object(&object))
            },
        }
    }

    /// Ends a request for the code at an address: the code in hexadecimal,
    /// or the answer that there is none.
    pub fn contract_code_answer(&self, request: &GetContractCodeRequest, code: &Vec<u8>) -> (answer:
        String)
        ensures
            answer@ == object_text(code_report(request.address@, code@)),
    {
        if code.len() == 0 {
            let object = refuse(
                "No contract code found at address",
                "address",
                request.address.as_str(),
            );
            write_object(&object)
        } else {
            let text = encode_data(code);
            let mut object = new_object();
            put(&mut object, "success", Item::Flag(true));
            put(&mut object, "address", Item::text(request.address.as_str()));
            put(&mut object, "code", Item::text(text.as_str()));
            write_object(&object)
        }
    }
}

} // verus!
