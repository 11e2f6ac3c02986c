//! The tools that the capability profiles may call: what each takes, how it
//! describes itself to a model, and the request that a call of it makes.

use vstd::prelude::*;
use vstd::string::*;
use crate::mcp_client::{
    address_call, cargo_launch, send_call, FoundryMcpClient, LaunchView, ToolCall,
};
use crate::text::{joined, maybe, views};

verus! {

/// Where the search provider is asked.
pub const SEARCH_URL: &'static str = "https://api.search.brave.com/res/v1/web/search";

/// The request header that carries the search credential.
pub const SEARCH_TOKEN_HEADER: &'static str = "X-Subscription-Token";

/// Why a tool call failed.
#[derive(Debug)]
pub enum ToolError {
    /// The tool server could not be reached, or has exited.
    McpError(String),
    /// A reply could not be turned into a value.
    SerializationError(String),
    InvalidAddress(String),
    InvalidTransactionParams(String),
}

/// What a [`ToolError`] stands for.
pub enum ToolErrorView {
    McpError(Seq<char>),
    SerializationError(Seq<char>),
    InvalidAddress(Seq<char>),
    InvalidTransactionParams(Seq<char>),
}

impl View for ToolError {
    type V = ToolErrorView;

    open spec fn view(&self) -> ToolErrorView {
        match self {
            ToolError::McpError(reason) => ToolErrorView::McpError(reason@),
            ToolError::SerializationError(reason) => ToolErrorView::SerializationError(reason@),
            ToolError::InvalidAddress(address) => ToolErrorView::InvalidAddress(address@),
            ToolError::InvalidTransactionParams(params) => ToolErrorView::InvalidTransactionParams(
                params@,
            ),
        }
    }
}

impl ToolErrorView {
    /// The error in words.
    pub open spec fn message(self) -> Seq<char> {
        match self {
            ToolErrorView::McpError(reason) => "MCP client error: "@ + reason,
            ToolErrorView::SerializationError(reason) => "Serialization error: "@ + reason,
            ToolErrorView::InvalidAddress(address) => "Invalid address: "@ + address,
            ToolErrorView::InvalidTransactionParams(params) => "Invalid transaction parameters: "@
                + params,
        }
    }
}

impl ToolError {
    /// The error in words.
    pub fn message(&self) -> (text: String)
        ensures
            text@ == self@.message(),
    {
        match self {
            ToolError::McpError(reason) => joined("MCP client error: ", reason.as_str()),
            ToolError::SerializationError(reason) => joined(
                "Serialization error: ",
                reason.as_str(),
            ),
            ToolError::InvalidAddress(address) => joined("Invalid address: ", address.as_str()),
            ToolError::InvalidTransactionParams(params) => joined(
                "Invalid transaction parameters: ",
                params.as_str(),
            ),
        }
    }
}

#[derive(Debug)]
pub struct ValidateAddressArgs {
    pub address: String,
}

#[derive(Debug)]
pub struct SendTransactionArgs {
    pub from: String,
    pub to: String,
    /// The amount in wei, as a decimal number.
    pub value: String,
    /// Data to send along, in hexadecimal.
    pub data: Option<String>,
    pub gas_limit: Option<u64>,
    pub gas_price: Option<u128>,
}

#[derive(Debug)]
pub struct BalanceArgs {
    pub address: String,
}

#[derive(Debug)]
pub struct GetContractCodeArgs {
    pub address: String,
}

#[derive(Debug)]
pub struct WebSearchArgs {
    pub query: String,
    pub count: Option<u32>,
    pub country: Option<String>,
    pub search_lang: Option<String>,
}

/// The kind of value that a parameter takes.
#[derive(Debug, Clone, Copy, PartialEq, Eq, Structural)]
pub enum ParameterKind {
    Text,
    Number,
}

/// One parameter of a tool, as a model is told of it.
#[derive(Debug)]
pub struct ParameterSchema {
    pub name: String,
    pub kind: ParameterKind,
    pub description: String,
    /// Whether a call must give the parameter.
    pub required: bool,
}

/// A tool, as a model is told of it.
#[derive(Debug)]
pub struct ToolSchema {
    pub name: String,
    pub description: String,
    pub parameters: Vec<ParameterSchema>,
}

/// What a [`ParameterSchema`] stands for.
pub struct ParameterView {
    pub name: Seq<char>,
    pub kind: ParameterKind,
    pub description: Seq<char>,
    pub required: bool,
}

/// What a [`ToolSchema`] stands for.
pub struct SchemaView {
    pub name: Seq<char>,
    pub description: Seq<char>,
    pub parameters: Seq<ParameterView>,
}

impl View for ParameterSchema {
    type V = ParameterView;

    open spec fn view(&self) -> ParameterView {
        ParameterView {
            name: self.name@,
            kind: self.kind,
            description: self.description@,
            required: self.required,
        }
    }
}

impl View for ToolSchema {
    type V = SchemaView;

    open spec fn view(&self) -> SchemaView {
        SchemaView {
            name: self.name@,
            description: self.description@,
            parameters: Seq::new(self.parameters@.len(), |i: int| self.parameters@[i]@),
        }
    }
}

/// A parameter that a call must give.
pub open spec fn required(
    name: Seq<char>,
    kind: ParameterKind,
    description: Seq<char>,
) -> ParameterView {
    ParameterView { name, kind, description, required: true }
}

/// A parameter that a call may leave out.
pub open spec fn optional(
    name: Seq<char>,
    kind: ParameterKind,
    description: Seq<char>,
) -> ParameterView {
    ParameterView { name, kind, description, required: false }
}

/// The schema of a tool that takes one address.
pub open spec fn address_schema(
    name: Seq<char>,
    description: Seq<char>,
    address: Seq<char>,
) -> SchemaView {
    SchemaView {
        name,
        description,
        parameters: seq![required("address"@, ParameterKind::Text, address)],
    }
}

/// How the tool that validates an address describes itself.
pub open spec fn validate_address_schema() -> SchemaView {
    address_schema(
        "validate_address"@,
        "Validate an Ethereum address format and checksum"@,
        "The Ethereum address to validate"@,
    )
}

/// How the tool that tells a balance describes itself.
pub open spec fn balance_schema() -> SchemaView {
    address_schema(
        "balance"@,
        "Check the balance of an Ethereum address"@,
        "The Ethereum address to check balance for"@,
    )
}

/// How the tool that fetches contract code describes itself.
pub open spec fn get_contract_code_schema() -> SchemaView {
    address_schema(
        "get_contract_code"@,
        "Get the contract code of an Ethereum address"@,
        "The Ethereum address to get the contract code for"@,
    )
}

/// How the tool that sends a transaction describes itself.
pub open spec fn send_transaction_schema() -> SchemaView {
    SchemaView {
        name: "send_transaction"@,
        description: "Send an Ethereum transaction with specified parameters"@,
        parameters: seq![
            required("from"@, ParameterKind::Text, "Sender address"@),
            required("to"@, ParameterKind::Text, "Recipient address"@),
            required("value"@, ParameterKind::Text, "Amount of ETH to send (in wei)"@),
            optional("data"@, ParameterKind::Text, "Transaction data (hex encoded)"@),
            optional("gas_limit"@, ParameterKind::Number, "Gas limit for the transaction"@),
            optional("gas_price"@, ParameterKind::Number, "Gas price (in wei)"@),
        ],
    }
}

/// How the tool that searches the web describes itself.
pub open spec fn web_search_schema() -> SchemaView {
    SchemaView {
        name: "web_search"@,
        description: "Search the web for information using Brave Search API"@,
        parameters: seq![
            required("query"@, ParameterKind::Text, "The query to search the web for"@),
            optional(
                "count"@,
                ParameterKind::Number,
                "Number of results to return (default: 20)"@,
            ),
            optional(
                "country"@,
                ParameterKind::Text,
                "Country code for localized results (e.g., 'us')"@,
            ),
            optional("search_lang"@, ParameterKind::Text, "Search language (e.g., 'en')"@),
        ],
    }
}

/// A parameter of a tool.
fn parameter(name: &str, kind: ParameterKind, description: &str, required: bool) -> (parameter:
    ParameterSchema)
    ensures
        parameter@ == (ParameterView { name: name@, kind, description: description@, required }),
{
    ParameterSchema { name: name.to_owned(), kind, description: description.to_owned(), required }
}

/// The schema of a tool that takes one address.
fn schema_with_address(name: &str, description: &str, address: &str) -> (schema: ToolSchema)
    ensures
        schema@ == address_schema(name@, description@, address@),
{
    let mut parameters: Vec<ParameterSchema> = Vec::new();
    parameters.push(parameter("address", ParameterKind::Text, address, true));
    let schema = ToolSchema {
        name: name.to_owned(),
        description: description.to_owned(),
        parameters,
    };
    assert(schema@.parameters =~= address_schema(name@, description@, address@).parameters);
    schema
}

/// The tool that asks the server whether a text writes an address.
#[derive(Debug)]
pub struct ValidateAddressTool {
    client: FoundryMcpClient,
}

impl ValidateAddressTool {
    /// The tool over the bridge `client`.
    pub fn new(client: FoundryMcpClient) -> (tool: Self)
        ensures
            tool.bridge() == client@,
    {
        ValidateAddressTool { client }
    }

    /// The bridge that the tool calls over.
    pub closed spec fn bridge(&self) -> LaunchView {
        self.client@
    }

    /// How the tool describes itself to a model.
    pub fn definition(&self) -> (schema: ToolSchema)
        ensures
            schema@ == validate_address_schema(),
    {
        schema_with_address(
            "validate_address",
            "Validate an Ethereum address format and checksum",
            "The Ethereum address to validate",
        )
    }

    /// The call that the tool sends to the server.
    pub fn call(&self, args: &ValidateAddressArgs) -> (call: ToolCall)
        ensures
            call@ == address_call("validate_address"@, args.address@),
    {
        self.client.validate_address(args.address.as_str())
    }
}

/// The tool that has the server send a transaction.
#[derive(Debug)]
pub struct SendTransactionTool {
    client: FoundryMcpClient,
}

impl SendTransactionTool {
    /// The tool over the bridge `client`.
    pub fn new(client: FoundryMcpClient) -> (tool: Self)
        ensures
            tool.bridge() == client@,
    {
        SendTransactionTool { client }
    }

    /// The bridge that the tool calls over.
    pub closed spec fn bridge(&self) -> LaunchView {
        self.client@
    }

    /// How the tool describes itself to a model.
    pub fn definition(&self) -> (schema: ToolSchema)
        ensures
            schema@ == send_transaction_schema(),
    {
        let mut parameters: Vec<ParameterSchema> = Vec::new();
        parameters.push(parameter("from", ParameterKind::Text, "Sender address", true));
        parameters.push(parameter("to", ParameterKind::Text, "Recipient address", true));
        parameters.push(
            parameter("value", ParameterKind::Text, "Amount of ETH to send (in wei)", true),
        );
        parameters.push(
            parameter("data", ParameterKind::Text, "Transaction data (hex encoded)", false),
        );
        parameters.push(
            parameter("gas_limit", ParameterKind::Number, "Gas limit for the transaction", false),
        );
        parameters.push(parameter("gas_price", ParameterKind::Number, "Gas price (in wei)", false));
        let schema = ToolSchema {
            name: "send_transaction".to_owned(),
            description: "Send an Ethereum transaction with specified parameters".to_owned(),
            parameters,
        };
        assert(schema@.parameters =~= send_transaction_schema().parameters);
        schema
    }

    /// The call that the tool sends to the server. The arguments go out as
    /// they came in: it is the server that checks them.
    pub fn call(&self, args: &SendTransactionArgs) -> (call: ToolCall)
        ensures
            call@ == send_call(
                args.from@,
                args.to@,
                args.value@,
                maybe(args.data),
                args.gas_limit,
                args.gas_price,
            ),
    {
        let data: Option<&str> = match &args.data {
            Some(data) => Some(data.as_str()),
            None => None,
        };
        self.client.send_transaction(
            args.from.as_str(),
            args.to.as_str(),
            args.value.as_str(),
            data,
            args.gas_limit,
            args.gas_price,
        )
    }
}

/// The tool that asks the server for the balance of an account.
#[derive(Debug)]
pub struct BalanceTool {
    client: FoundryMcpClient,
}

impl BalanceTool {
    /// The tool over the bridge `client`.
    pub fn new(client: FoundryMcpClient) -> (tool: Self)
        ensures
            tool.bridge() == client@,
    {
        BalanceTool { client }
    }

    /// The bridge that the tool calls over.
    pub closed spec fn bridge(&self) -> LaunchView {
        self.client@
    }

    /// How the tool describes itself to a model.
    pub fn definition(&self) -> (schema: ToolSchema)
        ensures
            schema@ == balance_schema(),
    {
        schema_with_address(
            "balance",
            "Check the balance of an Ethereum address",
            "The Ethereum address to check balance for",
        )
    }

    /// The call that the tool sends to the server.
    pub fn call(&self, args: &BalanceArgs) -> (call: ToolCall)
        ensures
            call@ == address_call("balance"@, args.address@),
    {
        self.client.balance(args.address.as_str())
    }
}

/// The tool that asks the server for the code at an address.
#[derive(Debug)]
pub struct GetContractCodeTool {
    client: FoundryMcpClient,
}

impl GetContractCodeTool {
    /// The tool over the bridge `client`.
    pub fn new(client: FoundryMcpClient) -> (tool: Self)
        ensures
            tool.bridge() == client@,
    {
        GetContractCodeTool { client }
    }

    /// The bridge that the tool calls over.
    pub closed spec fn bridge(&self) -> LaunchView {
        self.client@
    }

    /// How the tool describes itself to a model.
    pub fn definition(&self) -> (schema: ToolSchema)
        ensures
            schema@ == get_contract_code_schema(),
    {
        schema_with_address(
            "get_contract_code",
            "Get the contract code of an Ethereum address",
            "The Ethereum address to get the contract code for",
        )
    }

    /// The call that the tool sends to the server.
    pub fn call(&self, args: &GetContractCodeArgs) -> (call: ToolCall)
        ensures
            call@ == address_call("get_contract_code"@, args.address@),
    {
        self.client.get_contract_code(args.address.as_str())
    }
}

/// A request to the search provider.
#[derive(Debug)]
pub struct SearchRequest {
    pub url: String,
    /// The name of the header that carries the credential.
    pub header: String,
    /// The credential.
    pub token: String,
    /// The name of the query parameter.
    pub parameter: String,
    /// What is searched for.
    pub query: String,
}

/// What a [`SearchRequest`] stands for.
pub struct SearchView {
    pub url: Seq<char>,
    pub header: Seq<char>,
    pub token: Seq<char>,
    pub parameter: Seq<char>,
    pub query: Seq<char>,
}

impl View for SearchRequest {
    type V = SearchView;

    open spec fn view(&self) -> SearchView {
        SearchView {
            url: self.url@,
            header: self.header@,
            token: self.token@,
            parameter: self.parameter@,
            query: self.query@,
        }
    }
}

/// The request that asks the search provider for `query` with the
/// credential `token`.
pub open spec fn search_for(token: Seq<char>, query: Seq<char>) -> SearchView {
    SearchView {
        url: SEARCH_URL@,
        header: SEARCH_TOKEN_HEADER@,
        token,
        parameter: "q"@,
        query,
    }
}

/// The tool that searches the web. It asks the search provider itself,
/// not the tool server.
#[derive(Debug)]
pub struct WebSearchTool {
    brave_search_api_key: String,
}

impl WebSearchTool {
    /// The tool with its credential for the search provider.
    pub fn new(brave_search_api_key: String) -> (tool: Self)
        ensures
            tool.token() == brave_search_api_key@,
    {
        WebSearchTool { brave_search_api_key }
    }

    /// The credential that the tool presents to the search provider.
    pub closed spec fn token(&self) -> Seq<char> {
        self.brave_search_api_key@
    }

    /// The request that asks the search provider for `query`.
    pub fn search(&self, query: &str) -> (request: SearchRequest)
        ensures
            request@ == search_for(self.token(), query@),
    {
        SearchRequest {
            url: SEARCH_URL.to_owned(),
            header: SEARCH_TOKEN_HEADER.to_owned(),
            token: self.brave_search_api_key.clone(),
            parameter: "q".to_owned(),
            query: query.to_owned(),
        }
    }

    /// How the tool describes itself to a model.
    pub fn definition(&self) -> (schema: ToolSchema)
        ensures
            schema@ == web_search_schema(),
    {
        let mut parameters: Vec<ParameterSchema> = Vec::new();
        parameters.push(
            parameter("query", ParameterKind::Text, "The query to search the web for", true),
        );
        parameters.push(
            parameter(
                "count",
                ParameterKind::Number,
                "Number of results to return (default: 20)",
                false,
            ),
        );
        parameters.push(
            parameter(
                "country",
                ParameterKind::Text,
                "Country code for localized results (e.g., 'us')",
                false,
            ),
        );
        parameters.push(
            parameter("search_lang", ParameterKind::Text, "Search language (e.g., 'en')", false),
        );
        let schema = ToolSchema {
            name: "web_search".to_owned(),
            description: "Search the web for information using Brave Search API".to_owned(),
            parameters,
        };
        assert(schema@.parameters =~= web_search_schema().parameters);
        schema
    }

    /// The request that a call of the tool makes. Of the arguments only the
    /// query goes out.
    pub fn call(&self, args: &WebSearchArgs) -> (request: SearchRequest)
        ensures
            request@ == search_for(self.token(), args.query@),
    {
        self.search(args.query.as_str())
    }
}

/// The tools at hand.
#[derive(Debug)]
pub struct McpToolSet {
    pub validate_address: ValidateAddressTool,
    pub send_transaction: SendTransactionTool,
    pub balance: BalanceTool,
    pub web_search: WebSearchTool,
}

/// The names of the tools of a tool set.
pub open spec fn tool_names() -> Seq<Seq<char>> {
    seq!["validate_address"@, "send_transaction"@, "balance"@, "web_search"@]
}

impl McpToolSet {
    /// The tools bound to one bridge, and the search tool with its
    /// credential.
    pub fn new(client: FoundryMcpClient, brave_search_api_key: String) -> (tools: Self)
        ensures
            tools.validate_address.bridge() == client@,
            tools.send_transaction.bridge() == client@,
            tools.balance.bridge() == client@,
            tools.web_search.token() == brave_search_api_key@,
    {
        McpToolSet {
            validate_address: ValidateAddressTool::new(client.clone()),
            send_transaction: SendTransactionTool::new(client.clone()),
            balance: BalanceTool::new(client),
            web_search: WebSearchTool::new(brave_search_api_key),
        }
    }

    /// The names of the tools, in the order of their definitions.
    pub fn list_tools(&self) -> (names: Vec<String>)
        ensures
            views(names@) == tool_names(),
    {
        let mut names: Vec<String> = Vec::new();
        names.push("validate_address".to_owned());
        names.push("send_transaction".to_owned());
        names.push("balance".to_owned());
        names.push("web_search".to_owned());
        assert(views(names@) =~= tool_names());
        names
    }

    /// How the tools describe themselves to a model.
    pub fn get_tool_definitions(&self) -> (schemas: Vec<ToolSchema>)
        ensures
            schemas.len() == 4,
            schemas[0]@ == validate_address_schema(),
            schemas[1]@ == send_transaction_schema(),
            schemas[2]@ == balance_schema(),
            schemas[3]@ == web_search_schema(),
    {
        let mut schemas: Vec<ToolSchema> = Vec::new();
        schemas.push(self.validate_address.definition());
        schemas.push(self.send_transaction.definition());
        schemas.push(self.balance.definition());
        schemas.push(self.web_search.definition());
        schemas
    }
}

/// The tools over a bridge to a server that `cargo` builds and starts.
pub fn create_mcp_tool_set(brave_search_api_key: String) -> (tools: McpToolSet)
    ensures
        tools.validate_address.bridge() == cargo_launch(),
        tools.send_transaction.bridge() == cargo_launch(),
        tools.balance.bridge() == cargo_launch(),
        tools.web_search.token() == brave_search_api_key@,
{
    McpToolSet::new(FoundryMcpClient::new(), brave_search_api_key)
}

} // verus!
