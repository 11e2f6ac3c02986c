use eth_agent::mcp_client::{
    ArgumentValue, FoundryMcpClient, ToolCall, CLIENT_NAME, CLIENT_VERSION,
};
use eth_agent::profile::{route, Profile, LEDGER_INSTRUCTIONS, SEARCH_INSTRUCTIONS};
use eth_agent::tools::{
    create_mcp_tool_set, BalanceArgs, BalanceTool, GetContractCodeArgs, GetContractCodeTool,
    McpToolSet, ParameterKind, SendTransactionArgs, SendTransactionTool, ToolError, ToolSchema,
    ValidateAddressArgs, ValidateAddressTool, WebSearchArgs, WebSearchTool,
};
use eth_agent::types::{
    CorrectionAttempt, Deviation, DeviationSeverity, Goal, PlanStatus, Priority, StepStatus, UserPrompt,
};

fn texts(call: &ToolCall) -> Vec<(String, String)> {
    call.arguments
        .iter()
        .map(|argument| {
            let value = match &argument.value {
                ArgumentValue::Text(text) => text.clone(),
                ArgumentValue::Number(number) => format!("#{}", number),
            };
            (argument.name.clone(), value)
        })
        .collect()
}

fn pair(name: &str, value: &str) -> (String, String) {
    (name.to_string(), value.to_string())
}

fn parameters(schema: &ToolSchema) -> Vec<(String, ParameterKind, bool)> {
    schema
        .parameters
        .iter()
        .map(|parameter| (parameter.name.clone(), parameter.kind, parameter.required))
        .collect()
}

#[test]
fn bridge_is_launched_by_cargo() {
    let client = FoundryMcpClient::new();
    assert_eq!(client.program, "cargo");
    assert_eq!(client.arguments, vec!["run", "--bin", "foundry-mcp"]);
    let copy = client.clone();
    assert_eq!(copy.program, "cargo");
    assert_eq!(copy.arguments, client.arguments);
    assert_eq!(CLIENT_NAME, "eth-agent");
    assert_eq!(CLIENT_VERSION, "1.0.0");
}

#[test]
fn calls_with_one_address() {
    let client = FoundryMcpClient::new();
    let call = client.balance("0xabc");
    assert_eq!(call.name, "balance");
    assert_eq!(texts(&call), vec![pair("address", "0xabc")]);
    let call = client.validate_address("not checked here");
    assert_eq!(call.name, "validate_address");
    assert_eq!(texts(&call), vec![pair("address", "not checked here")]);
    let call = client.get_contract_code("0xdef");
    assert_eq!(call.name, "get_contract_code");
    assert_eq!(texts(&call), vec![pair("address", "0xdef")]);
}

#[test]
fn call_for_a_token_balance() {
    let call = FoundryMcpClient::new().erc20_balance("0xabc", "0xtoken");
    assert_eq!(call.name, "erc20_balance");
    assert_eq!(texts(&call), vec![pair("address", "0xabc"), pair("token_address", "0xtoken")]);
}

#[test]
fn send_call_leaves_out_what_is_not_given() {
    let client = FoundryMcpClient::new();
    let call = client.send_transaction("a", "b", "1", None, None, None);
    assert_eq!(call.name, "send_transaction");
    assert_eq!(texts(&call), vec![pair("from", "a"), pair("to", "b"), pair("value", "1")]);
}

#[test]
fn send_call_carries_what_is_given() {
    let client = FoundryMcpClient::new();
    let call = client.send_transaction(
        "a",
        "b",
        "not a number",
        Some("0x00"),
        Some(21000),
        Some(340282366920938463463374607431768211455),
    );
    assert_eq!(
        texts(&call),
        vec![
            pair("from", "a"),
            pair("to", "b"),
            pair("value", "not a number"),
            pair("data", "0x00"),
            pair("gas_limit", "#21000"),
            pair("gas_price", "#340282366920938463463374607431768211455"),
        ]
    );
    let call = client.send_transaction("a", "b", "1", None, None, Some(5));
    assert_eq!(
        texts(&call),
        vec![pair("from", "a"), pair("to", "b"), pair("value", "1"), pair("gas_price", "#5")]
    );
}

#[test]
fn liveness_follows_the_probe() {
    let client = FoundryMcpClient::new();
    assert!(client.is_alive(&Ok("[]".to_string())));
    assert!(!client.is_alive(&Err("broken pipe".to_string())));
}

#[test]
fn tool_error_messages() {
    assert_eq!(ToolError::McpError("gone".to_string()).message(), "MCP client error: gone");
    assert_eq!(
        ToolError::SerializationError("eof".to_string()).message(),
        "Serialization error: eof"
    );
    assert_eq!(ToolError::InvalidAddress("0x1".to_string()).message(), "Invalid address: 0x1");
    assert_eq!(
        ToolError::InvalidTransactionParams("value".to_string()).message(),
        "Invalid transaction parameters: value"
    );
}

#[test]
fn ledger_tools_call_the_server() {
    let client = FoundryMcpClient::new();
    let call = ValidateAddressTool::new(client.clone())
        .call(&ValidateAddressArgs { address: "0x1".to_string() });
    assert_eq!(call.name, "validate_address");
    assert_eq!(texts(&call), vec![pair("address", "0x1")]);
    let call = BalanceTool::new(client.clone()).call(&BalanceArgs { address: "0x2".to_string() });
    assert_eq!(call.name, "balance");
    assert_eq!(texts(&call), vec![pair("address", "0x2")]);
    let call = GetContractCodeTool::new(client.clone())
        .call(&GetContractCodeArgs { address: "0x3".to_string() });
    assert_eq!(call.name, "get_contract_code");
    assert_eq!(texts(&call), vec![pair("address", "0x3")]);
    let call = SendTransactionTool::new(client).call(&SendTransactionArgs {
        from: "a".to_string(),
        to: "b".to_string(),
        value: "7".to_string(),
        data: Some("0x".to_string()),
        gas_limit: None,
        gas_price: Some(9),
    });
    assert_eq!(call.name, "send_transaction");
    assert_eq!(
        texts(&call),
        vec![pair("from", "a"), pair("to", "b"), pair("value", "7"), pair("data", "0x"), pair("gas_price", "#9")]
    );
}

#[test]
fn tools_describe_themselves() {
    let client = FoundryMcpClient::new();
    let schema = ValidateAddressTool::new(client.clone()).definition();
    assert_eq!(schema.name, "validate_address");
    assert_eq!(schema.description, "Validate an Ethereum address format and checksum");
    assert_eq!(parameters(&schema), vec![("address".to_string(), ParameterKind::Text, true)]);
    assert_eq!(schema.parameters[0].description, "The Ethereum address to validate");

    let schema = BalanceTool::new(client.clone()).definition();
    assert_eq!(schema.name, "balance");
    assert_eq!(schema.description, "Check the balance of an Ethereum address");
    assert_eq!(parameters(&schema), vec![("address".to_string(), ParameterKind::Text, true)]);
    assert_eq!(schema.parameters[0].description, "The Ethereum address to check balance for");

    let schema = GetContractCodeTool::new(client.clone()).definition();
    assert_eq!(schema.name, "get_contract_code");
    assert_eq!(schema.description, "Get the contract code of an Ethereum address");
    assert_eq!(parameters(&schema), vec![("address".to_string(), ParameterKind::Text, true)]);
    assert_eq!(
        schema.parameters[0].description,
        "The Ethereum address to get the contract code for"
    );

    let schema = SendTransactionTool::new(client).definition();
    assert_eq!(schema.name, "send_transaction");
    assert_eq!(schema.description, "Send an Ethereum transaction with specified parameters");
    assert_eq!(
        parameters(&schema),
        vec![
            ("from".to_string(), ParameterKind::Text, true),
            ("to".to_string(), ParameterKind::Text, true),
            ("value".to_string(), ParameterKind::Text, true),
            ("data".to_string(), ParameterKind::Text, false),
            ("gas_limit".to_string(), ParameterKind::Number, false),
            ("gas_price".to_string(), ParameterKind::Number, false),
        ]
    );
    assert_eq!(schema.parameters[2].description, "Amount of ETH to send (in wei)");

    let schema = WebSearchTool::new("key".to_string()).definition();
    assert_eq!(schema.name, "web_search");
    assert_eq!(schema.description, "Search the web for information using Brave Search API");
    assert_eq!(
        parameters(&schema),
        vec![
            ("query".to_string(), ParameterKind::Text, true),
            ("count".to_string(), ParameterKind::Number, false),
            ("country".to_string(), ParameterKind::Text, false),
            ("search_lang".to_string(), ParameterKind::Text, false),
        ]
    );
}

#[test]
fn search_asks_the_provider() {
    let tool = WebSearchTool::new("secret-key".to_string());
    let request = tool.search("price of ETH");
    assert_eq!(request.url, "https://api.search.brave.com/res/v1/web/search");
    assert_eq!(request.header, "X-Subscription-Token");
    assert_eq!(request.token, "secret-key");
    assert_eq!(request.parameter, "q");
    assert_eq!(request.query, "price of ETH");
    let request = tool.call(&WebSearchArgs {
        query: "gas".to_string(),
        count: Some(3),
        country: Some("us".to_string()),
        search_lang: None,
    });
    assert_eq!(request.query, "gas");
    assert_eq!(request.token, "secret-key");
}

#[test]
fn tool_set_lists_its_tools() {
    let tools = McpToolSet::new(FoundryMcpClient::new(), "key".to_string());
    assert_eq!(
        tools.list_tools(),
        vec!["validate_address", "send_transaction", "balance", "web_search"]
    );
    let names: Vec<String> =
        tools.get_tool_definitions().into_iter().map(|schema| schema.name).collect();
    assert_eq!(names, tools.list_tools());
    let tools = create_mcp_tool_set("other".to_string());
    assert_eq!(tools.web_search.search("q").token, "other");
    assert_eq!(tools.balance.definition().name, "balance");
}

#[test]
fn profiles_are_routed_by_name() {
    assert_eq!(route("ethereum_agent"), Some(Profile::Ledger));
    assert_eq!(route("search_agent"), Some(Profile::Search));
    assert_eq!(route("mystery_agent"), None);
    assert_eq!(route(""), None);
    assert_eq!(route("Ethereum_agent"), None);
    assert_eq!(route(Profile::Ledger.name()), Some(Profile::Ledger));
    assert_eq!(route(Profile::Search.name()), Some(Profile::Search));
}

#[test]
fn profiles_have_their_turns_and_instructions() {
    assert_eq!(Profile::Ledger.max_turns(), 1);
    assert_eq!(Profile::Search.max_turns(), 3);
    assert_eq!(Profile::Ledger.label(), "ethereum");
    assert_eq!(Profile::Search.label(), "search");
    assert_eq!(Profile::Ledger.instructions(), LEDGER_INSTRUCTIONS);
    assert_eq!(Profile::Search.instructions(), SEARCH_INSTRUCTIONS);
    assert!(LEDGER_INSTRUCTIONS.contains("- send_transaction: Send a transaction to the Ethereum network"));
    assert!(LEDGER_INSTRUCTIONS.contains("Alice: 0xf39Fd6e51aad88F6F4ce6aB8827279cffFb92266"));
    assert!(SEARCH_INSTRUCTIONS.contains("- web_search: Search the web for information"));
}

#[test]
fn prompt_context_behaves_like_a_map() {
    let prompt = UserPrompt::new("id".to_string(), "text".to_string(), 5);
    assert_eq!(prompt.context_value("network"), None);
    let prompt = prompt.with_context("network".to_string(), "\"foundry local\"".to_string());
    let prompt = prompt.with_context("depth".to_string(), "3".to_string());
    assert_eq!(prompt.context_value("network"), Some(&"\"foundry local\"".to_string()));
    assert_eq!(prompt.context_value("depth"), Some(&"3".to_string()));
    let prompt = prompt.with_context("network".to_string(), "\"mainnet\"".to_string());
    assert_eq!(prompt.context.len(), 2);
    assert_eq!(prompt.context_value("network"), Some(&"\"mainnet\"".to_string()));
    assert_eq!(prompt.context_value("depth"), Some(&"3".to_string()));
    assert_eq!(prompt.context_value("other"), None);
    assert_eq!(prompt.id, "id");
    assert_eq!(prompt.natural_language, "text");
    assert_eq!(prompt.timestamp, 5);
}

#[test]
fn plain_records_hold_their_fields() {
    let goal = Goal {
        id: "g".to_string(),
        description: "d".to_string(),
        success_criteria: vec!["s".to_string()],
        constraints: vec![],
        priority: Priority::High,
    };
    assert_eq!(goal.priority, Priority::High);
    assert_ne!(goal.priority, Priority::Critical);
    let deviation = Deviation {
        id: "v".to_string(),
        goal_id: goal.id.clone(),
        description: "late".to_string(),
        severity: DeviationSeverity::Medium,
        detected_at: 10,
        correction_attempts: vec![CorrectionAttempt {
            id: "c".to_string(),
            description: "retry".to_string(),
            timestamp: 11,
            success: false,
            error_message: Some("again".to_string()),
        }],
    };
    assert_eq!(deviation.severity, DeviationSeverity::Medium);
    assert_eq!(deviation.correction_attempts.len(), 1);
    assert!(matches!(StepStatus::Failed("x".to_string()), StepStatus::Failed(_)));
    assert!(matches!(PlanStatus::MaxStepsReached, PlanStatus::MaxStepsReached));
}
