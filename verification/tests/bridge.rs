use node_bridge::config::NodeConfig;
use node_bridge::node::Node;

fn fresh_node_no_mining() -> Node {
    let mut config = NodeConfig::test_defaults();
    config.no_mining = true;
    Node::assemble(config)
}

fn fresh_node_instant(max_transactions: usize) -> Node {
    let mut config = NodeConfig::test_defaults();
    config.max_transactions = max_transactions;
    Node::assemble(config)
}

#[test]
fn fresh_node_reports_block_number_zero() {
    let mut node = fresh_node_no_mining();
    let r = node.execute("{\"method\":\"eth_blockNumber\",\"params\":[]}");
    assert_eq!(r, "{\"result\":0}");
}

#[test]
fn missing_params_member_is_an_empty_parameter_list() {
    let mut node = fresh_node_no_mining();
    let r = node.execute("{\"method\":\"eth_blockNumber\"}");
    assert_eq!(r, "{\"result\":0}");
}

#[test]
fn chain_id_is_reported() {
    let mut node = fresh_node_no_mining();
    let r = node.execute("{\"method\":\"eth_chainId\",\"params\":[]}");
    assert_eq!(r, "{\"result\":31337}");
}

#[test]
fn accounts_are_the_configured_signers() {
    let mut node = fresh_node_no_mining();
    let r = node.execute("{\"method\":\"eth_accounts\",\"params\":[]}");
    assert_eq!(r, "{\"result\":[0,1,2,3,4,5,6,7,8,9]}");
}

#[test]
fn instant_mining_advances_the_block_number() {
    let mut node = fresh_node_instant(1);
    let r0 = node.execute("{\"method\":\"eth_blockNumber\",\"params\":[]}");
    assert_eq!(r0, "{\"result\":0}");
    let rs = node.execute(
        "{\"method\":\"eth_sendRawTransaction\",\"params\":[\"0xf86c0a850a22\"]}",
    );
    assert!(rs.starts_with("{\"result\":\"0x"));
    let mut last = String::new();
    for _ in 0..3 {
        last = node.execute("{\"method\":\"eth_blockNumber\",\"params\":[]}");
    }
    assert_eq!(last, "{\"result\":1}");
}

#[test]
fn submitted_transaction_lands_in_the_new_block() {
    let mut node = fresh_node_instant(10);
    let tx = "0xdeadbeef";
    let payload = format!(
        "{{\"method\":\"eth_sendRawTransaction\",\"params\":[\"{}\"]}}",
        tx
    );
    let rs = node.execute(&payload);
    assert!(rs.starts_with("{\"result\":\"0x"));
    assert_eq!(node.block_count(), 1);
    let block = node.block_transactions(0).unwrap();
    assert_eq!(block.len(), 1);
    assert_eq!(block[0], tx);
    assert!(node.block_transactions(1).is_none());
}

#[test]
fn no_mining_mode_queues_without_producing_blocks() {
    let mut node = fresh_node_no_mining();
    let rs = node.execute(
        "{\"method\":\"eth_sendRawTransaction\",\"params\":[\"0xf86c\"]}",
    );
    assert!(rs.starts_with("{\"result\":\"0x"));
    let r = node.execute("{\"method\":\"eth_blockNumber\",\"params\":[]}");
    assert_eq!(r, "{\"result\":0}");
}

#[test]
fn transaction_hash_is_the_keccak_digest() {
    // Keccak-256 of the empty input, a fixed, well-known value.
    let mut node = fresh_node_instant(1);
    let r = node.execute("{\"method\":\"eth_sendRawTransaction\",\"params\":[\"\"]}");
    assert_eq!(
        r,
        "{\"result\":\"0xc5d2460186f7233c927e7db2dcc703c0e500b653ca82273b7bfad8045d85a470\"}",
    );
}

#[test]
fn different_transactions_get_different_hashes() {
    let mut node = fresh_node_instant(1);
    let r1 = node.execute("{\"method\":\"eth_sendRawTransaction\",\"params\":[\"0x01\"]}");
    let r2 = node.execute("{\"method\":\"eth_sendRawTransaction\",\"params\":[\"0x02\"]}");
    assert_ne!(r1, r2);
    assert_eq!(r1.len(), r2.len());
}

#[test]
fn malformed_payloads_earn_a_parse_error_and_change_nothing() {
    let mut node = fresh_node_no_mining();
    let parse_error = "{\"error\":{\"code\":-32700,\"message\":\"parse error\"}}";
    assert_eq!(node.execute("not json at all"), parse_error);
    assert_eq!(node.execute("[1,2,3]"), parse_error);
    assert_eq!(node.execute("{\"method\":5}"), parse_error);
    assert_eq!(node.execute("{\"params\":[]}"), parse_error);
    assert_eq!(node.execute(""), parse_error);
    let r = node.execute("{\"method\":\"eth_blockNumber\",\"params\":[]}");
    assert_eq!(r, "{\"result\":0}");
}

#[test]
fn unknown_method_earns_method_not_found_and_changes_nothing() {
    let mut node = fresh_node_instant(1);
    let r = node.execute("{\"method\":\"eth_mysteryCall\",\"params\":[]}");
    assert_eq!(r, "{\"error\":{\"code\":-32601,\"message\":\"method not found\"}}");
    let r = node.execute("{\"method\":\"eth_blockNumber\",\"params\":[]}");
    assert_eq!(r, "{\"result\":0}");
}

#[test]
fn unusable_submission_parameters_are_rejected() {
    let mut node = fresh_node_instant(1);
    let invalid = "{\"error\":{\"code\":-32602,\"message\":\"invalid params\"}}";
    assert_eq!(
        node.execute("{\"method\":\"eth_sendRawTransaction\",\"params\":[]}"),
        invalid,
    );
    assert_eq!(
        node.execute("{\"method\":\"eth_sendRawTransaction\",\"params\":[7]}"),
        invalid,
    );
    assert_eq!(node.execute("{\"method\":\"eth_blockNumber\"}"), "{\"result\":0}");
}

#[test]
fn block_numbers_never_decrease_across_calls_on_one_handle() {
    let mut node = fresh_node_instant(1);
    let r0 = node.execute("{\"method\":\"eth_blockNumber\"}");
    node.execute("{\"method\":\"eth_sendRawTransaction\",\"params\":[\"0xaa\"]}");
    let r1 = node.execute("{\"method\":\"eth_blockNumber\"}");
    node.execute("{\"method\":\"eth_sendRawTransaction\",\"params\":[\"0xbb\"]}");
    let r2 = node.execute("{\"method\":\"eth_blockNumber\"}");
    assert_eq!(r0, "{\"result\":0}");
    assert_eq!(r1, "{\"result\":1}");
    assert_eq!(r2, "{\"result\":2}");
}

#[test]
fn dispatch_answers_a_decoded_call_directly() {
    let mut node = fresh_node_no_mining();
    let method = String::from("eth_chainId");
    let params: Vec<Option<String>> = vec![];
    let r = node.dispatch(&method, &params);
    assert_eq!(r, "{\"result\":31337}");
}

#[test]
fn each_instant_submission_mines_at_once() {
    let mut node = fresh_node_instant(2);
    for tx in ["0x01", "0x02", "0x03"] {
        let payload = format!(
            "{{\"method\":\"eth_sendRawTransaction\",\"params\":[\"{}\"]}}",
            tx
        );
        node.execute(&payload);
    }
    assert_eq!(node.block_count(), 3);
    for i in 0..3 {
        assert_eq!(node.block_transactions(i).unwrap().len(), 1);
    }
}
