use node_bridge::response::{error_string, success_string};
use node_bridge::text::{dec_list_string, dec_string, hex_string};

#[test]
fn decimal_rendering_is_exact() {
    assert_eq!(dec_string(0), "0");
    assert_eq!(dec_string(7), "7");
    assert_eq!(dec_string(10), "10");
    assert_eq!(dec_string(31337), "31337");
    assert_eq!(dec_string(u64::MAX), "18446744073709551615");
}

#[test]
fn hexadecimal_rendering_is_exact() {
    assert_eq!(hex_string(&vec![]), "");
    assert_eq!(hex_string(&vec![0x00]), "00");
    assert_eq!(hex_string(&vec![0xff]), "ff");
    assert_eq!(hex_string(&vec![0x00, 0xff, 0x1a]), "00ff1a");
}

#[test]
fn numeral_lists_are_comma_separated() {
    assert_eq!(dec_list_string(&vec![]), "");
    assert_eq!(dec_list_string(&vec![7]), "7");
    assert_eq!(dec_list_string(&vec![1, 2, 30]), "1,2,30");
}

#[test]
fn response_shapes_are_exact() {
    assert_eq!(success_string("0"), "{\"result\":0}");
    assert_eq!(
        error_string("-32700", "parse error"),
        "{\"error\":{\"code\":-32700,\"message\":\"parse error\"}}",
    );
}
