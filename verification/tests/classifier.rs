//! Tests of the credential classifier and the text-field decoder.

use wlancreds::classify::classify;
use wlancreds::doc::Node;
use wlancreds::text::parse_utf16_slice;

fn el(name: &str, children: Vec<Node>) -> Node {
    Node { name: name.to_string(), text: String::new(), children }
}

fn txt(name: &str, text: &str) -> Node {
    Node { name: name.to_string(), text: text.to_string(), children: Vec::new() }
}

fn profile_doc(auth: &str, key: Option<&str>) -> Node {
    let mut security = vec![el("authEncryption", vec![txt("authentication", auth)])];
    if let Some(k) = key {
        security.push(el("sharedKey", vec![txt("keyMaterial", k)]));
    }
    el("WLANProfile", vec![el("MSM", vec![el("security", security)])])
}

#[test]
fn open_network_has_no_key_even_with_key_material_present() {
    let doc = profile_doc("open", Some("should never be read"));
    let r = classify("HomeNet".to_string(), "open".to_string(), &doc);
    assert_eq!(r.ssid, "HomeNet");
    assert_eq!(r.auth_type, "open");
    assert_eq!(r.key, None);
}

#[test]
fn wpa2psk_with_key_material_yields_exact_key() {
    let doc = profile_doc("WPA2PSK", Some("s3cr3t99"));
    let r = classify("OfficeNet".to_string(), "WPA2PSK".to_string(), &doc);
    assert_eq!(r.ssid, "OfficeNet");
    assert_eq!(r.auth_type, "WPA2PSK");
    assert_eq!(r.key, Some("s3cr3t99".to_string()));
}

#[test]
fn wpa2psk_without_key_material_yields_absent_key() {
    let doc = profile_doc("WPA2PSK", None);
    let r = classify("OfficeNet".to_string(), "WPA2PSK".to_string(), &doc);
    assert_eq!(r.auth_type, "WPA2PSK");
    assert_eq!(r.key, None);
}

#[test]
fn wpa2_is_also_a_psk_scheme() {
    let doc = profile_doc("WPA2", Some("pass phrase"));
    let r = classify("Net".to_string(), "WPA2".to_string(), &doc);
    assert_eq!(r.key, Some("pass phrase".to_string()));
}

#[test]
fn unknown_scheme_is_passed_through_without_key() {
    let doc = profile_doc("WPA3SAE", Some("ignored"));
    let r = classify("Net".to_string(), "WPA3SAE".to_string(), &doc);
    assert_eq!(r.auth_type, "WPA3SAE");
    assert_eq!(r.key, None);
}

fn wide_field(s: &str, width: usize) -> Vec<u16> {
    let mut v: Vec<u16> = s.encode_utf16().collect();
    while v.len() < width {
        v.push(0);
    }
    v
}

#[test]
fn decodes_up_to_first_terminator() {
    let mut field = wide_field("Intel Wireless", 32);
    // Stale data after the terminator must be ignored.
    field[20] = 0x58;
    assert_eq!(parse_utf16_slice(&field), Some("Intel Wireless".to_string()));
}

#[test]
fn field_without_terminator_is_malformed() {
    let field: Vec<u16> = "NoTerminatorHere".encode_utf16().collect();
    assert_eq!(parse_utf16_slice(&field), None);
}

#[test]
fn empty_field_is_malformed() {
    assert_eq!(parse_utf16_slice(&Vec::new()), None);
}

#[test]
fn terminator_first_decodes_to_empty() {
    assert_eq!(parse_utf16_slice(&vec![0u16, 65, 66]), Some(String::new()));
}

#[test]
fn decoding_really_decodes_utf16() {
    // A surrogate pair and a non-ASCII character: handing back the raw code
    // units unchanged could not produce these strings.
    let field = wide_field("caf\u{e9} \u{1d11e}", 16);
    assert_eq!(parse_utf16_slice(&field), Some("caf\u{e9} \u{1d11e}".to_string()));
}
