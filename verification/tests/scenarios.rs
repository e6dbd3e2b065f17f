//! Whole-run scenarios against a counting fake of the configuration
//! service: every buffer the fake hands out must be released exactly once,
//! the session closed exactly once per open, and the emitted records and
//! diagnostics must match the service's content.

use wlancreds::classify::CredentialResult;
use wlancreds::doc::Node;
use wlancreds::engine::{Action, Diag, Engine, Event, RawInterface, RawProfile};

fn el(name: &str, children: Vec<Node>) -> Node {
    Node { name: name.to_string(), text: String::new(), children }
}

fn txt(name: &str, text: &str) -> Node {
    Node { name: name.to_string(), text: text.to_string(), children: Vec::new() }
}

fn profile_doc(auth: &str, key: Option<&str>) -> Node {
    let mut security = vec![el("authEncryption", vec![txt("authentication", auth)])];
    if let Some(k) = key {
        security.push(el("sharedKey", vec![txt("keyMaterial", k)]));
    }
    el("WLANProfile", vec![el("MSM", vec![el("security", security)])])
}

fn wide_field(s: &str, width: usize) -> Vec<u16> {
    let mut v: Vec<u16> = s.encode_utf16().collect();
    while v.len() < width {
        v.push(0);
    }
    v
}

fn unterminated(s: &str) -> Vec<u16> {
    s.encode_utf16().collect()
}

fn decode_name(field: &[u16]) -> String {
    let end = field.iter().position(|c| *c == 0).unwrap_or(field.len());
    String::from_utf16_lossy(&field[..end])
}

enum Fetch {
    Fail,
    BadDoc,
    Doc(Node),
}

struct FakeProfile {
    name_field: Vec<u16>,
    fetch: Option<Fetch>,
}

struct FakeInterface {
    guid: u128,
    desc_field: Vec<u16>,
    /// `None`: listing the profiles of this interface fails.
    profiles: Option<Vec<FakeProfile>>,
}

struct FakeService {
    open_ok: bool,
    enum_ok: bool,
    interfaces: Vec<FakeInterface>,
    next_buf: u64,
    allocated: Vec<u64>,
    freed: Vec<u64>,
    open_calls: u32,
    close_calls: u32,
}

impl FakeService {
    fn new(interfaces: Vec<FakeInterface>) -> FakeService {
        FakeService {
            open_ok: true,
            enum_ok: true,
            interfaces,
            next_buf: 0,
            allocated: Vec::new(),
            freed: Vec::new(),
            open_calls: 0,
            close_calls: 0,
        }
    }

    fn grab_buffer(&mut self) -> u64 {
        self.next_buf += 1;
        self.allocated.push(self.next_buf);
        self.next_buf
    }
}

fn profile(name: &str, fetch: Fetch) -> FakeProfile {
    FakeProfile { name_field: wide_field(name, 256), fetch: Some(fetch) }
}

fn iface(guid: u128, desc: &str, profiles: Option<Vec<FakeProfile>>) -> FakeInterface {
    FakeInterface { guid, desc_field: wide_field(desc, 256), profiles }
}

fn drive(mut svc: FakeService) -> (FakeService, Vec<CredentialResult>, Vec<Diag>, bool) {
    let mut eng = Engine::new();
    let mut ev = Event::Started;
    loop {
        match eng.step(ev) {
            Action::OpenSession => {
                svc.open_calls += 1;
                ev = Event::Opened { ok: svc.open_ok };
            }
            Action::EnumInterfaces => {
                if svc.enum_ok {
                    let buffer = svc.grab_buffer();
                    let interfaces = svc
                        .interfaces
                        .iter()
                        .map(|f| RawInterface { guid: f.guid, description: f.desc_field.clone() })
                        .collect();
                    ev = Event::Enumerated { buffer, interfaces };
                } else {
                    ev = Event::EnumFailed;
                }
            }
            Action::ListProfiles { interface } => {
                let idx = svc.interfaces.iter().position(|f| f.guid == interface).unwrap();
                if svc.interfaces[idx].profiles.is_some() {
                    let buffer = svc.grab_buffer();
                    let profiles = svc.interfaces[idx]
                        .profiles
                        .as_ref()
                        .unwrap()
                        .iter()
                        .map(|p| RawProfile { name: p.name_field.clone() })
                        .collect();
                    ev = Event::Listed { buffer, profiles };
                } else {
                    ev = Event::ListFailed;
                }
            }
            Action::FetchProfile { interface, profile } => {
                let i = svc.interfaces.iter().position(|f| f.guid == interface).unwrap();
                let ps = svc.interfaces[i].profiles.as_mut().unwrap();
                let j = ps
                    .iter()
                    .position(|p| decode_name(&p.name_field) == profile)
                    .unwrap();
                match ps[j].fetch.take().unwrap() {
                    Fetch::Fail => ev = Event::FetchFailed,
                    Fetch::BadDoc => {
                        let buffer = svc.grab_buffer();
                        ev = Event::Fetched { buffer, document: None };
                    }
                    Fetch::Doc(n) => {
                        let buffer = svc.grab_buffer();
                        ev = Event::Fetched { buffer, document: Some(n) };
                    }
                }
            }
            Action::FreeBuffer { buffer } => {
                svc.freed.push(buffer);
                ev = Event::Acked;
            }
            Action::CloseSession => {
                svc.close_calls += 1;
                ev = Event::Acked;
            }
            Action::Finish { failed } => return (svc, eng.records, eng.diags, failed),
        }
    }
}

fn assert_released_exactly_once(svc: &FakeService) {
    let mut a = svc.allocated.clone();
    let mut f = svc.freed.clone();
    a.sort();
    f.sort();
    assert_eq!(a, f);
    for w in f.windows(2) {
        assert_ne!(w[0], w[1]);
    }
}

#[test]
fn two_profiles_one_open_one_psk() {
    let svc = FakeService::new(vec![iface(
        7,
        "Wireless Adapter",
        Some(vec![
            profile("HomeNet", Fetch::Doc(profile_doc("open", None))),
            profile("OfficeNet", Fetch::Doc(profile_doc("WPA2PSK", Some("s3cr3t99")))),
        ]),
    )]);
    let (svc, records, diags, failed) = drive(svc);
    assert!(!failed);
    assert_eq!(diags, Vec::new());
    assert_eq!(records.len(), 2);
    assert_eq!(records[0].ssid, "HomeNet");
    assert_eq!(records[0].auth_type, "open");
    assert_eq!(records[0].key, None);
    assert_eq!(records[1].ssid, "OfficeNet");
    assert_eq!(records[1].auth_type, "WPA2PSK");
    assert_eq!(records[1].key, Some("s3cr3t99".to_string()));
    assert_eq!(svc.open_calls, 1);
    assert_eq!(svc.close_calls, 1);
    // One interface list, one profile list, two fetched documents.
    assert_eq!(svc.allocated.len(), 4);
    assert_released_exactly_once(&svc);
}

#[test]
fn listing_failure_on_one_interface_does_not_stop_the_other() {
    let svc = FakeService::new(vec![
        iface(1, "Broken Adapter", None),
        iface(
            2,
            "Working Adapter",
            Some(vec![profile("CafeNet", Fetch::Doc(profile_doc("open", None)))]),
        ),
    ]);
    let (svc, records, diags, failed) = drive(svc);
    assert!(!failed);
    assert_eq!(records.len(), 1);
    assert_eq!(records[0].ssid, "CafeNet");
    assert_eq!(diags, vec![Diag::ProfileListFailed]);
    assert_eq!(svc.close_calls, 1);
    assert_released_exactly_once(&svc);
}

#[test]
fn malformed_description_skips_only_that_interface() {
    let svc = FakeService::new(vec![
        iface(1, "First", Some(vec![profile("NetA", Fetch::Doc(profile_doc("open", None)))])),
        FakeInterface {
            guid: 2,
            desc_field: unterminated("Corrupted Adapter Description"),
            profiles: Some(vec![profile("Unreachable", Fetch::Fail)]),
        },
        iface(3, "Third", Some(vec![profile("NetC", Fetch::Doc(profile_doc("open", None)))])),
    ]);
    let (svc, records, diags, failed) = drive(svc);
    assert!(!failed);
    assert_eq!(records.len(), 2);
    assert_eq!(records[0].ssid, "NetA");
    assert_eq!(records[1].ssid, "NetC");
    assert_eq!(diags, vec![Diag::InterfaceDescriptionMalformed]);
    assert_released_exactly_once(&svc);
}

#[test]
fn open_failure_is_fatal_and_clean() {
    let mut svc = FakeService::new(vec![iface(1, "Adapter", Some(vec![]))]);
    svc.open_ok = false;
    let (svc, records, diags, failed) = drive(svc);
    assert!(failed);
    assert_eq!(records.len(), 0);
    assert_eq!(diags, vec![Diag::SessionOpenFailed]);
    assert_eq!(svc.open_calls, 1);
    assert_eq!(svc.close_calls, 0);
    assert_eq!(svc.allocated.len(), 0);
}

#[test]
fn enumeration_failure_still_closes_the_session() {
    let mut svc = FakeService::new(vec![]);
    svc.enum_ok = false;
    let (svc, records, diags, failed) = drive(svc);
    assert!(failed);
    assert_eq!(records.len(), 0);
    assert_eq!(diags, vec![Diag::EnumerationFailed]);
    assert_eq!(svc.open_calls, 1);
    assert_eq!(svc.close_calls, 1);
    assert_eq!(svc.allocated.len(), 0);
}

#[test]
fn no_interfaces_is_a_clean_empty_run() {
    let svc = FakeService::new(vec![]);
    let (svc, records, diags, failed) = drive(svc);
    assert!(!failed);
    assert_eq!(records.len(), 0);
    assert_eq!(diags, Vec::new());
    assert_eq!(svc.close_calls, 1);
    assert_eq!(svc.allocated.len(), 1);
    assert_released_exactly_once(&svc);
}

#[test]
fn malformed_profile_name_is_skipped_with_a_diagnostic() {
    let svc = FakeService::new(vec![iface(
        1,
        "Adapter",
        Some(vec![
            FakeProfile { name_field: unterminated("BadName"), fetch: Some(Fetch::Fail) },
            profile("GoodNet", Fetch::Doc(profile_doc("open", None))),
        ]),
    )]);
    let (svc, records, diags, failed) = drive(svc);
    assert!(!failed);
    assert_eq!(records.len(), 1);
    assert_eq!(records[0].ssid, "GoodNet");
    assert_eq!(diags, vec![Diag::ProfileNameMalformed]);
    assert_released_exactly_once(&svc);
}

#[test]
fn fetch_failure_skips_the_profile_and_continues() {
    let svc = FakeService::new(vec![iface(
        1,
        "Adapter",
        Some(vec![
            profile("Flaky", Fetch::Fail),
            profile("Solid", Fetch::Doc(profile_doc("open", None))),
        ]),
    )]);
    let (svc, records, diags, failed) = drive(svc);
    assert!(!failed);
    assert_eq!(records.len(), 1);
    assert_eq!(records[0].ssid, "Solid");
    assert_eq!(diags, vec![Diag::ProfileFetchFailed]);
    assert_released_exactly_once(&svc);
}

#[test]
fn unparseable_document_is_skipped_and_its_buffer_still_freed() {
    let svc = FakeService::new(vec![iface(
        1,
        "Adapter",
        Some(vec![
            profile("Garbled", Fetch::BadDoc),
            profile("Fine", Fetch::Doc(profile_doc("open", None))),
        ]),
    )]);
    let (svc, records, diags, failed) = drive(svc);
    assert!(!failed);
    assert_eq!(records.len(), 1);
    assert_eq!(records[0].ssid, "Fine");
    assert_eq!(diags, vec![Diag::DocumentUnavailable]);
    assert_released_exactly_once(&svc);
}

#[test]
fn document_without_auth_type_is_skipped() {
    let no_auth = el("WLANProfile", vec![el("MSM", vec![el("security", vec![])])]);
    let svc = FakeService::new(vec![iface(
        1,
        "Adapter",
        Some(vec![profile("Odd", Fetch::Doc(no_auth))]),
    )]);
    let (svc, records, diags, failed) = drive(svc);
    assert!(!failed);
    assert_eq!(records.len(), 0);
    assert_eq!(diags, vec![Diag::AuthTypeNotFound]);
    assert_released_exactly_once(&svc);
}

#[test]
fn psk_profile_without_readable_key_is_a_normal_partial_result() {
    // Key material absent from the document, as when the caller lacks the
    // rights to read it: the record is still emitted, with no key.
    let svc = FakeService::new(vec![iface(
        1,
        "Adapter",
        Some(vec![profile("Locked", Fetch::Doc(profile_doc("WPA2PSK", None)))]),
    )]);
    let (svc, records, diags, failed) = drive(svc);
    assert!(!failed);
    assert_eq!(records.len(), 1);
    assert_eq!(records[0].ssid, "Locked");
    assert_eq!(records[0].auth_type, "WPA2PSK");
    assert_eq!(records[0].key, None);
    assert_eq!(diags, Vec::new());
    assert_released_exactly_once(&svc);
}
