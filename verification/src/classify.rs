//! The credential classifier: given a profile's network name, its
//! authentication scheme and its document, decide whether key material is
//! looked up and build the result record.
//!
//! Schemes in the pre-shared-key family have the key-material path resolved
//! in the document; a missing key there is a normal partial result. Every
//! other scheme — "open" included — yields a record without a key, the
//! scheme carried through verbatim.

use vstd::prelude::*;
use crate::doc::{Node, resolve, resolve_path, path_view};

verus! {

/// The outcome for one profile: the network name, its authentication
/// scheme, and the pre-shared key when one was found.
pub struct CredentialResult {
    pub ssid: String,
    pub auth_type: String,
    pub key: Option<String>,
}

/// Path of the authentication-type field inside a profile document.
pub open spec fn auth_type_path() -> Seq<Seq<char>> {
    seq!["MSM"@, "security"@, "authEncryption"@, "authentication"@]
}

/// Path of the key-material field inside a profile document.
pub open spec fn key_material_path() -> Seq<Seq<char>> {
    seq!["MSM"@, "security"@, "sharedKey"@, "keyMaterial"@]
}

/// The authentication-type path as an executable value.
pub fn auth_type_path_vec() -> (r: Vec<String>)
    ensures
        path_view(r@) == auth_type_path(),
{
    let mut v: Vec<String> = Vec::new();
    v.push("MSM".to_owned());
    v.push("security".to_owned());
    v.push("authEncryption".to_owned());
    v.push("authentication".to_owned());
    proof {
        assert(path_view(v@) =~= auth_type_path());
    }
    v
}

/// The key-material path as an executable value.
pub fn key_material_path_vec() -> (r: Vec<String>)
    ensures
        path_view(r@) == key_material_path(),
{
    let mut v: Vec<String> = Vec::new();
    v.push("MSM".to_owned());
    v.push("security".to_owned());
    v.push("sharedKey".to_owned());
    v.push("keyMaterial".to_owned());
    proof {
        assert(path_view(v@) =~= key_material_path());
    }
    v
}

/// Whether an authentication scheme belongs to the pre-shared-key family.
pub open spec fn is_psk_family(auth: Seq<char>) -> bool {
    auth == "WPA2"@ || auth == "WPA2PSK"@
}

/// The key the classifier reports for a given scheme and document: schemes
/// in the pre-shared-key family look the key material up in the document;
/// every other scheme carries no key.
pub open spec fn classified_key(auth: Seq<char>, root: Node) -> Option<Seq<char>> {
    if is_psk_family(auth) {
        resolve_path(root.children@, key_material_path())
    } else {
        None
    }
}

/// Classifying an "open" network never yields a key, whatever the document
/// holds.
pub proof fn lemma_open_has_no_key(auth: Seq<char>, root: Node)
    requires
        auth == "open"@,
    ensures
        classified_key(auth, root) is None,
{
    assert(auth != "WPA2"@) by {
        reveal_strlit("open");
        reveal_strlit("WPA2");
        assert("open"@[0] == 'o');
        assert("WPA2"@[0] == 'W');
    }
    assert(auth != "WPA2PSK"@) by {
        reveal_strlit("open");
        reveal_strlit("WPA2PSK");
        assert("open"@.len() == 4);
        assert("WPA2PSK"@.len() == 7);
    }
}

/// Classifying a scheme of the pre-shared-key family yields exactly the key
/// material the document holds at the expected path, and an absent key —
/// not an error — when the document holds none there.
pub proof fn lemma_psk_key_is_key_material(auth: Seq<char>, root: Node)
    requires
        is_psk_family(auth),
    ensures
        classified_key(auth, root) == resolve_path(root.children@, key_material_path()),
{
}

/// Build the result record for one profile. The scheme and name are carried
/// through verbatim; the key is present exactly when the scheme is in the
/// pre-shared-key family and the document holds key material at the expected
/// path.
pub fn classify(ssid: String, auth_type: String, root: &Node) -> (r: CredentialResult)
    ensures
        r.ssid@ == ssid@,
        r.auth_type@ == auth_type@,
        r.key matches Some(k) ==> classified_key(auth_type@, *root) == Some(k@),
        r.key is None ==> classified_key(auth_type@, *root) is None,
{
    let wpa2: String = "WPA2".to_owned();
    let wpa2psk: String = "WPA2PSK".to_owned();
    let key: Option<String> = if auth_type == wpa2 || auth_type == wpa2psk {
        let path = key_material_path_vec();
        resolve(root, &path)
    } else {
        None
    };
    CredentialResult { ssid, auth_type, key }
}

} // verus!
