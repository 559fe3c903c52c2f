use ed25519_dalek::Signer;
use skretchpad_core::loader::{PluginLoader, RawManifest};
use skretchpad_core::manager::{ManagerError, PluginManager};
use skretchpad_core::text::push_hex;
use skretchpad_core::trust::{
    build_signature_payload, trust_label, PluginSignature, TrustLevel, TrustVerifier,
};

fn raw_manifest(name: &str) -> RawManifest {
    RawManifest {
        name: name.to_string(),
        version: "1.0.0".to_string(),
        description: String::new(),
        author: String::new(),
        license: String::new(),
        entry_point: None,
        dependencies: vec![],
        source: None,
        signature: None,
        trust: None,
        filesystem: None,
        network: None,
        commands: None,
        ui: None,
        command_decls: vec![],
    }
}

fn hex_of(bytes: &[u8]) -> String {
    let mut s = String::new();
    push_hex(&mut s, bytes);
    s
}

#[test]
fn trust_level_predicates() {
    assert!(TrustLevel::FirstParty.auto_grant_permissions());
    assert!(!TrustLevel::Verified.auto_grant_permissions());
    assert!(TrustLevel::Verified.requires_signature());
    assert!(TrustLevel::FirstParty.requires_signature());
    assert!(!TrustLevel::Community.requires_signature());
    assert!(TrustLevel::FirstParty.is_trusted());
    assert!(TrustLevel::Verified.is_trusted());
    assert!(!TrustLevel::Local.is_trusted());
    assert_eq!(trust_label(&TrustLevel::FirstParty), "first-party");
    assert_eq!(trust_label(&TrustLevel::Local), "local");
}

#[test]
fn self_asserted_first_party_is_demoted_to_community() {
    let loader = PluginLoader::new("/plugins".to_string());
    let mut raw = raw_manifest("Impostor");
    raw.trust = Some("first-party".to_string());
    let manifest = loader.load_manifest("impostor", raw).unwrap();
    assert_eq!(manifest.trust, TrustLevel::Community);
}

#[test]
fn file_source_loads_as_local() {
    let loader = PluginLoader::new("/plugins".to_string());
    let mut raw = raw_manifest("Dev");
    raw.source = Some("file:///home/dev/plugin".to_string());
    let manifest = loader.load_manifest("dev-plugin", raw).unwrap();
    assert_eq!(manifest.trust, TrustLevel::Local);
}

#[test]
fn roster_id_loads_as_first_party() {
    let loader = PluginLoader::new("/plugins".to_string());
    let manifest = loader.load_manifest("git", raw_manifest("Git")).unwrap();
    assert_eq!(manifest.trust, TrustLevel::FirstParty);
    assert!(loader.is_first_party("git"));
    assert!(!loader.is_first_party("stranger"));
}

#[test]
fn declared_verified_is_kept() {
    let loader = PluginLoader::new("/plugins".to_string());
    let mut raw = raw_manifest("Signed");
    raw.trust = Some("verified".to_string());
    let manifest = loader.load_manifest("signed", raw).unwrap();
    assert_eq!(manifest.trust, TrustLevel::Verified);
}

#[test]
fn structurally_invalid_signature_fails_the_load() {
    let loader = PluginLoader::new("/plugins".to_string());
    let mut raw = raw_manifest("BadSig");
    raw.signature = Some(PluginSignature::new(
        "some-key".to_string(),
        vec![1, 2, 3],
        1000,
    ));
    assert!(loader.load_manifest("badsig", raw).is_err());
}

#[test]
fn signature_is_valid_checks_shape() {
    let good = PluginSignature::new("key".to_string(), vec![0u8; 64], 5);
    assert!(good.is_valid());
    let empty_key = PluginSignature::new(String::new(), vec![0u8; 64], 5);
    assert!(!empty_key.is_valid());
    let short = PluginSignature::new("key".to_string(), vec![0u8; 63], 5);
    assert!(!short.is_valid());
}

#[test]
fn signed_payload_verifies_and_binds_both_files() {
    let sk = ed25519_dalek::SigningKey::from_bytes(&[7u8; 32]);
    let pk_hex = hex_of(sk.verifying_key().as_bytes());
    let manifest_bytes = b"name = \"Signed\"\nversion = \"1.0.0\"\n";
    let entry_bytes = b"register_hooks();\n";
    let ts: u64 = 1_700_000_000;
    let payload = build_signature_payload(
        "signed",
        "Signed",
        "1.0.0",
        "main.js",
        "",
        &TrustLevel::Verified,
        ts,
        manifest_bytes,
        entry_bytes,
    );
    let signature = sk.sign(&payload).to_bytes().to_vec();
    let sig = PluginSignature::new(pk_hex.clone(), signature, ts);

    let mut verifier = TrustVerifier::new();
    verifier.add_trusted_key(pk_hex.clone());
    assert!(verifier.verify_signature_at(&sig, &payload, ts + 10));

    // a signature dated after the clock reading is refused
    assert!(!verifier.verify_signature_at(&sig, &payload, ts - 1));

    // one flipped byte in the entry point invalidates the signature
    let mut tampered_entry = entry_bytes.to_vec();
    tampered_entry[0] ^= 1;
    let tampered_payload = build_signature_payload(
        "signed",
        "Signed",
        "1.0.0",
        "main.js",
        "",
        &TrustLevel::Verified,
        ts,
        manifest_bytes,
        &tampered_entry,
    );
    assert!(!verifier.verify_signature_at(&sig, &tampered_payload, ts + 10));

    // one flipped byte in the manifest invalidates the signature
    let mut tampered_manifest = manifest_bytes.to_vec();
    tampered_manifest[3] ^= 1;
    let tampered_payload = build_signature_payload(
        "signed",
        "Signed",
        "1.0.0",
        "main.js",
        "",
        &TrustLevel::Verified,
        ts,
        &tampered_manifest,
        entry_bytes,
    );
    assert!(!verifier.verify_signature_at(&sig, &tampered_payload, ts + 10));

    // removing the trusted key invalidates a previously accepted signature
    assert!(verifier.remove_trusted_key(&pk_hex));
    assert!(!verifier.verify_signature_at(&sig, &payload, ts + 10));
}

#[test]
fn payload_has_the_canonical_shape() {
    let payload = build_signature_payload(
        "p",
        "P",
        "2.0",
        "main.js",
        "https://example.com/p",
        &TrustLevel::Verified,
        42,
        b"m",
        b"e",
    );
    let text = String::from_utf8(payload).unwrap();
    assert!(text.starts_with("{\"version\":1,\"plugin_id\":\"p\",\"name\":\"P\",\"plugin_version\":\"2.0\",\"entry_point\":\"main.js\",\"source\":\"https://example.com/p\",\"trust\":\"verified\",\"timestamp\":42,\"manifest_sha256\":\""));
    // sha-256 of "m" and of "e", as the reference digests give them
    assert!(text.contains("\"manifest_sha256\":\"62c66a7a5dd70c3146618063c344e531e6d4b59e379808443ce962b3abd63c5a\""));
    assert!(text.contains("\"entry_point_sha256\":\"3f79bb7b435b05321651daefd374cdc681dc06faa65e374e38337b88ca046dea\""));
    assert!(text.ends_with("\"}"));
}

#[test]
fn verified_activation_with_good_signature() {
    let mut m = PluginManager::new("/plugins".to_string(), "/workspace".to_string());
    let sk = ed25519_dalek::SigningKey::from_bytes(&[9u8; 32]);
    let pk_hex = hex_of(sk.verifying_key().as_bytes());
    m.add_trusted_key(pk_hex.clone());

    let manifest_bytes = b"name = \"Signed\"\n";
    let entry_bytes = b"hooks();\n";
    let ts: u64 = 1_700_000_000;
    let payload = build_signature_payload(
        "signed",
        "Signed",
        "1.0.0",
        "main.js",
        "",
        &TrustLevel::Verified,
        ts,
        manifest_bytes,
        entry_bytes,
    );
    let sig_bytes = sk.sign(&payload).to_bytes().to_vec();

    let mut raw = raw_manifest("Signed");
    raw.trust = Some("verified".to_string());
    raw.signature = Some(PluginSignature::new(pk_hex.clone(), sig_bytes, ts));
    m.load("signed", raw, "/plugins/signed".to_string(), 0).unwrap();

    m.activate_begin(
        "signed",
        manifest_bytes,
        entry_bytes,
        "/plugins/signed/main.js",
        "/plugins/signed",
        ts + 10,
    )
    .unwrap();
    m.activate_finish("signed", Ok(()));
    assert!(m.is_active("signed"));

    // the same plugin with one flipped entry-point byte is refused
    let mut m2 = PluginManager::new("/plugins".to_string(), "/workspace".to_string());
    m2.add_trusted_key(pk_hex.clone());
    let mut raw = raw_manifest("Signed");
    raw.trust = Some("verified".to_string());
    raw.signature = Some(PluginSignature::new(
        pk_hex.clone(),
        sk.sign(&payload).to_bytes().to_vec(),
        ts,
    ));
    m2.load("signed", raw, "/plugins/signed".to_string(), 0).unwrap();
    let mut tampered = entry_bytes.to_vec();
    tampered[0] ^= 1;
    let r = m2.activate_begin(
        "signed",
        manifest_bytes,
        &tampered,
        "/plugins/signed/main.js",
        "/plugins/signed",
        ts + 10,
    );
    assert!(matches!(r, Err(ManagerError::SignatureRejected(_))));
}

#[test]
fn verified_plugin_without_signature_is_refused() {
    let mut m = PluginManager::new("/plugins".to_string(), "/workspace".to_string());
    let mut raw = raw_manifest("Unsigned");
    raw.trust = Some("verified".to_string());
    m.load("unsigned", raw, "/plugins/unsigned".to_string(), 0)
        .unwrap();
    let r = m.activate_begin(
        "unsigned",
        b"m",
        b"e",
        "/plugins/unsigned/main.js",
        "/plugins/unsigned",
        0,
    );
    assert!(matches!(r, Err(ManagerError::SignatureRejected(_))));
}

#[test]
fn atomic_key_replacement_fails_closed() {
    let mut verifier = TrustVerifier::new();
    let sk = ed25519_dalek::SigningKey::from_bytes(&[3u8; 32]);
    let good = hex_of(sk.verifying_key().as_bytes());
    assert!(verifier.set_trusted_keys(vec![good.clone()]));
    // one undecodable entry rejects the whole replacement
    assert!(!verifier.set_trusted_keys(vec![good.clone(), "not a key".to_string()]));
}
