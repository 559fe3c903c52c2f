//! Trust classification and signature verification. A plugin signature is
//! a detached Ed25519 signature over a canonical payload that binds the
//! manifest bytes and the entry-point bytes through their SHA-256 digests,
//! checked against a replaceable set of trusted public keys.

use vstd::prelude::*;
use vstd::string::*;
use crate::ext::{
    base64_decode, base64_decode_of, ed25519_verifies, ed25519_verify, sha256, sha256_of,
};
use crate::sset::StringSet;
use crate::text::{
    dec_digits, decode_hex, hex_byte_seq, hex_chars, is_hex_digit, push_decimal, push_hex,
};

verus! {

// ============================================================================
// TRUST LEVELS
// ============================================================================

/// How far a plugin is trusted; the level controls signature requirements
/// and default capability grants.
#[derive(Clone, Copy, PartialEq, Eq, Structural, Debug)]
pub enum TrustLevel {
    /// Shipped with the editor.
    FirstParty,
    /// Signed and verified against the trusted-key set.
    Verified,
    /// Installed from elsewhere; gets only what its manifest declares.
    Community,
    /// Loaded from a local path during development.
    Local,
}

impl TrustLevel {
    /// Only first-party plugins are granted permissions automatically.
    pub fn auto_grant_permissions(&self) -> (r: bool)
        ensures
            r == (*self is FirstParty),
    {
        match self {
            TrustLevel::FirstParty => true,
            _ => false,
        }
    }

    /// Whether activation demands a verified signature.
    pub fn requires_signature(&self) -> (r: bool)
        ensures
            r == (*self is Verified || *self is FirstParty),
    {
        match self {
            TrustLevel::FirstParty => true,
            TrustLevel::Verified => true,
            _ => false,
        }
    }

    /// Whether the level counts as trusted.
    pub fn is_trusted(&self) -> (r: bool)
        ensures
            r == (*self is FirstParty || *self is Verified),
    {
        match self {
            TrustLevel::FirstParty => true,
            TrustLevel::Verified => true,
            _ => false,
        }
    }
}

/// The canonical name of a trust level.
pub open spec fn trust_name(t: TrustLevel) -> Seq<char> {
    match t {
        TrustLevel::FirstParty => "first-party"@,
        TrustLevel::Verified => "verified"@,
        TrustLevel::Community => "community"@,
        TrustLevel::Local => "local"@,
    }
}

/// The canonical name of a trust level as a string slice.
pub fn trust_label(t: &TrustLevel) -> (r: &'static str)
    ensures
        r@ == trust_name(*t),
{
    match t {
        TrustLevel::FirstParty => "first-party",
        TrustLevel::Verified => "verified",
        TrustLevel::Community => "community",
        TrustLevel::Local => "local",
    }
}

// ============================================================================
// SIGNATURES
// ============================================================================

/// A detached signature shipped in a manifest: the signer's public key,
/// 64 signature bytes, and the signing time in Unix seconds.
pub struct PluginSignature {
    pub public_key: String,
    pub signature: Vec<u8>,
    pub timestamp_secs: u64,
}

/// Structural validity: a non-empty key and exactly 64 signature bytes.
pub open spec fn sig_well_formed(s: &PluginSignature) -> bool {
    s.public_key@.len() > 0 && s.signature@.len() == 64
}

impl PluginSignature {
    pub fn new(public_key: String, signature: Vec<u8>, timestamp_secs: u64) -> (r:
        PluginSignature)
        ensures
            r.public_key@ == public_key@,
            r.signature@ == signature@,
            r.timestamp_secs == timestamp_secs,
    {
        PluginSignature { public_key, signature, timestamp_secs }
    }

    /// The structural check alone: a non-empty key and 64 signature bytes.
    pub fn is_valid(&self) -> (r: bool)
        ensures
            r == sig_well_formed(self),
    {
        !self.public_key.as_str().is_empty() && self.signature.len() == 64
    }
}

/// Every character of the text is a hexadecimal digit.
pub open spec fn all_hex(t: Seq<char>) -> bool {
    forall|i: int| 0 <= i < t.len() ==> is_hex_digit(t[i])
}

/// The key bytes a public-key text denotes: 64 hexadecimal digits with an
/// optional `0x` prefix, or else standard base64 of exactly 32 bytes.
pub open spec fn spec_decode_key(s: Seq<char>) -> Option<Seq<u8>> {
    let t = if s.len() >= 2 && s[0] == '0' && s[1] == 'x' {
        s.skip(2)
    } else {
        s
    };
    if t.len() == 64 && all_hex(t) {
        Option::Some(hex_byte_seq(t))
    } else {
        match base64_decode_of(s) {
            Option::Some(b) => if b.len() == 32 {
                Option::Some(b)
            } else {
                Option::None
            },
            Option::None => Option::None,
        }
    }
}

/// Decodes a public-key text to its 32 key bytes.
pub fn decode_public_key(s: &str) -> (r: Option<Vec<u8>>)
    ensures
        match r {
            Some(v) => spec_decode_key(s@) == Option::Some(v@) && v@.len() == 32,
            None => spec_decode_key(s@) is None,
        },
{
    let ghost gt: Seq<char> = if s@.len() >= 2 && s@[0] == '0' && s@[1] == 'x' {
        s@.skip(2)
    } else {
        s@
    };
    let n = s.unicode_len();
    let stripped: &str = if n >= 2 && s.get_char(0) == '0' && s.get_char(1) == 'x' {
        let t = s.substring_char(2, n);
        proof {
            assert(t@ =~= s@.skip(2));
        }
        t
    } else {
        s
    };
    assert(stripped@ == gt);
    let hex_shaped = stripped.unicode_len() == 64;
    if hex_shaped {
        match decode_hex(stripped) {
            Some(v) => {
                proof {
                    assert forall|i: int| 0 <= i < gt.len() implies is_hex_digit(
                        gt[i],
                    ) by {
                        assert(is_hex_digit(stripped@[i]));
                    }
                    assert(all_hex(gt));
                    assert(hex_byte_seq(gt) == v@);
                    assert(spec_decode_key(s@) == Option::Some(v@));
                    assert(v@.len() == 32);
                }
                return Some(v);
            }
            None => {
                proof {
                    let i = choose|i: int|
                        0 <= i < stripped@.len() && !is_hex_digit(stripped@[i]);
                    assert(!is_hex_digit(gt[i]));
                    assert(!all_hex(gt));
                }
            }
        }
    }
    assert(!(gt.len() == 64 && all_hex(gt)));
    match base64_decode(s) {
        Some(b) => {
            if b.len() == 32 {
                assert(spec_decode_key(s@) == Option::Some(b@));
                Some(b)
            } else {
                assert(spec_decode_key(s@) is None);
                None
            }
        }
        None => {
            assert(spec_decode_key(s@) is None);
            None
        }
    }
}

// ============================================================================
// THE VERIFIER
// ============================================================================

/// Verifies plugin signatures against a replaceable trusted-key set.
pub struct TrustVerifier {
    trusted_keys: StringSet,
}

/// What signature verification means: the key text is trusted, the
/// signature is structurally well formed and not dated after `now`, the
/// key decodes, and the Ed25519 check of the signature bytes over the
/// payload succeeds.
pub open spec fn verify_spec(
    trusted: Set<Seq<char>>,
    sig: &PluginSignature,
    payload: Seq<u8>,
    now_secs: u64,
) -> bool {
    &&& trusted.contains(sig.public_key@)
    &&& sig_well_formed(sig)
    &&& sig.timestamp_secs <= now_secs
    &&& match spec_decode_key(sig.public_key@) {
        Option::Some(kb) => ed25519_verifies(kb, payload, sig.signature@),
        Option::None => false,
    }
}

impl TrustVerifier {
    /// The trusted key texts.
    pub closed spec fn trusted(&self) -> Set<Seq<char>> {
        self.trusted_keys@
    }

    /// A verifier trusting only the built-in editor key.
    pub fn new() -> (r: TrustVerifier)
        ensures
            r.trusted() == Set::<Seq<char>>::empty().insert("skretchpad-official"@),
    {
        let mut trusted_keys = StringSet::new();
        trusted_keys.insert(String::from_str("skretchpad-official"));
        TrustVerifier { trusted_keys }
    }

    /// Adds one trusted key.
    pub fn add_trusted_key(&mut self, key: String)
        ensures
            final(self).trusted() == old(self).trusted().insert(key@),
    {
        self.trusted_keys.insert(key);
    }

    /// Removes one trusted key, reporting whether it was trusted.
    pub fn remove_trusted_key(&mut self, key: &str) -> (r: bool)
        ensures
            final(self).trusted() == old(self).trusted().remove(key@),
            r == old(self).trusted().contains(key@),
    {
        self.trusted_keys.remove(key)
    }

    /// Replaces the whole trusted-key set atomically: either every new key
    /// decodes and the set is installed, or the old set stays untouched.
    pub fn set_trusted_keys(&mut self, keys: Vec<String>) -> (r: bool)
        ensures
            r == (forall|i: int|
                0 <= i < keys@.len() ==> spec_decode_key((#[trigger] keys@[i])@) is Some),
            r ==> final(self).trusted() == keys@.map_values(|s: String| s@).to_set(),
            !r ==> final(self).trusted() == old(self).trusted(),
    {
        let n = keys.len();
        let mut i: usize = 0;
        while i < n
            invariant
                i <= n,
                n == keys@.len(),
                self == old(self),
                forall|j: int|
                    0 <= j < i ==> spec_decode_key((#[trigger] keys@[j])@) is Some,
            decreases n - i,
        {
            if decode_public_key(keys[i].as_str()).is_none() {
                return false;
            }
            i += 1;
        }
        self.trusted_keys = StringSet::from_vec(keys);
        true
    }

    /// Runs the full signature check at a given clock reading.
    pub fn verify_signature_at(
        &self,
        signature: &PluginSignature,
        payload: &Vec<u8>,
        now_secs: u64,
    ) -> (r: bool)
        ensures
            r == verify_spec(self.trusted(), signature, payload@, now_secs),
    {
        if !self.trusted_keys.contains(signature.public_key.as_str()) {
            return false;
        }
        if !signature.is_valid() {
            return false;
        }
        if signature.timestamp_secs > now_secs {
            return false;
        }
        match decode_public_key(signature.public_key.as_str()) {
            Some(kb) => ed25519_verify(
                kb.as_slice(),
                payload.as_slice(),
                signature.signature.as_slice(),
            ),
            None => false,
        }
    }

    /// Runs the full signature check against the system clock. Whatever
    /// the clock says, acceptance implies a trusted key, structural
    /// validity and a passing Ed25519 check.
    pub fn verify_signature(&self, signature: &PluginSignature, payload: &Vec<u8>) -> (r:
        bool)
        ensures
            r ==> self.trusted().contains(signature.public_key@),
            r ==> sig_well_formed(signature),
            r ==> (spec_decode_key(signature.public_key@) matches Option::Some(kb)
                && ed25519_verifies(kb, payload@, signature.signature@)),
            !self.trusted().contains(signature.public_key@) ==> !r,
    {
        let now_secs = crate::ext::now_unix_secs();
        self.verify_signature_at(signature, payload, now_secs)
    }
}

/// A verifier that does not trust a key accepts no signature bearing it:
/// removing a key from the trusted set invalidates every signature that
/// was accepted under it, at any clock reading and over any payload.
pub proof fn lemma_untrusted_key_never_verifies(
    trusted: Set<Seq<char>>,
    sig: &PluginSignature,
    payload: Seq<u8>,
    now_secs: u64,
)
    requires
        !trusted.contains(sig.public_key@),
    ensures
        !verify_spec(trusted, sig, payload, now_secs),
{
}

// ============================================================================
// THE SIGNED PAYLOAD
// ============================================================================

/// The escape of one character inside a canonical JSON string.
pub open spec fn esc_char(c: char) -> Seq<char> {
    if c == '"' {
        seq!['\\', '"']
    } else if c == '\\' {
        seq!['\\', '\\']
    } else if c == '\n' {
        seq!['\\', 'n']
    } else if c == '\r' {
        seq!['\\', 'r']
    } else if c == '\t' {
        seq!['\\', 't']
    } else {
        seq![c]
    }
}

/// A text escaped for inclusion in a canonical JSON string.
pub open spec fn json_escaped(s: Seq<char>) -> Seq<char>
    decreases s.len(),
{
    if s.len() == 0 {
        Seq::empty()
    } else {
        json_escaped(s.drop_last()) + esc_char(s.last())
    }
}

/// Appends `s`, JSON-escaped, to `out`.
pub fn push_json_escaped(out: &mut String, s: &str)
    ensures
        final(out)@ == old(out)@ + json_escaped(s@),
{
    proof {
        assert(s@.take(0) =~= Seq::<char>::empty());
        assert(out@ =~= out@ + json_escaped(s@.take(0)));
    }
    let n = s.unicode_len();
    let mut i: usize = 0;
    while i < n
        invariant
            i <= n,
            n == s@.len(),
            out@ == old(out)@ + json_escaped(s@.take(i as int)),
        decreases n - i,
    {
        proof {
            reveal_strlit("\\\"");
            reveal_strlit("\\\\");
            reveal_strlit("\\n");
            reveal_strlit("\\r");
            reveal_strlit("\\t");
            assert(s@.take(i + 1).drop_last() =~= s@.take(i as int));
            assert(s@.take(i + 1).last() == s@[i as int]);
        }
        let c = s.get_char(i);
        if c == '"' {
            out.append("\\\"");
        } else if c == '\\' {
            out.append("\\\\");
        } else if c == '\n' {
            out.append("\\n");
        } else if c == '\r' {
            out.append("\\r");
        } else if c == '\t' {
            out.append("\\t");
        } else {
            out.push(c);
        }
        assert(out@ =~= old(out)@ + json_escaped(s@.take(i + 1)));
        i += 1;
    }
    assert(s@.take(n as int) =~= s@);
}

/// The canonical signed payload: one JSON object whose field order is
/// fixed, binding the manifest fields and the SHA-256 digests of the
/// manifest file and of the entry-point file.
pub open spec fn payload_chars(
    plugin_id: Seq<char>,
    name: Seq<char>,
    version: Seq<char>,
    entry_point: Seq<char>,
    source: Seq<char>,
    trust: TrustLevel,
    timestamp_secs: u64,
    manifest_hash: Seq<u8>,
    entry_hash: Seq<u8>,
) -> Seq<char> {
    "{\"version\":1,\"plugin_id\":\""@ + json_escaped(plugin_id) + "\",\"name\":\""@
        + json_escaped(name) + "\",\"plugin_version\":\""@ + json_escaped(version)
        + "\",\"entry_point\":\""@ + json_escaped(entry_point) + "\",\"source\":\""@
        + json_escaped(source) + "\",\"trust\":\""@ + trust_name(trust)
        + "\",\"timestamp\":"@ + dec_digits(timestamp_secs as nat)
        + ",\"manifest_sha256\":\""@ + hex_chars(manifest_hash)
        + "\",\"entry_point_sha256\":\""@ + hex_chars(entry_hash) + "\"}"@
}

/// The canonical signed payload as UTF-8 bytes.
pub open spec fn payload_bytes(
    plugin_id: Seq<char>,
    name: Seq<char>,
    version: Seq<char>,
    entry_point: Seq<char>,
    source: Seq<char>,
    trust: TrustLevel,
    timestamp_secs: u64,
    manifest_hash: Seq<u8>,
    entry_hash: Seq<u8>,
) -> Seq<u8> {
    vstd::utf8::encode_utf8(
        payload_chars(
            plugin_id,
            name,
            version,
            entry_point,
            source,
            trust,
            timestamp_secs,
            manifest_hash,
            entry_hash,
        ),
    )
}

/// Builds the canonical payload over the manifest fields and the raw bytes
/// of the manifest file and the entry-point file; the digests bind the
/// signature to both files.
pub fn build_signature_payload(
    plugin_id: &str,
    name: &str,
    version: &str,
    entry_point: &str,
    source: &str,
    trust: &TrustLevel,
    timestamp_secs: u64,
    manifest_bytes: &[u8],
    entry_bytes: &[u8],
) -> (r: Vec<u8>)
    ensures
        r@ == payload_bytes(
            plugin_id@,
            name@,
            version@,
            entry_point@,
            source@,
            *trust,
            timestamp_secs,
            sha256_of(manifest_bytes@),
            sha256_of(entry_bytes@),
        ),
{
    let manifest_hash = sha256(manifest_bytes);
    let entry_hash = sha256(entry_bytes);
    let mut out = String::new();
    out.append("{\"version\":1,\"plugin_id\":\"");
    push_json_escaped(&mut out, plugin_id);
    out.append("\",\"name\":\"");
    push_json_escaped(&mut out, name);
    out.append("\",\"plugin_version\":\"");
    push_json_escaped(&mut out, version);
    out.append("\",\"entry_point\":\"");
    push_json_escaped(&mut out, entry_point);
    out.append("\",\"source\":\"");
    push_json_escaped(&mut out, source);
    out.append("\",\"trust\":\"");
    out.append(trust_label(trust));
    out.append("\",\"timestamp\":");
    push_decimal(&mut out, timestamp_secs);
    out.append(",\"manifest_sha256\":\"");
    push_hex(&mut out, manifest_hash.as_slice());
    out.append("\",\"entry_point_sha256\":\"");
    push_hex(&mut out, entry_hash.as_slice());
    out.append("\"}");
    proof {
        assert(out@ =~= payload_chars(
            plugin_id@,
            name@,
            version@,
            entry_point@,
            source@,
            *trust,
            timestamp_secs,
            sha256_of(manifest_bytes@),
            sha256_of(entry_bytes@),
        ));
    }
    out.as_str().as_bytes_vec()
}

} // verus!
