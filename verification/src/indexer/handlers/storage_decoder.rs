use vstd::prelude::*;

use crate::utils::text::{
    decimal, hex_bytes, hex_fixed, push_char, push_decimal, push_hex_bytes, push_hex_fixed,
};
use crate::utils::word::{le_bytes, le_value, u64_from_le, u64_to_le};

verus! {

// ================================================================================================
// SLOT NAME CONSTANTS
// ================================================================================================

// Auth — SingleSig
pub const SINGLESIG_PUB_KEY: &'static str = "miden::standards::auth::singlesig::pub_key";
pub const SINGLESIG_SCHEME: &'static str = "miden::standards::auth::singlesig::scheme";

// Auth — SingleSigAcl
pub const SINGLESIG_ACL_PUB_KEY: &'static str = "miden::standards::auth::singlesig_acl::pub_key";
pub const SINGLESIG_ACL_SCHEME: &'static str = "miden::standards::auth::singlesig_acl::scheme";
pub const SINGLESIG_ACL_CONFIG: &'static str = "miden::standards::auth::singlesig_acl::config";

// Auth — Guardian (GuardedMultisig)
pub const GUARDIAN_PUB_KEY: &'static str = "miden::standards::auth::guardian::pub_key";
pub const GUARDIAN_SCHEME: &'static str = "miden::standards::auth::guardian::scheme";

// Auth — Multisig
pub const MULTISIG_THRESHOLD_CONFIG: &'static str = "miden::standards::auth::multisig::threshold_config";
pub const MULTISIG_APPROVER_PUBLIC_KEYS: &'static str =
    "miden::standards::auth::multisig::approver_public_keys";
pub const MULTISIG_EXECUTED_TRANSACTIONS: &'static str =
    "miden::standards::auth::multisig::executed_transactions";

// Auth — NetworkAccount
pub const NETWORK_ACCOUNT_ALLOWED_NOTE_SCRIPTS: &'static str =
    "miden::standards::auth::network_account::allowed_note_scripts";

// Access — Ownable2Step
pub const OWNABLE2STEP_OWNER_CONFIG: &'static str = "miden::standards::access::ownable2step::owner_config";

// MintPolicyManager
pub const MINT_POLICY_MANAGER_ACTIVE_POLICY_PROC_ROOT: &'static str =
    "miden::standards::mint_policy_manager::active_policy_proc_root";
pub const MINT_POLICY_MANAGER_POLICY_AUTHORITY: &'static str =
    "miden::standards::mint_policy_manager::policy_authority";

// Metadata — FungibleFaucet
pub const FUNGIBLE_NAME_CHUNK_0: &'static str = "miden::standards::metadata::fungible_faucet::name_chunk_0";
pub const FUNGIBLE_NAME_CHUNK_1: &'static str = "miden::standards::metadata::fungible_faucet::name_chunk_1";

pub const FUNGIBLE_DESCRIPTION_SLOTS: [&'static str; 7] = [
    "miden::standards::metadata::fungible_faucet::description_0",
    "miden::standards::metadata::fungible_faucet::description_1",
    "miden::standards::metadata::fungible_faucet::description_2",
    "miden::standards::metadata::fungible_faucet::description_3",
    "miden::standards::metadata::fungible_faucet::description_4",
    "miden::standards::metadata::fungible_faucet::description_5",
    "miden::standards::metadata::fungible_faucet::description_6",
];

pub const FUNGIBLE_LOGO_URI_SLOTS: [&'static str; 7] = [
    "miden::standards::metadata::fungible_faucet::logo_uri_0",
    "miden::standards::metadata::fungible_faucet::logo_uri_1",
    "miden::standards::metadata::fungible_faucet::logo_uri_2",
    "miden::standards::metadata::fungible_faucet::logo_uri_3",
    "miden::standards::metadata::fungible_faucet::logo_uri_4",
    "miden::standards::metadata::fungible_faucet::logo_uri_5",
    "miden::standards::metadata::fungible_faucet::logo_uri_6",
];

pub const FUNGIBLE_EXTERNAL_LINK_SLOTS: [&'static str; 7] = [
    "miden::standards::metadata::fungible_faucet::external_link_0",
    "miden::standards::metadata::fungible_faucet::external_link_1",
    "miden::standards::metadata::fungible_faucet::external_link_2",
    "miden::standards::metadata::fungible_faucet::external_link_3",
    "miden::standards::metadata::fungible_faucet::external_link_4",
    "miden::standards::metadata::fungible_faucet::external_link_5",
    "miden::standards::metadata::fungible_faucet::external_link_6",
];

// Metadata — StorageSchema
pub const STORAGE_SCHEMA_COMMITMENT: &'static str = "miden::standards::metadata::storage_schema::commitment";

// Map slots
pub const ALLOWED_POLICY_PROC_ROOTS: &'static str =
    "miden::standards::mint_policy_manager::allowed_policy_proc_roots";
pub const MULTISIG_APPROVER_SCHEMES: &'static str = "miden::standards::auth::multisig::approver_schemes";
pub const MULTISIG_PROCEDURE_THRESHOLDS: &'static str =
    "miden::standards::auth::multisig::procedure_thresholds";
pub const SINGLESIG_ACL_TRIGGER_PROCEDURE_ROOTS: &'static str =
    "miden::standards::auth::singlesig_acl::trigger_procedure_roots";

// ================================================================================================
// DECODED PAYLOADS
// ================================================================================================

/// What a decoded storage value is; its `label` is the payload's `"type"`.
#[derive(Clone, Copy, Debug, PartialEq, Eq, Structural)]
pub enum PayloadKind {
    Bool,
    Hex,
    AuthScheme,
    Number,
    ThresholdConfig,
    MintPolicyAuthority,
    OwnerConfig,
    Text,
    RawWord,
}

/// The `"value"` of a decoded payload.
#[derive(Clone, Debug)]
pub enum PayloadValue {
    /// A boolean flag.
    Flag(bool),
    /// A string (hex encodings and decoded text).
    Text(String),
    /// An identifier (auth scheme, mint policy authority).
    Id(u64),
    /// A number.
    Number(u64),
    /// A multisig threshold: `threshold` of `num_approvers`.
    Threshold { threshold: u64, num_approvers: u64 },
    /// An owner, and the nominated owner when there is one.
    Owner { owner: String, nominated_owner: Option<String> },
    /// The four felts of a word, each as a hex string.
    Words(Vec<String>),
}

/// A storage value decoded for display: `{"type", "value", "display_value"}`.
#[derive(Clone, Debug)]
pub struct DecodedPayload {
    pub kind: PayloadKind,
    pub value: PayloadValue,
    pub display_value: String,
}

/// The ownership read from an `owner_config` word, as account addresses.
#[derive(Clone, Debug)]
pub struct OwnerConfig {
    pub owner: Option<String>,
    pub nominated_owner: Option<String>,
}

/// The mathematical content of a `PayloadValue`.
pub enum ValueView {
    Flag(bool),
    Text(Seq<char>),
    Id(u64),
    Number(u64),
    Threshold(u64, u64),
    Owner(Seq<char>, Option<Seq<char>>),
    Words(Seq<Seq<char>>),
}

/// The mathematical content of a `DecodedPayload`.
pub struct PayloadView {
    pub kind: PayloadKind,
    pub value: ValueView,
    pub display: Seq<char>,
}

pub open spec fn opt_string_view(o: Option<String>) -> Option<Seq<char>> {
    match o {
        Some(s) => Some(s@),
        None => None,
    }
}

impl View for PayloadValue {
    type V = ValueView;

    open spec fn view(&self) -> ValueView {
        match self {
            PayloadValue::Flag(b) => ValueView::Flag(*b),
            PayloadValue::Text(s) => ValueView::Text(s@),
            PayloadValue::Id(i) => ValueView::Id(*i),
            PayloadValue::Number(n) => ValueView::Number(*n),
            PayloadValue::Threshold { threshold, num_approvers } => ValueView::Threshold(
                *threshold,
                *num_approvers,
            ),
            PayloadValue::Owner { owner, nominated_owner } => ValueView::Owner(
                owner@,
                opt_string_view(*nominated_owner),
            ),
            PayloadValue::Words(ws) => ValueView::Words(ws@.map_values(|w: String| w@)),
        }
    }
}

impl View for DecodedPayload {
    type V = PayloadView;

    open spec fn view(&self) -> PayloadView {
        PayloadView { kind: self.kind, value: self.value@, display: self.display_value@ }
    }
}

pub open spec fn kind_name(kind: PayloadKind) -> Seq<char> {
    match kind {
        PayloadKind::Bool => "bool"@,
        PayloadKind::Hex => "hex"@,
        PayloadKind::AuthScheme => "auth_scheme"@,
        PayloadKind::Number => "number"@,
        PayloadKind::ThresholdConfig => "threshold_config"@,
        PayloadKind::MintPolicyAuthority => "mint_policy_authority"@,
        PayloadKind::OwnerConfig => "owner_config"@,
        PayloadKind::Text => "string"@,
        PayloadKind::RawWord => "raw_word"@,
    }
}

impl PayloadKind {
    /// The payload's `"type"` field.
    pub fn label(&self) -> (r: &'static str)
        ensures
            r@ == kind_name(*self),
    {
        match self {
            PayloadKind::Bool => "bool",
            PayloadKind::Hex => "hex",
            PayloadKind::AuthScheme => "auth_scheme",
            PayloadKind::Number => "number",
            PayloadKind::ThresholdConfig => "threshold_config",
            PayloadKind::MintPolicyAuthority => "mint_policy_authority",
            PayloadKind::OwnerConfig => "owner_config",
            PayloadKind::Text => "string",
            PayloadKind::RawWord => "raw_word",
        }
    }
}

// ================================================================================================
// FELTS
// ================================================================================================

/// The `i`-th little-endian `u64` of `bytes`, or zero when the bytes end before it does.
pub open spec fn felt_at(bytes: Seq<u8>, i: int) -> u64 {
    if 8 * i + 8 <= bytes.len() {
        le_value(bytes.subrange(8 * i, 8 * i + 8)) as u64
    } else {
        0
    }
}

/// The four felts read from a word's bytes.
pub open spec fn word_felts(bytes: Seq<u8>) -> Seq<u64> {
    seq![felt_at(bytes, 0), felt_at(bytes, 1), felt_at(bytes, 2), felt_at(bytes, 3)]
}

/// Parse bytes into four u64 Felt values (little-endian), eight bytes each; a felt whose
/// eight bytes are not all present stays zero.
pub fn parse_felts(bytes: &[u8]) -> (felts: [u64; 4])
    requires
        bytes.len() < 40,
    ensures
        felts@ == word_felts(bytes@),
{
    let f0 = felt_from(bytes, 0);
    let f1 = felt_from(bytes, 1);
    let f2 = felt_from(bytes, 2);
    let f3 = felt_from(bytes, 3);
    let felts = [f0, f1, f2, f3];
    assert(felts@ =~= word_felts(bytes@));
    felts
}

/// Writing the four felts of a 32-byte word back as little-endian bytes gives the word: no
/// information is lost by parsing.
pub proof fn lemma_word_felts_roundtrip(bytes: Seq<u8>)
    requires
        bytes.len() == 32,
    ensures
        felts_le_bytes(word_felts(bytes)) == bytes,
{
    assert forall|i: int| 0 <= i < 4 implies le_bytes(#[trigger] felt_at(bytes, i) as nat, 8)
        == bytes.subrange(8 * i, 8 * i + 8) by {
        let sub = bytes.subrange(8 * i, 8 * i + 8);
        crate::utils::word::lemma_le_value_bound(sub);
        crate::utils::word::lemma_pow256_value(8);
        crate::utils::word::lemma_le_bytes_le_value(sub);
    }
    assert(felt_at(bytes, 0) == word_felts(bytes)[0]);
    assert(felt_at(bytes, 1) == word_felts(bytes)[1]);
    assert(felt_at(bytes, 2) == word_felts(bytes)[2]);
    assert(felt_at(bytes, 3) == word_felts(bytes)[3]);
    assert(felts_le_bytes(word_felts(bytes)) =~= bytes);
}

fn felt_from(bytes: &[u8], i: usize) -> (f: u64)
    requires
        i < 4,
    ensures
        f == felt_at(bytes@, i as int),
{
    let start = 8 * i;
    if start + 8 <= bytes.len() {
        let mut chunk: Vec<u8> = Vec::new();
        for k in 0..8
            invariant
                start + 8 <= bytes.len(),
                chunk@ == bytes@.subrange(start as int, start + k),
        {
            chunk.push(bytes[start + k]);
            assert(bytes@.subrange(start as int, start + k + 1) == bytes@.subrange(
                start as int,
                start + k,
            ).push(bytes@[start + k]));
        }
        proof {
            crate::utils::word::lemma_le_value_bound(chunk@);
            crate::utils::word::lemma_pow256_value(8);
        }
        u64_from_le(chunk.as_slice())
    } else {
        0
    }
}

// ================================================================================================
// DECODERS
// ================================================================================================

/// `0x` followed by two lowercase hex digits per byte.
pub open spec fn hex_payload(bytes: Seq<u8>) -> PayloadView {
    let hex = "0x"@ + hex_bytes(bytes);
    PayloadView { kind: PayloadKind::Hex, value: ValueView::Text(hex), display: hex }
}

/// Auth scheme 1 is `EcdsaK256Keccak`, 2 is `Falcon512Poseidon2`; any other felt value is
/// unknown and shown as `Unknown(value)`.
pub open spec fn auth_scheme_payload(raw: u64) -> PayloadView {
    if raw == 1 {
        PayloadView {
            kind: PayloadKind::AuthScheme,
            value: ValueView::Id(1),
            display: "EcdsaK256Keccak"@,
        }
    } else if raw == 2 {
        PayloadView {
            kind: PayloadKind::AuthScheme,
            value: ValueView::Id(2),
            display: "Falcon512Poseidon2"@,
        }
    } else {
        PayloadView {
            kind: PayloadKind::AuthScheme,
            value: ValueView::Id(raw),
            display: "Unknown("@ + decimal(raw as nat) + ")"@,
        }
    }
}

/// Mint policy authority 0 is `AuthControlled`, 1 is `OwnerControlled`; any other felt
/// value is unknown and shown as `Unknown(value)`.
pub open spec fn mint_policy_payload(raw: u64) -> PayloadView {
    if raw == 0 {
        PayloadView {
            kind: PayloadKind::MintPolicyAuthority,
            value: ValueView::Id(0),
            display: "AuthControlled"@,
        }
    } else if raw == 1 {
        PayloadView {
            kind: PayloadKind::MintPolicyAuthority,
            value: ValueView::Id(1),
            display: "OwnerControlled"@,
        }
    } else {
        PayloadView {
            kind: PayloadKind::MintPolicyAuthority,
            value: ValueView::Id(raw),
            display: "Unknown("@ + decimal(raw as nat) + ")"@,
        }
    }
}

/// A number, displayed in decimal.
pub open spec fn number_payload(raw: u64) -> PayloadView {
    PayloadView { kind: PayloadKind::Number, value: ValueView::Number(raw), display: decimal(raw as nat) }
}

/// A multisig threshold config `[threshold, num_approvers, _, _]`, displayed as
/// `threshold/num_approvers`.
pub open spec fn threshold_payload(threshold: u64, num_approvers: u64) -> PayloadView {
    PayloadView {
        kind: PayloadKind::ThresholdConfig,
        value: ValueView::Threshold(threshold, num_approvers),
        display: decimal(threshold as nat) + "/"@ + decimal(num_approvers as nat),
    }
}

/// A flag that is set when the first felt is not zero.
pub open spec fn bool_payload(first_felt: u64) -> PayloadView {
    PayloadView {
        kind: PayloadKind::Bool,
        value: ValueView::Flag(first_felt != 0),
        display: if first_felt != 0 { "true"@ } else { "false"@ },
    }
}

fn string_of(lit: &str) -> (s: String)
    ensures
        s@ == lit@,
{
    String::from_str(lit)
}

/// Hex-encode the entire 32-byte Word.
pub fn decode_as_hex(bytes: &[u8]) -> (p: DecodedPayload)
    ensures
        p@ == hex_payload(bytes@),
{
    let mut hex = string_of("0x");
    push_hex_bytes(&mut hex, bytes);
    let display = hex.clone();
    DecodedPayload { kind: PayloadKind::Hex, value: PayloadValue::Text(hex), display_value: display }
}

/// Map a Felt u64 to an auth scheme name.
pub fn decode_as_auth_scheme(raw: u64) -> (p: DecodedPayload)
    ensures
        p@ == auth_scheme_payload(raw),
{
    if raw == 1 {
        DecodedPayload {
            kind: PayloadKind::AuthScheme,
            value: PayloadValue::Id(1),
            display_value: string_of("EcdsaK256Keccak"),
        }
    } else if raw == 2 {
        DecodedPayload {
            kind: PayloadKind::AuthScheme,
            value: PayloadValue::Id(2),
            display_value: string_of("Falcon512Poseidon2"),
        }
    } else {
        DecodedPayload {
            kind: PayloadKind::AuthScheme,
            value: PayloadValue::Id(raw),
            display_value: unknown_id(raw),
        }
    }
}

fn unknown_id(id: u64) -> (s: String)
    ensures
        s@ == "Unknown("@ + decimal(id as nat) + ")"@,
{
    let mut s = string_of("Unknown(");
    push_decimal(&mut s, id);
    s.append(")");
    s
}

/// Decode a MintPolicyAuthority value (0 = AuthControlled, 1 = OwnerControlled).
pub fn decode_as_mint_policy_authority(raw: u64) -> (p: DecodedPayload)
    ensures
        p@ == mint_policy_payload(raw),
{
    if raw == 0 {
        DecodedPayload {
            kind: PayloadKind::MintPolicyAuthority,
            value: PayloadValue::Id(0),
            display_value: string_of("AuthControlled"),
        }
    } else if raw == 1 {
        DecodedPayload {
            kind: PayloadKind::MintPolicyAuthority,
            value: PayloadValue::Id(1),
            display_value: string_of("OwnerControlled"),
        }
    } else {
        DecodedPayload {
            kind: PayloadKind::MintPolicyAuthority,
            value: PayloadValue::Id(raw),
            display_value: unknown_id(raw),
        }
    }
}

/// Decode a u64 as a human-readable number.
pub fn decode_as_number(raw: u64) -> (p: DecodedPayload)
    ensures
        p@ == number_payload(raw),
{
    let mut s = String::new();
    push_decimal(&mut s, raw);
    assert(Seq::<char>::empty() + decimal(raw as nat) == decimal(raw as nat));
    DecodedPayload { kind: PayloadKind::Number, value: PayloadValue::Number(raw), display_value: s }
}

/// Decode multisig threshold_config: Word layout is [threshold, num_approvers, 0, 0].
pub fn decode_as_threshold_config(felts: [u64; 4]) -> (p: DecodedPayload)
    ensures
        p@ == threshold_payload(felts@[0], felts@[1]),
{
    let threshold = felts[0];
    let num_approvers = felts[1];
    let mut s = String::new();
    push_decimal(&mut s, threshold);
    s.append("/");
    push_decimal(&mut s, num_approvers);
    assert(Seq::<char>::empty() + decimal(threshold as nat) == decimal(threshold as nat));
    DecodedPayload {
        kind: PayloadKind::ThresholdConfig,
        value: PayloadValue::Threshold { threshold, num_approvers },
        display_value: s,
    }
}

fn decode_as_bool(first_felt: u64) -> (p: DecodedPayload)
    ensures
        p@ == bool_payload(first_felt),
{
    let enabled = first_felt != 0;
    let display = if enabled { string_of("true") } else { string_of("false") };
    DecodedPayload { kind: PayloadKind::Bool, value: PayloadValue::Flag(enabled), display_value: display }
}


/// The first seven little-endian bytes of each felt, in order: the UTF-8 payload of a
/// string chunk (the eighth byte of each felt is a length hint or padding).
pub open spec fn chunk_payload_bytes(felts: Seq<u64>) -> Seq<u8>
    decreases felts.len(),
{
    if felts.len() == 0 {
        Seq::empty()
    } else {
        chunk_payload_bytes(felts.drop_last()) + le_bytes(felts.last() as nat, 8).take(7)
    }
}

/// `bytes` without its zero bytes, order kept.
pub open spec fn without_zero_bytes(bytes: Seq<u8>) -> Seq<u8>
    decreases bytes.len(),
{
    if bytes.len() == 0 {
        Seq::empty()
    } else if bytes.last() == 0 {
        without_zero_bytes(bytes.drop_last())
    } else {
        without_zero_bytes(bytes.drop_last()).push(bytes.last())
    }
}

/// What `String::from_utf8_lossy` makes of a byte sequence.
pub uninterp spec fn utf8_lossy(bytes: Seq<u8>) -> Seq<char>;

/// Every byte is an ASCII code (below 128).
pub open spec fn all_ascii(bytes: Seq<u8>) -> bool {
    forall|i: int| 0 <= i < bytes.len() ==> #[trigger] bytes[i] < 128
}

/// The characters of ASCII bytes.
pub open spec fn ascii_text(bytes: Seq<u8>) -> Seq<char> {
    bytes.map_values(|b: u8| (b as u32) as char)
}

/// Decodes bytes as UTF-8 with `String::from_utf8_lossy`: its result is named by
/// `utf8_lossy`; valid UTF-8 is decoded as it stands (in particular ASCII bytes, one
/// character per byte). What replaces invalid sequences is not stated.
#[verifier::external_body]
fn text_from_utf8_lossy(bytes: &[u8]) -> (s: String)
    ensures
        s@ == utf8_lossy(bytes@),
        vstd::utf8::valid_utf8(bytes@) ==> s@ == vstd::utf8::decode_utf8(bytes@),
        all_ascii(bytes@) ==> s@ == ascii_text(bytes@),
{
    String::from_utf8_lossy(bytes).into_owned()
}

/// The text bytes of a word read as a string chunk: the payload bytes of its felts, zero
/// bytes dropped.
pub open spec fn chunk_text_bytes(bytes: Seq<u8>) -> Seq<u8> {
    without_zero_bytes(chunk_payload_bytes(word_felts(bytes)))
}

/// A string chunk: the UTF-8 text of the felts' payload bytes, zero bytes dropped.
pub open spec fn string_chunk_payload(felts: Seq<u64>) -> PayloadView {
    let text = utf8_lossy(without_zero_bytes(chunk_payload_bytes(felts)));
    PayloadView { kind: PayloadKind::Text, value: ValueView::Text(text), display: text }
}

/// Decode a Word as a UTF-8 string chunk packed across 4 Felts.
///
/// Each Felt contains up to 7 UTF-8 bytes (the 8th byte is a length hint or padding).
pub fn decode_as_string_chunk(felts: [u64; 4]) -> (p: DecodedPayload)
    ensures
        p@ == string_chunk_payload(felts@),
        vstd::utf8::valid_utf8(without_zero_bytes(chunk_payload_bytes(felts@))) ==> p.display_value@
            == vstd::utf8::decode_utf8(without_zero_bytes(chunk_payload_bytes(felts@))),
        all_ascii(without_zero_bytes(chunk_payload_bytes(felts@))) ==> p.display_value@
            == ascii_text(without_zero_bytes(chunk_payload_bytes(felts@))),
{
    let mut raw: Vec<u8> = Vec::new();
    for i in 0..4
        invariant
            raw@ == chunk_payload_bytes(felts@.take(i as int)),
    {
        let le = u64_to_le(felts[i]);
        proof {
            crate::utils::word::lemma_le_bytes_len(felts@[i as int] as nat, 8);
        }
        let ghost base = raw@;
        for k in 0..7
            invariant
                le@ == le_bytes(felts@[i as int] as nat, 8),
                le@.len() == 8,
                raw@ == base + le@.take(k as int),
        {
            raw.push(le[k]);
            assert(le@.take(k + 1) == le@.take(k as int).push(le@[k as int]));
        }
        assert(felts@.take(i + 1).drop_last() == felts@.take(i as int));
    }
    assert(felts@.take(4) == felts@);
    let mut kept: Vec<u8> = Vec::new();
    for k in 0..raw.len()
        invariant
            kept@ == without_zero_bytes(raw@.take(k as int)),
    {
        assert(raw@.take(k + 1).drop_last() == raw@.take(k as int));
        if raw[k] != 0 {
            kept.push(raw[k]);
        }
    }
    assert(raw@.take(raw@.len() as int) == raw@);
    text_payload(text_from_utf8_lossy(kept.as_slice()))
}

/// A text payload: the text is both the value and what is displayed.
pub fn text_payload(text: String) -> (p: DecodedPayload)
    ensures
        p@ == (PayloadView { kind: PayloadKind::Text, value: ValueView::Text(text@), display: text@ }),
{
    let display = text.clone();
    DecodedPayload { kind: PayloadKind::Text, value: PayloadValue::Text(text), display_value: display }
}

/// A felt as `0x` and sixteen lowercase hex digits.
pub open spec fn felt_hex(felt: u64) -> Seq<char> {
    "0x"@ + hex_fixed(felt as nat, 16)
}

/// A raw word: the four felts in hex, displayed as `[f0, f1, f2, f3]`.
pub open spec fn raw_word_payload(felts: Seq<u64>) -> PayloadView {
    let h0 = felt_hex(felts[0]);
    let h1 = felt_hex(felts[1]);
    let h2 = felt_hex(felts[2]);
    let h3 = felt_hex(felts[3]);
    PayloadView {
        kind: PayloadKind::RawWord,
        value: ValueView::Words(seq![h0, h1, h2, h3]),
        display: "["@ + h0 + ", "@ + h1 + ", "@ + h2 + ", "@ + h3 + "]"@,
    }
}

fn felt_hex_string(felt: u64) -> (s: String)
    ensures
        s@ == felt_hex(felt),
{
    let mut s = string_of("0x");
    push_hex_fixed(&mut s, felt, 16);
    s
}

/// Fallback: encode as a raw word of four Felt hex values.
pub fn decode_as_raw_word(felts: [u64; 4]) -> (p: DecodedPayload)
    ensures
        p@ == raw_word_payload(felts@),
{
    let h0 = felt_hex_string(felts[0]);
    let h1 = felt_hex_string(felts[1]);
    let h2 = felt_hex_string(felts[2]);
    let h3 = felt_hex_string(felts[3]);
    let mut display = string_of("[");
    display.append(h0.as_str());
    display.append(", ");
    display.append(h1.as_str());
    display.append(", ");
    display.append(h2.as_str());
    display.append(", ");
    display.append(h3.as_str());
    display.append("]");
    let mut words: Vec<String> = Vec::new();
    words.push(h0);
    words.push(h1);
    words.push(h2);
    words.push(h3);
    let p = DecodedPayload {
        kind: PayloadKind::RawWord,
        value: PayloadValue::Words(words),
        display_value: display,
    };
    assert(words@.map_values(|w: String| w@) =~= seq![
        felt_hex(felts@[0]),
        felt_hex(felts@[1]),
        felt_hex(felts@[2]),
        felt_hex(felts@[3]),
    ]);
    p
}

/// The 32 little-endian bytes of four felts.
pub open spec fn felts_le_bytes(felts: Seq<u64>) -> Seq<u8> {
    le_bytes(felts[0] as nat, 8) + le_bytes(felts[1] as nat, 8) + le_bytes(felts[2] as nat, 8)
        + le_bytes(felts[3] as nat, 8)
}

/// An owner config: with a readable ownership, the owner and the nominated owner (each
/// empty when absent), displayed as `owner=..` and, when there is a nominated owner,
/// ` nominated=..`; a word that is not a valid ownership is shown in hex.
pub open spec fn owner_payload(felts: Seq<u64>, config: Option<OwnerConfig>) -> PayloadView {
    match config {
        Some(cfg) => {
            let owner = match cfg.owner {
                Some(o) => o@,
                None => Seq::empty(),
            };
            let nominated = match cfg.nominated_owner {
                Some(n) => n@,
                None => Seq::empty(),
            };
            PayloadView {
                kind: PayloadKind::OwnerConfig,
                value: ValueView::Owner(
                    owner,
                    if nominated.len() == 0 {
                        None
                    } else {
                        Some(nominated)
                    },
                ),
                display: if nominated.len() == 0 {
                    "owner="@ + owner
                } else {
                    "owner="@ + owner + " nominated="@ + nominated
                },
            }
        },
        None => hex_payload(felts_le_bytes(felts)),
    }
}

/// A copy of an optional owner config.
pub fn copy_owner_config(config: &Option<OwnerConfig>) -> (r: Option<OwnerConfig>)
    ensures
        r == *config,
{
    match config {
        Some(c) => Some(
            OwnerConfig {
                owner: match &c.owner {
                    Some(o) => Some(o.clone()),
                    None => None,
                },
                nominated_owner: match &c.nominated_owner {
                    Some(n) => Some(n.clone()),
                    None => None,
                },
            },
        ),
        None => None,
    }
}

fn string_or_empty(o: Option<String>) -> (s: String)
    ensures
        s@ == (match o {
            Some(x) => x@,
            None => Seq::empty(),
        }),
{
    match o {
        Some(x) => x,
        None => String::new(),
    }
}

/// Decode `owner_config`, given the ownership that the word holds when it is a valid
/// `Ownable2Step` ownership (`None` otherwise).
///
/// Storage layout: `[owner_suffix, owner_prefix, nominated_suffix, nominated_prefix]`
pub fn decode_as_owner_config(felts: [u64; 4], config: Option<OwnerConfig>) -> (p: DecodedPayload)
    ensures
        p@ == owner_payload(felts@, config),
{
    match config {
        Some(cfg) => {
            let owner = string_or_empty(cfg.owner);
            let nominated = string_or_empty(cfg.nominated_owner);
            let mut display = string_of("owner=");
            display.append(owner.as_str());
            if nominated.as_str().is_empty() {
                DecodedPayload {
                    kind: PayloadKind::OwnerConfig,
                    value: PayloadValue::Owner { owner, nominated_owner: None },
                    display_value: display,
                }
            } else {
                display.append(" nominated=");
                display.append(nominated.as_str());
                DecodedPayload {
                    kind: PayloadKind::OwnerConfig,
                    value: PayloadValue::Owner { owner, nominated_owner: Some(nominated) },
                    display_value: display,
                }
            }
        },
        None => {
            let mut bytes = u64_to_le(felts[0]);
            let b1 = u64_to_le(felts[1]);
            let b2 = u64_to_le(felts[2]);
            let b3 = u64_to_le(felts[3]);
            bytes.extend_from_slice(b1.as_slice());
            bytes.extend_from_slice(b2.as_slice());
            bytes.extend_from_slice(b3.as_slice());
            assert(bytes@ =~= felts_le_bytes(felts@));
            decode_as_hex(bytes.as_slice())
        },
    }
}


// ================================================================================================
// PUBLIC API
// ================================================================================================

/// Whether `name` is one of the (descriptions, logo URIs, external links) string arrays.
pub open spec fn is_metadata_text_slot(name: Seq<char>) -> bool {
    exists|i: int|
        0 <= i < 7 && (name == FUNGIBLE_DESCRIPTION_SLOTS@[i]@ || name
            == FUNGIBLE_LOGO_URI_SLOTS@[i]@ || name == FUNGIBLE_EXTERNAL_LINK_SLOTS@[i]@)
}

/// Slots whose word is shown in hex.
pub open spec fn is_hex_slot(name: Seq<char>) -> bool {
    ||| name == SINGLESIG_PUB_KEY@
    ||| name == SINGLESIG_ACL_PUB_KEY@
    ||| name == GUARDIAN_PUB_KEY@
    ||| name == MULTISIG_APPROVER_PUBLIC_KEYS@
    ||| name == MULTISIG_EXECUTED_TRANSACTIONS@
    ||| name == STORAGE_SCHEMA_COMMITMENT@
    ||| name == NETWORK_ACCOUNT_ALLOWED_NOTE_SCRIPTS@
    ||| name == MINT_POLICY_MANAGER_ACTIVE_POLICY_PROC_ROOT@
}

/// How the 32-byte word of the storage slot `name` is decoded.
pub open spec fn slot_payload(name: Seq<char>, bytes: Seq<u8>, config: Option<OwnerConfig>) -> PayloadView {
    let felts = word_felts(bytes);
    if is_hex_slot(name) {
        hex_payload(bytes)
    } else if name == OWNABLE2STEP_OWNER_CONFIG@ {
        owner_payload(felts, config)
    } else if name == SINGLESIG_SCHEME@ || name == SINGLESIG_ACL_SCHEME@ || name
        == GUARDIAN_SCHEME@ {
        auth_scheme_payload(felts[0])
    } else if name == MINT_POLICY_MANAGER_POLICY_AUTHORITY@ {
        mint_policy_payload(felts[0])
    } else if name == MULTISIG_THRESHOLD_CONFIG@ {
        threshold_payload(felts[0], felts[1])
    } else if name == FUNGIBLE_NAME_CHUNK_0@ || name == FUNGIBLE_NAME_CHUNK_1@ || name
        == SINGLESIG_ACL_CONFIG@ || is_metadata_text_slot(name) {
        string_chunk_payload(felts)
    } else {
        raw_word_payload(felts)
    }
}

/// How the 32-byte value of an entry of the storage map `name` is decoded: the map schemas
/// first, then the value-slot schemas, then a raw word.
pub open spec fn map_value_payload(name: Seq<char>, bytes: Seq<u8>, config: Option<OwnerConfig>) -> PayloadView {
    let felts = word_felts(bytes);
    if name == ALLOWED_POLICY_PROC_ROOTS@ {
        bool_payload(felts[0])
    } else if name == MULTISIG_APPROVER_PUBLIC_KEYS@ || name == MULTISIG_EXECUTED_TRANSACTIONS@ {
        hex_payload(bytes)
    } else if name == MULTISIG_APPROVER_SCHEMES@ {
        auth_scheme_payload(felts[0])
    } else if name == MULTISIG_PROCEDURE_THRESHOLDS@ || name == SINGLESIG_ACL_TRIGGER_PROCEDURE_ROOTS@ {
        number_payload(felts[0])
    } else {
        slot_payload(name, bytes, config)
    }
}

/// A map without a schema of its own decodes its values as the value slot of the same name
/// would: for every name but the four map schemas (the policy flag, approver schemes,
/// procedure thresholds and ACL trigger roots), a map value and a slot word decode alike.
pub proof fn lemma_map_value_falls_back_to_slot(
    name: Seq<char>,
    bytes: Seq<u8>,
    config: Option<OwnerConfig>,
)
    requires
        name != ALLOWED_POLICY_PROC_ROOTS@,
        name != MULTISIG_APPROVER_SCHEMES@,
        name != MULTISIG_PROCEDURE_THRESHOLDS@,
        name != SINGLESIG_ACL_TRIGGER_PROCEDURE_ROOTS@,
    ensures
        map_value_payload(name, bytes, config) == slot_payload(name, bytes, config),
{
}

/// The auth scheme that a felt names, as it is displayed: 1 is `EcdsaK256Keccak`, 2 is
/// `Falcon512Poseidon2`, any other value `v` is `Unknown(v)`.
pub open spec fn auth_scheme_name(felt: u64) -> Seq<char> {
    if felt == 1 {
        "EcdsaK256Keccak"@
    } else if felt == 2 {
        "Falcon512Poseidon2"@
    } else {
        "Unknown("@ + decimal(felt as nat) + ")"@
    }
}

/// The scheme slots of single-signature, single-signature ACL and guardian auth all hold
/// an auth scheme id in their first felt: for every word, each decodes as that auth scheme
/// (its value is the whole felt), and the three decode alike.
pub proof fn lemma_scheme_slots_decode_auth_scheme(bytes: Seq<u8>, config: Option<OwnerConfig>)
    ensures
        forall|name: Seq<char>|
            name == SINGLESIG_SCHEME@ || name == SINGLESIG_ACL_SCHEME@ || name == GUARDIAN_SCHEME@
                ==> {
                let p = #[trigger] slot_payload(name, bytes, config);
                &&& p.kind == PayloadKind::AuthScheme
                &&& p.value == ValueView::Id(word_felts(bytes)[0])
                &&& p.display == auth_scheme_name(word_felts(bytes)[0])
            },
        slot_payload(GUARDIAN_SCHEME@, bytes, config) == slot_payload(SINGLESIG_SCHEME@, bytes, config),
        slot_payload(SINGLESIG_ACL_SCHEME@, bytes, config) == slot_payload(
            SINGLESIG_SCHEME@,
            bytes,
            config,
        ),
{
    reveal_strlit("miden::standards::auth::guardian::pub_key");
    reveal_strlit("miden::standards::auth::guardian::scheme");
    reveal_strlit("miden::standards::mint_policy_manager::active_policy_proc_root");
    reveal_strlit("miden::standards::auth::multisig::approver_public_keys");
    reveal_strlit("miden::standards::auth::multisig::executed_transactions");
    reveal_strlit("miden::standards::auth::network_account::allowed_note_scripts");
    reveal_strlit("miden::standards::access::ownable2step::owner_config");
    reveal_strlit("miden::standards::auth::singlesig_acl::pub_key");
    reveal_strlit("miden::standards::auth::singlesig_acl::scheme");
    reveal_strlit("miden::standards::auth::singlesig::pub_key");
    reveal_strlit("miden::standards::auth::singlesig::scheme");
    reveal_strlit("miden::standards::metadata::storage_schema::commitment");
    assert(GUARDIAN_PUB_KEY@.len() == 41);
    assert(GUARDIAN_SCHEME@.len() == 40);
    assert(MINT_POLICY_MANAGER_ACTIVE_POLICY_PROC_ROOT@.len() == 62);
    assert(MULTISIG_APPROVER_PUBLIC_KEYS@.len() == 54);
    assert(MULTISIG_EXECUTED_TRANSACTIONS@.len() == 55);
    assert(NETWORK_ACCOUNT_ALLOWED_NOTE_SCRIPTS@.len() == 61);
    assert(OWNABLE2STEP_OWNER_CONFIG@.len() == 52);
    assert(SINGLESIG_ACL_PUB_KEY@.len() == 46);
    assert(SINGLESIG_ACL_SCHEME@.len() == 45);
    assert(SINGLESIG_PUB_KEY@.len() == 42);
    assert(SINGLESIG_SCHEME@.len() == 41);
    assert(STORAGE_SCHEMA_COMMITMENT@.len() == 54);
    assert(SINGLESIG_SCHEME@[24] == 's' && GUARDIAN_PUB_KEY@[24] == 'g');
    assert(SINGLESIG_SCHEME@ != SINGLESIG_PUB_KEY@);
    assert(SINGLESIG_SCHEME@ != SINGLESIG_ACL_PUB_KEY@);
    assert(SINGLESIG_SCHEME@ != GUARDIAN_PUB_KEY@);
    assert(SINGLESIG_SCHEME@ != MULTISIG_APPROVER_PUBLIC_KEYS@);
    assert(SINGLESIG_SCHEME@ != MULTISIG_EXECUTED_TRANSACTIONS@);
    assert(SINGLESIG_SCHEME@ != STORAGE_SCHEMA_COMMITMENT@);
    assert(SINGLESIG_SCHEME@ != NETWORK_ACCOUNT_ALLOWED_NOTE_SCRIPTS@);
    assert(SINGLESIG_SCHEME@ != MINT_POLICY_MANAGER_ACTIVE_POLICY_PROC_ROOT@);
    assert(SINGLESIG_SCHEME@ != OWNABLE2STEP_OWNER_CONFIG@);
    assert(SINGLESIG_ACL_SCHEME@ != SINGLESIG_PUB_KEY@);
    assert(SINGLESIG_ACL_SCHEME@ != SINGLESIG_ACL_PUB_KEY@);
    assert(SINGLESIG_ACL_SCHEME@ != GUARDIAN_PUB_KEY@);
    assert(SINGLESIG_ACL_SCHEME@ != MULTISIG_APPROVER_PUBLIC_KEYS@);
    assert(SINGLESIG_ACL_SCHEME@ != MULTISIG_EXECUTED_TRANSACTIONS@);
    assert(SINGLESIG_ACL_SCHEME@ != STORAGE_SCHEMA_COMMITMENT@);
    assert(SINGLESIG_ACL_SCHEME@ != NETWORK_ACCOUNT_ALLOWED_NOTE_SCRIPTS@);
    assert(SINGLESIG_ACL_SCHEME@ != MINT_POLICY_MANAGER_ACTIVE_POLICY_PROC_ROOT@);
    assert(SINGLESIG_ACL_SCHEME@ != OWNABLE2STEP_OWNER_CONFIG@);
    assert(GUARDIAN_SCHEME@ != SINGLESIG_PUB_KEY@);
    assert(GUARDIAN_SCHEME@ != SINGLESIG_ACL_PUB_KEY@);
    assert(GUARDIAN_SCHEME@ != GUARDIAN_PUB_KEY@);
    assert(GUARDIAN_SCHEME@ != MULTISIG_APPROVER_PUBLIC_KEYS@);
    assert(GUARDIAN_SCHEME@ != MULTISIG_EXECUTED_TRANSACTIONS@);
    assert(GUARDIAN_SCHEME@ != STORAGE_SCHEMA_COMMITMENT@);
    assert(GUARDIAN_SCHEME@ != NETWORK_ACCOUNT_ALLOWED_NOTE_SCRIPTS@);
    assert(GUARDIAN_SCHEME@ != MINT_POLICY_MANAGER_ACTIVE_POLICY_PROC_ROOT@);
    assert(GUARDIAN_SCHEME@ != OWNABLE2STEP_OWNER_CONFIG@);
}

/// An entry of the multisig `approver_schemes` map holds an auth scheme id in its first
/// felt: for every value, it decodes as that auth scheme (its value is the whole felt),
/// exactly as the single-signature scheme slot decodes the same word.
pub proof fn lemma_approver_schemes_decode_auth_scheme(bytes: Seq<u8>, config: Option<OwnerConfig>)
    ensures
        map_value_payload(MULTISIG_APPROVER_SCHEMES@, bytes, config).kind == PayloadKind::AuthScheme,
        map_value_payload(MULTISIG_APPROVER_SCHEMES@, bytes, config).value == ValueView::Id(
            word_felts(bytes)[0],
        ),
        map_value_payload(MULTISIG_APPROVER_SCHEMES@, bytes, config).display == auth_scheme_name(
            word_felts(bytes)[0],
        ),
        map_value_payload(MULTISIG_APPROVER_SCHEMES@, bytes, config) == slot_payload(
            SINGLESIG_SCHEME@,
            bytes,
            config,
        ),
{
    reveal_strlit("miden::standards::mint_policy_manager::allowed_policy_proc_roots");
    reveal_strlit("miden::standards::auth::multisig::approver_public_keys");
    reveal_strlit("miden::standards::auth::multisig::approver_schemes");
    reveal_strlit("miden::standards::auth::multisig::executed_transactions");
    assert(ALLOWED_POLICY_PROC_ROOTS@.len() == 64);
    assert(MULTISIG_APPROVER_PUBLIC_KEYS@.len() == 54);
    assert(MULTISIG_APPROVER_SCHEMES@.len() == 50);
    assert(MULTISIG_EXECUTED_TRANSACTIONS@.len() == 55);
    assert(MULTISIG_APPROVER_SCHEMES@ != ALLOWED_POLICY_PROC_ROOTS@);
    assert(MULTISIG_APPROVER_SCHEMES@ != MULTISIG_APPROVER_PUBLIC_KEYS@);
    assert(MULTISIG_APPROVER_SCHEMES@ != MULTISIG_EXECUTED_TRANSACTIONS@);
    lemma_scheme_slots_decode_auth_scheme(bytes, config);
    assert(slot_payload(SINGLESIG_SCHEME@, bytes, config).kind == PayloadKind::AuthScheme);
}

/// The owner config slot shows the ownership it is given: its value names the owner (empty
/// when there is none) and, exactly when there is a non-empty one, the nominated owner; the
/// display says the same, `owner=..` followed by ` nominated=..` when there is a nominee.
pub proof fn lemma_owner_config_names_owner_and_nominee(bytes: Seq<u8>, config: OwnerConfig)
    ensures
        ({
            let p = slot_payload(OWNABLE2STEP_OWNER_CONFIG@, bytes, Some(config));
            let owner = match config.owner {
                Some(o) => o@,
                None => Seq::<char>::empty(),
            };
            &&& p.kind == PayloadKind::OwnerConfig
            &&& match config.nominated_owner {
                Some(n) if n@.len() > 0 => p.value == ValueView::Owner(owner, Some(n@)) && p.display
                    == "owner="@ + owner + " nominated="@ + n@,
                _ => p.value == ValueView::Owner(owner, None) && p.display == "owner="@ + owner,
            }
        }),
{
    reveal_strlit("miden::standards::auth::guardian::pub_key");
    reveal_strlit("miden::standards::mint_policy_manager::active_policy_proc_root");
    reveal_strlit("miden::standards::auth::multisig::approver_public_keys");
    reveal_strlit("miden::standards::auth::multisig::executed_transactions");
    reveal_strlit("miden::standards::auth::network_account::allowed_note_scripts");
    reveal_strlit("miden::standards::access::ownable2step::owner_config");
    reveal_strlit("miden::standards::auth::singlesig_acl::pub_key");
    reveal_strlit("miden::standards::auth::singlesig::pub_key");
    reveal_strlit("miden::standards::metadata::storage_schema::commitment");
    assert(GUARDIAN_PUB_KEY@.len() == 41);
    assert(MINT_POLICY_MANAGER_ACTIVE_POLICY_PROC_ROOT@.len() == 62);
    assert(MULTISIG_APPROVER_PUBLIC_KEYS@.len() == 54);
    assert(MULTISIG_EXECUTED_TRANSACTIONS@.len() == 55);
    assert(NETWORK_ACCOUNT_ALLOWED_NOTE_SCRIPTS@.len() == 61);
    assert(OWNABLE2STEP_OWNER_CONFIG@.len() == 52);
    assert(SINGLESIG_ACL_PUB_KEY@.len() == 46);
    assert(SINGLESIG_PUB_KEY@.len() == 42);
    assert(STORAGE_SCHEMA_COMMITMENT@.len() == 54);
    assert(OWNABLE2STEP_OWNER_CONFIG@ != SINGLESIG_PUB_KEY@);
    assert(OWNABLE2STEP_OWNER_CONFIG@ != SINGLESIG_ACL_PUB_KEY@);
    assert(OWNABLE2STEP_OWNER_CONFIG@ != GUARDIAN_PUB_KEY@);
    assert(OWNABLE2STEP_OWNER_CONFIG@ != MULTISIG_APPROVER_PUBLIC_KEYS@);
    assert(OWNABLE2STEP_OWNER_CONFIG@ != MULTISIG_EXECUTED_TRANSACTIONS@);
    assert(OWNABLE2STEP_OWNER_CONFIG@ != STORAGE_SCHEMA_COMMITMENT@);
    assert(OWNABLE2STEP_OWNER_CONFIG@ != NETWORK_ACCOUNT_ALLOWED_NOTE_SCRIPTS@);
    assert(OWNABLE2STEP_OWNER_CONFIG@ != MINT_POLICY_MANAGER_ACTIVE_POLICY_PROC_ROOT@);
}

/// The public key, commitment and procedure root slots show the whole word in hex: for
/// every word, the value and the display are `0x` followed by two lowercase hex digits per
/// byte, in order.
pub proof fn lemma_key_slots_decode_as_hex(bytes: Seq<u8>, config: Option<OwnerConfig>)
    ensures
        forall|name: Seq<char>|
            {
                ||| name == SINGLESIG_PUB_KEY@
                ||| name == SINGLESIG_ACL_PUB_KEY@
                ||| name == GUARDIAN_PUB_KEY@
                ||| name == MULTISIG_APPROVER_PUBLIC_KEYS@
                ||| name == MULTISIG_EXECUTED_TRANSACTIONS@
                ||| name == STORAGE_SCHEMA_COMMITMENT@
                ||| name == NETWORK_ACCOUNT_ALLOWED_NOTE_SCRIPTS@
                ||| name == MINT_POLICY_MANAGER_ACTIVE_POLICY_PROC_ROOT@
            } ==> {
                let p = #[trigger] slot_payload(name, bytes, config);
                &&& p.kind == PayloadKind::Hex
                &&& p.value == ValueView::Text("0x"@ + hex_bytes(bytes))
                &&& p.display == "0x"@ + hex_bytes(bytes)
            },
{
}

/// An owner config word that holds no readable ownership is shown as the word itself in
/// hex, its 32 bytes in order.
pub proof fn lemma_unreadable_owner_config_shown_in_hex(bytes: Seq<u8>)
    requires
        bytes.len() == 32,
    ensures
        slot_payload(OWNABLE2STEP_OWNER_CONFIG@, bytes, None).kind == PayloadKind::Hex,
        slot_payload(OWNABLE2STEP_OWNER_CONFIG@, bytes, None).display == "0x"@ + hex_bytes(bytes),
{
    reveal_strlit("miden::standards::auth::singlesig::pub_key");
    reveal_strlit("miden::standards::auth::singlesig_acl::pub_key");
    reveal_strlit("miden::standards::auth::guardian::pub_key");
    reveal_strlit("miden::standards::auth::multisig::approver_public_keys");
    reveal_strlit("miden::standards::auth::multisig::executed_transactions");
    reveal_strlit("miden::standards::metadata::storage_schema::commitment");
    reveal_strlit("miden::standards::auth::network_account::allowed_note_scripts");
    reveal_strlit("miden::standards::mint_policy_manager::active_policy_proc_root");
    reveal_strlit("miden::standards::access::ownable2step::owner_config");
    assert(SINGLESIG_PUB_KEY@.len() == 42);
    assert(SINGLESIG_ACL_PUB_KEY@.len() == 46);
    assert(GUARDIAN_PUB_KEY@.len() == 41);
    assert(MULTISIG_APPROVER_PUBLIC_KEYS@.len() == 54);
    assert(MULTISIG_EXECUTED_TRANSACTIONS@.len() == 55);
    assert(STORAGE_SCHEMA_COMMITMENT@.len() == 54);
    assert(NETWORK_ACCOUNT_ALLOWED_NOTE_SCRIPTS@.len() == 61);
    assert(MINT_POLICY_MANAGER_ACTIVE_POLICY_PROC_ROOT@.len() == 62);
    assert(OWNABLE2STEP_OWNER_CONFIG@.len() == 52);
    lemma_word_felts_roundtrip(bytes);
}

/// The mint policy authority slot holds the authority id in its first felt: for every word
/// it decodes with value that whole felt, shown as `AuthControlled` (0), `OwnerControlled`
/// (1) or `Unknown(v)`.
pub proof fn lemma_mint_policy_slot_decodes_authority(bytes: Seq<u8>, config: Option<OwnerConfig>)
    ensures
        ({
            let p = slot_payload(MINT_POLICY_MANAGER_POLICY_AUTHORITY@, bytes, config);
            let f = word_felts(bytes)[0];
            &&& p.kind == PayloadKind::MintPolicyAuthority
            &&& p.value == ValueView::Id(f)
            &&& p.display == if f == 0 {
                "AuthControlled"@
            } else if f == 1 {
                "OwnerControlled"@
            } else {
                "Unknown("@ + decimal(f as nat) + ")"@
            }
        }),
{
    reveal_strlit("miden::standards::auth::guardian::pub_key");
    reveal_strlit("miden::standards::auth::guardian::scheme");
    reveal_strlit("miden::standards::mint_policy_manager::active_policy_proc_root");
    reveal_strlit("miden::standards::mint_policy_manager::policy_authority");
    reveal_strlit("miden::standards::auth::multisig::approver_public_keys");
    reveal_strlit("miden::standards::auth::multisig::executed_transactions");
    reveal_strlit("miden::standards::auth::network_account::allowed_note_scripts");
    reveal_strlit("miden::standards::access::ownable2step::owner_config");
    reveal_strlit("miden::standards::auth::singlesig_acl::pub_key");
    reveal_strlit("miden::standards::auth::singlesig_acl::scheme");
    reveal_strlit("miden::standards::auth::singlesig::pub_key");
    reveal_strlit("miden::standards::auth::singlesig::scheme");
    reveal_strlit("miden::standards::metadata::storage_schema::commitment");
    assert(GUARDIAN_PUB_KEY@.len() == 41);
    assert(GUARDIAN_SCHEME@.len() == 40);
    assert(MINT_POLICY_MANAGER_ACTIVE_POLICY_PROC_ROOT@.len() == 62);
    assert(MINT_POLICY_MANAGER_POLICY_AUTHORITY@.len() == 55);
    assert(MULTISIG_APPROVER_PUBLIC_KEYS@.len() == 54);
    assert(MULTISIG_EXECUTED_TRANSACTIONS@.len() == 55);
    assert(NETWORK_ACCOUNT_ALLOWED_NOTE_SCRIPTS@.len() == 61);
    assert(OWNABLE2STEP_OWNER_CONFIG@.len() == 52);
    assert(SINGLESIG_ACL_PUB_KEY@.len() == 46);
    assert(SINGLESIG_ACL_SCHEME@.len() == 45);
    assert(SINGLESIG_PUB_KEY@.len() == 42);
    assert(SINGLESIG_SCHEME@.len() == 41);
    assert(STORAGE_SCHEMA_COMMITMENT@.len() == 54);
    assert(MINT_POLICY_MANAGER_POLICY_AUTHORITY@[18] == 'm' && MULTISIG_EXECUTED_TRANSACTIONS@[18] == 'a');
    assert(MINT_POLICY_MANAGER_POLICY_AUTHORITY@ != SINGLESIG_PUB_KEY@);
    assert(MINT_POLICY_MANAGER_POLICY_AUTHORITY@ != SINGLESIG_ACL_PUB_KEY@);
    assert(MINT_POLICY_MANAGER_POLICY_AUTHORITY@ != GUARDIAN_PUB_KEY@);
    assert(MINT_POLICY_MANAGER_POLICY_AUTHORITY@ != MULTISIG_APPROVER_PUBLIC_KEYS@);
    assert(MINT_POLICY_MANAGER_POLICY_AUTHORITY@ != MULTISIG_EXECUTED_TRANSACTIONS@);
    assert(MINT_POLICY_MANAGER_POLICY_AUTHORITY@ != STORAGE_SCHEMA_COMMITMENT@);
    assert(MINT_POLICY_MANAGER_POLICY_AUTHORITY@ != NETWORK_ACCOUNT_ALLOWED_NOTE_SCRIPTS@);
    assert(MINT_POLICY_MANAGER_POLICY_AUTHORITY@ != MINT_POLICY_MANAGER_ACTIVE_POLICY_PROC_ROOT@);
    assert(MINT_POLICY_MANAGER_POLICY_AUTHORITY@ != OWNABLE2STEP_OWNER_CONFIG@);
    assert(MINT_POLICY_MANAGER_POLICY_AUTHORITY@ != SINGLESIG_SCHEME@);
    assert(MINT_POLICY_MANAGER_POLICY_AUTHORITY@ != SINGLESIG_ACL_SCHEME@);
    assert(MINT_POLICY_MANAGER_POLICY_AUTHORITY@ != GUARDIAN_SCHEME@);
}

/// The multisig threshold config slot holds `[threshold, approvers, _, _]`: for every word
/// it decodes as those two felts, shown as `threshold/approvers`.
pub proof fn lemma_threshold_slot_decodes_threshold(bytes: Seq<u8>, config: Option<OwnerConfig>)
    ensures
        ({
            let p = slot_payload(MULTISIG_THRESHOLD_CONFIG@, bytes, config);
            let (t, n) = (word_felts(bytes)[0], word_felts(bytes)[1]);
            &&& p.kind == PayloadKind::ThresholdConfig
            &&& p.value == ValueView::Threshold(t, n)
            &&& p.display == decimal(t as nat) + "/"@ + decimal(n as nat)
        }),
{
    reveal_strlit("miden::standards::auth::guardian::pub_key");
    reveal_strlit("miden::standards::auth::guardian::scheme");
    reveal_strlit("miden::standards::mint_policy_manager::active_policy_proc_root");
    reveal_strlit("miden::standards::mint_policy_manager::policy_authority");
    reveal_strlit("miden::standards::auth::multisig::approver_public_keys");
    reveal_strlit("miden::standards::auth::multisig::executed_transactions");
    reveal_strlit("miden::standards::auth::multisig::threshold_config");
    reveal_strlit("miden::standards::auth::network_account::allowed_note_scripts");
    reveal_strlit("miden::standards::access::ownable2step::owner_config");
    reveal_strlit("miden::standards::auth::singlesig_acl::pub_key");
    reveal_strlit("miden::standards::auth::singlesig_acl::scheme");
    reveal_strlit("miden::standards::auth::singlesig::pub_key");
    reveal_strlit("miden::standards::auth::singlesig::scheme");
    reveal_strlit("miden::standards::metadata::storage_schema::commitment");
    assert(GUARDIAN_PUB_KEY@.len() == 41);
    assert(GUARDIAN_SCHEME@.len() == 40);
    assert(MINT_POLICY_MANAGER_ACTIVE_POLICY_PROC_ROOT@.len() == 62);
    assert(MINT_POLICY_MANAGER_POLICY_AUTHORITY@.len() == 55);
    assert(MULTISIG_APPROVER_PUBLIC_KEYS@.len() == 54);
    assert(MULTISIG_EXECUTED_TRANSACTIONS@.len() == 55);
    assert(MULTISIG_THRESHOLD_CONFIG@.len() == 50);
    assert(NETWORK_ACCOUNT_ALLOWED_NOTE_SCRIPTS@.len() == 61);
    assert(OWNABLE2STEP_OWNER_CONFIG@.len() == 52);
    assert(SINGLESIG_ACL_PUB_KEY@.len() == 46);
    assert(SINGLESIG_ACL_SCHEME@.len() == 45);
    assert(SINGLESIG_PUB_KEY@.len() == 42);
    assert(SINGLESIG_SCHEME@.len() == 41);
    assert(STORAGE_SCHEMA_COMMITMENT@.len() == 54);
    assert(MULTISIG_THRESHOLD_CONFIG@ != SINGLESIG_PUB_KEY@);
    assert(MULTISIG_THRESHOLD_CONFIG@ != SINGLESIG_ACL_PUB_KEY@);
    assert(MULTISIG_THRESHOLD_CONFIG@ != GUARDIAN_PUB_KEY@);
    assert(MULTISIG_THRESHOLD_CONFIG@ != MULTISIG_APPROVER_PUBLIC_KEYS@);
    assert(MULTISIG_THRESHOLD_CONFIG@ != MULTISIG_EXECUTED_TRANSACTIONS@);
    assert(MULTISIG_THRESHOLD_CONFIG@ != STORAGE_SCHEMA_COMMITMENT@);
    assert(MULTISIG_THRESHOLD_CONFIG@ != NETWORK_ACCOUNT_ALLOWED_NOTE_SCRIPTS@);
    assert(MULTISIG_THRESHOLD_CONFIG@ != MINT_POLICY_MANAGER_ACTIVE_POLICY_PROC_ROOT@);
    assert(MULTISIG_THRESHOLD_CONFIG@ != OWNABLE2STEP_OWNER_CONFIG@);
    assert(MULTISIG_THRESHOLD_CONFIG@ != SINGLESIG_SCHEME@);
    assert(MULTISIG_THRESHOLD_CONFIG@ != SINGLESIG_ACL_SCHEME@);
    assert(MULTISIG_THRESHOLD_CONFIG@ != GUARDIAN_SCHEME@);
    assert(MULTISIG_THRESHOLD_CONFIG@ != MINT_POLICY_MANAGER_POLICY_AUTHORITY@);
}

/// The name chunk slots and the single-signature ACL config slot hold text: for every word
/// each decodes as the string chunk of its felts, its value being the displayed text.
pub proof fn lemma_text_slots_decode_as_text(bytes: Seq<u8>, config: Option<OwnerConfig>)
    ensures
        forall|name: Seq<char>|
            name == FUNGIBLE_NAME_CHUNK_0@ || name == FUNGIBLE_NAME_CHUNK_1@ || name
                == SINGLESIG_ACL_CONFIG@ ==> {
                let p = #[trigger] slot_payload(name, bytes, config);
                &&& p.kind == PayloadKind::Text
                &&& p.value == ValueView::Text(p.display)
                &&& p.display == utf8_lossy(chunk_text_bytes(bytes))
            },
{
    reveal_strlit("miden::standards::metadata::fungible_faucet::name_chunk_0");
    reveal_strlit("miden::standards::metadata::fungible_faucet::name_chunk_1");
    reveal_strlit("miden::standards::auth::guardian::pub_key");
    reveal_strlit("miden::standards::auth::guardian::scheme");
    reveal_strlit("miden::standards::mint_policy_manager::active_policy_proc_root");
    reveal_strlit("miden::standards::mint_policy_manager::policy_authority");
    reveal_strlit("miden::standards::auth::multisig::approver_public_keys");
    reveal_strlit("miden::standards::auth::multisig::executed_transactions");
    reveal_strlit("miden::standards::auth::multisig::threshold_config");
    reveal_strlit("miden::standards::auth::network_account::allowed_note_scripts");
    reveal_strlit("miden::standards::access::ownable2step::owner_config");
    reveal_strlit("miden::standards::auth::singlesig_acl::config");
    reveal_strlit("miden::standards::auth::singlesig_acl::pub_key");
    reveal_strlit("miden::standards::auth::singlesig_acl::scheme");
    reveal_strlit("miden::standards::auth::singlesig::pub_key");
    reveal_strlit("miden::standards::auth::singlesig::scheme");
    reveal_strlit("miden::standards::metadata::storage_schema::commitment");
    assert(FUNGIBLE_NAME_CHUNK_0@.len() == 57);
    assert(FUNGIBLE_NAME_CHUNK_1@.len() == 57);
    assert(GUARDIAN_PUB_KEY@.len() == 41);
    assert(GUARDIAN_SCHEME@.len() == 40);
    assert(MINT_POLICY_MANAGER_ACTIVE_POLICY_PROC_ROOT@.len() == 62);
    assert(MINT_POLICY_MANAGER_POLICY_AUTHORITY@.len() == 55);
    assert(MULTISIG_APPROVER_PUBLIC_KEYS@.len() == 54);
    assert(MULTISIG_EXECUTED_TRANSACTIONS@.len() == 55);
    assert(MULTISIG_THRESHOLD_CONFIG@.len() == 50);
    assert(NETWORK_ACCOUNT_ALLOWED_NOTE_SCRIPTS@.len() == 61);
    assert(OWNABLE2STEP_OWNER_CONFIG@.len() == 52);
    assert(SINGLESIG_ACL_CONFIG@.len() == 45);
    assert(SINGLESIG_ACL_PUB_KEY@.len() == 46);
    assert(SINGLESIG_ACL_SCHEME@.len() == 45);
    assert(SINGLESIG_PUB_KEY@.len() == 42);
    assert(SINGLESIG_SCHEME@.len() == 41);
    assert(STORAGE_SCHEMA_COMMITMENT@.len() == 54);
    assert(SINGLESIG_ACL_CONFIG@[39] == 'c' && SINGLESIG_ACL_SCHEME@[39] == 's');
    assert(FUNGIBLE_NAME_CHUNK_0@ != SINGLESIG_PUB_KEY@);
    assert(FUNGIBLE_NAME_CHUNK_0@ != SINGLESIG_ACL_PUB_KEY@);
    assert(FUNGIBLE_NAME_CHUNK_0@ != GUARDIAN_PUB_KEY@);
    assert(FUNGIBLE_NAME_CHUNK_0@ != MULTISIG_APPROVER_PUBLIC_KEYS@);
    assert(FUNGIBLE_NAME_CHUNK_0@ != MULTISIG_EXECUTED_TRANSACTIONS@);
    assert(FUNGIBLE_NAME_CHUNK_0@ != STORAGE_SCHEMA_COMMITMENT@);
    assert(FUNGIBLE_NAME_CHUNK_0@ != NETWORK_ACCOUNT_ALLOWED_NOTE_SCRIPTS@);
    assert(FUNGIBLE_NAME_CHUNK_0@ != MINT_POLICY_MANAGER_ACTIVE_POLICY_PROC_ROOT@);
    assert(FUNGIBLE_NAME_CHUNK_0@ != OWNABLE2STEP_OWNER_CONFIG@);
    assert(FUNGIBLE_NAME_CHUNK_0@ != SINGLESIG_SCHEME@);
    assert(FUNGIBLE_NAME_CHUNK_0@ != SINGLESIG_ACL_SCHEME@);
    assert(FUNGIBLE_NAME_CHUNK_0@ != GUARDIAN_SCHEME@);
    assert(FUNGIBLE_NAME_CHUNK_0@ != MINT_POLICY_MANAGER_POLICY_AUTHORITY@);
    assert(FUNGIBLE_NAME_CHUNK_0@ != MULTISIG_THRESHOLD_CONFIG@);
    assert(FUNGIBLE_NAME_CHUNK_1@ != SINGLESIG_PUB_KEY@);
    assert(FUNGIBLE_NAME_CHUNK_1@ != SINGLESIG_ACL_PUB_KEY@);
    assert(FUNGIBLE_NAME_CHUNK_1@ != GUARDIAN_PUB_KEY@);
    assert(FUNGIBLE_NAME_CHUNK_1@ != MULTISIG_APPROVER_PUBLIC_KEYS@);
    assert(FUNGIBLE_NAME_CHUNK_1@ != MULTISIG_EXECUTED_TRANSACTIONS@);
    assert(FUNGIBLE_NAME_CHUNK_1@ != STORAGE_SCHEMA_COMMITMENT@);
    assert(FUNGIBLE_NAME_CHUNK_1@ != NETWORK_ACCOUNT_ALLOWED_NOTE_SCRIPTS@);
    assert(FUNGIBLE_NAME_CHUNK_1@ != MINT_POLICY_MANAGER_ACTIVE_POLICY_PROC_ROOT@);
    assert(FUNGIBLE_NAME_CHUNK_1@ != OWNABLE2STEP_OWNER_CONFIG@);
    assert(FUNGIBLE_NAME_CHUNK_1@ != SINGLESIG_SCHEME@);
    assert(FUNGIBLE_NAME_CHUNK_1@ != SINGLESIG_ACL_SCHEME@);
    assert(FUNGIBLE_NAME_CHUNK_1@ != GUARDIAN_SCHEME@);
    assert(FUNGIBLE_NAME_CHUNK_1@ != MINT_POLICY_MANAGER_POLICY_AUTHORITY@);
    assert(FUNGIBLE_NAME_CHUNK_1@ != MULTISIG_THRESHOLD_CONFIG@);
    assert(SINGLESIG_ACL_CONFIG@ != SINGLESIG_PUB_KEY@);
    assert(SINGLESIG_ACL_CONFIG@ != SINGLESIG_ACL_PUB_KEY@);
    assert(SINGLESIG_ACL_CONFIG@ != GUARDIAN_PUB_KEY@);
    assert(SINGLESIG_ACL_CONFIG@ != MULTISIG_APPROVER_PUBLIC_KEYS@);
    assert(SINGLESIG_ACL_CONFIG@ != MULTISIG_EXECUTED_TRANSACTIONS@);
    assert(SINGLESIG_ACL_CONFIG@ != STORAGE_SCHEMA_COMMITMENT@);
    assert(SINGLESIG_ACL_CONFIG@ != NETWORK_ACCOUNT_ALLOWED_NOTE_SCRIPTS@);
    assert(SINGLESIG_ACL_CONFIG@ != MINT_POLICY_MANAGER_ACTIVE_POLICY_PROC_ROOT@);
    assert(SINGLESIG_ACL_CONFIG@ != OWNABLE2STEP_OWNER_CONFIG@);
    assert(SINGLESIG_ACL_CONFIG@ != SINGLESIG_SCHEME@);
    assert(SINGLESIG_ACL_CONFIG@ != SINGLESIG_ACL_SCHEME@);
    assert(SINGLESIG_ACL_CONFIG@ != GUARDIAN_SCHEME@);
    assert(SINGLESIG_ACL_CONFIG@ != MINT_POLICY_MANAGER_POLICY_AUTHORITY@);
    assert(SINGLESIG_ACL_CONFIG@ != MULTISIG_THRESHOLD_CONFIG@);
}

/// An entry of the multisig approver public keys or executed transactions map is a word
/// shown in hex, as the slots of those names are.
pub proof fn lemma_key_maps_decode_as_hex(bytes: Seq<u8>, config: Option<OwnerConfig>)
    ensures
        forall|name: Seq<char>|
            name == MULTISIG_APPROVER_PUBLIC_KEYS@ || name == MULTISIG_EXECUTED_TRANSACTIONS@ ==> {
                let p = #[trigger] map_value_payload(name, bytes, config);
                &&& p.kind == PayloadKind::Hex
                &&& p.value == ValueView::Text("0x"@ + hex_bytes(bytes))
                &&& p.display == "0x"@ + hex_bytes(bytes)
                &&& p == slot_payload(name, bytes, config)
            },
{
    reveal_strlit("miden::standards::mint_policy_manager::allowed_policy_proc_roots");
    reveal_strlit("miden::standards::auth::multisig::approver_public_keys");
    reveal_strlit("miden::standards::auth::multisig::executed_transactions");
    assert(ALLOWED_POLICY_PROC_ROOTS@.len() == 64);
    assert(MULTISIG_APPROVER_PUBLIC_KEYS@.len() == 54);
    assert(MULTISIG_EXECUTED_TRANSACTIONS@.len() == 55);
    assert(MULTISIG_APPROVER_PUBLIC_KEYS@ != ALLOWED_POLICY_PROC_ROOTS@);
    assert(MULTISIG_EXECUTED_TRANSACTIONS@ != ALLOWED_POLICY_PROC_ROOTS@);
}

/// An entry of the multisig procedure thresholds or ACL trigger procedure roots map holds a
/// number in its first felt: for every value it decodes as that number, shown in decimal.
pub proof fn lemma_number_maps_decode_as_number(bytes: Seq<u8>, config: Option<OwnerConfig>)
    ensures
        forall|name: Seq<char>|
            name == MULTISIG_PROCEDURE_THRESHOLDS@ || name == SINGLESIG_ACL_TRIGGER_PROCEDURE_ROOTS@
                ==> {
                let p = #[trigger] map_value_payload(name, bytes, config);
                &&& p.kind == PayloadKind::Number
                &&& p.value == ValueView::Number(word_felts(bytes)[0])
                &&& p.display == decimal(word_felts(bytes)[0] as nat)
            },
{
    reveal_strlit("miden::standards::mint_policy_manager::allowed_policy_proc_roots");
    reveal_strlit("miden::standards::auth::multisig::approver_public_keys");
    reveal_strlit("miden::standards::auth::multisig::approver_schemes");
    reveal_strlit("miden::standards::auth::multisig::executed_transactions");
    reveal_strlit("miden::standards::auth::multisig::procedure_thresholds");
    reveal_strlit("miden::standards::auth::singlesig_acl::trigger_procedure_roots");
    assert(ALLOWED_POLICY_PROC_ROOTS@.len() == 64);
    assert(MULTISIG_APPROVER_PUBLIC_KEYS@.len() == 54);
    assert(MULTISIG_APPROVER_SCHEMES@.len() == 50);
    assert(MULTISIG_EXECUTED_TRANSACTIONS@.len() == 55);
    assert(MULTISIG_PROCEDURE_THRESHOLDS@.len() == 54);
    assert(SINGLESIG_ACL_TRIGGER_PROCEDURE_ROOTS@.len() == 62);
    assert(MULTISIG_PROCEDURE_THRESHOLDS@[34] == 'p' && MULTISIG_APPROVER_PUBLIC_KEYS@[34] == 'a');
    assert(MULTISIG_PROCEDURE_THRESHOLDS@ != ALLOWED_POLICY_PROC_ROOTS@);
    assert(MULTISIG_PROCEDURE_THRESHOLDS@ != MULTISIG_APPROVER_PUBLIC_KEYS@);
    assert(MULTISIG_PROCEDURE_THRESHOLDS@ != MULTISIG_EXECUTED_TRANSACTIONS@);
    assert(MULTISIG_PROCEDURE_THRESHOLDS@ != MULTISIG_APPROVER_SCHEMES@);
    assert(SINGLESIG_ACL_TRIGGER_PROCEDURE_ROOTS@ != ALLOWED_POLICY_PROC_ROOTS@);
    assert(SINGLESIG_ACL_TRIGGER_PROCEDURE_ROOTS@ != MULTISIG_APPROVER_PUBLIC_KEYS@);
    assert(SINGLESIG_ACL_TRIGGER_PROCEDURE_ROOTS@ != MULTISIG_EXECUTED_TRANSACTIONS@);
    assert(SINGLESIG_ACL_TRIGGER_PROCEDURE_ROOTS@ != MULTISIG_APPROVER_SCHEMES@);
}

/// An entry of the mint policy `allowed_policy_proc_roots` map is a flag: for every value,
/// set exactly when its first felt is not zero, shown as `true` or `false`.
pub proof fn lemma_allowed_roots_map_decodes_flag(bytes: Seq<u8>, config: Option<OwnerConfig>)
    ensures
        ({
            let p = map_value_payload(ALLOWED_POLICY_PROC_ROOTS@, bytes, config);
            let set = word_felts(bytes)[0] != 0;
            &&& p.kind == PayloadKind::Bool
            &&& p.value == ValueView::Flag(set)
            &&& p.display == if set {
                "true"@
            } else {
                "false"@
            }
        }),
{
}

/// A name under `miden::standards::metadata::fungible_faucet::`, told apart from every other
/// known slot name by two of its characters.
pub open spec fn is_fungible_metadata_name(name: Seq<char>) -> bool {
    name.len() > 28 && name[19] == 'e' && name[28] == 'f'
}

/// The description, logo URI and external link slots are fungible metadata names.
proof fn lemma_metadata_text_slot_names(name: Seq<char>)
    requires
        is_metadata_text_slot(name),
    ensures
        is_fungible_metadata_name(name),
{
    reveal_strlit("miden::standards::metadata::fungible_faucet::description_0");
    reveal_strlit("miden::standards::metadata::fungible_faucet::description_1");
    reveal_strlit("miden::standards::metadata::fungible_faucet::description_2");
    reveal_strlit("miden::standards::metadata::fungible_faucet::description_3");
    reveal_strlit("miden::standards::metadata::fungible_faucet::description_4");
    reveal_strlit("miden::standards::metadata::fungible_faucet::description_5");
    reveal_strlit("miden::standards::metadata::fungible_faucet::description_6");
    reveal_strlit("miden::standards::metadata::fungible_faucet::logo_uri_0");
    reveal_strlit("miden::standards::metadata::fungible_faucet::logo_uri_1");
    reveal_strlit("miden::standards::metadata::fungible_faucet::logo_uri_2");
    reveal_strlit("miden::standards::metadata::fungible_faucet::logo_uri_3");
    reveal_strlit("miden::standards::metadata::fungible_faucet::logo_uri_4");
    reveal_strlit("miden::standards::metadata::fungible_faucet::logo_uri_5");
    reveal_strlit("miden::standards::metadata::fungible_faucet::logo_uri_6");
    reveal_strlit("miden::standards::metadata::fungible_faucet::external_link_0");
    reveal_strlit("miden::standards::metadata::fungible_faucet::external_link_1");
    reveal_strlit("miden::standards::metadata::fungible_faucet::external_link_2");
    reveal_strlit("miden::standards::metadata::fungible_faucet::external_link_3");
    reveal_strlit("miden::standards::metadata::fungible_faucet::external_link_4");
    reveal_strlit("miden::standards::metadata::fungible_faucet::external_link_5");
    reveal_strlit("miden::standards::metadata::fungible_faucet::external_link_6");
}

/// No slot name that has a decoder of its own is a fungible metadata name; `name_chunk_0` is one.
proof fn lemma_other_slot_names()
    ensures
        !is_fungible_metadata_name(SINGLESIG_PUB_KEY@),
        !is_fungible_metadata_name(SINGLESIG_ACL_PUB_KEY@),
        !is_fungible_metadata_name(GUARDIAN_PUB_KEY@),
        !is_fungible_metadata_name(MULTISIG_APPROVER_PUBLIC_KEYS@),
        !is_fungible_metadata_name(MULTISIG_EXECUTED_TRANSACTIONS@),
        !is_fungible_metadata_name(STORAGE_SCHEMA_COMMITMENT@),
        !is_fungible_metadata_name(NETWORK_ACCOUNT_ALLOWED_NOTE_SCRIPTS@),
        !is_fungible_metadata_name(MINT_POLICY_MANAGER_ACTIVE_POLICY_PROC_ROOT@),
        !is_fungible_metadata_name(OWNABLE2STEP_OWNER_CONFIG@),
        !is_fungible_metadata_name(SINGLESIG_SCHEME@),
        !is_fungible_metadata_name(SINGLESIG_ACL_SCHEME@),
        !is_fungible_metadata_name(GUARDIAN_SCHEME@),
        !is_fungible_metadata_name(MINT_POLICY_MANAGER_POLICY_AUTHORITY@),
        !is_fungible_metadata_name(MULTISIG_THRESHOLD_CONFIG@),
        is_fungible_metadata_name(FUNGIBLE_NAME_CHUNK_0@),
{
    reveal_strlit("miden::standards::auth::singlesig::pub_key");
    reveal_strlit("miden::standards::auth::singlesig_acl::pub_key");
    reveal_strlit("miden::standards::auth::guardian::pub_key");
    reveal_strlit("miden::standards::auth::multisig::approver_public_keys");
    reveal_strlit("miden::standards::auth::multisig::executed_transactions");
    reveal_strlit("miden::standards::metadata::storage_schema::commitment");
    reveal_strlit("miden::standards::auth::network_account::allowed_note_scripts");
    reveal_strlit("miden::standards::mint_policy_manager::active_policy_proc_root");
    reveal_strlit("miden::standards::access::ownable2step::owner_config");
    reveal_strlit("miden::standards::auth::singlesig::scheme");
    reveal_strlit("miden::standards::auth::singlesig_acl::scheme");
    reveal_strlit("miden::standards::auth::guardian::scheme");
    reveal_strlit("miden::standards::mint_policy_manager::policy_authority");
    reveal_strlit("miden::standards::auth::multisig::threshold_config");
    reveal_strlit("miden::standards::metadata::fungible_faucet::name_chunk_0");
}

/// The description, logo URI and external link slots hold string chunks, as the name chunks
/// do: a word in any of them decodes exactly as it does in `name_chunk_0`.
pub proof fn lemma_metadata_text_slots_decode_as_name_chunk(
    name: Seq<char>,
    bytes: Seq<u8>,
    config: Option<OwnerConfig>,
)
    requires
        is_metadata_text_slot(name),
    ensures
        slot_payload(name, bytes, config) == string_chunk_payload(word_felts(bytes)),
        slot_payload(name, bytes, config) == slot_payload(FUNGIBLE_NAME_CHUNK_0@, bytes, config),
{
    lemma_metadata_text_slot_names(name);
    lemma_other_slot_names();
}

fn same_name(name: &str, known: &str) -> (r: bool)
    ensures
        r == (name@ == known@),
{
    name.to_owned() == known.to_owned()
}

fn is_listed(name: &str, names: &[&str; 7]) -> (r: bool)
    ensures
        r == exists|i: int| 0 <= i < 7 && name@ == names@[i]@,
{
    let mut i: usize = 0;
    while i < 7
        invariant
            i <= 7,
            forall|k: int| 0 <= k < i ==> name@ != names@[k]@,
        decreases 7 - i,
    {
        if same_name(name, names[i]) {
            return true;
        }
        i = i + 1;
    }
    false
}

fn hex_slot(name: &str) -> (r: bool)
    ensures
        r == is_hex_slot(name@),
{
    same_name(name, SINGLESIG_PUB_KEY) || same_name(name, SINGLESIG_ACL_PUB_KEY) || same_name(
        name,
        GUARDIAN_PUB_KEY,
    ) || same_name(name, MULTISIG_APPROVER_PUBLIC_KEYS) || same_name(
        name,
        MULTISIG_EXECUTED_TRANSACTIONS,
    ) || same_name(name, STORAGE_SCHEMA_COMMITMENT) || same_name(
        name,
        NETWORK_ACCOUNT_ALLOWED_NOTE_SCRIPTS,
    ) || same_name(name, MINT_POLICY_MANAGER_ACTIVE_POLICY_PROC_ROOT)
}

/// Decode a named storage slot's raw 32-byte Word into a structured payload.
///
/// Returns `None` only if `word_bytes` is not exactly 32 bytes. `owner_config` is the
/// ownership that the word holds when read as an `Ownable2Step` owner config, if it is one.
pub fn decode_slot(slot_name: &str, word_bytes: &[u8], owner_config: Option<OwnerConfig>) -> (r:
    Option<DecodedPayload>)
    ensures
        word_bytes@.len() != 32 ==> r is None,
        word_bytes@.len() == 32 ==> r is Some && r->0@ == slot_payload(
            slot_name@,
            word_bytes@,
            owner_config,
        ),
        r matches Some(p) ==> (p.kind == PayloadKind::Text && vstd::utf8::valid_utf8(
            chunk_text_bytes(word_bytes@),
        ) ==> p.display_value@ == vstd::utf8::decode_utf8(chunk_text_bytes(word_bytes@))),
        r matches Some(p) ==> (p.kind == PayloadKind::Text && all_ascii(chunk_text_bytes(word_bytes@))
            ==> p.display_value@ == ascii_text(chunk_text_bytes(word_bytes@))),
{
    if word_bytes.len() != 32 {
        return None;
    }
    let felts = parse_felts(word_bytes);
    let p = if hex_slot(slot_name) {
        decode_as_hex(word_bytes)
    } else if same_name(slot_name, OWNABLE2STEP_OWNER_CONFIG) {
        decode_as_owner_config(felts, owner_config)
    } else if same_name(slot_name, SINGLESIG_SCHEME) || same_name(slot_name, SINGLESIG_ACL_SCHEME)
        || same_name(slot_name, GUARDIAN_SCHEME) {
        decode_as_auth_scheme(felts[0])
    } else if same_name(slot_name, MINT_POLICY_MANAGER_POLICY_AUTHORITY) {
        decode_as_mint_policy_authority(felts[0])
    } else if same_name(slot_name, MULTISIG_THRESHOLD_CONFIG) {
        decode_as_threshold_config(felts)
    } else if same_name(slot_name, FUNGIBLE_NAME_CHUNK_0) || same_name(
        slot_name,
        FUNGIBLE_NAME_CHUNK_1,
    ) || same_name(slot_name, SINGLESIG_ACL_CONFIG) || is_listed(
        slot_name,
        &FUNGIBLE_DESCRIPTION_SLOTS,
    ) || is_listed(slot_name, &FUNGIBLE_LOGO_URI_SLOTS) || is_listed(
        slot_name,
        &FUNGIBLE_EXTERNAL_LINK_SLOTS,
    ) {
        decode_as_string_chunk(felts)
    } else {
        decode_as_raw_word(felts)
    };
    Some(p)
}

/// Decode a map entry value given the parent `slot_name`.
///
/// - For `allowed_policy_proc_roots`: Word `[1,0,0,0]` means `true` (allowed),
///   `[0,0,0,0]` means `false`.
/// - For all other maps: falls back to the same slot-level decoder so known
///   slot schemas are reused; unknown values become `raw_word`.
pub fn decode_map_value(slot_name: &str, value_bytes: &[u8], owner_config: Option<OwnerConfig>) -> (r:
    Option<DecodedPayload>)
    ensures
        value_bytes@.len() != 32 ==> r is None,
        value_bytes@.len() == 32 ==> r is Some && r->0@ == map_value_payload(
            slot_name@,
            value_bytes@,
            owner_config,
        ),
        r matches Some(p) ==> (p.kind == PayloadKind::Text && vstd::utf8::valid_utf8(
            chunk_text_bytes(value_bytes@),
        ) ==> p.display_value@ == vstd::utf8::decode_utf8(chunk_text_bytes(value_bytes@))),
        r matches Some(p) ==> (p.kind == PayloadKind::Text && all_ascii(chunk_text_bytes(value_bytes@))
            ==> p.display_value@ == ascii_text(chunk_text_bytes(value_bytes@))),
{
    if value_bytes.len() != 32 {
        return None;
    }
    let felts = parse_felts(value_bytes);
    if same_name(slot_name, ALLOWED_POLICY_PROC_ROOTS) {
        Some(decode_as_bool(felts[0]))
    } else if same_name(slot_name, MULTISIG_APPROVER_PUBLIC_KEYS) || same_name(
        slot_name,
        MULTISIG_EXECUTED_TRANSACTIONS,
    ) {
        Some(decode_as_hex(value_bytes))
    } else if same_name(slot_name, MULTISIG_APPROVER_SCHEMES) {
        Some(decode_as_auth_scheme(felts[0]))
    } else if same_name(slot_name, MULTISIG_PROCEDURE_THRESHOLDS) || same_name(
        slot_name,
        SINGLESIG_ACL_TRIGGER_PROCEDURE_ROOTS,
    ) {
        Some(decode_as_number(felts[0]))
    } else {
        decode_slot(slot_name, value_bytes, owner_config)
    }
}

} // verus!
