//! The client of the exchange: what it sends and how it reads the answers.
use vstd::prelude::*;
use crate::double::Double;
use crate::execution::order_signing;
use crate::execution::order_signing::{
    Amount, AmountForms, OrderFields, OrderSide, RawAmounts, RoundingConfig, SignedOrder,
    CHAIN_ID_POLYGON,
};
use crate::failure;
use crate::failure::Failure;
use crate::json;
use crate::json::{Document, JsonTree};
use crate::text;
use crate::types;
use crate::types::Config;
use crate::uint;

verus! {

// ---------------------------------------------------------------------------
// The wallet
// ---------------------------------------------------------------------------

/// The address of the wallet that a private key opens, or what is wrong with the key.
pub uninterp spec fn wallet_address(private_key: Seq<char>) -> Result<Seq<char>, Seq<Seq<char>>>;

/// The signature of 32 bytes under a private key, or why there is none.
pub uninterp spec fn digest_signature(private_key: Seq<char>, digest: Seq<u8>) -> Result<
    Seq<char>,
    Seq<Seq<char>>,
>;

/// The bytes to sign for a document of typed data: what is wrong where it is no typed data, and
/// inside that where it cannot be encoded.
pub uninterp spec fn typed_data_digest(document: JsonTree) -> Result<
    Result<Seq<u8>, Seq<Seq<char>>>,
    Seq<Seq<char>>,
>;

/// Calls `LocalWallet::from_str` and writes the wallet's address with `{:#x}`. The address, or the
/// error with its causes as `anyhow::Error::chain` lists them, is a function of the key and is
/// named [`wallet_address`].
#[verifier::external_body]
pub(crate) fn address_of_wallet(private_key: &str) -> (r: Result<String, Vec<String>>)
    ensures
        failure::outcome(r) == wallet_address(private_key@),
{
    match private_key.parse::<ethers::signers::LocalWallet>() {
        Ok(wallet) => Ok(format!("{:#x}", ethers::signers::Signer::address(&wallet))),
        Err(e) => Err(anyhow::Error::from(e).chain().map(|c| c.to_string()).collect()),
    }
}

/// Calls `LocalWallet::from_str`, `Wallet::sign_hash` and `Signature::to_string`. The signature is
/// the same each time; it, or the error with its causes as `anyhow::Error::chain` lists them, is
/// named [`digest_signature`].
#[verifier::external_body]
fn sign_digest(private_key: &str, digest: &Vec<u8>) -> (r: Result<String, Vec<String>>)
    requires
        digest@.len() == 32,
    ensures
        failure::outcome(r) == digest_signature(private_key@, digest@),
{
    let hash = ethers::types::H256::from_slice(digest);
    let wallet = private_key.parse::<ethers::signers::LocalWallet>();
    match wallet.map(|wallet| wallet.sign_hash(hash)) {
        Ok(Ok(signature)) => Ok(signature.to_string()),
        Ok(Err(e)) | Err(e) => Err(
            anyhow::Error::from(e).chain().map(|c| c.to_string()).collect(),
        ),
    }
}

/// Calls `serde_json::from_value` for `TypedData` and then `TypedData::encode_eip712`, on the
/// document of an order. The 32 bytes, or the error of that one of the two steps that failed,
/// with its causes as `anyhow::Error::chain` lists them, are a function of the document and are
/// named [`typed_data_digest`]; an error of the second step
/// stands inside `WalletError::Eip712Error`, as `Wallet::sign_typed_data` gives it.
#[verifier::external_body]
fn digest_of_typed_data(document: &serde_json::Value) -> (r: Result<
    Result<Vec<u8>, Vec<String>>,
    Vec<String>,
>)
    requires
        exists|o: OrderFields| json::value_tree(*document) == #[trigger] order_document(o),
    ensures
        match r {
            Ok(Ok(digest)) => typed_data_digest(json::value_tree(*document)) == Ok::<
                Result<Seq<u8>, Seq<Seq<char>>>,
                Seq<Seq<char>>,
            >(Ok(digest@)) && digest@.len() == 32,
            Ok(Err(causes)) => typed_data_digest(json::value_tree(*document)) == Ok::<
                Result<Seq<u8>, Seq<Seq<char>>>,
                Seq<Seq<char>>,
            >(Err(text::texts(causes@))),
            Err(causes) => typed_data_digest(json::value_tree(*document)) == Err::<
                Result<Seq<u8>, Seq<Seq<char>>>,
                Seq<Seq<char>>,
            >(text::texts(causes@)),
        },
{
    let typed: ethers::types::transaction::eip712::TypedData =
        match serde_json::from_value(document.clone()) {
        Ok(typed) => typed,
        Err(e) => return Err(anyhow::Error::from(e).chain().map(|c| c.to_string()).collect()),
    };
    match ethers::types::transaction::eip712::Eip712::encode_eip712(&typed) {
        Ok(bytes) => Ok(Ok(bytes.to_vec())),
        Err(e) => {
            let e = ethers::signers::WalletError::Eip712Error(e.to_string());
            Ok(Err(anyhow::Error::from(e).chain().map(|c| c.to_string()).collect()))
        },
    }
}

// ---------------------------------------------------------------------------
// The client
// ---------------------------------------------------------------------------

pub struct ClobClient {
    host: String,
    private_key: String,
    signer_address: String,
    funder_address: String,
    signature_type: u8,
    api_key: String,
    api_secret: String,
    api_passphrase: String,
}

#[verifier::ext_equal]
pub struct ClientView {
    pub host: Seq<char>,
    pub private_key: Seq<char>,
    pub signer_address: Seq<char>,
    pub funder_address: Seq<char>,
    pub signature_type: u8,
    pub api_key: Seq<char>,
    pub api_secret: Seq<char>,
    pub api_passphrase: Seq<char>,
}

impl ClobClient {
    pub closed spec fn view(self) -> ClientView {
        ClientView {
            host: self.host@,
            private_key: self.private_key@,
            signer_address: self.signer_address@,
            funder_address: self.funder_address@,
            signature_type: self.signature_type,
            api_key: self.api_key@,
            api_secret: self.api_secret@,
            api_passphrase: self.api_passphrase@,
        }
    }

    pub fn host(&self) -> (r: &str)
        ensures
            r@ == self@.host,
    {
        self.host.as_str()
    }

    pub fn signer_address(&self) -> (r: &str)
        ensures
            r@ == self@.signer_address,
    {
        self.signer_address.as_str()
    }

    pub fn api_key(&self) -> (r: &str)
        ensures
            r@ == self@.api_key,
    {
        self.api_key.as_str()
    }

    pub fn api_secret(&self) -> (r: &str)
        ensures
            r@ == self@.api_secret,
    {
        self.api_secret.as_str()
    }

    pub fn api_passphrase(&self) -> (r: &str)
        ensures
            r@ == self@.api_passphrase,
    {
        self.api_passphrase.as_str()
    }

    pub fn signature_type(&self) -> (r: u8)
        ensures
            r == self@.signature_type,
    {
        self.signature_type
    }
}

/// What a client for live trading lacks, where it lacks anything, looked for in this order.
pub open spec fn missing_setting(config: Config) -> Option<Seq<char>> {
    if text::is_blank(config.private_key@) {
        Some("private key is required for live trading client"@)
    } else if text::is_blank(config.funder_address@) {
        Some("funder address is required for live trading client"@)
    } else if text::is_blank(config.api_key@) {
        Some("POLYMARKET_API_KEY is required for live trading client"@)
    } else if text::is_blank(config.api_secret@) {
        Some("POLYMARKET_API_SECRET is required for live trading client"@)
    } else if text::is_blank(config.api_passphrase@) {
        Some("POLYMARKET_API_PASSPHRASE is required for live trading client"@)
    } else {
        None
    }
}

/// The client for a wallet whose address is known.
pub open spec fn client_for(
    config: Config,
    address: Result<Seq<char>, Seq<Seq<char>>>,
) -> Result<ClientView, Seq<Seq<char>>> {
    match missing_setting(config) {
        Some(message) => Err(failure::plain(message)),
        None => match address {
            Err(causes) => Err(
                failure::caused("invalid private key format for LocalWallet"@, causes),
            ),
            Ok(signer_address) => match order_signing::normalized_address(
                "FUNDER_ADDRESS"@,
                config.funder_address@,
            ) {
                Err(chain) => Err(chain),
                Ok(funder_address) => Ok(
                    ClientView {
                        host: text::trim_end_of(config.polymarket_clob_url@, '/'),
                        private_key: config.private_key@,
                        signer_address,
                        funder_address,
                        signature_type: types::signature_code(config.signature_type),
                        api_key: text::trimmed(config.api_key@),
                        api_secret: text::trimmed(config.api_secret@),
                        api_passphrase: text::trimmed(config.api_passphrase@),
                    },
                ),
            },
        },
    }
}

pub open spec fn client_result(
    r: Result<ClobClient, Failure>,
    s: Result<ClientView, Seq<Seq<char>>>,
) -> bool {
    match r {
        Ok(client) => s == Ok::<ClientView, Seq<Seq<char>>>(client@),
        Err(e) => s == Err::<ClientView, Seq<Seq<char>>>(e@),
    }
}

/// Makes the client for a wallet whose address is known.
pub fn client_with_address(config: &Config, address: Result<String, Vec<String>>) -> (r: Result<
    ClobClient,
    Failure,
>)
    ensures
        client_result(r, client_for(*config, failure::outcome(address))),
{
    if text::blank(config.private_key.as_str()) {
        return Err(Failure::of("private key is required for live trading client"));
    }
    if text::blank(config.funder_address.as_str()) {
        return Err(Failure::of("funder address is required for live trading client"));
    }
    if text::blank(config.api_key.as_str()) {
        return Err(Failure::of("POLYMARKET_API_KEY is required for live trading client"));
    }
    if text::blank(config.api_secret.as_str()) {
        return Err(Failure::of("POLYMARKET_API_SECRET is required for live trading client"));
    }
    if text::blank(config.api_passphrase.as_str()) {
        return Err(Failure::of("POLYMARKET_API_PASSPHRASE is required for live trading client"));
    }
    let signer_address = match address {
        Ok(a) => a,
        Err(causes) => {
            return Err(
                Failure::with_causes(
                    "invalid private key format for LocalWallet".to_owned(),
                    causes,
                ),
            );
        },
    };
    let funder_address = match order_signing::normalize_address_string(
        "FUNDER_ADDRESS",
        config.funder_address.as_str(),
    ) {
        Ok(a) => a,
        Err(e) => {
            return Err(e);
        },
    };
    Ok(
        ClobClient {
            host: text::trim_end_matches(config.polymarket_clob_url.as_str(), '/'),
            private_key: config.private_key.clone(),
            signer_address,
            funder_address,
            signature_type: config.signature_type.as_u8(),
            api_key: text::trim(config.api_key.as_str()).to_owned(),
            api_secret: text::trim(config.api_secret.as_str()).to_owned(),
            api_passphrase: text::trim(config.api_passphrase.as_str()).to_owned(),
        },
    )
}

pub fn create_clob_client(config: &Config) -> (r: Result<ClobClient, Failure>)
    ensures
        client_result(r, client_for(*config, wallet_address(config.private_key@))),
{
    let address = address_of_wallet(config.private_key.as_str());
    client_with_address(config, address)
}

pub fn get_clob_client(config: &Config) -> (r: Result<ClobClient, Failure>)
    ensures
        client_result(r, client_for(*config, wallet_address(config.private_key@))),
{
    create_clob_client(config)
}

// ---------------------------------------------------------------------------
// The document of an order
// ---------------------------------------------------------------------------

/// A member of a type of typed data.
pub open spec fn type_member(name: Seq<char>, kind: Seq<char>) -> JsonTree {
    json::object_tree(
        seq![("name"@, JsonTree::Text(name)), ("type"@, JsonTree::Text(kind))],
    )
}

/// The types of the document: the domain and the order.
pub open spec fn order_types() -> JsonTree {
    json::object_tree(
        seq![
            (
                "EIP712Domain"@,
                JsonTree::Array(
                    seq![
                        type_member("name"@, "string"@),
                        type_member("version"@, "string"@),
                        type_member("chainId"@, "uint256"@),
                        type_member("verifyingContract"@, "address"@),
                    ],
                ),
            ),
            (
                "Order"@,
                JsonTree::Array(
                    seq![
                        type_member("salt"@, "uint256"@),
                        type_member("maker"@, "address"@),
                        type_member("signer"@, "address"@),
                        type_member("taker"@, "address"@),
                        type_member("tokenId"@, "uint256"@),
                        type_member("makerAmount"@, "uint256"@),
                        type_member("takerAmount"@, "uint256"@),
                        type_member("expiration"@, "uint256"@),
                        type_member("nonce"@, "uint256"@),
                        type_member("feeRateBps"@, "uint256"@),
                        type_member("side"@, "uint8"@),
                        type_member("signatureType"@, "uint8"@),
                    ],
                ),
            ),
        ],
    )
}

/// The domain that the order is signed for.
pub open spec fn order_domain(verifying_contract: Seq<char>) -> JsonTree {
    json::object_tree(
        seq![
            ("name"@, JsonTree::Text("Polymarket CTF Exchange"@)),
            ("version"@, JsonTree::Text("1"@)),
            ("chainId"@, json::count_tree(CHAIN_ID_POLYGON)),
            ("verifyingContract"@, JsonTree::Text(verifying_contract)),
        ],
    )
}

/// The order as the message of the document.
pub open spec fn order_message(o: OrderFields) -> JsonTree {
    json::object_tree(
        seq![
            ("salt"@, JsonTree::Text(o.salt)),
            ("maker"@, JsonTree::Text(o.maker)),
            ("signer"@, JsonTree::Text(o.signer)),
            ("taker"@, JsonTree::Text(o.taker)),
            ("tokenId"@, JsonTree::Text(o.token_id)),
            ("makerAmount"@, JsonTree::Text(o.maker_amount)),
            ("takerAmount"@, JsonTree::Text(o.taker_amount)),
            ("expiration"@, JsonTree::Text(o.expiration)),
            ("nonce"@, JsonTree::Text(o.nonce)),
            ("feeRateBps"@, JsonTree::Text(o.fee_rate_bps)),
            ("side"@, json::count_tree(o.side.code() as u64)),
            ("signatureType"@, json::count_tree(o.signature_type as u64)),
        ],
    )
}

/// The document that is signed for an order.
pub open spec fn order_document(o: OrderFields) -> JsonTree {
    json::object_tree(
        seq![
            ("types"@, order_types()),
            ("primaryType"@, JsonTree::Text("Order"@)),
            ("domain"@, order_domain(o.verifying_contract)),
            ("message"@, order_message(o)),
        ],
    )
}

fn build_type_member(name: &str, kind: &str) -> (r: Document)
    ensures
        r@ == type_member(name@, kind@),
{
    let mut m: Vec<(String, Document)> = Vec::new();
    m.push(json::member("name", Document::text(name)));
    m.push(json::member("type", Document::text(kind)));
    assert(json::document_members(m@) =~= seq![
        ("name"@, JsonTree::Text(name@)),
        ("type"@, JsonTree::Text(kind@)),
    ]);
    Document::object(m)
}

fn build_types() -> (r: Document)
    ensures
        r@ == order_types(),
{
    let mut domain: Vec<Document> = Vec::new();
    domain.push(build_type_member("name", "string"));
    domain.push(build_type_member("version", "string"));
    domain.push(build_type_member("chainId", "uint256"));
    domain.push(build_type_member("verifyingContract", "address"));
    assert(json::document_trees(domain@) =~= seq![
        type_member("name"@, "string"@),
        type_member("version"@, "string"@),
        type_member("chainId"@, "uint256"@),
        type_member("verifyingContract"@, "address"@),
    ]);
    let mut order: Vec<Document> = Vec::new();
    order.push(build_type_member("salt", "uint256"));
    order.push(build_type_member("maker", "address"));
    order.push(build_type_member("signer", "address"));
    order.push(build_type_member("taker", "address"));
    order.push(build_type_member("tokenId", "uint256"));
    order.push(build_type_member("makerAmount", "uint256"));
    order.push(build_type_member("takerAmount", "uint256"));
    order.push(build_type_member("expiration", "uint256"));
    order.push(build_type_member("nonce", "uint256"));
    order.push(build_type_member("feeRateBps", "uint256"));
    order.push(build_type_member("side", "uint8"));
    order.push(build_type_member("signatureType", "uint8"));
    assert(json::document_trees(order@) =~= seq![
        type_member("salt"@, "uint256"@),
        type_member("maker"@, "address"@),
        type_member("signer"@, "address"@),
        type_member("taker"@, "address"@),
        type_member("tokenId"@, "uint256"@),
        type_member("makerAmount"@, "uint256"@),
        type_member("takerAmount"@, "uint256"@),
        type_member("expiration"@, "uint256"@),
        type_member("nonce"@, "uint256"@),
        type_member("feeRateBps"@, "uint256"@),
        type_member("side"@, "uint8"@),
        type_member("signatureType"@, "uint8"@),
    ]);
    let ghost domain_tree = JsonTree::Array(json::document_trees(domain@));
    let ghost order_tree = JsonTree::Array(json::document_trees(order@));
    let mut m: Vec<(String, Document)> = Vec::new();
    m.push(json::member("EIP712Domain", Document::array(domain)));
    m.push(json::member("Order", Document::array(order)));
    assert(json::document_members(m@) =~= seq![
        ("EIP712Domain"@, domain_tree),
        ("Order"@, order_tree),
    ]);
    Document::object(m)
}

fn build_domain(verifying_contract: &str) -> (r: Document)
    ensures
        r@ == order_domain(verifying_contract@),
{
    let mut m: Vec<(String, Document)> = Vec::new();
    m.push(json::member("name", Document::text("Polymarket CTF Exchange")));
    m.push(json::member("version", Document::text("1")));
    m.push(json::member("chainId", Document::count(CHAIN_ID_POLYGON)));
    m.push(json::member("verifyingContract", Document::text(verifying_contract)));
    assert(json::document_members(m@) =~= seq![
        ("name"@, JsonTree::Text("Polymarket CTF Exchange"@)),
        ("version"@, JsonTree::Text("1"@)),
        ("chainId"@, json::count_tree(CHAIN_ID_POLYGON)),
        ("verifyingContract"@, JsonTree::Text(verifying_contract@)),
    ]);
    Document::object(m)
}

fn build_message(order: &SignedOrder, Ghost(contract): Ghost<Seq<char>>) -> (r: Document)
    ensures
        r@ == order_message(order.fields(contract)),
{
    let mut m: Vec<(String, Document)> = Vec::new();
    m.push(json::member("salt", Document::text(order.salt.as_str())));
    m.push(json::member("maker", Document::text(order.maker.as_str())));
    m.push(json::member("signer", Document::text(order.signer.as_str())));
    m.push(json::member("taker", Document::text(order.taker.as_str())));
    m.push(json::member("tokenId", Document::text(order.token_id.as_str())));
    m.push(json::member("makerAmount", Document::text(order.maker_amount.as_str())));
    m.push(json::member("takerAmount", Document::text(order.taker_amount.as_str())));
    m.push(json::member("expiration", Document::text(order.expiration.as_str())));
    m.push(json::member("nonce", Document::text(order.nonce.as_str())));
    m.push(json::member("feeRateBps", Document::text(order.fee_rate_bps.as_str())));
    m.push(json::member("side", Document::count(order.side.as_u8() as u64)));
    m.push(json::member("signatureType", Document::count(order.signature_type as u64)));
    let ghost o = order.fields(contract);
    assert(json::document_members(m@) =~= seq![
        ("salt"@, JsonTree::Text(o.salt)),
        ("maker"@, JsonTree::Text(o.maker)),
        ("signer"@, JsonTree::Text(o.signer)),
        ("taker"@, JsonTree::Text(o.taker)),
        ("tokenId"@, JsonTree::Text(o.token_id)),
        ("makerAmount"@, JsonTree::Text(o.maker_amount)),
        ("takerAmount"@, JsonTree::Text(o.taker_amount)),
        ("expiration"@, JsonTree::Text(o.expiration)),
        ("nonce"@, JsonTree::Text(o.nonce)),
        ("feeRateBps"@, JsonTree::Text(o.fee_rate_bps)),
        ("side"@, json::count_tree(o.side.code() as u64)),
        ("signatureType"@, json::count_tree(o.signature_type as u64)),
    ]);
    Document::object(m)
}

fn build_document(order: &SignedOrder, verifying_contract: &str) -> (r: Document)
    ensures
        r@ == order_document(order.fields(verifying_contract@)),
{
    let types = build_types();
    let domain = build_domain(verifying_contract);
    let message = build_message(order, Ghost(verifying_contract@));
    let mut m: Vec<(String, Document)> = Vec::new();
    m.push(json::member("types", types));
    m.push(json::member("primaryType", Document::text("Order")));
    m.push(json::member("domain", domain));
    m.push(json::member("message", message));
    let ghost o = order.fields(verifying_contract@);
    assert(json::document_members(m@) =~= seq![
        ("types"@, order_types()),
        ("primaryType"@, JsonTree::Text("Order"@)),
        ("domain"@, order_domain(o.verifying_contract)),
        ("message"@, order_message(o)),
    ]);
    Document::object(m)
}

// ---------------------------------------------------------------------------
// Signing an order
// ---------------------------------------------------------------------------

/// The contract that an order is signed for.
pub open spec fn exchange_contract(neg_risk: bool) -> Seq<char> {
    if neg_risk {
        "0xC5d563A36AE78145C45a50134d48A1215220f80a"@
    } else {
        "0x4bFb41d5B3570DeFd03C39a9A4D8dE6Bd8B8982E"@
    }
}

/// What is to be signed.
pub struct SignOrderParams<'a> {
    pub token_id: &'a str,
    pub side: OrderSide,
    pub raw_maker_amount: Double,
    pub raw_taker_amount: Double,
    /// The two amounts, written with eight decimals.
    pub maker_amount_text: &'a str,
    pub taker_amount_text: &'a str,
    pub salt: &'a str,
    pub fee_rate_bps: u64,
    pub expiration: u64,
    pub nonce: u64,
    pub neg_risk: bool,
}

#[verifier::ext_equal]
pub struct OrderParams {
    pub token_id: Seq<char>,
    pub side: OrderSide,
    pub raw_maker_amount: Double,
    pub raw_taker_amount: Double,
    pub maker_amount_text: Seq<char>,
    pub taker_amount_text: Seq<char>,
    pub salt: Seq<char>,
    pub fee_rate_bps: u64,
    pub expiration: u64,
    pub nonce: u64,
    pub neg_risk: bool,
}

impl<'a> SignOrderParams<'a> {
    pub open spec fn view(self) -> OrderParams {
        OrderParams {
            token_id: self.token_id@,
            side: self.side,
            raw_maker_amount: self.raw_maker_amount,
            raw_taker_amount: self.raw_taker_amount,
            maker_amount_text: self.maker_amount_text@,
            taker_amount_text: self.taker_amount_text@,
            salt: self.salt@,
            fee_rate_bps: self.fee_rate_bps,
            expiration: self.expiration,
            nonce: self.nonce,
            neg_risk: self.neg_risk,
        }
    }
}

/// An amount in base units, as `parse_units` writes it, or what is wrong with it. Nothing more is
/// said of an amount that does not fit.
pub open spec fn base_units(formatted: Seq<char>) -> Result<Seq<char>, Seq<Seq<char>>> {
    let shortest = if order_signing::without_zeros(formatted).len() == 0 {
        "0"@
    } else {
        order_signing::without_zeros(formatted)
    };
    if uint::units_in_reach(shortest, 6) {
        match uint::parsed_units(shortest, 6) {
            Ok((written, _)) => Ok(written),
            Err(causes) => Err(causes),
        }
    } else {
        Err(Seq::empty())
    }
}

fn to_base_units(formatted: &str) -> (r: Result<String, Vec<String>>)
    ensures
        failure::outcome(r) == base_units(formatted@),
{
    let shortest = order_signing::decimal_to_string(formatted);
    if uint::in_reach_of_units(shortest.as_str(), 6) {
        match uint::parse_units(shortest.as_str(), 6) {
            Ok((written, _)) => Ok(written),
            Err(causes) => Err(causes),
        }
    } else {
        let none: Vec<String> = Vec::new();
        assert(text::texts(none@) =~= Seq::<Seq<char>>::empty());
        Err(none)
    }
}

/// The steps that turn the parameters into the fields of an order, each with what is wrong where
/// it fails.
pub open spec fn order_steps(
    client: ClientView,
    p: OrderParams,
    maker_units: Seq<char>,
    taker_units: Seq<char>,
) -> Seq<Result<Seq<char>, Seq<Seq<char>>>> {
    seq![
        order_signing::normalized_uint("makerAmount"@, maker_units),
        order_signing::normalized_uint("takerAmount"@, taker_units),
        order_signing::normalized_uint("salt"@, p.salt),
        order_signing::normalized_address("maker"@, client.funder_address),
        order_signing::normalized_address("signer"@, client.signer_address),
        order_signing::normalized_address(
            "taker"@,
            "0x0000000000000000000000000000000000000000"@,
        ),
        order_signing::normalized_uint("tokenId"@, p.token_id),
        order_signing::normalized_uint("feeRateBps"@, text::decimal(p.fee_rate_bps as nat)),
        order_signing::normalized_uint("expiration"@, text::decimal(p.expiration as nat)),
        order_signing::normalized_uint("nonce"@, text::decimal(p.nonce as nat)),
        order_signing::normalized_address("verifyingContract"@, exchange_contract(p.neg_risk)),
    ]
}

/// The first step that fails.
pub open spec fn first_failure(steps: Seq<Result<Seq<char>, Seq<Seq<char>>>>) -> Option<
    Seq<Seq<char>>,
>
    decreases steps.len(),
{
    if steps.len() == 0 {
        None
    } else {
        match steps[0] {
            Err(chain) => Some(chain),
            Ok(_) => first_failure(steps.drop_first()),
        }
    }
}

/// The order that the parameters describe, given their amounts in base units, or what is wrong
/// with them.
pub open spec fn order_with_units(
    client: ClientView,
    p: OrderParams,
    maker_units: Result<Seq<char>, Seq<Seq<char>>>,
    taker_units: Result<Seq<char>, Seq<Seq<char>>>,
) -> Result<OrderFields, Seq<Seq<char>>> {
    if !(p.raw_maker_amount.finite() && p.raw_maker_amount.positive()) {
        Err(failure::plain("invalid maker amount for signed order"@))
    } else if !(p.raw_taker_amount.finite() && p.raw_taker_amount.positive()) {
        Err(failure::plain("invalid taker amount for signed order"@))
    } else if maker_units is Err {
        Err(
            failure::caused(
                "failed to encode maker amount to base units"@,
                maker_units->Err_0,
            ),
        )
    } else if taker_units is Err {
        Err(
            failure::caused(
                "failed to encode taker amount to base units"@,
                taker_units->Err_0,
            ),
        )
    } else {
        let steps = order_steps(client, p, maker_units->Ok_0, taker_units->Ok_0);
        match first_failure(steps) {
            Some(chain) => Err(chain),
            None => Ok(
                OrderFields {
                    maker_amount: steps[0]->Ok_0,
                    taker_amount: steps[1]->Ok_0,
                    salt: steps[2]->Ok_0,
                    maker: steps[3]->Ok_0,
                    signer: steps[4]->Ok_0,
                    taker: steps[5]->Ok_0,
                    token_id: steps[6]->Ok_0,
                    fee_rate_bps: steps[7]->Ok_0,
                    expiration: steps[8]->Ok_0,
                    nonce: steps[9]->Ok_0,
                    side: p.side,
                    signature_type: client.signature_type,
                    verifying_contract: steps[10]->Ok_0,
                },
            ),
        }
    }
}

/// The order that the parameters describe, or what is wrong with them.
pub open spec fn order_of(client: ClientView, p: OrderParams) -> Result<
    OrderFields,
    Seq<Seq<char>>,
> {
    order_with_units(
        client,
        p,
        base_units(p.maker_amount_text),
        base_units(p.taker_amount_text),
    )
}

/// How an order is named in what is said of its signature.
pub open spec fn order_label(o: OrderFields) -> Seq<char> {
    "(tokenId="@ + o.token_id + ", maker="@ + o.maker + ", signer="@ + o.signer + ", side="@
        + text::decimal(o.side.code() as nat) + ", signatureType="@ + text::decimal(
        o.signature_type as nat,
    ) + ")"@
}

/// What the signing of an order comes to: its signature, or why there is none.
pub enum Signing {
    NotTypedData(Vec<String>),
    NotSigned(Vec<String>),
    Signed(String),
}

pub enum SigningView {
    NotTypedData(Seq<Seq<char>>),
    NotSigned(Seq<Seq<char>>),
    Signed(Seq<char>),
}

impl Signing {
    pub open spec fn view(self) -> SigningView {
        match self {
            Signing::NotTypedData(causes) => SigningView::NotTypedData(text::texts(causes@)),
            Signing::NotSigned(causes) => SigningView::NotSigned(text::texts(causes@)),
            Signing::Signed(signature) => SigningView::Signed(signature@),
        }
    }
}

/// The signing of an order under a private key.
pub open spec fn signing_outcome(private_key: Seq<char>, o: OrderFields) -> SigningView {
    match typed_data_digest(order_document(o)) {
        Err(causes) => SigningView::NotTypedData(causes),
        Ok(Err(causes)) => SigningView::NotSigned(causes),
        Ok(Ok(digest)) => match digest_signature(private_key, digest) {
            Err(causes) => SigningView::NotSigned(causes),
            Ok(signature) => SigningView::Signed(signature),
        },
    }
}

/// The signature of an order, or what went wrong, given what the signing came to.
pub open spec fn signature_or_error(o: OrderFields, signing: SigningView) -> Result<
    Seq<char>,
    Seq<Seq<char>>,
> {
    match signing {
        SigningView::NotTypedData(causes) => Err(
            failure::caused(
                "failed to build typed-data payload for order signature "@ + order_label(o),
                causes,
            ),
        ),
        SigningView::NotSigned(causes) => Err(
            failure::caused("failed to sign order typed-data "@ + order_label(o), causes),
        ),
        SigningView::Signed(signature) => Ok(signature),
    }
}

/// Whether an order is another one with its signature filled in.
pub open spec fn is_signed_form(
    r: Result<SignedOrder, Failure>,
    o: OrderFields,
    signing: SigningView,
) -> bool {
    match signature_or_error(o, signing) {
        Err(chain) => r matches Err(e) && e@ == chain,
        Ok(s) => r matches Ok(order) && order.fields(o.verifying_contract) == o
            && order.signature@ == s,
    }
}

fn label_of(order: &SignedOrder, prefix: &str, Ghost(contract): Ghost<Seq<char>>) -> (r: String)
    ensures
        r@ == prefix@ + order_label(order.fields(contract)),
{
    let mut label = "(tokenId=".to_owned();
    label.append(order.token_id.as_str());
    label.append(", maker=");
    label.append(order.maker.as_str());
    label.append(", signer=");
    label.append(order.signer.as_str());
    label.append(", side=");
    label.append(text::decimal_u64(order.side.as_u8() as u64).as_str());
    label.append(", signatureType=");
    label.append(text::decimal_u64(order.signature_type as u64).as_str());
    label.append(")");
    let mut out = prefix.to_owned();
    out.append(label.as_str());
    out
}

/// Fills in the signature of an order, given what the signing came to.
pub fn attach_signature(order: SignedOrder, contract: &str, signing: Signing) -> (r: Result<
    SignedOrder,
    Failure,
>)
    ensures
        is_signed_form(r, order.fields(contract@), signing@),
{
    match signing {
        Signing::NotTypedData(causes) => {
            let message = label_of(
                &order,
                "failed to build typed-data payload for order signature ",
                Ghost(contract@),
            );
            Err(Failure::with_causes(message, causes))
        },
        Signing::NotSigned(causes) => {
            let message = label_of(&order, "failed to sign order typed-data ", Ghost(contract@));
            Err(Failure::with_causes(message, causes))
        },
        Signing::Signed(s) => {
            let ghost o = order.fields(contract@);
            let mut signed = order;
            signed.signature = s;
            assert(signed.fields(contract@) =~= o);
            Ok(signed)
        },
    }
}

/// Whether a result is the signed order that the parameters describe, or what went wrong.
pub open spec fn is_signed_order(
    r: Result<SignedOrder, Failure>,
    client: ClientView,
    p: OrderParams,
) -> bool {
    match order_of(client, p) {
        Err(chain) => r matches Err(e) && e@ == chain,
        Ok(o) => is_signed_form(r, o, signing_outcome(client.private_key, o)),
    }
}

/// What an order needs besides its amounts.
pub struct OrderTerms<'a> {
    pub token_id: &'a str,
    pub fee_rate_bps: u64,
    pub neg_risk: bool,
    pub salt: &'a str,
}

/// The parameters of an order of these terms and amounts.
pub open spec fn params_of(
    terms: OrderTerms,
    side: OrderSide,
    maker: Amount,
    taker: Amount,
) -> OrderParams {
    OrderParams {
        token_id: terms.token_id@,
        side,
        raw_maker_amount: maker.value,
        raw_taker_amount: taker.value,
        maker_amount_text: maker.text8@,
        taker_amount_text: taker.text8@,
        salt: terms.salt@,
        fee_rate_bps: terms.fee_rate_bps,
        expiration: 0,
        nonce: 0,
        neg_risk: terms.neg_risk,
    }
}

/// The numbers of an order: what was asked for, and what the arithmetic makes of it.
pub struct OrderNumbers<'a> {
    pub amount: Double,
    pub price: Double,
    pub round: RoundingConfig,
    pub size: &'a Amount,
    pub forms: &'a AmountForms,
}

/// Whether a result is the signed market order of these numbers, or what went wrong.
pub open spec fn is_market_order(
    r: Result<SignedOrder, Failure>,
    client: ClientView,
    terms: OrderTerms,
    side: OrderSide,
    n: OrderNumbers,
) -> bool {
    if !order_signing::is_valid_number(n.amount) {
        r matches Err(e) && e@ == failure::plain("invalid market order amount"@)
    } else if !order_signing::is_valid_number(n.price) {
        r matches Err(e) && e@ == failure::plain("invalid market order price"@)
    } else {
        is_signed_order(
            r,
            client,
            params_of(terms, side, *n.size, order_signing::fitting_form(*n.forms, n.round)),
        )
    }
}

/// Whether a result is the signed limit order of these numbers, or what went wrong.
pub open spec fn is_limit_order(
    r: Result<SignedOrder, Failure>,
    client: ClientView,
    terms: OrderTerms,
    side: OrderSide,
    n: OrderNumbers,
) -> bool {
    let computed = order_signing::fitting_form(*n.forms, n.round);
    if !order_signing::is_valid_number(n.amount) {
        r matches Err(e) && e@ == failure::plain("invalid limit order size"@)
    } else if !order_signing::is_valid_number(n.price) {
        r matches Err(e) && e@ == failure::plain("invalid limit order price"@)
    } else if side == OrderSide::Buy {
        is_signed_order(r, client, params_of(terms, side, computed, *n.size))
    } else {
        is_signed_order(r, client, params_of(terms, side, *n.size, computed))
    }
}

impl ClobClient {
    fn sign_amounts(&self, terms: &OrderTerms, side: OrderSide, raw: RawAmounts) -> (r: Result<
        SignedOrder,
        Failure,
    >)
        ensures
            is_signed_order(r, self@, params_of(*terms, side, *raw.maker, *raw.taker)),
    {
        let p = SignOrderParams {
            token_id: terms.token_id,
            side,
            raw_maker_amount: raw.maker.value,
            raw_taker_amount: raw.taker.value,
            maker_amount_text: raw.maker.text8.as_str(),
            taker_amount_text: raw.taker.text8.as_str(),
            salt: terms.salt,
            fee_rate_bps: terms.fee_rate_bps,
            expiration: 0,
            nonce: 0,
            neg_risk: terms.neg_risk,
        };
        assert(p@ =~= params_of(*terms, side, *raw.maker, *raw.taker));
        self.create_signed_order(&p)
    }

    fn market_order(&self, terms: &OrderTerms, side: OrderSide, n: &OrderNumbers) -> (r: Result<
        SignedOrder,
        Failure,
    >)
        ensures
            is_market_order(r, self@, *terms, side, *n),
    {
        match order_signing::get_market_order_raw_amounts(
            n.amount,
            n.price,
            n.round,
            n.size,
            n.forms,
        ) {
            Ok(raw) => self.sign_amounts(terms, side, raw),
            Err(message) => Err(Failure::from_text(message)),
        }
    }

    fn limit_order(&self, terms: &OrderTerms, side: OrderSide, n: &OrderNumbers) -> (r: Result<
        SignedOrder,
        Failure,
    >)
        ensures
            is_limit_order(r, self@, *terms, side, *n),
    {
        match order_signing::get_limit_order_raw_amounts(
            side,
            n.amount,
            n.price,
            n.round,
            n.size,
            n.forms,
        ) {
            Ok(raw) => self.sign_amounts(terms, side, raw),
            Err(message) => Err(Failure::from_text(message)),
        }
    }

    pub fn create_market_order_buy(&self, terms: &OrderTerms, n: &OrderNumbers) -> (r: Result<
        SignedOrder,
        Failure,
    >)
        ensures
            is_market_order(r, self@, *terms, OrderSide::Buy, *n),
    {
        self.market_order(terms, OrderSide::Buy, n)
    }

    pub fn create_market_order_sell(&self, terms: &OrderTerms, n: &OrderNumbers) -> (r: Result<
        SignedOrder,
        Failure,
    >)
        ensures
            is_market_order(r, self@, *terms, OrderSide::Sell, *n),
    {
        self.market_order(terms, OrderSide::Sell, n)
    }

    pub fn create_limit_order_buy(&self, terms: &OrderTerms, n: &OrderNumbers) -> (r: Result<
        SignedOrder,
        Failure,
    >)
        ensures
            is_limit_order(r, self@, *terms, OrderSide::Buy, *n),
    {
        self.limit_order(terms, OrderSide::Buy, n)
    }

    pub fn create_limit_order_sell(&self, terms: &OrderTerms, n: &OrderNumbers) -> (r: Result<
        SignedOrder,
        Failure,
    >)
        ensures
            is_limit_order(r, self@, *terms, OrderSide::Sell, *n),
    {
        self.limit_order(terms, OrderSide::Sell, n)
    }

    /// Makes an order of the parameters, given their amounts in base units, with its signature
    /// still empty, and names the contract that it is to be signed for.
    #[verifier::spinoff_prover]
    #[verifier::rlimit(40)]
    pub fn unsigned_order(
        &self,
        p: &SignOrderParams,
        maker_units: Result<String, Vec<String>>,
        taker_units: Result<String, Vec<String>>,
    ) -> (r: Result<(SignedOrder, String), Failure>)
        ensures
            match r {
                Ok((order, contract)) => order_with_units(
                    self@,
                    p@,
                    failure::outcome(maker_units),
                    failure::outcome(taker_units),
                ) == Ok::<OrderFields, Seq<Seq<char>>>(order.fields(contract@)),
                Err(e) => order_with_units(
                    self@,
                    p@,
                    failure::outcome(maker_units),
                    failure::outcome(taker_units),
                ) == Err::<OrderFields, Seq<Seq<char>>>(e@),
            },
    {
        if !p.raw_maker_amount.is_finite() || !p.raw_maker_amount.is_positive() {
            return Err(Failure::of("invalid maker amount for signed order"));
        }
        if !p.raw_taker_amount.is_finite() || !p.raw_taker_amount.is_positive() {
            return Err(Failure::of("invalid taker amount for signed order"));
        }
        let maker_units = match maker_units {
            Ok(units) => units,
            Err(causes) => {
                return Err(
                    Failure::with_causes(
                        "failed to encode maker amount to base units".to_owned(),
                        causes,
                    ),
                );
            },
        };
        let taker_units = match taker_units {
            Ok(units) => units,
            Err(causes) => {
                return Err(
                    Failure::with_causes(
                        "failed to encode taker amount to base units".to_owned(),
                        causes,
                    ),
                );
            },
        };
        let ghost steps = order_steps(self@, p@, maker_units@, taker_units@);
        let maker_amount = match order_signing::normalize_uint256_string(
            "makerAmount",
            maker_units.as_str(),
        ) {
            Ok(v) => v,
            Err(e) => {
                return Err(e);
            },
        };
        assert(steps[0] is Ok);
        let taker_amount = match order_signing::normalize_uint256_string(
            "takerAmount",
            taker_units.as_str(),
        ) {
            Ok(v) => v,
            Err(e) => {
                proof {
                    lemma_first_failure(steps, 1);
                }
                return Err(e);
            },
        };
        assert(steps[1] is Ok);
        let salt = match order_signing::normalize_uint256_string("salt", p.salt) {
            Ok(v) => v,
            Err(e) => {
                proof {
                    lemma_first_failure(steps, 2);
                }
                return Err(e);
            },
        };
        assert(steps[2] is Ok);
        let maker = match order_signing::normalize_address_string(
            "maker",
            self.funder_address.as_str(),
        ) {
            Ok(v) => v,
            Err(e) => {
                proof {
                    lemma_first_failure(steps, 3);
                }
                return Err(e);
            },
        };
        assert(steps[3] is Ok);
        let signer = match order_signing::normalize_address_string(
            "signer",
            self.signer_address.as_str(),
        ) {
            Ok(v) => v,
            Err(e) => {
                proof {
                    lemma_first_failure(steps, 4);
                }
                return Err(e);
            },
        };
        assert(steps[4] is Ok);
        let taker = match order_signing::normalize_address_string(
            "taker",
            "0x0000000000000000000000000000000000000000",
        ) {
            Ok(v) => v,
            Err(e) => {
                proof {
                    lemma_first_failure(steps, 5);
                }
                return Err(e);
            },
        };
        assert(steps[5] is Ok);
        let token_id = match order_signing::normalize_uint256_string("tokenId", p.token_id) {
            Ok(v) => v,
            Err(e) => {
                proof {
                    lemma_first_failure(steps, 6);
                }
                return Err(e);
            },
        };
        assert(steps[6] is Ok);
        let fee_rate_bps = match order_signing::normalize_uint256_string(
            "feeRateBps",
            text::decimal_u64(p.fee_rate_bps).as_str(),
        ) {
            Ok(v) => v,
            Err(e) => {
                proof {
                    lemma_first_failure(steps, 7);
                }
                return Err(e);
            },
        };
        assert(steps[7] is Ok);
        let expiration = match order_signing::normalize_uint256_string(
            "expiration",
            text::decimal_u64(p.expiration).as_str(),
        ) {
            Ok(v) => v,
            Err(e) => {
                proof {
                    lemma_first_failure(steps, 8);
                }
                return Err(e);
            },
        };
        assert(steps[8] is Ok);
        let nonce = match order_signing::normalize_uint256_string(
            "nonce",
            text::decimal_u64(p.nonce).as_str(),
        ) {
            Ok(v) => v,
            Err(e) => {
                proof {
                    lemma_first_failure(steps, 9);
                }
                return Err(e);
            },
        };
        assert(steps[9] is Ok);
        let exchange = if p.neg_risk {
            "0xC5d563A36AE78145C45a50134d48A1215220f80a"
        } else {
            "0x4bFb41d5B3570DeFd03C39a9A4D8dE6Bd8B8982E"
        };
        let contract = match order_signing::normalize_address_string(
            "verifyingContract",
            exchange,
        ) {
            Ok(v) => v,
            Err(e) => {
                proof {
                    lemma_first_failure(steps, 10);
                }
                return Err(e);
            },
        };
        assert(steps[10] is Ok);
        proof {
            lemma_no_failure(steps);
        }
        let order = SignedOrder {
            salt,
            maker,
            signer,
            taker,
            token_id,
            maker_amount,
            taker_amount,
            expiration,
            nonce,
            fee_rate_bps,
            side: p.side,
            signature_type: self.signature_type,
            signature: String::new(),
        };
        Ok((order, contract))
    }

    /// Makes an order of the parameters and signs it.
    pub fn create_signed_order(&self, p: &SignOrderParams) -> (r: Result<SignedOrder, Failure>)
        ensures
            is_signed_order(r, self@, p@),
    {
        let maker_units = to_base_units(p.maker_amount_text);
        let taker_units = to_base_units(p.taker_amount_text);
        let (order, contract) = match self.unsigned_order(p, maker_units, taker_units) {
            Ok(pair) => pair,
            Err(e) => {
                return Err(e);
            },
        };
        let document = build_document(&order, contract.as_str());
        let signing = match digest_of_typed_data(document.value()) {
            Ok(Ok(digest)) => match sign_digest(self.private_key.as_str(), &digest) {
                Ok(signature) => Signing::Signed(signature),
                Err(causes) => Signing::NotSigned(causes),
            },
            Ok(Err(causes)) => Signing::NotSigned(causes),
            Err(causes) => Signing::NotTypedData(causes),
        };
        attach_signature(order, contract.as_str(), signing)
    }
}

proof fn lemma_first_failure(steps: Seq<Result<Seq<char>, Seq<Seq<char>>>>, k: int)
    requires
        0 <= k < steps.len(),
        forall|j: int| 0 <= j < k ==> (#[trigger] steps[j]) is Ok,
        steps[k] is Err,
    ensures
        first_failure(steps) == Some(steps[k]->Err_0),
    decreases k,
{
    if k > 0 {
        assert(steps[0] is Ok);
        let rest = steps.drop_first();
        assert forall|j: int| 0 <= j < k - 1 implies (#[trigger] rest[j]) is Ok by {
            assert(rest[j] == steps[j + 1]);
        }
        lemma_first_failure(rest, k - 1);
    }
}

proof fn lemma_no_failure(steps: Seq<Result<Seq<char>, Seq<Seq<char>>>>)
    requires
        forall|j: int| 0 <= j < steps.len() ==> (#[trigger] steps[j]) is Ok,
    ensures
        first_failure(steps) is None,
    decreases steps.len(),
{
    if steps.len() > 0 {
        assert(steps[0] is Ok);
        let rest = steps.drop_first();
        assert forall|j: int| 0 <= j < rest.len() implies (#[trigger] rest[j]) is Ok by {
            assert(rest[j] == steps[j + 1]);
        }
        lemma_no_failure(rest);
    }
}

// ---------------------------------------------------------------------------
// What the client promises
// ---------------------------------------------------------------------------

/// A client can be made only where the key, the funding address and the three credentials are given;
/// the first of them that is missing is complained of.
pub proof fn first_missing_setting_is_complained_of(config: Config)
    ensures
        ({
            let key = text::trimmed(config.private_key@).len() > 0;
            let funder = text::trimmed(config.funder_address@).len() > 0;
            let api_key = text::trimmed(config.api_key@).len() > 0;
            let secret = text::trimmed(config.api_secret@).len() > 0;
            let passphrase = text::trimmed(config.api_passphrase@).len() > 0;
            let missing = missing_setting(config);
            &&& missing is None <==> key && funder && api_key && secret && passphrase
            &&& !key ==> missing == Some("private key is required for live trading client"@)
            &&& key && !funder ==> missing == Some(
                "funder address is required for live trading client"@,
            )
            &&& key && funder && !api_key ==> missing == Some(
                "POLYMARKET_API_KEY is required for live trading client"@,
            )
            &&& key && funder && api_key && !secret ==> missing == Some(
                "POLYMARKET_API_SECRET is required for live trading client"@,
            )
            &&& key && funder && api_key && secret && !passphrase ==> missing == Some(
                "POLYMARKET_API_PASSPHRASE is required for live trading client"@,
            )
        }),
{
}

/// A client is made exactly where nothing is missing, the key opens a wallet and the funding address
/// is one. It signs with that wallet, for that address, and with the settings' own credentials.
pub proof fn client_is_made_of_the_settings(
    config: Config,
    address: Result<Seq<char>, Seq<Seq<char>>>,
)
    ensures
        ({
            let made = client_for(config, address);
            let funder = order_signing::normalized_address(
                "FUNDER_ADDRESS"@,
                config.funder_address@,
            );
            &&& made is Ok <==> missing_setting(config) is None && address is Ok && funder is Ok
            &&& made matches Ok(client) ==> {
                &&& client.signer_address == address->Ok_0
                &&& client.funder_address == funder->Ok_0
                &&& client.private_key == config.private_key@
                &&& client.api_key == text::trimmed(config.api_key@)
                &&& client.api_secret == text::trimmed(config.api_secret@)
                &&& client.api_passphrase == text::trimmed(config.api_passphrase@)
                &&& client.host.is_prefix_of(config.polymarket_clob_url@)
                &&& client.host.len() > 0 ==> client.host.last() != '/'
                &&& client.signature_type == (match config.signature_type {
                    types::SignatureType::Eoa => 0u8,
                    types::SignatureType::Safe => 1u8,
                    types::SignatureType::SmartContractWallet => 2u8,
                })
            }
            &&& missing_setting(config) matches Some(m) ==> made == Err::<
                ClientView,
                Seq<Seq<char>>,
            >(seq![m])
            &&& missing_setting(config) is None && address is Err ==> made == Err::<
                ClientView,
                Seq<Seq<char>>,
            >(seq!["invalid private key format for LocalWallet"@] + address->Err_0)
        }),
{
    text::repetitions_are_taken_off_the_end(config.polymarket_clob_url@, '/');
}

/// The document that is signed holds the order: each of its fields under its name, the contract and
/// the chain in its domain, and the type `Order`.
pub proof fn document_holds_the_order(o: OrderFields)
    ensures
        ({
            let document = order_document(o);
            let message = order_message(o);
            let domain = order_domain(o.verifying_contract);
            &&& document.member("message"@) == Some(message)
            &&& document.member("domain"@) == Some(domain)
            &&& document.member("types"@) == Some(order_types())
            &&& document.member("primaryType"@) == Some(JsonTree::Text("Order"@))
            &&& domain.member("name"@) == Some(JsonTree::Text("Polymarket CTF Exchange"@))
            &&& domain.member("version"@) == Some(JsonTree::Text("1"@))
            &&& domain.member("chainId"@) == Some(json::count_tree(137))
            &&& domain.member("verifyingContract"@) == Some(JsonTree::Text(o.verifying_contract))
            &&& message.member("salt"@) == Some(JsonTree::Text(o.salt))
            &&& message.member("maker"@) == Some(JsonTree::Text(o.maker))
            &&& message.member("signer"@) == Some(JsonTree::Text(o.signer))
            &&& message.member("taker"@) == Some(JsonTree::Text(o.taker))
            &&& message.member("tokenId"@) == Some(JsonTree::Text(o.token_id))
            &&& message.member("makerAmount"@) == Some(JsonTree::Text(o.maker_amount))
            &&& message.member("takerAmount"@) == Some(JsonTree::Text(o.taker_amount))
            &&& message.member("expiration"@) == Some(JsonTree::Text(o.expiration))
            &&& message.member("nonce"@) == Some(JsonTree::Text(o.nonce))
            &&& message.member("feeRateBps"@) == Some(JsonTree::Text(o.fee_rate_bps))
            &&& message.member("side"@) == Some(
                json::count_tree(
                    if o.side == OrderSide::Buy {
                        0
                    } else {
                        1
                    },
                ),
            )
            &&& message.member("signatureType"@) == Some(
                json::count_tree(o.signature_type as u64),
            )
        }),
{
    reveal_strlit("message");
    reveal_strlit("domain");
    reveal_strlit("types");
    reveal_strlit("primaryType");
    reveal_strlit("name");
    reveal_strlit("version");
    reveal_strlit("chainId");
    reveal_strlit("verifyingContract");
    reveal_strlit("salt");
    reveal_strlit("maker");
    reveal_strlit("signer");
    reveal_strlit("taker");
    reveal_strlit("tokenId");
    reveal_strlit("makerAmount");
    reveal_strlit("takerAmount");
    reveal_strlit("expiration");
    reveal_strlit("nonce");
    reveal_strlit("feeRateBps");
    reveal_strlit("side");
    reveal_strlit("signatureType");
    assert("message"@.len() == 7);
    assert("domain"@.len() == 6);
    assert("types"@.len() == 5);
    assert("primaryType"@.len() == 11);
    assert("name"@.len() == 4);
    assert("version"@.len() == 7);
    assert("chainId"@.len() == 7);
    assert("verifyingContract"@.len() == 17);
    assert("salt"@.len() == 4);
    assert("maker"@.len() == 5);
    assert("signer"@.len() == 6);
    assert("taker"@.len() == 5);
    assert("tokenId"@.len() == 7);
    assert("makerAmount"@.len() == 11);
    assert("takerAmount"@.len() == 11);
    assert("expiration"@.len() == 10);
    assert("nonce"@.len() == 5);
    assert("feeRateBps"@.len() == 10);
    assert("side"@.len() == 4);
    assert("signatureType"@.len() == 13);
    assert("message"@[0] != "version"@[0]);
    assert("message"@[0] != "chainId"@[0]);
    assert("message"@[0] != "tokenId"@[0]);
    assert("version"@[0] != "chainId"@[0]);
    assert("version"@[0] != "tokenId"@[0]);
    assert("chainId"@[0] != "tokenId"@[0]);
    assert("domain"@[0] != "signer"@[0]);
    assert("types"@[0] != "maker"@[0]);
    assert("types"@[1] != "taker"@[1]);
    assert("types"@[0] != "nonce"@[0]);
    assert("maker"@[0] != "taker"@[0]);
    assert("maker"@[0] != "nonce"@[0]);
    assert("taker"@[0] != "nonce"@[0]);
    assert("primaryType"@[0] != "makerAmount"@[0]);
    assert("primaryType"@[0] != "takerAmount"@[0]);
    assert("makerAmount"@[0] != "takerAmount"@[0]);
    assert("name"@[0] != "salt"@[0]);
    assert("name"@[0] != "side"@[0]);
    assert("salt"@[1] != "side"@[1]);
    assert("expiration"@[0] != "feeRateBps"@[0]);
    let parts = seq![
        ("types"@, order_types()),
        ("primaryType"@, JsonTree::Text("Order"@)),
        ("domain"@, order_domain(o.verifying_contract)),
        ("message"@, order_message(o)),
    ];
    assert(order_document(o) == json::object_tree(parts));
    json::members_are_found_by_their_keys(parts, 0);
    json::members_are_found_by_their_keys(parts, 1);
    json::members_are_found_by_their_keys(parts, 2);
    json::members_are_found_by_their_keys(parts, 3);
    let place = seq![
        ("name"@, JsonTree::Text("Polymarket CTF Exchange"@)),
        ("version"@, JsonTree::Text("1"@)),
        ("chainId"@, json::count_tree(CHAIN_ID_POLYGON)),
        ("verifyingContract"@, JsonTree::Text(o.verifying_contract)),
    ];
    json::members_are_found_by_their_keys(place, 0);
    json::members_are_found_by_their_keys(place, 1);
    json::members_are_found_by_their_keys(place, 2);
    json::members_are_found_by_their_keys(place, 3);
    let fields = seq![
        ("salt"@, JsonTree::Text(o.salt)),
        ("maker"@, JsonTree::Text(o.maker)),
        ("signer"@, JsonTree::Text(o.signer)),
        ("taker"@, JsonTree::Text(o.taker)),
        ("tokenId"@, JsonTree::Text(o.token_id)),
        ("makerAmount"@, JsonTree::Text(o.maker_amount)),
        ("takerAmount"@, JsonTree::Text(o.taker_amount)),
        ("expiration"@, JsonTree::Text(o.expiration)),
        ("nonce"@, JsonTree::Text(o.nonce)),
        ("feeRateBps"@, JsonTree::Text(o.fee_rate_bps)),
        ("side"@, json::count_tree(o.side.code() as u64)),
        ("signatureType"@, json::count_tree(o.signature_type as u64)),
    ];
    json::members_are_found_by_their_keys(fields, 0);
    json::members_are_found_by_their_keys(fields, 1);
    json::members_are_found_by_their_keys(fields, 2);
    json::members_are_found_by_their_keys(fields, 3);
    json::members_are_found_by_their_keys(fields, 4);
    json::members_are_found_by_their_keys(fields, 5);
    json::members_are_found_by_their_keys(fields, 6);
    json::members_are_found_by_their_keys(fields, 7);
    json::members_are_found_by_their_keys(fields, 8);
    json::members_are_found_by_their_keys(fields, 9);
    json::members_are_found_by_their_keys(fields, 10);
    json::members_are_found_by_their_keys(fields, 11);
}

/// The types of the document name every field of an order and of the domain, in the order in which
/// they are signed and with their kinds.
pub proof fn types_name_every_field(o: OrderFields)
    ensures
        ({
            let types = order_types();
            let order = types.member("Order"@)->Some_0->Array_0;
            let domain = types.member("EIP712Domain"@)->Some_0->Array_0;
            &&& types.member("Order"@) is Some && types.member("Order"@)->Some_0 is Array
            &&& types.member("EIP712Domain"@) is Some && types.member("EIP712Domain"@)->Some_0 is Array
            &&& order.len() == 12 && domain.len() == 4
            &&& forall|i: int|
                0 <= i < 12 ==> (#[trigger] order[i]).member_text("name"@) is Some && order_message(
                    o,
                ).member(order[i].member_text("name"@)->Some_0) is Some
            &&& forall|i: int|
                0 <= i < 12 ==> (#[trigger] order[i]).member_text("type"@) == Some(
                    if 1 <= i <= 3 {
                        "address"@
                    } else if i >= 10 {
                        "uint8"@
                    } else {
                        "uint256"@
                    },
                )
            &&& domain[0].member_text("name"@) == Some("name"@) && domain[0].member_text("type"@)
                == Some("string"@)
            &&& domain[1].member_text("name"@) == Some("version"@) && domain[1].member_text(
                "type"@,
            ) == Some("string"@)
            &&& domain[2].member_text("name"@) == Some("chainId"@) && domain[2].member_text(
                "type"@,
            ) == Some("uint256"@)
            &&& domain[3].member_text("name"@) == Some("verifyingContract"@)
                && domain[3].member_text("type"@) == Some("address"@)
            &&& order[0].member_text("name"@) == Some("salt"@)
            &&& order[1].member_text("name"@) == Some("maker"@)
            &&& order[2].member_text("name"@) == Some("signer"@)
            &&& order[3].member_text("name"@) == Some("taker"@)
            &&& order[4].member_text("name"@) == Some("tokenId"@)
            &&& order[5].member_text("name"@) == Some("makerAmount"@)
            &&& order[6].member_text("name"@) == Some("takerAmount"@)
            &&& order[7].member_text("name"@) == Some("expiration"@)
            &&& order[8].member_text("name"@) == Some("nonce"@)
            &&& order[9].member_text("name"@) == Some("feeRateBps"@)
            &&& order[10].member_text("name"@) == Some("side"@)
            &&& order[11].member_text("name"@) == Some("signatureType"@)
        }),
{
    reveal_strlit("name");
    reveal_strlit("type");
    reveal_strlit("EIP712Domain");
    reveal_strlit("Order");
    assert("name"@.len() == 4);
    assert("type"@.len() == 4);
    assert("EIP712Domain"@.len() == 12);
    assert("Order"@.len() == 5);
    assert("name"@[0] != "type"@[0]);
    document_holds_the_order(o);
    let kinds = seq![
        (
            "EIP712Domain"@,
            JsonTree::Array(
                seq![
                    type_member("name"@, "string"@),
                    type_member("version"@, "string"@),
                    type_member("chainId"@, "uint256"@),
                    type_member("verifyingContract"@, "address"@),
                ],
            ),
        ),
        (
            "Order"@,
            JsonTree::Array(
                seq![
                    type_member("salt"@, "uint256"@),
                    type_member("maker"@, "address"@),
                    type_member("signer"@, "address"@),
                    type_member("taker"@, "address"@),
                    type_member("tokenId"@, "uint256"@),
                    type_member("makerAmount"@, "uint256"@),
                    type_member("takerAmount"@, "uint256"@),
                    type_member("expiration"@, "uint256"@),
                    type_member("nonce"@, "uint256"@),
                    type_member("feeRateBps"@, "uint256"@),
                    type_member("side"@, "uint8"@),
                    type_member("signatureType"@, "uint8"@),
                ],
            ),
        ),
    ];
    assert(order_types() == json::object_tree(kinds));
    json::members_are_found_by_their_keys(kinds, 0);
    json::members_are_found_by_their_keys(kinds, 1);
    lemma_type_member("salt"@, "uint256"@);
    lemma_type_member("maker"@, "address"@);
    lemma_type_member("signer"@, "address"@);
    lemma_type_member("taker"@, "address"@);
    lemma_type_member("tokenId"@, "uint256"@);
    lemma_type_member("makerAmount"@, "uint256"@);
    lemma_type_member("takerAmount"@, "uint256"@);
    lemma_type_member("expiration"@, "uint256"@);
    lemma_type_member("nonce"@, "uint256"@);
    lemma_type_member("feeRateBps"@, "uint256"@);
    lemma_type_member("side"@, "uint8"@);
    lemma_type_member("signatureType"@, "uint8"@);
    lemma_type_member("name"@, "string"@);
    lemma_type_member("version"@, "string"@);
    lemma_type_member("chainId"@, "uint256"@);
    lemma_type_member("verifyingContract"@, "address"@);
    let order = kinds[1].1->Array_0;
    assert forall|i: int| 0 <= i < 12 implies (#[trigger] order[i]).member_text("name"@) is Some
        && order_message(o).member(order[i].member_text("name"@)->Some_0) is Some by {
        assert(i == 0 || i == 1 || i == 2 || i == 3 || i == 4 || i == 5 || i == 6 || i == 7 || i == 8
            || i == 9 || i == 10 || i == 11);
    }
}

proof fn lemma_type_member(name: Seq<char>, kind: Seq<char>)
    ensures
        type_member(name, kind).member_text("name"@) == Some(name),
        type_member(name, kind).member_text("type"@) == Some(kind),
{
    reveal_strlit("name");
    reveal_strlit("type");
    assert("name"@.len() == 4);
    assert("type"@.len() == 4);
    assert("name"@[0] != "type"@[0]);
    let m = seq![("name"@, JsonTree::Text(name)), ("type"@, JsonTree::Text(kind))];
    json::members_are_found_by_their_keys(m, 0);
    json::members_are_found_by_their_keys(m, 1);
}

/// An order is made exactly where both its amounts are positive and can be written in base units, and
/// where every number and address of it can be read. It holds what it was asked to: the amounts, the
/// token, the side and the account, and the contract of its market; anybody may take it.
pub proof fn order_holds_what_was_asked_for(
    client: ClientView,
    p: OrderParams,
    maker_units: Result<Seq<char>, Seq<Seq<char>>>,
    taker_units: Result<Seq<char>, Seq<Seq<char>>>,
)
    requires
        p.raw_maker_amount.finite(),
        p.raw_taker_amount.finite(),
    ensures
        ({
            let made = order_with_units(client, p, maker_units, taker_units);
            &&& p.raw_maker_amount.units() <= 0 ==> made == Err::<OrderFields, Seq<Seq<char>>>(
                seq!["invalid maker amount for signed order"@],
            )
            &&& p.raw_maker_amount.units() > 0 && p.raw_taker_amount.units() <= 0 ==> made == Err::<
                OrderFields,
                Seq<Seq<char>>,
            >(seq!["invalid taker amount for signed order"@])
            &&& made matches Ok(o) ==> {
                &&& p.raw_maker_amount.units() > 0 && p.raw_taker_amount.units() > 0
                &&& maker_units is Ok && taker_units is Ok
                &&& order_signing::normalized_uint("makerAmount"@, maker_units->Ok_0) == Ok::<
                    Seq<char>,
                    Seq<Seq<char>>,
                >(o.maker_amount)
                &&& order_signing::normalized_uint("takerAmount"@, taker_units->Ok_0) == Ok::<
                    Seq<char>,
                    Seq<Seq<char>>,
                >(o.taker_amount)
                &&& order_signing::normalized_uint("salt"@, p.salt) == Ok::<
                    Seq<char>,
                    Seq<Seq<char>>,
                >(o.salt)
                &&& order_signing::normalized_address("maker"@, client.funder_address) == Ok::<
                    Seq<char>,
                    Seq<Seq<char>>,
                >(o.maker)
                &&& order_signing::normalized_address("signer"@, client.signer_address) == Ok::<
                    Seq<char>,
                    Seq<Seq<char>>,
                >(o.signer)
                &&& order_signing::normalized_address(
                    "taker"@,
                    "0x0000000000000000000000000000000000000000"@,
                ) == Ok::<Seq<char>, Seq<Seq<char>>>(o.taker)
                &&& order_signing::normalized_uint("tokenId"@, p.token_id) == Ok::<
                    Seq<char>,
                    Seq<Seq<char>>,
                >(o.token_id)
                &&& o.fee_rate_bps == text::decimal(p.fee_rate_bps as nat)
                &&& o.expiration == text::decimal(p.expiration as nat)
                &&& o.nonce == text::decimal(p.nonce as nat)
                &&& o.side == p.side && o.signature_type == client.signature_type
                &&& p.neg_risk ==> order_signing::normalized_address(
                    "verifyingContract"@,
                    "0xC5d563A36AE78145C45a50134d48A1215220f80a"@,
                ) == Ok::<Seq<char>, Seq<Seq<char>>>(o.verifying_contract)
                &&& !p.neg_risk ==> order_signing::normalized_address(
                    "verifyingContract"@,
                    "0x4bFb41d5B3570DeFd03C39a9A4D8dE6Bd8B8982E"@,
                ) == Ok::<Seq<char>, Seq<Seq<char>>>(o.verifying_contract)
            }
            &&& made is Err ==> p.raw_maker_amount.units() <= 0 || p.raw_taker_amount.units() <= 0
                || maker_units is Err || taker_units is Err || (exists|i: int|
                0 <= i < 11 && (#[trigger] order_steps(
                    client,
                    p,
                    maker_units->Ok_0,
                    taker_units->Ok_0,
                )[i]) is Err)
        }),
{
    crate::double::sign_is_numeric(p.raw_maker_amount);
    crate::double::sign_is_numeric(p.raw_taker_amount);
    if maker_units is Ok && taker_units is Ok {
        let steps = order_steps(client, p, maker_units->Ok_0, taker_units->Ok_0);
        assert(steps.len() == 11);
        lemma_failure_or_none(steps);
        lemma_small_number("feeRateBps"@, p.fee_rate_bps);
        lemma_small_number("expiration"@, p.expiration);
        lemma_small_number("nonce"@, p.nonce);
        if first_failure(steps) is None {
            assert forall|i: int| 0 <= i < 11 implies (#[trigger] steps[i]) is Ok by {}
            assert(steps[0] is Ok);
            assert(steps[1] is Ok);
            assert(steps[2] is Ok);
            assert(steps[3] is Ok);
            assert(steps[4] is Ok);
            assert(steps[5] is Ok);
            assert(steps[6] is Ok);
            assert(steps[7] is Ok);
            assert(steps[8] is Ok);
            assert(steps[9] is Ok);
            assert(steps[10] is Ok);
        }
    }
}

proof fn lemma_small_number(field: Seq<char>, n: u64)
    ensures
        order_signing::normalized_uint(field, text::decimal(n as nat)) == Ok::<
            Seq<char>,
            Seq<Seq<char>>,
        >(text::decimal(n as nat)),
{
    assert(uint::all_hex(seq!['0']));
    order_signing::numbers_are_written_in_decimal(field, n as nat, seq!['0'], Seq::empty());
}

proof fn lemma_failure_or_none(steps: Seq<Result<Seq<char>, Seq<Seq<char>>>>)
    ensures
        first_failure(steps) is None <==> forall|i: int|
            0 <= i < steps.len() ==> (#[trigger] steps[i]) is Ok,
        first_failure(steps) is Some ==> exists|i: int|
            0 <= i < steps.len() && (#[trigger] steps[i]) is Err,
    decreases steps.len(),
{
    if steps.len() > 0 {
        let rest = steps.drop_first();
        lemma_failure_or_none(rest);
        assert forall|i: int| 0 <= i < rest.len() implies #[trigger] rest[i] == steps[i + 1] by {}
        if steps[0] is Ok {
            if first_failure(rest) is None {
                assert forall|i: int| 0 <= i < steps.len() implies (#[trigger] steps[i]) is Ok by {
                    if i > 0 {
                        assert(rest[i - 1] is Ok);
                    }
                }
            } else {
                let i = choose|i: int| 0 <= i < rest.len() && (#[trigger] rest[i]) is Err;
                assert(steps[i + 1] is Err);
            }
        }
    }
}

/// An order is signed exactly where its document can be encoded and the key signs it; otherwise it is
/// said which of the two failed, and why.
pub proof fn signature_comes_from_the_key(private_key: Seq<char>, o: OrderFields)
    ensures
        ({
            let outcome = signing_outcome(private_key, o);
            let digest = typed_data_digest(order_document(o));
            &&& outcome is Signed <==> digest is Ok && digest->Ok_0 is Ok && digest_signature(
                private_key,
                digest->Ok_0->Ok_0,
            ) is Ok
            &&& outcome matches SigningView::Signed(s) ==> digest_signature(
                private_key,
                digest->Ok_0->Ok_0,
            ) == Ok::<Seq<char>, Seq<Seq<char>>>(s) && signature_or_error(o, outcome) == Ok::<
                Seq<char>,
                Seq<Seq<char>>,
            >(s)
            &&& outcome is NotTypedData <==> digest is Err
            &&& !(outcome is Signed) ==> (signature_or_error(o, outcome) matches Err(chain)
                && chain.len() > 0 && text::begins_with(
                chain[0],
                if digest is Err {
                    "failed to build typed-data payload for order signature "@
                } else {
                    "failed to sign order typed-data "@
                },
            ))
        }),
{
    let outcome = signing_outcome(private_key, o);
    match signature_or_error(o, outcome) {
        Err(chain) => {
            let start = if typed_data_digest(order_document(o)) is Err {
                "failed to build typed-data payload for order signature "@
            } else {
                "failed to sign order typed-data "@
            };
            assert(chain[0].subrange(0, start.len() as int) =~= start);
        },
        Ok(_) => {},
    }
}

/// A limit order that buys takes the size and gives what the price makes of it, and one that sells the
/// other way round; a market order gives the size on either side. None of them expires, and each goes
/// for its own token and side.
pub proof fn order_gives_and_takes_the_right_amounts(
    r: Result<SignedOrder, Failure>,
    client: ClientView,
    terms: OrderTerms,
    side: OrderSide,
    n: OrderNumbers,
    market: bool,
)
    requires
        if market {
            is_market_order(r, client, terms, side, n)
        } else {
            is_limit_order(r, client, terms, side, n)
        },
        n.amount.finite(),
        n.price.finite(),
        n.size.value.finite(),
        order_signing::fitting_form(*n.forms, n.round).value.finite(),
    ensures
        r matches Ok(order) ==> {
            let computed = base_units(order_signing::fitting_form(*n.forms, n.round).text8@);
            let size = base_units(n.size.text8@);
            let maker = if !market && side == OrderSide::Buy {
                computed
            } else {
                size
            };
            let taker = if !market && side == OrderSide::Buy {
                size
            } else {
                computed
            };
            &&& n.amount.units() > 0 && n.price.units() > 0
            &&& order.side == side
            &&& maker is Ok && taker is Ok
            &&& order_signing::normalized_uint("makerAmount"@, maker->Ok_0) == Ok::<
                Seq<char>,
                Seq<Seq<char>>,
            >(order.maker_amount@)
            &&& order_signing::normalized_uint("takerAmount"@, taker->Ok_0) == Ok::<
                Seq<char>,
                Seq<Seq<char>>,
            >(order.taker_amount@)
            &&& order_signing::normalized_uint("tokenId"@, terms.token_id@) == Ok::<
                Seq<char>,
                Seq<Seq<char>>,
            >(order.token_id@)
            &&& order.expiration@ == text::decimal(0)
            &&& order.nonce@ == text::decimal(0)
            &&& order.fee_rate_bps@ == text::decimal(terms.fee_rate_bps as nat)
            &&& order.signature_type == client.signature_type
        },
        n.amount.units() <= 0 || n.price.units() <= 0 ==> r is Err,
{
    crate::double::sign_is_numeric(n.amount);
    crate::double::sign_is_numeric(n.price);
    let computed = order_signing::fitting_form(*n.forms, n.round);
    let p = if !market && side == OrderSide::Buy {
        params_of(terms, side, computed, *n.size)
    } else {
        params_of(terms, side, *n.size, computed)
    };
    order_holds_what_was_asked_for(
        client,
        p,
        base_units(p.maker_amount_text),
        base_units(p.taker_amount_text),
    );
    match r {
        Ok(order) => {
            let o = order_of(client, p)->Ok_0;
            assert(order.fields(o.verifying_contract) == o);
        },
        Err(_) => {},
    }
}

/// An order that cannot be made or signed is refused with the reason, and one that can is handed over
/// with its signature and its own fields.
pub proof fn order_is_signed_or_refused_with_the_reason(
    r: Result<SignedOrder, Failure>,
    client: ClientView,
    p: OrderParams,
)
    requires
        is_signed_order(r, client, p),
    ensures
        ({
            let o = order_of(client, p);
            let signed = signature_or_error(
                o->Ok_0,
                signing_outcome(client.private_key, o->Ok_0),
            );
            &&& r is Ok <==> o is Ok && signed is Ok
            &&& o is Err ==> r->Err_0@ == o->Err_0
            &&& o is Ok && signed is Err ==> r->Err_0@ == signed->Err_0
            &&& r matches Ok(order) ==> order.signature@ == signed->Ok_0 && order.maker@
                == o->Ok_0.maker && order.signer@ == o->Ok_0.signer && order.taker@ == o->Ok_0.taker
                && order.token_id@ == o->Ok_0.token_id && order.salt@ == o->Ok_0.salt
                && order.maker_amount@ == o->Ok_0.maker_amount && order.taker_amount@
                == o->Ok_0.taker_amount && order.side == o->Ok_0.side
        }),
        order_of(client, p) == order_with_units(
            client,
            p,
            base_units(p.maker_amount_text),
            base_units(p.taker_amount_text),
        ),
{
    let o = order_of(client, p);
    match r {
        Ok(order) => {
            assert(order.fields(o->Ok_0.verifying_contract) == o->Ok_0);
        },
        Err(_) => {},
    }
}

/// A client is handed over exactly where one can be made, and is that one; otherwise the reason is.
pub proof fn client_is_the_one_that_was_made(
    r: Result<ClobClient, Failure>,
    s: Result<ClientView, Seq<Seq<char>>>,
)
    requires
        client_result(r, s),
    ensures
        r is Ok <==> s is Ok,
        r matches Ok(client) ==> client@ == s->Ok_0,
        r matches Err(e) ==> e@ == s->Err_0,
{
}

/// Orders of markets with and without shared risk are signed for different contracts.
pub proof fn contracts_differ_by_risk()
    ensures
        exchange_contract(true) == "0xC5d563A36AE78145C45a50134d48A1215220f80a"@,
        exchange_contract(false) == "0x4bFb41d5B3570DeFd03C39a9A4D8dE6Bd8B8982E"@,
        exchange_contract(true) != exchange_contract(false),
{
    reveal_strlit("0xC5d563A36AE78145C45a50134d48A1215220f80a");
    reveal_strlit("0x4bFb41d5B3570DeFd03C39a9A4D8dE6Bd8B8982E");
    assert("0xC5d563A36AE78145C45a50134d48A1215220f80a"@[2]
        != "0x4bFb41d5B3570DeFd03C39a9A4D8dE6Bd8B8982E"@[2]);
}

} // verus!
