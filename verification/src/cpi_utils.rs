//! How a call to the messaging gateway is put into bytes.
//!
//! The data of a call is a discriminator of eight bytes, which names the
//! gateway's operation, followed by the operation's parameters. Parameters
//! are laid out field after field: an integer little-endian in its own
//! width, a flag as one byte, an address as its 32 bytes, and a byte string
//! as its length in four bytes followed by its bytes.
use sha2::{Digest, Sha256};
use vstd::prelude::*;
use crate::bytes::{
    le_bytes, le_value, lemma_le_bytes_len, lemma_le_value_bound, lemma_radix_values, push_le,
    read_le,
};

verus! {

/// The SHA-256 digest of `data`: what `sha2` computes for it.
pub uninterp spec fn sha256(data: Seq<u8>) -> Seq<u8>;

/// Computes the SHA-256 digest of `data` with `sha2`'s `Sha256` hasher:
/// a fresh hasher is fed `data` once and finalized. Nothing of the digest is
/// proved here; the contract only gives it its name.
#[verifier::external_body]
fn sha256_digest(data: &[u8]) -> (digest: [u8; 32])
    ensures
        digest@ == sha256(data@),
{
    Sha256::new().chain_update(data).finalize().into()
}

/// The bytes that every operation name is prefixed with before it is hashed:
/// the ASCII letters `global:`.
pub const GLOBAL_PREFIX: [u8; 7] = [103, 108, 111, 98, 97, 108, 58];

/// The discriminator of the gateway operation `name`: the first eight bytes
/// of the SHA-256 digest of `global:` followed by the name.
pub open spec fn discriminator(name: Seq<char>) -> Seq<u8> {
    sha256(GLOBAL_PREFIX@ + vstd::utf8::encode_utf8(name)).subrange(0, 8)
}

/// A byte string as it stands among parameters: its length in four bytes,
/// little-endian, then its bytes.
pub open spec fn prefixed(bytes: Seq<u8>) -> Seq<u8> {
    le_bytes(bytes.len(), 4) + bytes
}

/// Parameters of a gateway operation.
pub trait GatewayParams {
    /// Tells whether the parameters can be put into bytes: every byte string
    /// among them has a length that fits in four bytes.
    spec fn encodable(&self) -> bool;

    /// The parameters as bytes.
    spec fn encoding(&self) -> Seq<u8>;

    /// Puts the parameters into bytes.
    fn encode(&self) -> (bytes: Vec<u8>)
        requires
            self.encodable(),
        ensures
            bytes@ == self.encoding(),
    ;
}

/// Parameters of the gateway's `send`.
#[derive(Clone, Debug)]
pub struct EndpointSendParams {
    pub dst_eid: u32,
    pub receiver: [u8; 32],
    pub message: Vec<u8>,
    pub options: Vec<u8>,
    pub native_fee: u64,
    pub lz_token_fee: u64,
}

/// Parameters of the gateway's `register_oapp`.
#[derive(Clone, Copy, Debug)]
pub struct RegisterOAppParams {
    pub delegate: [u8; 32],
}

/// Parameters of the gateway's `quote`.
#[derive(Clone, Debug)]
pub struct EndpointQuoteParams {
    pub sender: [u8; 32],
    pub dst_eid: u32,
    pub receiver: [u8; 32],
    pub message: Vec<u8>,
    pub options: Vec<u8>,
    pub pay_in_lz_token: bool,
}

/// The parameters of `send` as a value of specifications.
pub struct EndpointSendParamsView {
    pub dst_eid: u32,
    pub receiver: [u8; 32],
    pub message: Seq<u8>,
    pub options: Seq<u8>,
    pub native_fee: u64,
    pub lz_token_fee: u64,
}

impl View for EndpointSendParams {
    type V = EndpointSendParamsView;

    open spec fn view(&self) -> EndpointSendParamsView {
        EndpointSendParamsView {
            dst_eid: self.dst_eid,
            receiver: self.receiver,
            message: self.message@,
            options: self.options@,
            native_fee: self.native_fee,
            lz_token_fee: self.lz_token_fee,
        }
    }
}

/// The parameters of `quote` as a value of specifications.
pub struct EndpointQuoteParamsView {
    pub sender: [u8; 32],
    pub dst_eid: u32,
    pub receiver: [u8; 32],
    pub message: Seq<u8>,
    pub options: Seq<u8>,
    pub pay_in_lz_token: bool,
}

impl View for EndpointQuoteParams {
    type V = EndpointQuoteParamsView;

    open spec fn view(&self) -> EndpointQuoteParamsView {
        EndpointQuoteParamsView {
            sender: self.sender,
            dst_eid: self.dst_eid,
            receiver: self.receiver,
            message: self.message@,
            options: self.options@,
            pay_in_lz_token: self.pay_in_lz_token,
        }
    }
}

/// What the gateway charges for a message.
#[derive(Clone, Copy, Debug, PartialEq, Eq, Structural)]
pub struct MessagingFee {
    pub native_fee: u64,
    pub lz_token_fee: u64,
}

impl Default for MessagingFee {
    fn default() -> (fee: MessagingFee)
        ensures
            fee == (MessagingFee { native_fee: 0, lz_token_fee: 0 }),
    {
        MessagingFee { native_fee: 0, lz_token_fee: 0 }
    }
}

/// The bytes of the parameters of `send`.
pub open spec fn send_encoding(params: EndpointSendParamsView) -> Seq<u8> {
    le_bytes(params.dst_eid as nat, 4) + params.receiver@ + prefixed(params.message) + prefixed(
        params.options,
    ) + le_bytes(params.native_fee as nat, 8) + le_bytes(params.lz_token_fee as nat, 8)
}

/// The bytes of the parameters of `quote`.
pub open spec fn quote_encoding(params: EndpointQuoteParamsView) -> Seq<u8> {
    params.sender@ + le_bytes(params.dst_eid as nat, 4) + params.receiver@ + prefixed(
        params.message,
    ) + prefixed(params.options) + seq![if params.pay_in_lz_token { 1u8 } else { 0u8 }]
}

fn push_prefixed(out: &mut Vec<u8>, bytes: &Vec<u8>)
    requires
        bytes.len() <= u32::MAX,
    ensures
        final(out)@ == old(out)@ + prefixed(bytes@),
{
    push_le(out, bytes.len() as u64, 4);
    out.extend_from_slice(bytes.as_slice());
    assert(out@ =~= old(out)@ + prefixed(bytes@));
}

impl GatewayParams for EndpointSendParams {
    open spec fn encodable(&self) -> bool {
        self.message.len() <= u32::MAX && self.options.len() <= u32::MAX
    }

    open spec fn encoding(&self) -> Seq<u8> {
        send_encoding(self@)
    }

    fn encode(&self) -> (bytes: Vec<u8>) {
        let mut bytes: Vec<u8> = Vec::new();
        push_le(&mut bytes, self.dst_eid as u64, 4);
        bytes.extend_from_slice(self.receiver.as_slice());
        push_prefixed(&mut bytes, &self.message);
        push_prefixed(&mut bytes, &self.options);
        push_le(&mut bytes, self.native_fee, 8);
        push_le(&mut bytes, self.lz_token_fee, 8);
        assert(bytes@ =~= self.encoding());
        bytes
    }
}

impl GatewayParams for RegisterOAppParams {
    open spec fn encodable(&self) -> bool {
        true
    }

    open spec fn encoding(&self) -> Seq<u8> {
        self.delegate@
    }

    fn encode(&self) -> (bytes: Vec<u8>) {
        let mut bytes: Vec<u8> = Vec::new();
        bytes.extend_from_slice(self.delegate.as_slice());
        assert(bytes@ =~= self.encoding());
        bytes
    }
}

impl GatewayParams for EndpointQuoteParams {
    open spec fn encodable(&self) -> bool {
        self.message.len() <= u32::MAX && self.options.len() <= u32::MAX
    }

    open spec fn encoding(&self) -> Seq<u8> {
        quote_encoding(self@)
    }

    fn encode(&self) -> (bytes: Vec<u8>) {
        let mut bytes: Vec<u8> = Vec::new();
        bytes.extend_from_slice(self.sender.as_slice());
        push_le(&mut bytes, self.dst_eid as u64, 4);
        bytes.extend_from_slice(self.receiver.as_slice());
        push_prefixed(&mut bytes, &self.message);
        push_prefixed(&mut bytes, &self.options);
        bytes.push(if self.pay_in_lz_token { 1 } else { 0 });
        assert(bytes@ =~= self.encoding());
        bytes
    }
}

/// The fee that `bytes` carry, if they carry one: exactly sixteen bytes,
/// the native fee and then the token fee, each in eight bytes little-endian.
pub open spec fn fee_of(bytes: Seq<u8>) -> Option<MessagingFee> {
    if bytes.len() == 16 {
        Some(
            MessagingFee {
                native_fee: le_value(bytes.subrange(0, 8)) as u64,
                lz_token_fee: le_value(bytes.subrange(8, 16)) as u64,
            },
        )
    } else {
        None
    }
}

impl MessagingFee {
    /// The fee as the gateway writes it.
    pub open spec fn encoding(&self) -> Seq<u8> {
        le_bytes(self.native_fee as nat, 8) + le_bytes(self.lz_token_fee as nat, 8)
    }

    /// Reads a fee from the bytes that the gateway returned. Bytes of any
    /// length but sixteen carry no fee.
    pub fn try_from_slice(bytes: &[u8]) -> (fee: Option<MessagingFee>)
        ensures
            fee == fee_of(bytes@),
    {
        if bytes.len() != 16 {
            return None;
        }
        let native_fee: u64 = read_le(bytes, 0, 8);
        let lz_token_fee: u64 = read_le(bytes, 8, 8);
        proof {
            lemma_radix_values();
            lemma_le_value_bound(bytes@.subrange(0, 8));
            lemma_le_value_bound(bytes@.subrange(8, 16));
        }
        Some(MessagingFee { native_fee, lz_token_fee })
    }
}

/// The data of a gateway call, given the digest of the prefixed operation
/// name and the parameters in bytes: the first eight bytes of the digest,
/// then the parameters.
pub fn instruction_data(digest: &[u8; 32], params: &[u8]) -> (data: Vec<u8>)
    ensures
        data@ == digest@.subrange(0, 8) + params@,
{
    let mut data: Vec<u8> = Vec::with_capacity(8);
    let mut i: usize = 0;
    while i < 8
        invariant
            i <= 8,
            data@ == digest@.subrange(0, i as int),
        decreases 8 - i,
    {
        data.push(digest[i]);
        assert(data@ =~= digest@.subrange(0, i + 1));
        i += 1;
    }
    data.extend_from_slice(params);
    data
}

/// The data of a call of the gateway operation `instruction_name` with the
/// parameters `params`: the operation's discriminator, then the parameters
/// in bytes.
pub fn create_instruction_data<T: GatewayParams>(params: &T, instruction_name: &str) -> (data:
    Vec<u8>)
    requires
        params.encodable(),
    ensures
        data@ == discriminator(instruction_name@) + params.encoding(),
{
    let mut full_name: Vec<u8> = Vec::new();
    full_name.extend_from_slice(GLOBAL_PREFIX.as_slice());
    full_name.extend_from_slice(instruction_name.as_bytes());
    assert(full_name@ =~= GLOBAL_PREFIX@ + vstd::utf8::encode_utf8(instruction_name@));
    let digest = sha256_digest(full_name.as_slice());
    let serialized = params.encode();
    instruction_data(&digest, serialized.as_slice())
}

/// A fee read back from the bytes it was written to is the same fee.
pub proof fn lemma_fee_of_encoding(fee: MessagingFee)
    ensures
        fee_of(fee.encoding()) == Some(fee),
{
    let bytes = fee.encoding();
    lemma_radix_values();
    lemma_le_bytes_len(fee.native_fee as nat, 8);
    lemma_le_bytes_len(fee.lz_token_fee as nat, 8);
    crate::bytes::lemma_le_value_of_bytes(fee.native_fee as nat, 8);
    crate::bytes::lemma_le_value_of_bytes(fee.lz_token_fee as nat, 8);
    assert(bytes.subrange(0, 8) =~= le_bytes(fee.native_fee as nat, 8));
    assert(bytes.subrange(8, 16) =~= le_bytes(fee.lz_token_fee as nat, 8));
}

/// Bytes that carry a fee are the bytes that the fee is written to.
pub proof fn lemma_encoding_of_fee(bytes: Seq<u8>)
    requires
        fee_of(bytes) is Some,
    ensures
        fee_of(bytes)->0.encoding() == bytes,
{
    let low = bytes.subrange(0, 8);
    let high = bytes.subrange(8, 16);
    lemma_radix_values();
    lemma_le_value_bound(low);
    lemma_le_value_bound(high);
    crate::bytes::lemma_le_bytes_of_value(low);
    crate::bytes::lemma_le_bytes_of_value(high);
    assert(low + high =~= bytes);
}

/// What the core reads of a storage reference that is passed on to the
/// gateway: its address and its two access flags.
#[derive(Clone, Copy, Debug, PartialEq, Eq)]
pub struct AccountRef {
    pub key: [u8; 32],
    pub is_signer: bool,
    pub is_writable: bool,
}

/// A storage reference as a gateway call lists it.
#[derive(Clone, Copy, Debug, PartialEq, Eq)]
pub struct AccountMeta {
    pub pubkey: [u8; 32],
    pub is_signer: bool,
    pub is_writable: bool,
}

/// A call of a program: which program, on which storage, with which data.
#[derive(Clone, Debug)]
pub struct Instruction {
    pub program_id: [u8; 32],
    pub accounts: Vec<AccountMeta>,
    pub data: Vec<u8>,
}

/// A call for the host to dispatch to the gateway.
#[derive(Clone, Debug)]
pub struct GatewayCall {
    pub instruction: Instruction,
    /// The seeds of the address that signs the call; empty for a call that
    /// nobody signs.
    pub signer_seeds: Vec<Vec<u8>>,
}

/// How a call lists `account`. Where the call is signed by `signer`, the
/// reference to `signer` itself is listed as signing.
pub open spec fn meta_of(account: AccountRef, signer: Option<[u8; 32]>) -> AccountMeta {
    AccountMeta {
        pubkey: account.key,
        is_signer: account.is_signer || signer == Some(account.key),
        is_writable: account.is_writable,
    }
}

/// The storage that a call lists: every reference handed over but the first,
/// which is the gateway program itself, in the order given.
pub open spec fn metas_of(accounts: Seq<AccountRef>, signer: Option<[u8; 32]>) -> Seq<AccountMeta> {
    if accounts.len() == 0 {
        Seq::empty()
    } else {
        Seq::new((accounts.len() - 1) as nat, |i: int| meta_of(accounts[i + 1], signer))
    }
}

/// Lists the storage for a gateway call.
pub fn account_metas(accounts: &Vec<AccountRef>, signer: Option<&[u8; 32]>) -> (metas: Vec<
    AccountMeta,
>)
    ensures
        metas@ == metas_of(
            accounts@,
            match signer {
                Some(key) => Some(*key),
                None => None,
            },
        ),
{
    let ghost signing: Option<[u8; 32]> = match signer {
        Some(key) => Some(*key),
        None => None,
    };
    let mut metas: Vec<AccountMeta> = Vec::new();
    let mut i: usize = 1;
    while i < accounts.len()
        invariant
            1 <= i,
            i <= accounts.len() || i == 1,
            metas.len() == i - 1,
            signing == match signer {
                Some(key) => Some(*key),
                None => None,
            },
            forall|j: int| 0 <= j < i - 1 ==> metas@[j] == meta_of(accounts@[j + 1], signing),
        decreases accounts.len() - i,
    {
        let account = &accounts[i];
        let signs = match signer {
            Some(key) => crate::records::same_bytes(&account.key, key),
            None => false,
        };
        metas.push(
            AccountMeta {
                pubkey: account.key,
                is_signer: account.is_signer || signs,
                is_writable: account.is_writable,
            },
        );
        i += 1;
    }
    assert(metas@ =~= metas_of(accounts@, signing));
    metas
}

} // verus!
