//! The transfer message and its wire form: a frame of exactly 128 bytes in
//! four slots of 32 bytes. Numbers are written big-endian.
//!
//! | bytes    | field                                   |
//! |----------|-----------------------------------------|
//! | 0..18    | custom data                             |
//! | 18..22   | timestamp                               |
//! | 22..30   | nonce                                   |
//! | 30       | transaction kind                        |
//! | 31       | message type                            |
//! | 32..64   | trader                                  |
//! | 64..96   | symbol                                  |
//! | 96..128  | quantity, four limbs of eight bytes     |
use vstd::prelude::*;
use vstd::std_specs::convert::TryFromSpecImpl;
use crate::bytes::{
    be_bytes, be_value, lemma_be_bytes_len, lemma_be_bytes_of_value, lemma_be_value_bound,
    lemma_be_value_of_bytes, lemma_radix_values, push_be, read_be, take,
};
use crate::errors::{CodecError, PortfolioError};

verus! {

/// Length of a transfer frame in bytes.
pub const FRAME_LEN: usize = 128;

/// What a transfer message asks for.
#[derive(Clone, Copy, Debug, PartialEq, Eq, Structural)]
pub enum Tx {
    Withdraw,
    Deposit,
    Execution,
    IncreaseAvail,
    DecreaseAvail,
    IxferSent,
    IxferRec,
    RecoverFunds,
    AddGas,
    RemoveGas,
    AutoFill,
    CcTrade,
    ConvertFrom,
    ConvertTo,
}

impl Tx {
    /// The byte that stands for the variant on the wire.
    pub open spec fn tag_of(self) -> u8 {
        match self {
            Tx::Withdraw => 0,
            Tx::Deposit => 1,
            Tx::Execution => 2,
            Tx::IncreaseAvail => 3,
            Tx::DecreaseAvail => 4,
            Tx::IxferSent => 5,
            Tx::IxferRec => 6,
            Tx::RecoverFunds => 7,
            Tx::AddGas => 8,
            Tx::RemoveGas => 9,
            Tx::AutoFill => 10,
            Tx::CcTrade => 11,
            Tx::ConvertFrom => 12,
            Tx::ConvertTo => 13,
        }
    }

    /// The variant that `tag` stands for, if it stands for one.
    pub open spec fn of_tag(tag: u8) -> Option<Tx> {
        if tag == 0 {
            Some(Tx::Withdraw)
        } else if tag == 1 {
            Some(Tx::Deposit)
        } else if tag == 2 {
            Some(Tx::Execution)
        } else if tag == 3 {
            Some(Tx::IncreaseAvail)
        } else if tag == 4 {
            Some(Tx::DecreaseAvail)
        } else if tag == 5 {
            Some(Tx::IxferSent)
        } else if tag == 6 {
            Some(Tx::IxferRec)
        } else if tag == 7 {
            Some(Tx::RecoverFunds)
        } else if tag == 8 {
            Some(Tx::AddGas)
        } else if tag == 9 {
            Some(Tx::RemoveGas)
        } else if tag == 10 {
            Some(Tx::AutoFill)
        } else if tag == 11 {
            Some(Tx::CcTrade)
        } else if tag == 12 {
            Some(Tx::ConvertFrom)
        } else if tag == 13 {
            Some(Tx::ConvertTo)
        } else {
            None
        }
    }

    /// The byte that stands for the variant on the wire.
    pub fn tag(&self) -> (tag: u8)
        ensures
            tag == self.tag_of(),
            tag <= 13,
            Tx::of_tag(tag) == Some(*self),
    {
        match self {
            Tx::Withdraw => 0,
            Tx::Deposit => 1,
            Tx::Execution => 2,
            Tx::IncreaseAvail => 3,
            Tx::DecreaseAvail => 4,
            Tx::IxferSent => 5,
            Tx::IxferRec => 6,
            Tx::RecoverFunds => 7,
            Tx::AddGas => 8,
            Tx::RemoveGas => 9,
            Tx::AutoFill => 10,
            Tx::CcTrade => 11,
            Tx::ConvertFrom => 12,
            Tx::ConvertTo => 13,
        }
    }

    /// The variant that `tag` stands for. A byte above 13 stands for none and
    /// is refused with `BadTag`.
    pub fn from_tag(tag: u8) -> (decoded: Result<Tx, CodecError>)
        ensures
            decoded == match Tx::of_tag(tag) {
                Some(tx) => Ok::<Tx, CodecError>(tx),
                None => Err::<Tx, CodecError>(CodecError::BadTag),
            },
            decoded is Ok <==> tag <= 13,
            decoded matches Ok(tx) ==> tx.tag_of() == tag,
    {
        match tag {
            0 => Ok(Tx::Withdraw),
            1 => Ok(Tx::Deposit),
            2 => Ok(Tx::Execution),
            3 => Ok(Tx::IncreaseAvail),
            4 => Ok(Tx::DecreaseAvail),
            5 => Ok(Tx::IxferSent),
            6 => Ok(Tx::IxferRec),
            7 => Ok(Tx::RecoverFunds),
            8 => Ok(Tx::AddGas),
            9 => Ok(Tx::RemoveGas),
            10 => Ok(Tx::AutoFill),
            11 => Ok(Tx::CcTrade),
            12 => Ok(Tx::ConvertFrom),
            13 => Ok(Tx::ConvertTo),
            _ => Err(CodecError::BadTag),
        }
    }
}

impl TryFrom<u8> for Tx {
    type Error = CodecError;

    fn try_from(value: u8) -> (decoded: Result<Tx, CodecError>) {
        Tx::from_tag(value)
    }
}

impl TryFromSpecImpl<u8> for Tx {
    open spec fn obeys_try_from_spec() -> bool {
        true
    }

    open spec fn try_from_spec(value: u8) -> Result<Tx, CodecError> {
        match Tx::of_tag(value) {
            Some(tx) => Ok(tx),
            None => Err(CodecError::BadTag),
        }
    }
}

/// The kind of a cross-chain message. Transfers are the only kind.
#[derive(Clone, Copy, Debug, PartialEq, Eq, Structural)]
pub enum XChainMsgType {
    XFER,
}

impl XChainMsgType {
    /// The byte that stands for the variant on the wire.
    pub open spec fn tag_of(self) -> u8 {
        0
    }

    /// The variant that `tag` stands for, if it stands for one.
    pub open spec fn of_tag(tag: u8) -> Option<XChainMsgType> {
        if tag == 0 {
            Some(XChainMsgType::XFER)
        } else {
            None
        }
    }

    /// The byte that stands for the variant on the wire.
    pub fn tag(&self) -> (tag: u8)
        ensures
            tag == self.tag_of(),
            XChainMsgType::of_tag(tag) == Some(*self),
    {
        0
    }

    /// The variant that `tag` stands for. Any byte but 0 stands for none and
    /// is refused with `BadTag`.
    pub fn from_tag(tag: u8) -> (decoded: Result<XChainMsgType, CodecError>)
        ensures
            decoded == match XChainMsgType::of_tag(tag) {
                Some(kind) => Ok::<XChainMsgType, CodecError>(kind),
                None => Err::<XChainMsgType, CodecError>(CodecError::BadTag),
            },
            decoded is Ok <==> tag == 0,
    {
        match tag {
            0 => Ok(XChainMsgType::XFER),
            _ => Err(CodecError::BadTag),
        }
    }
}

impl TryFrom<u8> for XChainMsgType {
    type Error = CodecError;

    fn try_from(value: u8) -> (decoded: Result<XChainMsgType, CodecError>) {
        XChainMsgType::from_tag(value)
    }
}

impl TryFromSpecImpl<u8> for XChainMsgType {
    open spec fn obeys_try_from_spec() -> bool {
        true
    }

    open spec fn try_from_spec(value: u8) -> Result<XChainMsgType, CodecError> {
        match XChainMsgType::of_tag(value) {
            Some(kind) => Ok(kind),
            None => Err(CodecError::BadTag),
        }
    }
}

/// A transfer message. It lives only between its making and its packing, or
/// between its unpacking and its use: it is never stored.
#[derive(Clone, Copy, Debug)]
pub struct XFER {
    pub nonce: u64,
    pub transaction: Tx,
    pub trader: [u8; 32],
    pub symbol: [u8; 32],
    /// A 256-bit quantity in four limbs, in the order in which the frame
    /// carries them.
    pub quantity: [u64; 4],
    pub timestamp: u32,
    pub custom_data: [u8; 18],
    pub message_type: XChainMsgType,
}

/// A transfer message as a value of specifications.
pub struct XferView {
    pub nonce: u64,
    pub transaction: Tx,
    pub trader: Seq<u8>,
    pub symbol: Seq<u8>,
    pub quantity: Seq<u64>,
    pub timestamp: u32,
    pub custom_data: Seq<u8>,
    pub message_type: XChainMsgType,
}

impl View for XFER {
    type V = XferView;

    open spec fn view(&self) -> XferView {
        XferView {
            nonce: self.nonce,
            transaction: self.transaction,
            trader: self.trader@,
            symbol: self.symbol@,
            quantity: self.quantity@,
            timestamp: self.timestamp,
            custom_data: self.custom_data@,
            message_type: self.message_type,
        }
    }
}

impl XferView {
    /// Tells whether every field has the width that the frame gives it.
    pub open spec fn fits(self) -> bool {
        &&& self.trader.len() == 32
        &&& self.symbol.len() == 32
        &&& self.quantity.len() == 4
        &&& self.custom_data.len() == 18
    }
}

/// Four 64-bit limbs as 32 bytes: each limb big-endian, in the order of the
/// limbs.
pub open spec fn limbs_to_bytes(limbs: Seq<u64>) -> Seq<u8> {
    be_bytes(limbs[0] as nat, 8) + be_bytes(limbs[1] as nat, 8) + be_bytes(limbs[2] as nat, 8)
        + be_bytes(limbs[3] as nat, 8)
}

/// 32 bytes as four 64-bit limbs: limb `i` is what the bytes from `8 i` up to
/// `8 i + 8` write, big-endian.
pub open spec fn bytes_to_limbs(bytes: Seq<u8>) -> Seq<u64> {
    Seq::new(4, |i: int| be_value(bytes.subrange(8 * i, 8 * i + 8)) as u64)
}

/// The frame that carries `message`.
pub open spec fn frame_of(message: XferView) -> Seq<u8> {
    message.custom_data + be_bytes(message.timestamp as nat, 4) + be_bytes(message.nonce as nat, 8)
        + seq![message.transaction.tag_of(), message.message_type.tag_of()] + message.trader
        + message.symbol + limbs_to_bytes(message.quantity)
}

/// The message that `frame` carries, or the reason why it carries none.
pub open spec fn message_of(frame: Seq<u8>) -> Result<XferView, CodecError> {
    if frame.len() != FRAME_LEN {
        Err(CodecError::BadLength)
    } else {
        match (Tx::of_tag(frame[30]), XChainMsgType::of_tag(frame[31])) {
            (Some(transaction), Some(message_type)) => Ok(
                XferView {
                    nonce: be_value(frame.subrange(22, 30)) as u64,
                    transaction,
                    trader: frame.subrange(32, 64),
                    symbol: frame.subrange(64, 96),
                    quantity: bytes_to_limbs(frame.subrange(96, 128)),
                    timestamp: be_value(frame.subrange(18, 22)) as u32,
                    custom_data: frame.subrange(0, 18),
                    message_type,
                },
            ),
            _ => Err(CodecError::BadTag),
        }
    }
}

impl XFER {
    /// A transfer message with nonce 0.
    pub fn new(
        transaction: Tx,
        trader: [u8; 32],
        symbol: [u8; 32],
        quantity: [u64; 4],
        timestamp: u32,
        custom_data: [u8; 18],
    ) -> (message: XFER)
        ensures
            message.nonce == 0,
            message.transaction == transaction,
            message.trader == trader,
            message.symbol == symbol,
            message.quantity == quantity,
            message.timestamp == timestamp,
            message.custom_data == custom_data,
            message.message_type == XChainMsgType::XFER,
    {
        XFER {
            nonce: 0,
            transaction,
            trader,
            symbol,
            quantity,
            timestamp,
            custom_data,
            message_type: XChainMsgType::XFER,
        }
    }

    /// Tells whether the message moves nothing: whether all four limbs of
    /// its quantity are zero.
    pub open spec fn moves_nothing(self) -> bool {
        self.quantity[0] == 0 && self.quantity[1] == 0 && self.quantity[2] == 0
            && self.quantity[3] == 0
    }

    /// Refuses a transfer of nothing with `ZeroTokenQuantity`; lets every
    /// other transfer pass.
    pub fn require_quantity(&self) -> (passage: Result<(), PortfolioError>)
        ensures
            passage == if self.moves_nothing() {
                Err::<(), PortfolioError>(PortfolioError::ZeroTokenQuantity)
            } else {
                Ok::<(), PortfolioError>(())
            },
    {
        if self.quantity[0] == 0 && self.quantity[1] == 0 && self.quantity[2] == 0
            && self.quantity[3] == 0 {
            Err(PortfolioError::ZeroTokenQuantity)
        } else {
            Ok(())
        }
    }

    /// Packs the message into its frame. Every field has a fixed width, so
    /// packing never fails, and the frame is always 128 bytes long.
    pub fn pack_xfer_message(&self) -> (packed: Result<Vec<u8>, CodecError>)
        ensures
            packed is Ok,
            packed->Ok_0@ == frame_of(self@),
            packed->Ok_0@.len() == FRAME_LEN,
    {
        let mut frame: Vec<u8> = Vec::with_capacity(FRAME_LEN);
        frame.extend_from_slice(self.custom_data.as_slice());
        push_be(&mut frame, self.timestamp as u64, 4);
        push_be(&mut frame, self.nonce, 8);
        frame.push(self.transaction.tag());
        frame.push(self.message_type.tag());
        frame.extend_from_slice(self.trader.as_slice());
        frame.extend_from_slice(self.symbol.as_slice());
        let limbs = convert_u64_4_to_u8_32_be(&self.quantity);
        frame.extend_from_slice(limbs.as_slice());
        proof {
            lemma_frame_len(self@);
            assert(frame@ =~= frame_of(self@));
        }
        Ok(frame)
    }
}

/// A frame is 128 bytes long.
pub proof fn lemma_frame_len(message: XferView)
    requires
        message.fits(),
    ensures
        frame_of(message).len() == FRAME_LEN,
        limbs_to_bytes(message.quantity).len() == 32,
{
    lemma_be_bytes_len(message.timestamp as nat, 4);
    lemma_be_bytes_len(message.nonce as nat, 8);
    lemma_be_bytes_len(message.quantity[0] as nat, 8);
    lemma_be_bytes_len(message.quantity[1] as nat, 8);
    lemma_be_bytes_len(message.quantity[2] as nat, 8);
    lemma_be_bytes_len(message.quantity[3] as nat, 8);
}

/// Writes four 64-bit limbs as 32 bytes: each limb big-endian, limb `i` at
/// the bytes from `8 i` up to `8 i + 8`.
pub fn convert_u64_4_to_u8_32_be(data: &[u64; 4]) -> (bytes: [u8; 32])
    ensures
        bytes@ == limbs_to_bytes(data@),
{
    let mut written: Vec<u8> = Vec::with_capacity(32);
    push_be(&mut written, data[0], 8);
    push_be(&mut written, data[1], 8);
    push_be(&mut written, data[2], 8);
    push_be(&mut written, data[3], 8);
    proof {
        lemma_be_bytes_len(data[0] as nat, 8);
        lemma_be_bytes_len(data[1] as nat, 8);
        lemma_be_bytes_len(data[2] as nat, 8);
        lemma_be_bytes_len(data[3] as nat, 8);
        assert(written@ =~= limbs_to_bytes(data@));
    }
    let bytes: [u8; 32] = take::<32>(written.as_slice(), 0);
    assert(written@.subrange(0, 32) =~= written@);
    bytes
}

/// Reads 32 bytes as four 64-bit limbs: limb `i` is what the bytes from `8 i`
/// up to `8 i + 8` write, big-endian.
pub fn convert_u8_32_be_to_u64_4(data: &[u8; 32]) -> (limbs: [u64; 4])
    ensures
        limbs@ == bytes_to_limbs(data@),
{
    let bytes = data.as_slice();
    let limbs: [u64; 4] = [
        read_be(bytes, 0, 8),
        read_be(bytes, 8, 8),
        read_be(bytes, 16, 8),
        read_be(bytes, 24, 8),
    ];
    proof {
        lemma_radix_values();
        lemma_be_value_bound(data@.subrange(0, 8));
        lemma_be_value_bound(data@.subrange(8, 16));
        lemma_be_value_bound(data@.subrange(16, 24));
        lemma_be_value_bound(data@.subrange(24, 32));
        assert(limbs@ =~= bytes_to_limbs(data@));
    }
    limbs
}

/// Unpacks a frame into the message it carries.
///
/// A payload that is not exactly 128 bytes long is refused with `BadLength`.
/// A payload of 128 bytes whose byte 30 is above 13, or whose byte 31 is not
/// 0, is refused with `BadTag`. Every other payload carries a message.
pub fn unpack_xfer_message(payload: &[u8]) -> (unpacked: Result<XFER, CodecError>)
    ensures
        match unpacked {
            Ok(message) => message_of(payload@) == Ok::<XferView, CodecError>(message@),
            Err(e) => message_of(payload@) == Err::<XferView, CodecError>(e),
        },
        payload@.len() != 128 <==> unpacked == Err::<XFER, CodecError>(CodecError::BadLength),
        payload@.len() == 128 && (payload@[30] > 13 || payload@[31] != 0) <==> unpacked == Err::<
            XFER,
            CodecError,
        >(CodecError::BadTag),
        unpacked matches Ok(message) ==> frame_of(message@) == payload@,
{
    if payload.len() != FRAME_LEN {
        return Err(CodecError::BadLength);
    }
    let custom_data: [u8; 18] = take::<18>(payload, 0);
    let timestamp: u64 = read_be(payload, 18, 4);
    let nonce: u64 = read_be(payload, 22, 8);
    let transaction = match Tx::from_tag(payload[30]) {
        Ok(transaction) => transaction,
        Err(e) => {
            return Err(e);
        },
    };
    let message_type = match XChainMsgType::from_tag(payload[31]) {
        Ok(message_type) => message_type,
        Err(e) => {
            return Err(e);
        },
    };
    let trader: [u8; 32] = take::<32>(payload, 32);
    let symbol: [u8; 32] = take::<32>(payload, 64);
    let slot: [u8; 32] = take::<32>(payload, 96);
    let quantity = convert_u8_32_be_to_u64_4(&slot);
    proof {
        lemma_radix_values();
        lemma_be_value_bound(payload@.subrange(18, 22));
        lemma_be_value_bound(payload@.subrange(22, 30));
    }
    let message = XFER {
        nonce,
        transaction,
        trader,
        symbol,
        quantity,
        timestamp: timestamp as u32,
        custom_data,
        message_type,
    };
    proof {
        lemma_frame_of_message(payload@);
    }
    Ok(message)
}

/// Unpacking undoes packing: the frame of a message carries that message,
/// field by field.
pub proof fn lemma_unpack_of_pack(message: XferView)
    requires
        message.fits(),
    ensures
        message_of(frame_of(message)) == Ok::<XferView, CodecError>(message),
{
    let frame = frame_of(message);
    lemma_frame_len(message);
    lemma_be_bytes_len(message.timestamp as nat, 4);
    lemma_be_bytes_len(message.nonce as nat, 8);
    lemma_radix_values();
    lemma_be_value_of_bytes(message.timestamp as nat, 4);
    lemma_be_value_of_bytes(message.nonce as nat, 8);
    assert(frame.subrange(0, 18) =~= message.custom_data);
    assert(frame.subrange(18, 22) =~= be_bytes(message.timestamp as nat, 4));
    assert(frame.subrange(22, 30) =~= be_bytes(message.nonce as nat, 8));
    assert(frame[30] == message.transaction.tag_of());
    assert(frame[31] == message.message_type.tag_of());
    assert(frame.subrange(32, 64) =~= message.trader);
    assert(frame.subrange(64, 96) =~= message.symbol);
    let slot = frame.subrange(96, 128);
    assert(slot =~= limbs_to_bytes(message.quantity));
    lemma_limbs_of_bytes(message.quantity);
    let found = message_of(frame)->Ok_0;
    assert(found.quantity =~= message.quantity);
}

/// Reading four limbs back from the bytes they were written to gives the
/// limbs.
pub proof fn lemma_limbs_of_bytes(limbs: Seq<u64>)
    requires
        limbs.len() == 4,
    ensures
        bytes_to_limbs(limbs_to_bytes(limbs)) == limbs,
{
    let bytes = limbs_to_bytes(limbs);
    lemma_radix_values();
    assert forall|i: int| 0 <= i < 4 implies bytes_to_limbs(bytes)[i] == limbs[i] by {
        lemma_be_bytes_len(limbs[0] as nat, 8);
        lemma_be_bytes_len(limbs[1] as nat, 8);
        lemma_be_bytes_len(limbs[2] as nat, 8);
        lemma_be_bytes_len(limbs[3] as nat, 8);
        lemma_be_value_of_bytes(limbs[i] as nat, 8);
        assert(bytes.subrange(8 * i, 8 * i + 8) =~= be_bytes(limbs[i] as nat, 8));
    }
    assert(bytes_to_limbs(bytes) =~= limbs);
}

/// Writing the limbs that 32 bytes hold gives the bytes back.
pub proof fn lemma_bytes_of_limbs(bytes: Seq<u8>)
    requires
        bytes.len() == 32,
    ensures
        limbs_to_bytes(bytes_to_limbs(bytes)) == bytes,
{
    lemma_radix_values();
    let limbs = bytes_to_limbs(bytes);
    assert forall|i: int| 0 <= i < 4 implies be_bytes(limbs[i] as nat, 8) == bytes.subrange(
        8 * i,
        8 * i + 8,
    ) by {
        let part = bytes.subrange(8 * i, 8 * i + 8);
        lemma_be_value_bound(part);
        lemma_be_bytes_of_value(part);
    }
    assert(limbs_to_bytes(limbs) =~= bytes);
}

/// Packing undoes unpacking: a frame that carries a message is the frame of
/// that message, byte by byte.
pub proof fn lemma_frame_of_message(frame: Seq<u8>)
    requires
        message_of(frame) is Ok,
    ensures
        message_of(frame)->Ok_0.fits(),
        frame_of(message_of(frame)->Ok_0) == frame,
{
    let message = message_of(frame)->Ok_0;
    lemma_radix_values();
    let stamp = frame.subrange(18, 22);
    let nonce = frame.subrange(22, 30);
    lemma_be_value_bound(stamp);
    lemma_be_value_bound(nonce);
    lemma_be_bytes_of_value(stamp);
    lemma_be_bytes_of_value(nonce);
    lemma_bytes_of_limbs(frame.subrange(96, 128));
    assert(frame_of(message) =~= frame);
}

/// Two messages with the same view are the same message.
pub proof fn lemma_same_view(a: XFER, b: XFER)
    requires
        a@ == b@,
    ensures
        a == b,
{
    assert(a.trader =~= b.trader);
    assert(a.symbol =~= b.symbol);
    assert(a.quantity =~= b.quantity);
    assert(a.custom_data =~= b.custom_data);
}

} // verus!
