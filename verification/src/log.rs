//! Event kinds and event records of the market maker's structured log.

use crate::account::Address;
use crate::wire::put;
use vstd::prelude::*;

verus! {

/// The kind of a logged event.
#[derive(Debug, Clone, Copy, PartialEq, Eq, Structural)]
pub enum LogType {
    /// Pool initialization.
    Init,
    /// Liquidity deposit.
    Deposit,
    /// Liquidity withdrawal.
    Withdraw,
    /// Swap with an exact input amount.
    SwapBaseIn,
    /// Swap with an exact output amount.
    SwapBaseOut,
}

impl LogType {
    /// The tag byte that stands for this kind on the wire.
    pub open spec fn tag(self) -> u8 {
        match self {
            LogType::Init => 0u8,
            LogType::Deposit => 1u8,
            LogType::Withdraw => 2u8,
            LogType::SwapBaseIn => 3u8,
            LogType::SwapBaseOut => 4u8,
        }
    }

    /// The kind that a tag byte stands for. Tags above 4 name no kind.
    pub fn from_u8(log_type: u8) -> (kind: Self)
        requires
            log_type <= 4,
        ensures
            kind.tag() == log_type,
            kind == kind_of_tag(log_type),
    {
        if log_type == 0 {
            LogType::Init
        } else if log_type == 1 {
            LogType::Deposit
        } else if log_type == 2 {
            LogType::Withdraw
        } else if log_type == 3 {
            LogType::SwapBaseIn
        } else {
            LogType::SwapBaseOut
        }
    }

    /// The tag byte of this kind.
    pub fn into_u8(&self) -> (tag: u8)
        ensures
            tag == self.tag(),
            tag <= 4,
    {
        match self {
            LogType::Init => 0u8,
            LogType::Deposit => 1u8,
            LogType::Withdraw => 2u8,
            LogType::SwapBaseIn => 3u8,
            LogType::SwapBaseOut => 4u8,
        }
    }
}

/// Every kind has a tag of its own, and reading a tag gives back the kind
/// that wrote it.
pub proof fn tag_identifies_kind(first: LogType, second: LogType)
    ensures
        first.tag() <= 4,
        first.tag() == second.tag() <==> first == second,
{
}

/// The longest line that the log takes.
pub const LOG_SIZE: usize = 256;

/// The bytes that open every logged event: `ray_log: `.
pub open spec fn ray_log_prefix() -> Seq<u8> {
    seq![114u8, 97, 121, 95, 108, 111, 103, 58, 32]
}

/// The standard base64 text, padded, of a byte string.
pub uninterp spec fn base64_standard(bytes: Seq<u8>) -> Seq<u8>;

/// The byte string that a standard base64 text stands for, if it is one.
pub uninterp spec fn base64_decoded(text: Seq<u8>) -> Option<Seq<u8>>;

/// The length of the padded base64 text of `len` bytes: four characters
/// for every three bytes begun.
pub open spec fn base64_len(len: int) -> int {
    4 * ((len + 2) / 3)
}

/// The log line of an encoded event record: the prefix and the base64 text
/// of the record, where both fit the longest line.
pub open spec fn ray_log_line_of(record: Seq<u8>) -> Option<Seq<u8>> {
    if 9 + base64_len(record.len() as int) <= LOG_SIZE {
        Some(ray_log_prefix() + base64_standard(record))
    } else {
        None
    }
}

/// The kind of an encoded event record: the kind of its first byte, where
/// it has one and that byte is a tag.
pub open spec fn record_kind(record: Seq<u8>) -> Option<LogType> {
    if record.len() > 0 && record[0] <= 4 {
        Some(kind_of_tag(record[0]))
    } else {
        None
    }
}

/// The kind that a tag stands for.
pub open spec fn kind_of_tag(tag: u8) -> LogType
    recommends
        tag <= 4,
{
    if tag == 0 {
        LogType::Init
    } else if tag == 1 {
        LogType::Deposit
    } else if tag == 2 {
        LogType::Withdraw
    } else if tag == 3 {
        LogType::SwapBaseIn
    } else {
        LogType::SwapBaseOut
    }
}

/// `base64::encode_config` with the standard alphabet and padding: the
/// text of `bytes`, four characters for every three bytes begun.
#[verifier::external_body]
fn base64_text(bytes: &[u8]) -> (text: Vec<u8>)
    requires
        bytes@.len() <= LOG_SIZE,
    ensures
        text@ == base64_standard(bytes@),
        text@.len() == base64_len(bytes@.len() as int),
{
    base64::encode_config(bytes, base64::STANDARD).into_bytes()
}

/// `base64::decode_config` with the standard alphabet and padding: the
/// bytes that `text` stands for, or nothing where it is no such text.
#[verifier::external_body]
fn base64_bytes(text: &[u8]) -> (bytes: Option<Vec<u8>>)
    ensures
        match bytes {
            Some(b) => Some(b@),
            None => None,
        } == base64_decoded(text@),
{
    base64::decode_config(text, base64::STANDARD).ok()
}

/// Puts the log prefix before the base64 text of an event record.
pub fn frame_ray_log(text: Vec<u8>) -> (line: Vec<u8>)
    ensures
        line@ == ray_log_prefix() + text@,
{
    let mut line: Vec<u8> = vec![114u8, 97, 121, 95, 108, 111, 103, 58, 32];
    proof {
        assert(line@ =~= ray_log_prefix());
    }
    put(&mut line, text);
    line
}

/// The log line of an encoded event record, or nothing where the line
/// would be longer than the log takes.
pub fn ray_log_line(record: &[u8]) -> (line: Option<Vec<u8>>)
    ensures
        match line {
            Some(l) => Some(l@),
            None => None,
        } == ray_log_line_of(record@),
{
    if record.len() > 183 {
        return None;
    }
    let text = base64_text(record);
    Some(frame_ray_log(text))
}

/// The kind of an encoded event record.
pub fn kind_of_record(record: &[u8]) -> (kind: Option<LogType>)
    ensures
        kind == record_kind(record@),
{
    if record.len() == 0 {
        return None;
    }
    let tag = record[0];
    if tag > 4 {
        return None;
    }
    Some(LogType::from_u8(tag))
}

/// Reads a logged event: the record behind its base64 text, with its
/// kind. Nothing comes back where the text is no base64, or the record is
/// empty or opens with no tag.
pub fn read_ray_log(text: &[u8]) -> (event: Option<(LogType, Vec<u8>)>)
    ensures
        match event {
            Some((kind, record)) => base64_decoded(text@) == Some(record@) && record_kind(record@)
                == Some(kind),
            None => match base64_decoded(text@) {
                Some(record) => record_kind(record) is None,
                None => true,
            },
        },
{
    match base64_bytes(text) {
        Some(record) => {
            match kind_of_record(record.as_slice()) {
                Some(kind) => Some((kind, record)),
                None => None,
            }
        },
        None => None,
    }
}

/// What is logged when a pool is initialized.
#[derive(Clone, Debug, Default, PartialEq)]
pub struct InitLog {
    /// The tag of the event kind.
    pub log_type: u8,
    /// The time of the pool's creation.
    pub time: u64,
    /// Decimal places of the quote token.
    pub pc_decimals: u8,
    /// Decimal places of the base token.
    pub coin_decimals: u8,
    /// Lot size of the quote token at the venue.
    pub pc_lot_size: u64,
    /// Lot size of the base token at the venue.
    pub coin_lot_size: u64,
    /// Quote amount first deposited.
    pub pc_amount: u64,
    /// Base amount first deposited.
    pub coin_amount: u64,
    /// The market the pool shares its liquidity with.
    pub market: Address,
}

/// What is logged when liquidity is deposited.
#[derive(Clone, Debug, Default, PartialEq)]
pub struct DepositLog {
    /// The tag of the event kind.
    pub log_type: u8,
    /// The most base units the user would deposit.
    pub max_coin: u64,
    /// The most quote units the user would deposit.
    pub max_pc: u64,
    /// The side the calculation starts from.
    pub base: u64,
    /// The pool's base balance.
    pub pool_coin: u64,
    /// The pool's quote balance.
    pub pool_pc: u64,
    /// The supply of pool shares.
    pub pool_lp: u64,
    /// Profit and loss calculated on the base side.
    pub calc_pnl_x: u128,
    /// Profit and loss calculated on the quote side.
    pub calc_pnl_y: u128,
    /// Base units taken from the user.
    pub deduct_coin: u64,
    /// Quote units taken from the user.
    pub deduct_pc: u64,
    /// Pool shares minted to the user.
    pub mint_lp: u64,
}

/// What is logged when liquidity is withdrawn.
#[derive(Clone, Debug, Default, PartialEq)]
pub struct WithdrawLog {
    /// The tag of the event kind.
    pub log_type: u8,
    /// Pool shares handed in.
    pub withdraw_lp: u64,
    /// Pool shares the user held.
    pub user_lp: u64,
    /// The pool's base balance.
    pub pool_coin: u64,
    /// The pool's quote balance.
    pub pool_pc: u64,
    /// The supply of pool shares.
    pub pool_lp: u64,
    /// Profit and loss calculated on the base side.
    pub calc_pnl_x: u128,
    /// Profit and loss calculated on the quote side.
    pub calc_pnl_y: u128,
    /// Base units paid out.
    pub out_coin: u64,
    /// Quote units paid out.
    pub out_pc: u64,
}

/// What is logged on a swap with an exact input.
#[derive(Clone, Debug, Default, PartialEq)]
pub struct SwapBaseInLog {
    /// The tag of the event kind.
    pub log_type: u8,
    /// Units paid in.
    pub amount_in: u64,
    /// The least the user accepts.
    pub minimum_out: u64,
    /// The direction of the swap.
    pub direction: u64,
    /// The balance of the user's source account.
    pub user_source: u64,
    /// The pool's base balance.
    pub pool_coin: u64,
    /// The pool's quote balance.
    pub pool_pc: u64,
    /// Units paid out.
    pub out_amount: u64,
}

/// What is logged on a swap with an exact output.
#[derive(Clone, Debug, Default, PartialEq)]
pub struct SwapBaseOutLog {
    /// The tag of the event kind.
    pub log_type: u8,
    /// The most the user would pay.
    pub max_in: u64,
    /// Units paid out.
    pub amount_out: u64,
    /// The direction of the swap.
    pub direction: u64,
    /// The balance of the user's source account.
    pub user_source: u64,
    /// The pool's base balance.
    pub pool_coin: u64,
    /// The pool's quote balance.
    pub pool_pc: u64,
    /// Units taken from the user.
    pub deduct_in: u64,
}

} // verus!
