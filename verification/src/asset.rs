use vstd::prelude::*;

use crate::dec::{pow10, Dec256};
use crate::error::Error;
use crate::strutil::{
    format_u128, has_ibc_prefix, is_lowercase, lower_of, spec_dec_str, spec_has_ibc_prefix,
    spec_is_lowercase, spec_str_le, str_le,
};
use vstd::string::StringExecFns;

verus! {

/// Number of decimal places of a chain-native token.
pub const NATIVE_TOKEN_PRECISION: u8 = 6;

/// Identity of a fungible asset: either a chain-native token, known by
/// its denomination, or a contract-issued token, known by the token
/// contract's address.
#[derive(Debug)]
pub enum AssetInfo {
    /// Contract-issued token
    Token { contract_addr: String },
    /// Chain-native token
    NativeToken { denom: String },
}

impl Clone for AssetInfo {
    fn clone(&self) -> (r: AssetInfo)
        ensures
            r == *self,
    {
        match self {
            AssetInfo::Token { contract_addr } => AssetInfo::Token {
                contract_addr: contract_addr.clone(),
            },
            AssetInfo::NativeToken { denom } => AssetInfo::NativeToken { denom: denom.clone() },
        }
    }
}

impl PartialEq for AssetInfo {
    fn eq(&self, other: &AssetInfo) -> (r: bool) {
        self.equal(other)
    }
}

impl vstd::std_specs::cmp::PartialEqSpecImpl for AssetInfo {
    open spec fn obeys_eq_spec() -> bool {
        true
    }

    open spec fn eq_spec(&self, other: &AssetInfo) -> bool {
        self.eq_spec_with(*other)
    }
}

impl AssetInfo {
    /// The identifying string: the denom of a native token, the
    /// contract address of a contract token.
    pub open spec fn spec_ident(self) -> Seq<char> {
        match self {
            AssetInfo::Token { contract_addr } => contract_addr@,
            AssetInfo::NativeToken { denom } => denom@,
        }
    }

    /// Whether this asset is a chain-native token.
    pub open spec fn spec_is_native(self) -> bool {
        self matches AssetInfo::NativeToken { .. }
    }

    /// Returns true exactly when the asset is a chain-native token.
    pub fn is_native_token(&self) -> (r: bool)
        ensures
            r == self.spec_is_native(),
    {
        match self {
            AssetInfo::NativeToken { .. } => true,
            AssetInfo::Token { .. } => false,
        }
    }

    /// What `equal` decides: the same variant with the same
    /// identifying characters.
    pub open spec fn eq_spec_with(self, other: AssetInfo) -> bool {
        self.spec_is_native() == other.spec_is_native() && self.spec_ident() == other.spec_ident()
    }

    /// Returns true exactly when both values name the same asset: the
    /// same variant, and the same denom or contract address.
    pub fn equal(&self, asset: &AssetInfo) -> (r: bool)
        ensures
            r == self.eq_spec_with(*asset),
    {
        match (self, asset) {
            (
                AssetInfo::NativeToken { denom },
                AssetInfo::NativeToken { denom: other_denom },
            ) => *denom == *other_denom,
            (
                AssetInfo::Token { contract_addr },
                AssetInfo::Token { contract_addr: other_contract_addr },
            ) => *contract_addr == *other_contract_addr,
            _ => false,
        }
    }

    /// The identifying string as UTF-8 bytes: the denom of a native
    /// token, the contract address of a contract token.
    pub fn as_bytes(&self) -> (r: &[u8])
        ensures
            r@ == vstd::utf8::encode_utf8(self.spec_ident()),
    {
        match self {
            AssetInfo::NativeToken { denom } => denom.as_str().as_bytes(),
            AssetInfo::Token { contract_addr } => contract_addr.as_str().as_bytes(),
        }
    }

    /// A well-formed asset identity: a lowercase contract address, or
    /// a denom that is lowercase unless it carries the `ibc/` prefix.
    pub open spec fn spec_check_ok(self) -> bool {
        match self {
            AssetInfo::Token { contract_addr } => spec_is_lowercase(contract_addr@),
            AssetInfo::NativeToken { denom } => spec_has_ibc_prefix(denom@) || spec_is_lowercase(
                denom@,
            ),
        }
    }

    /// The error `check` reports for a malformed asset identity.
    pub open spec fn spec_check_err(self) -> Error {
        match self {
            AssetInfo::Token { contract_addr } => Error::AddrNotLowercase { addr: contract_addr },
            AssetInfo::NativeToken { denom } => Error::DenomNotLowercase { denom },
        }
    }

    /// Checks that the token's denom or contract address is lowercase;
    /// denoms with the `ibc/` prefix are accepted as written.
    pub fn check(&self) -> (r: Result<(), Error>)
        ensures
            r is Ok <==> self.spec_check_ok(),
            r is Err ==> r == Err::<(), Error>(self.spec_check_err()),
    {
        match self {
            AssetInfo::Token { contract_addr } => {
                if is_lowercase(contract_addr) {
                    Ok(())
                } else {
                    Err(Error::AddrNotLowercase { addr: contract_addr.clone() })
                }
            },
            AssetInfo::NativeToken { denom } => {
                if has_ibc_prefix(denom) || is_lowercase(denom) {
                    Ok(())
                } else {
                    Err(Error::DenomNotLowercase { denom: denom.clone() })
                }
            },
        }
    }

    /// The number of decimals the token has.  A native token has the
    /// protocol-level precision; for a contract token the caller hands
    /// in what the token contract reported, or nothing if that query
    /// failed.
    pub fn decimals(&self, queried: Option<u8>) -> (r: Result<u8, Error>)
        ensures
            self.spec_is_native() ==> r == Ok::<u8, Error>(NATIVE_TOKEN_PRECISION),
            !self.spec_is_native() ==> match queried {
                Some(d) => r == Ok::<u8, Error>(d),
                None => r == Err::<u8, Error>(Error::QueryFailed),
            },
    {
        match self {
            AssetInfo::NativeToken { .. } => Ok(NATIVE_TOKEN_PRECISION),
            AssetInfo::Token { .. } => match queried {
                Some(d) => Ok(d),
                None => Err(Error::QueryFailed),
            },
        }
    }

    /// The balance query the host must answer to report this asset's
    /// balance in the pool at `pool_addr`.
    pub fn pool_query(&self, pool_addr: &String) -> (r: PoolQuery)
        ensures
            match *self {
                AssetInfo::NativeToken { denom } => r matches PoolQuery::NativeBalance {
                    address,
                    denom: d,
                } && address@ == pool_addr@ && d@ == denom@,
                AssetInfo::Token { contract_addr } => r matches PoolQuery::TokenBalance {
                    contract_addr: c,
                    account,
                } && c@ == contract_addr@ && account@ == pool_addr@,
            },
    {
        match self {
            AssetInfo::NativeToken { denom } => PoolQuery::NativeBalance {
                address: pool_addr.clone(),
                denom: denom.clone(),
            },
            AssetInfo::Token { contract_addr } => PoolQuery::TokenBalance {
                contract_addr: contract_addr.clone(),
                account: pool_addr.clone(),
            },
        }
    }

    /// The identifying string as users see it: the denom of a native
    /// token, the contract address of a contract token.
    pub fn display_string(&self) -> (r: String)
        ensures
            r@ == self.spec_ident(),
    {
        match self {
            AssetInfo::NativeToken { denom } => denom.clone(),
            AssetInfo::Token { contract_addr } => contract_addr.clone(),
        }
    }

    /// Rank of the variant in the canonical order: contract tokens
    /// before native tokens.
    pub open spec fn spec_rank(self) -> int {
        match self {
            AssetInfo::Token { .. } => 0,
            AssetInfo::NativeToken { .. } => 1,
        }
    }

    /// Canonical order on asset identities: by variant rank, then by
    /// the identifying string in lexicographic order.
    pub open spec fn spec_le(self, other: AssetInfo) -> bool {
        if self.spec_rank() != other.spec_rank() {
            self.spec_rank() < other.spec_rank()
        } else {
            spec_str_le(self.spec_ident(), other.spec_ident())
        }
    }

    /// Returns true exactly when `self` comes at or before `other` in
    /// the canonical order.
    pub fn le(&self, other: &AssetInfo) -> (r: bool)
        ensures
            r == self.spec_le(*other),
    {
        match (self, other) {
            (AssetInfo::Token { .. }, AssetInfo::NativeToken { .. }) => true,
            (AssetInfo::NativeToken { .. }, AssetInfo::Token { .. }) => false,
            (
                AssetInfo::Token { contract_addr },
                AssetInfo::Token { contract_addr: other_contract_addr },
            ) => str_le(contract_addr, other_contract_addr),
            (
                AssetInfo::NativeToken { denom },
                AssetInfo::NativeToken { denom: other_denom },
            ) => str_le(denom, other_denom),
        }
    }
}

/// The canonical order is total.
pub proof fn lemma_asset_le_total(a: AssetInfo, b: AssetInfo)
    ensures
        a.spec_le(b) || b.spec_le(a),
{
    if a.spec_rank() == b.spec_rank() {
        crate::strutil::lemma_str_le_total(a.spec_ident(), b.spec_ident());
    }
}

/// Two asset identities that each come at or before the other name
/// the same asset.
pub proof fn lemma_asset_le_antisym(a: AssetInfo, b: AssetInfo)
    requires
        a.spec_le(b),
        b.spec_le(a),
    ensures
        a.eq_spec_with(b),
{
    if a.spec_rank() == b.spec_rank() {
        crate::strutil::lemma_str_le_antisym(a.spec_ident(), b.spec_ident());
    }
}

/// `equal` is reflexive and symmetric: every asset identity equals
/// itself, and the comparison does not depend on argument order.
pub proof fn lemma_equal_refl_symm(a: AssetInfo, b: AssetInfo)
    ensures
        a.eq_spec_with(a),
        a.eq_spec_with(b) == b.eq_spec_with(a),
{
}

/// A balance query addressed to the host: either a bank balance of a
/// denom held by an address, or a token contract's balance of an
/// account.
#[derive(Clone, Debug, PartialEq)]
pub enum PoolQuery {
    /// Query the bank balance of `denom` held by `address`
    NativeBalance { address: String, denom: String },
    /// Query `contract_addr`'s token balance of `account`
    TokenBalance { contract_addr: String, account: String },
}

/// A quantity of a native coin.
#[derive(Debug, PartialEq)]
pub struct Coin {
    /// The coin's denomination
    pub denom: String,
    /// The amount held
    pub amount: u128,
}

impl Clone for Coin {
    fn clone(&self) -> (r: Coin)
        ensures
            r == *self,
    {
        Coin { denom: self.denom.clone(), amount: self.amount }
    }
}

/// What a message carries about its sender: the sending address and
/// the native funds attached to the call.
#[derive(Clone, Debug)]
pub struct MessageInfo {
    /// The address the message came from
    pub sender: String,
    /// The native coins attached to the message
    pub funds: Vec<Coin>,
}

/// A transfer instruction addressed to the host chain: an execute call
/// on a token contract, or a bank send of native coins.
#[derive(Debug, PartialEq)]
pub enum TransferMsg {
    /// Invoke the token contract at `contract_addr` with the
    /// serialized message `msg`, attaching `funds`
    Cw20Execute { contract_addr: String, msg: Vec<u8>, funds: Vec<Coin> },
    /// Ask the bank module to move `amount` to `to_address`
    BankSend { to_address: String, amount: Vec<Coin> },
}

/// The serialized token-transfer invocation for the given recipient
/// and amount: a function of its arguments alone.
pub uninterp spec fn cw20_transfer_encoding(recipient: Seq<char>, amount: u128) -> Seq<u8>;

/// Relies on `cosmwasm_std::to_binary` applied to
/// `cw20::Cw20ExecuteMsg::Transfer`: the encoding is deterministic in
/// the recipient and the amount, and serialization failure is reported
/// as `None`.
#[verifier::external_body]
fn encode_cw20_transfer(recipient: String, amount: u128) -> (r: Option<Vec<u8>>)
    ensures
        r matches Some(v) ==> v@ == cw20_transfer_encoding(recipient@, amount),
{
    let msg = cw20::Cw20ExecuteMsg::Transfer { recipient, amount: cosmwasm_std::Uint128::new(
        amount,
    ) };
    match cosmwasm_std::to_binary(&msg) {
        Ok(b) => Some(b.0),
        Err(_) => None,
    }
}

/// A quantity of a specific asset.
#[derive(Debug, PartialEq)]
pub struct Asset {
    /// Which asset this is
    pub info: AssetInfo,
    /// The token amount
    pub amount: u128,
}

impl Clone for Asset {
    fn clone(&self) -> (r: Asset)
        ensures
            r == *self,
    {
        Asset { info: self.info.clone(), amount: self.amount }
    }
}

/// An asset amount rescaled to a fixed-point number with 18 decimal
/// places, used where rounding error must be minimized.
#[derive(Debug, PartialEq)]
pub struct DecimalAsset {
    /// Which asset this is
    pub info: AssetInfo,
    /// The amount, as a fixed-point number
    pub amount: Dec256,
}

impl Clone for DecimalAsset {
    fn clone(&self) -> (r: DecimalAsset)
        ensures
            r == *self,
    {
        DecimalAsset { info: self.info.clone(), amount: self.amount }
    }
}

impl Asset {
    /// Returns true exactly when the asset is a chain-native token.
    pub fn is_native_token(&self) -> (r: bool)
        ensures
            r == self.info.spec_is_native(),
    {
        self.info.is_native_token()
    }

    /// The asset as users see it: the amount in decimal writing,
    /// followed by the asset's identifying string.
    pub fn display_string(&self) -> (r: String)
        ensures
            r@ == spec_dec_str(self.amount as int) + self.info.spec_ident(),
    {
        let ident: &str = match &self.info {
            AssetInfo::NativeToken { denom } => denom.as_str(),
            AssetInfo::Token { contract_addr } => contract_addr.as_str(),
        };
        format_u128(self.amount).concat(ident)
    }

    /// The chain's tax on native transfers.  The tax rate is set to
    /// zero, so this returns zero for every asset.
    pub fn compute_tax(&self) -> (r: Result<u128, Error>)
        ensures
            r == Ok::<u128, Error>(0u128),
    {
        Ok(0)
    }

    /// The coin that remains of a native-token asset after the
    /// transfer tax is deducted; with the tax rate at zero, the full
    /// amount.  Fails on a contract-token asset: tax deduction is
    /// native-token-only.
    pub fn deduct_tax(&self) -> (r: Result<Coin, Error>)
        ensures
            self.info matches AssetInfo::NativeToken { denom } ==> (r matches Ok(c) && c.denom@
                == denom@ && c.amount == self.amount),
            !self.info.spec_is_native() ==> r == Err::<Coin, Error>(Error::CannotDeductTax),
    {
        if let AssetInfo::NativeToken { denom } = &self.info {
            let tax = match self.compute_tax() {
                Ok(t) => t,
                Err(e) => {
                    return Err(e);
                },
            };
            if self.amount >= tax {
                Ok(Coin { denom: denom.clone(), amount: self.amount - tax })
            } else {
                Err(Error::Underflow)
            }
        } else {
            Err(Error::CannotDeductTax)
        }
    }

    /// The transfer instruction that moves this asset to `recipient`:
    /// an execute call carrying the serialized token transfer for a
    /// contract token, a bank send of the after-tax coin for a native
    /// token.  Fails only when serializing the token transfer fails.
    pub fn into_msg(self, recipient: String) -> (r: Result<TransferMsg, Error>)
        ensures
            self.info matches AssetInfo::Token { contract_addr } ==> match r {
                Ok(m) => m matches TransferMsg::Cw20Execute { contract_addr: c, msg, funds }
                    && c@ == contract_addr@ && msg@ == cw20_transfer_encoding(
                    recipient@,
                    self.amount,
                ) && funds@.len() == 0,
                Err(e) => e == Error::EncodeFailed,
            },
            self.info matches AssetInfo::NativeToken { denom } ==> (r matches Ok(m) && (m
                matches TransferMsg::BankSend { to_address, amount } && to_address@ == recipient@
                && amount@.len() == 1 && amount@[0].denom@ == denom@ && amount@[0].amount
                == self.amount)),
    {
        match &self.info {
            AssetInfo::Token { contract_addr } => {
                match encode_cw20_transfer(recipient, self.amount) {
                    Some(bytes) => Ok(TransferMsg::Cw20Execute {
                        contract_addr: contract_addr.clone(),
                        msg: bytes,
                        funds: Vec::new(),
                    }),
                    None => Err(Error::EncodeFailed),
                }
            },
            AssetInfo::NativeToken { .. } => {
                let coin = match self.deduct_tax() {
                    Ok(c) => c,
                    Err(e) => {
                        return Err(e);
                    },
                };
                let mut amount: Vec<Coin> = Vec::new();
                amount.push(coin);
                Ok(TransferMsg::BankSend { to_address: recipient, amount })
            },
        }
    }

    /// Whether the declared amount agrees with the attached funds:
    /// the first fund entry of the asset's denom must carry exactly
    /// the declared amount, and without such an entry the declared
    /// amount must be zero.  A contract-token asset places no demand
    /// on the funds.
    pub open spec fn spec_sent_balance_ok(self, funds: Seq<Coin>) -> bool {
        match self.info {
            AssetInfo::NativeToken { denom } => spec_sent_ok(denom@, self.amount, funds),
            AssetInfo::Token { .. } => true,
        }
    }

    /// Validates an amount of native tokens being sent along with a
    /// message.
    pub fn assert_sent_native_token_balance(&self, message_info: &MessageInfo) -> (r: Result<
        (),
        Error,
    >)
        ensures
            r is Ok <==> self.spec_sent_balance_ok(message_info.funds@),
            r is Err ==> r == Err::<(), Error>(Error::NativeBalanceMismatch),
    {
        if let AssetInfo::NativeToken { denom } = &self.info {
            let funds = &message_info.funds;
            let n = funds.len();
            let mut i: usize = 0;
            assert(funds@.skip(0) =~= funds@);
            loop
                invariant
                    i <= n,
                    n == funds@.len(),
                    funds@ == message_info.funds@,
                    self.info matches AssetInfo::NativeToken { denom: d } && d == denom,
                    spec_sent_ok(denom@, self.amount, funds@) == spec_sent_ok(
                        denom@,
                        self.amount,
                        funds@.skip(i as int),
                    ),
                decreases n - i,
            {
                if i >= n {
                    proof {
                        assert(funds@.skip(i as int).len() == 0);
                        assert(spec_sent_ok(denom@, self.amount, funds@.skip(i as int)) == (
                        self.amount == 0));
                    }
                    if self.amount == 0 {
                        return Ok(());
                    } else {
                        return Err(Error::NativeBalanceMismatch);
                    }
                }
                let entry = &funds[i];
                if entry.denom == *denom {
                    proof {
                        assert(funds@.skip(i as int)[0] == funds@[i as int]);
                        assert(spec_sent_ok(denom@, self.amount, funds@.skip(i as int)) == (
                        funds@[i as int].amount == self.amount));
                    }
                    if self.amount == entry.amount {
                        return Ok(());
                    } else {
                        return Err(Error::NativeBalanceMismatch);
                    }
                }
                proof {
                    assert(funds@.skip(i as int).drop_first() =~= funds@.skip(i as int + 1));
                }
                i = i + 1;
            }
        } else {
            Ok(())
        }
    }

    /// The asset rescaled by the given decimal precision into a
    /// fixed-point amount with 18 decimal places, rounded toward
    /// zero.  Precisions so large that the scaled value falls below
    /// the smallest representable step yield zero; the conversion
    /// itself never fails.
    pub fn to_decimal_asset(&self, precision: u32) -> (r: Result<DecimalAsset, Error>)
        ensures
            r matches Ok(d) && d.info == self.info && d.amount.spec_atomics() == self.amount
                * pow10(18) / pow10(precision as nat),
    {
        Ok(DecimalAsset { info: self.info.clone(), amount: Dec256::from_atomics(
            self.amount,
            precision,
        ) })
    }
}

/// The declared amount matches the funds: decided by the first entry
/// whose denom agrees, and by a zero declared amount when no entry
/// agrees.
pub open spec fn spec_sent_ok(denom: Seq<char>, amount: u128, funds: Seq<Coin>) -> bool
    decreases funds.len(),
{
    if funds.len() == 0 {
        amount == 0
    } else if funds[0].denom@ == denom {
        funds[0].amount == amount
    } else {
        spec_sent_ok(denom, amount, funds.drop_first())
    }
}

/// Checks that an address is written entirely in lowercase, handing
/// it back unchanged; host-side validation of the address's encoding
/// is layered on top of this by the embedding.
pub fn addr_validate_to_lower(addr: &String) -> (r: Result<String, Error>)
    ensures
        r is Ok <==> spec_is_lowercase(addr@),
        r matches Ok(a) ==> a@ == addr@,
        r matches Err(e) ==> (e matches Error::AddrNotLowercase { addr: a } && a@ == addr@),
{
    if is_lowercase(addr) {
        Ok(addr.clone())
    } else {
        Err(Error::AddrNotLowercase { addr: addr.clone() })
    }
}

} // verus!
