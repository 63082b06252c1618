use vstd::prelude::*;

use crate::asset::{Asset, AssetInfo, DecimalAsset, NATIVE_TOKEN_PRECISION};
use crate::dec::pow10;
use crate::error::Error;

verus! {

/// Available pair/liquidity pool types.
#[derive(Debug)]
pub enum PairType {
    /// Stable swap pool type
    Stable {},
    /// Ranged pool type
    Ranged {},
    /// Constant product, x * y = k
    ConstProduct {},
    /// Custom pool type, identified by name
    Custom(String),
}

impl Clone for PairType {
    fn clone(&self) -> (r: PairType)
        ensures
            r == *self,
    {
        match self {
            PairType::Stable {  } => PairType::Stable {  },
            PairType::Ranged {  } => PairType::Ranged {  },
            PairType::ConstProduct {  } => PairType::ConstProduct {  },
            PairType::Custom(name) => PairType::Custom(name.clone()),
        }
    }
}

impl PairType {
    /// What equality of two pool types means: same variant, and for
    /// custom types the same name.
    pub open spec fn eq_spec_with(self, other: PairType) -> bool {
        match (self, other) {
            (PairType::Stable {  }, PairType::Stable {  }) => true,
            (PairType::Ranged {  }, PairType::Ranged {  }) => true,
            (PairType::ConstProduct {  }, PairType::ConstProduct {  }) => true,
            (PairType::Custom(a), PairType::Custom(b)) => a@ == b@,
            _ => false,
        }
    }

    /// The pool type's display name.
    pub fn display_name(&self) -> (r: String)
        ensures
            match self {
                PairType::Stable {  } => r@ == "Stable"@,
                PairType::Ranged {  } => r@ == "Ranged"@,
                PairType::ConstProduct {  } => r@ == "ConstProduct"@,
                PairType::Custom(name) => r@ == name@,
            },
    {
        match self {
            PairType::Stable {  } => "Stable".to_owned(),
            PairType::Ranged {  } => "Ranged".to_owned(),
            PairType::ConstProduct {  } => "ConstProduct".to_owned(),
            PairType::Custom(name) => name.clone(),
        }
    }
}

impl PartialEq for PairType {
    fn eq(&self, other: &PairType) -> (r: bool) {
        match (self, other) {
            (PairType::Stable {  }, PairType::Stable {  }) => true,
            (PairType::Ranged {  }, PairType::Ranged {  }) => true,
            (PairType::ConstProduct {  }, PairType::ConstProduct {  }) => true,
            (PairType::Custom(a), PairType::Custom(b)) => *a == *b,
            _ => false,
        }
    }
}

impl vstd::std_specs::cmp::PartialEqSpecImpl for PairType {
    open spec fn obeys_eq_spec() -> bool {
        true
    }

    open spec fn eq_spec(&self, other: &PairType) -> bool {
        self.eq_spec_with(*other)
    }
}

/// Maximum total fee, in basis points.
pub const MAX_TOTAL_FEE_BPS: u16 = 10_000;

/// Maximum maker fee, in basis points.
pub const MAX_MAKER_FEE_BPS: u16 = 10_000;

/// Per-pool-type policy held by the factory registry.
#[derive(Debug, PartialEq)]
pub struct PairConfig {
    /// Code id of the contract that implements this pool type
    pub contract_id: u64,
    /// The pool type this policy applies to
    pub pair_type: PairType,
    /// Total amount of fees (in bps) charged on a swap
    pub total_fee_bps: u16,
    /// Amount of fees (in bps) sent to the maker contract
    pub maker_fee_bps: u16,
    /// Whether creation of new pairs of this type is disabled
    pub is_disabled: bool,
    /// Whether the generator is disabled for this pool type
    pub is_generator_disabled: bool,
}

impl PairConfig {
    /// Both fee rates are within bounds: at most 10000 basis points
    /// (100%), the boundary included.
    pub open spec fn spec_valid_fee_bps(self) -> bool {
        self.total_fee_bps <= MAX_TOTAL_FEE_BPS && self.maker_fee_bps <= MAX_MAKER_FEE_BPS
    }

    /// Returns true exactly when both fee rates are within bounds.
    pub fn valid_fee_bps(&self) -> (r: bool)
        ensures
            r == self.spec_valid_fee_bps(),
    {
        self.total_fee_bps <= MAX_TOTAL_FEE_BPS && self.maker_fee_bps <= MAX_MAKER_FEE_BPS
    }
}


impl Clone for PairConfig {
    fn clone(&self) -> (r: PairConfig)
        ensures
            r == *self,
    {
        PairConfig {
            contract_id: self.contract_id,
            pair_type: self.pair_type.clone(),
            total_fee_bps: self.total_fee_bps,
            maker_fee_bps: self.maker_fee_bps,
            is_disabled: self.is_disabled,
            is_generator_disabled: self.is_generator_disabled,
        }
    }
}

/// The main parameters of a registered liquidity pool.
#[derive(Debug, PartialEq)]
pub struct PairInfo {
    /// Identity of each asset in the pool, held in canonical order
    pub asset_infos: Vec<AssetInfo>,
    /// The pair contract's address
    pub contract_addr: String,
    /// The pair's liquidity token address
    pub liquidity_token: String,
    /// The pool type
    pub pair_type: PairType,
}

impl PairInfo {
    /// The two values describe the same pair: the same assets, the
    /// same addresses, and the same pool type.
    pub open spec fn spec_eq(self, other: PairInfo) -> bool {
        self.asset_infos@ == other.asset_infos@ && self.contract_addr == other.contract_addr
            && self.liquidity_token == other.liquidity_token && self.pair_type == other.pair_type
    }
}

impl Clone for PairInfo {
    fn clone(&self) -> (r: PairInfo)
        ensures
            r.spec_eq(*self),
    {
        let asset_infos = self.asset_infos.clone();
        proof {
            assert(asset_infos@ =~= self.asset_infos@);
        }
        PairInfo {
            asset_infos,
            contract_addr: self.contract_addr.clone(),
            liquidity_token: self.liquidity_token.clone(),
            pair_type: self.pair_type.clone(),
        }
    }
}

/// The number of decimals that apply to an asset's balance: the
/// protocol precision for a native token, and what the token contract
/// reported for a contract token.
pub open spec fn spec_asset_decimals(info: AssetInfo, queried: Option<u8>) -> u8 {
    if info.spec_is_native() {
        NATIVE_TOKEN_PRECISION
    } else {
        queried->0
    }
}

impl PairInfo {
    /// Pairs each constituent asset with the balance the host reported
    /// for it, in declaration order.  An entry is `None` where the
    /// host query failed; the first such entry fails the whole call,
    /// with no partial result.
    pub fn query_pools(&self, balances: &Vec<Option<u128>>) -> (r: Result<Vec<Asset>, Error>)
        requires
            balances@.len() == self.asset_infos@.len(),
        ensures
            r is Ok <==> (forall|j: int| 0 <= j < balances@.len() ==> balances@[j] is Some),
            r matches Ok(v) ==> v@.len() == self.asset_infos@.len() && (forall|j: int|
                0 <= j < v@.len() ==> v@[j].info == self.asset_infos@[j] && balances@[j] == Some(
                    v@[j].amount,
                )),
            r is Err ==> r == Err::<Vec<Asset>, Error>(Error::QueryFailed),
    {
        let n = self.asset_infos.len();
        let mut out: Vec<Asset> = Vec::new();
        let mut i: usize = 0;
        while i < n
            invariant
                i <= n,
                n == self.asset_infos@.len(),
                balances@.len() == n,
                out@.len() == i,
                forall|j: int| 0 <= j < i ==> balances@[j] is Some,
                forall|j: int| #![trigger out@[j]]
                    0 <= j < i ==> out@[j].info == self.asset_infos@[j] && balances@[j] == Some(
                        out@[j].amount,
                    ),
            decreases n - i,
        {
            let amount = match balances[i] {
                Some(a) => a,
                None => {
                    return Err(Error::QueryFailed);
                },
            };
            out.push(Asset { info: self.asset_infos[i].clone(), amount });
            i = i + 1;
        }
        Ok(out)
    }

    /// As `query_pools`, projected through fixed-point amounts: each
    /// reported balance is rescaled by the asset's decimals, the
    /// protocol precision for a native token and the reported count
    /// for a contract token.
    pub fn query_pools_decimal(
        &self,
        balances: &Vec<Option<u128>>,
        token_decimals: &Vec<Option<u8>>,
    ) -> (r: Result<Vec<DecimalAsset>, Error>)
        requires
            balances@.len() == self.asset_infos@.len(),
            token_decimals@.len() == self.asset_infos@.len(),
        ensures
            r is Ok <==> (forall|j: int|
                0 <= j < balances@.len() ==> balances@[j] is Some && (
                self.asset_infos@[j].spec_is_native() || token_decimals@[j] is Some)),
            r matches Ok(v) ==> v@.len() == self.asset_infos@.len() && (forall|j: int|
                0 <= j < v@.len() ==> v@[j].info == self.asset_infos@[j]),
            r matches Ok(v) ==> (forall|j: int|
                0 <= j < v@.len() ==> v@[j].amount.spec_atomics() == balances@[j]->0 * pow10(18)
                    / pow10(
                    spec_asset_decimals(self.asset_infos@[j], token_decimals@[j]) as nat,
                )),
            r is Err ==> r == Err::<Vec<DecimalAsset>, Error>(Error::QueryFailed),
    {
        let n = self.asset_infos.len();
        let mut out: Vec<DecimalAsset> = Vec::new();
        let mut i: usize = 0;
        while i < n
            invariant
                i <= n,
                n == self.asset_infos@.len(),
                balances@.len() == n,
                token_decimals@.len() == n,
                out@.len() == i,
                forall|j: int|
                    0 <= j < i ==> balances@[j] is Some && (self.asset_infos@[j].spec_is_native()
                        || token_decimals@[j] is Some),
                forall|j: int|
                    0 <= j < i ==> out@[j].info == self.asset_infos@[j] && out@[j].amount.spec_atomics()
                        == balances@[j]->0 * pow10(18) / pow10(
                        spec_asset_decimals(self.asset_infos@[j], token_decimals@[j]) as nat,
                    ),
            decreases n - i,
        {
            let amount = match balances[i] {
                Some(a) => a,
                None => {
                    return Err(Error::QueryFailed);
                },
            };
            let info = &self.asset_infos[i];
            let d: u8 = match info.decimals(token_decimals[i]) {
                Ok(d) => d,
                Err(e) => {
                    return Err(e);
                },
            };
            let asset = Asset { info: info.clone(), amount };
            let converted = match asset.to_decimal_asset(d as u32) {
                Ok(c) => c,
                Err(e) => {
                    return Err(e);
                },
            };
            out.push(converted);
            i = i + 1;
        }
        Ok(out)
    }
}

} // verus!
