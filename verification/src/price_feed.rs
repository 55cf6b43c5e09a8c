//! Price feeds: a table of prices kept by updaters with badges, a feed that
//! derives the price of a liquid staking unit from the valuation of its
//! pool, and a stand-in for such a pool.

use crate::decimal::{dec_of, lemma_dec_of, spec_div, Decimal};
use crate::utils::{err_text, message, ComponentAddress, PriceInfo, ResourceAddress};
use vstd::prelude::*;

verus! {

/// The data of an administrator's badge: none.
#[derive(Clone, Copy, Debug, PartialEq, Eq, Structural)]
pub struct AuthBadgeData {}

/// The data of an updater's badge.
#[derive(Clone, Copy, Debug, PartialEq, Eq, Structural)]
pub struct UpdaterBadgeData {
    /// Whether the holder may update prices.
    pub active: bool,
}

/// A table of prices by asset.
#[derive(Debug)]
pub struct PriceFeed {
    /// The prices, one entry per asset, in the order in which the assets
    /// were first priced.
    pub prices: Vec<(ResourceAddress, PriceInfo)>,
    /// The number of updater badges minted so far.
    pub updater_counter: u64,
}

pub open spec fn err_badge_inactive() -> Seq<char> {
    "Updater badge is not active."@
}

pub open spec fn err_badge_counter() -> Seq<char> {
    "Updater badge counter overflow"@
}

pub open spec fn err_invalid_resource() -> Seq<char> {
    "Invalid resource address"@
}

pub open spec fn err_price_overflow() -> Seq<char> {
    "Price overflow"@
}

/// The first index from `i` on of the price of an asset; the number of
/// prices if there is none.
pub open spec fn price_index(prices: Seq<(ResourceAddress, PriceInfo)>, res: ResourceAddress, i: int) -> int
    decreases prices.len() - i,
{
    if i < 0 || i >= prices.len() {
        prices.len() as int
    } else if prices[i].0 == res {
        i
    } else {
        price_index(prices, res, i + 1)
    }
}

/// The price of an asset, if it has one.
pub open spec fn spec_price(prices: Seq<(ResourceAddress, PriceInfo)>, res: ResourceAddress) -> Option<
    PriceInfo,
> {
    let i = price_index(prices, res, 0);
    if i < prices.len() {
        Some(prices[i].1)
    } else {
        None
    }
}

/// The prices with the price of one asset set: in place if the asset was
/// priced, else at the end.
pub open spec fn prices_with(prices: Seq<(ResourceAddress, PriceInfo)>, res: ResourceAddress,
    info: PriceInfo) -> Seq<
    (ResourceAddress, PriceInfo),
> {
    let i = price_index(prices, res, 0);
    if i < prices.len() {
        prices.update(i, (res, info))
    } else {
        prices.push((res, info))
    }
}

/// The index of a price found from `i` on lies between `i` and the number
/// of prices, and no entry from `i` up to it is for the asset.
pub proof fn lemma_price_index(prices: Seq<(ResourceAddress, PriceInfo)>, res: ResourceAddress, i: int)
    requires
        0 <= i <= prices.len(),
    ensures
        i <= price_index(prices, res, i) <= prices.len(),
        price_index(prices, res, i) < prices.len() ==> prices[price_index(prices, res, i)].0 == res,
        forall|k: int| i <= k < price_index(prices, res, i) ==> prices[k].0 != res,
    decreases prices.len() - i,
{
    if i < prices.len() && prices[i].0 != res {
        lemma_price_index(prices, res, i + 1);
    }
}

/// Stores the price of an asset: in place of its old price if it had one,
/// else at the end.
pub fn store_price(prices: &mut Vec<(ResourceAddress, PriceInfo)>, resource: ResourceAddress, info: PriceInfo)
    ensures
        final(prices)@ == prices_with(old(prices)@, resource, info),
{
    let n = prices.len();
    let mut i: usize = 0;
    while i < n
        invariant
            n == prices@.len(),
            0 <= i <= n,
            *prices == *old(prices),
            price_index(prices@, resource, 0) == price_index(prices@, resource, i as int),
        decreases n - i,
    {
        if prices[i].0 == resource {
            prices.set(i, (resource, info));
            return ;
        }
        i = i + 1;
    }
    prices.push((resource, info));
}

impl PriceFeed {
    /// A feed without prices and badges.
    pub fn instantiate() -> (r: PriceFeed)
        ensures
            r.prices@.len() == 0,
            r.updater_counter == 0,
    {
        PriceFeed { prices: Vec::new(), updater_counter: 0 }
    }

    /// The number of the next updater badge.
    pub fn _get_new_id(&mut self) -> (r: Result<u64, String>)
        ensures
            final(self).prices == old(self).prices,
            old(self).updater_counter < u64::MAX ==> r == Ok::<u64, String>(
                (old(self).updater_counter + 1) as u64,
            ) && final(self).updater_counter == old(self).updater_counter + 1,
            old(self).updater_counter == u64::MAX ==> err_text(r) == Some(err_badge_counter())
                && final(self).updater_counter == old(self).updater_counter,
    {
        if self.updater_counter == u64::MAX {
            return Err(message("Updater badge counter overflow"));
        }
        self.updater_counter = self.updater_counter + 1;
        Ok(self.updater_counter)
    }

    /// The number and the data of a new updater badge, for the caller to
    /// mint.
    pub fn mint_updater_badge(&mut self, active: bool) -> (r: Result<(u64, UpdaterBadgeData), String>)
        ensures
            final(self).prices == old(self).prices,
            old(self).updater_counter < u64::MAX ==> r == Ok::<(u64, UpdaterBadgeData), String>(
                ((old(self).updater_counter + 1) as u64, UpdaterBadgeData { active }),
            ) && final(self).updater_counter == old(self).updater_counter + 1,
            old(self).updater_counter == u64::MAX ==> err_text(r) == Some(err_badge_counter())
                && final(self).updater_counter == old(self).updater_counter,
    {
        let badge_id = self._get_new_id()?;
        Ok((badge_id, UpdaterBadgeData { active }))
    }

    /// The data of an updater badge after it is switched on or off.
    pub fn update_updater_badge(&self, active: bool) -> (r: UpdaterBadgeData)
        ensures
            r == (UpdaterBadgeData { active }),
    {
        UpdaterBadgeData { active }
    }

    /// Sets the price of an asset as of `now`, by the administrator.
    pub fn admin_update_price(&mut self, resource: ResourceAddress, price: Decimal, now: i64)
        ensures
            final(self).updater_counter == old(self).updater_counter,
            final(self).prices@ == prices_with(
                old(self).prices@,
                resource,
                PriceInfo { timestamp: now, price },
            ),
    {
        store_price(&mut self.prices, resource, PriceInfo { timestamp: now, price });
    }

    /// Sets the price of an asset as of `now`, by the holder of an updater
    /// badge with the given data. An inactive badge is refused and nothing
    /// changes.
    pub fn update_price(
        &mut self,
        badge_data: UpdaterBadgeData,
        resource: ResourceAddress,
        price: Decimal,
        now: i64,
    ) -> (r: Result<(), String>)
        ensures
            final(self).updater_counter == old(self).updater_counter,
            badge_data.active ==> r.is_ok() && final(self).prices@ == prices_with(
                old(self).prices@,
                resource,
                PriceInfo { timestamp: now, price },
            ),
            !badge_data.active ==> err_text(r) == Some(err_badge_inactive()) && *final(self) == *old(self),
    {
        if !badge_data.active {
            return Err(message("Updater badge is not active."));
        }
        store_price(&mut self.prices, resource, PriceInfo { timestamp: now, price });
        Ok(())
    }

    /// The price of an asset, if it has one.
    pub fn get_price(&self, quote: ResourceAddress) -> (r: Option<PriceInfo>)
        ensures
            r == spec_price(self.prices@, quote),
    {
        let n = self.prices.len();
        let mut i: usize = 0;
        while i < n
            invariant
                n == self.prices@.len(),
                0 <= i <= n,
                price_index(self.prices@, quote, 0) == price_index(self.prices@, quote, i as int),
            decreases n - i,
        {
            if self.prices[i].0 == quote {
                return Some(self.prices[i].1);
            }
            i = i + 1;
        }
        None
    }
}

/// A feed for one liquid staking unit, priced by the pool that holds it.
#[derive(Debug)]
pub struct CaviarLsuPriceFeedProxy {
    /// The last price returned, if any.
    pub prices: Vec<(ResourceAddress, PriceInfo)>,
    pub lsu_resource_address: ResourceAddress,
    pub lsu_pool_component_address: ComponentAddress,
}

/// The price of a unit: the valuation of the pool over the supply of its
/// units. Nothing for a supply that is not positive.
pub open spec fn spec_lsu_price(valuation_in_xrd: int, total_supply: int) -> Result<Option<int>, Seq<char>> {
    if total_supply <= 0 {
        Ok(None)
    } else {
        match spec_div(valuation_in_xrd, total_supply) {
            None => Err(err_price_overflow()),
            Some(price) => Ok(Some(price)),
        }
    }
}

impl CaviarLsuPriceFeedProxy {
    /// A feed for the given unit and pool, without a price yet.
    pub fn instantiate(lsu_resource_address: ResourceAddress,
        lsu_pool_component_address: ComponentAddress) -> (r:
        CaviarLsuPriceFeedProxy)
        ensures
            r.prices@.len() == 0,
            r.lsu_resource_address == lsu_resource_address,
            r.lsu_pool_component_address == lsu_pool_component_address,
    {
        CaviarLsuPriceFeedProxy {
            prices: Vec::new(),
            lsu_resource_address,
            lsu_pool_component_address,
        }
    }

    /// The price of the unit as of `now`, from the valuation and the supply
    /// that the caller read from the pool, and remembers it. Another asset
    /// is refused.
    pub fn get_price(
        &mut self,
        resource_address: ResourceAddress,
        valuation_in_xrd: Decimal,
        total_supply: Decimal,
        now: i64,
    ) -> (r: Result<Option<PriceInfo>, String>)
        ensures
            final(self).lsu_resource_address == old(self).lsu_resource_address,
            final(self).lsu_pool_component_address == old(self).lsu_pool_component_address,
            resource_address != old(self).lsu_resource_address ==> err_text(r) == Some(
                err_invalid_resource(),
            ) && *final(self) == *old(self),
            resource_address == old(self).lsu_resource_address ==> match spec_lsu_price(
                valuation_in_xrd@,
                total_supply@,
            ) {
                Err(e) => err_text(r) == Some(e) && *final(self) == *old(self),
                Ok(None) => r == Ok::<Option<PriceInfo>, String>(None) && *final(self) == *old(self),
                Ok(Some(price)) => r == Ok::<Option<PriceInfo>, String>(
                    Some(PriceInfo { timestamp: now, price: dec_of(price) }),
                ) && final(self).prices@ == prices_with(
                    old(self).prices@,
                    resource_address,
                    PriceInfo { timestamp: now, price: dec_of(price) },
                ),
            },
    {
        if self.lsu_resource_address != resource_address {
            return Err(message("Invalid resource address"));
        }
        if total_supply.le(Decimal::zero()) {
            return Ok(None);
        }
        let price = match valuation_in_xrd.checked_div(total_supply) {
            Some(v) => v,
            None => {
                return Err(message("Price overflow"));
            },
        };
        proof {
            lemma_dec_of(price);
        }
        let price_info = PriceInfo { price, timestamp: now };
        store_price(&mut self.prices, resource_address, price_info);
        Ok(Some(price_info))
    }
}

/// A stand-in for a pool of liquid staking units: it reports the supply and
/// the valuation that it was made with.
#[derive(Clone, Copy, Debug, PartialEq, Eq, Structural)]
pub struct CaviarLsuPoolComponentFaucet {
    pub liquidity_token_total_supply: Decimal,
    pub dex_valuation_xrd: Decimal,
}

impl CaviarLsuPoolComponentFaucet {
    pub fn instantiate(liquidity_token_total_supply: Decimal, dex_valuation_xrd: Decimal) -> (r:
        CaviarLsuPoolComponentFaucet)
        ensures
            r.liquidity_token_total_supply == liquidity_token_total_supply,
            r.dex_valuation_xrd == dex_valuation_xrd,
    {
        CaviarLsuPoolComponentFaucet { liquidity_token_total_supply, dex_valuation_xrd }
    }

    pub fn get_liquidity_token_total_supply(&self) -> (r: Decimal)
        ensures
            r == self.liquidity_token_total_supply,
    {
        self.liquidity_token_total_supply
    }

    pub fn get_dex_valuation_xrd(&self) -> (r: Decimal)
        ensures
            r == self.dex_valuation_xrd,
    {
        self.dex_valuation_xrd
    }
}

/// A price that was set is the price that is read, and the price of no
/// other asset changes.
pub proof fn lemma_price_read_after_set(
    prices: Seq<(ResourceAddress, PriceInfo)>,
    res: ResourceAddress,
    info: PriceInfo,
    other: ResourceAddress,
)
    ensures
        spec_price(prices_with(prices, res, info), res) == Some(info),
        other != res ==> spec_price(prices_with(prices, res, info), other) == spec_price(prices, other),
{
    let after = prices_with(prices, res, info);
    let i = price_index(prices, res, 0);
    lemma_price_index(prices, res, 0);
    lemma_price_index(after, res, 0);
    assert(after[i].0 == res);
    let j = price_index(after, res, 0);
    if j < i {
        assert(after[j].0 == res);
        assert(prices[j].0 != res);
    }
    assert(j == i);
    if other != res {
        lemma_price_index(prices, other, 0);
        lemma_price_index(after, other, 0);
        let a = price_index(prices, other, 0);
        let b = price_index(after, other, 0);
        if a < prices.len() {
            assert(after[a].0 == other);
            if b < a {
                assert(after[b].0 == other);
                assert(prices[b].0 == other);
            }
            assert(b == a);
        } else {
            if b < after.len() {
                assert(after[b].0 == other);
                if b < prices.len() {
                    assert(prices[b].0 == other);
                }
            }
        }
    }
}

} // verus!
