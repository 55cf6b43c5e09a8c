//! Amounts of one asset in transit (`Bucket`) and at rest (`Vault`), as plain
//! records of what the ledger holds.

use crate::decimal::{lemma_view_fits, spec_add, Decimal};
use crate::utils::{err_text, message, ResourceAddress};
use vstd::prelude::*;

verus! {

/// An amount of one asset on its way between two holders.
#[derive(Clone, Copy, Debug, PartialEq, Eq, Structural)]
pub struct Bucket {
    pub resource_address: ResourceAddress,
    pub amount: Decimal,
}

/// An amount of one asset held by the market.
#[derive(Clone, Copy, Debug, PartialEq, Eq, Structural)]
pub struct Vault {
    pub resource_address: ResourceAddress,
    pub amount: Decimal,
}

pub open spec fn err_take_amount() -> Seq<char> {
    "Amount to take must be between zero and the amount held"@
}

pub open spec fn err_put_resource() -> Seq<char> {
    "Resource address missmatch"@
}

pub open spec fn err_put_overflow() -> Seq<char> {
    "Amount overflow"@
}

/// The difference of two amounts when the second lies between zero and the
/// first.
pub fn sub_within(a: Decimal, b: Decimal) -> (r: Decimal)
    requires
        0 <= b@ <= a@,
    ensures
        r@ == a@ - b@,
{
    proof {
        lemma_view_fits(a);
    }
    match a.checked_sub(b) {
        Some(v) => v,
        None => a,
    }
}

impl Bucket {
    /// An empty bucket.
    pub fn new(resource_address: ResourceAddress) -> (r: Bucket)
        ensures
            r.resource_address == resource_address,
            r.amount@ == 0,
    {
        Bucket { resource_address, amount: Decimal::zero() }
    }

    /// Splits `amount` off. Fails, changing nothing, unless the amount lies
    /// between zero and what the bucket holds.
    pub fn take(&mut self, amount: Decimal) -> (r: Result<Bucket, String>)
        ensures
            final(self).resource_address == old(self).resource_address,
            0 <= amount@ <= old(self).amount@ ==> r.is_ok() && r.unwrap().resource_address
                == old(self).resource_address && r.unwrap().amount == amount
                && final(self).amount@ == old(self).amount@ - amount@,
            !(0 <= amount@ <= old(self).amount@) ==> err_text(r) == Some(err_take_amount())
                && *final(self) == *old(self),
    {
        if amount.is_negative() || amount.gt(self.amount) {
            return Err(message("Amount to take must be between zero and the amount held"));
        }
        self.amount = sub_within(self.amount, amount);
        Ok(Bucket { resource_address: self.resource_address, amount })
    }
}

impl Vault {
    /// An empty vault.
    pub fn new(resource_address: ResourceAddress) -> (r: Vault)
        ensures
            r.resource_address == resource_address,
            r.amount@ == 0,
    {
        Vault { resource_address, amount: Decimal::zero() }
    }

    /// Adds a bucket. Fails, changing nothing, if the bucket holds another
    /// asset or the sum leaves the range.
    pub fn put(&mut self, bucket: Bucket) -> (r: Result<(), String>)
        ensures
            final(self).resource_address == old(self).resource_address,
            bucket.resource_address != old(self).resource_address ==> err_text(r) == Some(
                err_put_resource(),
            ) && *final(self) == *old(self),
            bucket.resource_address == old(self).resource_address ==> match spec_add(
                old(self).amount@,
                bucket.amount@,
            ) {
                Some(sum) => r.is_ok() && final(self).amount@ == sum,
                None => err_text(r) == Some(err_put_overflow()) && *final(self) == *old(self),
            },
    {
        if !(bucket.resource_address.hi == self.resource_address.hi && bucket.resource_address.lo
            == self.resource_address.lo) {
            return Err(message("Resource address missmatch"));
        }
        match self.amount.checked_add(bucket.amount) {
            Some(sum) => {
                self.amount = sum;
                Ok(())
            },
            None => Err(message("Amount overflow")),
        }
    }

    /// Takes `amount` out. Fails, changing nothing, unless the amount lies
    /// between zero and what the vault holds.
    pub fn take(&mut self, amount: Decimal) -> (r: Result<Bucket, String>)
        ensures
            final(self).resource_address == old(self).resource_address,
            0 <= amount@ <= old(self).amount@ ==> r.is_ok() && r.unwrap().resource_address
                == old(self).resource_address && r.unwrap().amount == amount
                && final(self).amount@ == old(self).amount@ - amount@,
            !(0 <= amount@ <= old(self).amount@) ==> err_text(r) == Some(err_take_amount())
                && *final(self) == *old(self),
    {
        if amount.is_negative() || amount.gt(self.amount) {
            return Err(message("Amount to take must be between zero and the amount held"));
        }
        self.amount = sub_within(self.amount, amount);
        Ok(Bucket { resource_address: self.resource_address, amount })
    }

    /// Empties the vault.
    pub fn take_all(&mut self) -> (r: Bucket)
        ensures
            final(self).resource_address == old(self).resource_address,
            final(self).amount@ == 0,
            r.resource_address == old(self).resource_address,
            r.amount == old(self).amount,
    {
        let bucket = Bucket { resource_address: self.resource_address, amount: self.amount };
        self.amount = Decimal::zero();
        bucket
    }
}

} // verus!
