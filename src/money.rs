//! Money held in the currency's minor unit (cents), never negative.
use vstd::prelude::*;
use crate::errors::DomainError;

verus! {

#[derive(Clone, Copy, Debug, PartialEq, Eq, Structural)]
pub enum Currency {
    CNY,
    USD,
    EUR,
    JPY,
}

/// The largest amount accepted: one billion major units.
pub const MAX_AMOUNT_CENTS: i64 = 100_000_000_000;

#[derive(Clone, Copy, Debug)]
pub struct Money {
    amount_cents: i64,
    currency: Currency,
}

impl Money {
    #[verifier::type_invariant]
    spec fn non_negative(self) -> bool {
        self.amount_cents >= 0
    }

    pub closed spec fn cents(self) -> int {
        self.amount_cents as int
    }

    pub closed spec fn unit(self) -> Currency {
        self.currency
    }

    /// An amount given in cents; refused where negative or above
    /// `MAX_AMOUNT_CENTS`.
    pub fn from_cents(amount_cents: i64, currency: Currency) -> (r: Result<Money, DomainError>)
        ensures
            r is Ok <==> 0 <= amount_cents <= MAX_AMOUNT_CENTS,
            r is Ok ==> r->Ok_0.cents() == amount_cents && r->Ok_0.unit() == currency,
            r is Err ==> r->Err_0 is InvalidMoney,
    {
        if amount_cents < 0 {
            return Err(DomainError::InvalidMoney("金额不能为负数".to_string()));
        }
        if amount_cents > MAX_AMOUNT_CENTS {
            return Err(DomainError::InvalidMoney("金额超过最大限制".to_string()));
        }
        Ok(Money { amount_cents, currency })
    }

    pub fn zero(currency: Currency) -> (r: Money)
        ensures
            r.cents() == 0,
            r.unit() == currency,
    {
        Money { amount_cents: 0, currency }
    }

    pub fn amount_cents(&self) -> (r: i64)
        ensures
            r == self.cents(),
            r >= 0,
    {
        proof {
            use_type_invariant(*self);
        }
        self.amount_cents
    }

    pub fn currency(&self) -> (r: &Currency)
        ensures
            *r == self.unit(),
    {
        &self.currency
    }

    /// Refuses two amounts in different currencies.
    pub fn ensure_same_currency(&self, other: &Money) -> (r: Result<(), DomainError>)
        ensures
            r is Ok <==> self.unit() == other.unit(),
            r is Err ==> r->Err_0 is InvalidMoney,
    {
        if self.currency != other.currency {
            return Err(DomainError::InvalidMoney("货币类型不匹配".to_string()));
        }
        Ok(())
    }

    /// The sum of two amounts in the same currency.
    pub fn add(&self, other: &Money) -> (r: Result<Money, DomainError>)
        requires
            self.cents() + other.cents() <= i64::MAX,
        ensures
            r is Ok <==> self.unit() == other.unit(),
            r is Ok ==> r->Ok_0.cents() == self.cents() + other.cents() && r->Ok_0.unit()
                == self.unit(),
            r is Err ==> r->Err_0 is InvalidMoney,
    {
        proof {
            use_type_invariant(*self);
            use_type_invariant(*other);
        }
        self.ensure_same_currency(other)?;
        Ok(Money { amount_cents: self.amount_cents + other.amount_cents, currency: self.currency })
    }

    /// The difference of two amounts in the same currency; refused where it
    /// would be negative.
    pub fn subtract(&self, other: &Money) -> (r: Result<Money, DomainError>)
        ensures
            r is Ok <==> self.unit() == other.unit() && other.cents() <= self.cents(),
            r is Ok ==> r->Ok_0.cents() == self.cents() - other.cents() && r->Ok_0.unit()
                == self.unit(),
            r is Err ==> r->Err_0 is InvalidMoney,
    {
        proof {
            use_type_invariant(*self);
            use_type_invariant(*other);
        }
        self.ensure_same_currency(other)?;
        if self.amount_cents < other.amount_cents {
            return Err(DomainError::InvalidMoney("余额不足".to_string()));
        }
        Ok(Money { amount_cents: self.amount_cents - other.amount_cents, currency: self.currency })
    }

    pub fn is_zero(&self) -> (r: bool)
        ensures
            r == (self.cents() == 0),
    {
        self.amount_cents == 0
    }

    pub fn is_positive(&self) -> (r: bool)
        ensures
            r == (self.cents() > 0),
    {
        self.amount_cents > 0
    }

    pub fn is_greater_than(&self, other: &Money) -> (r: Result<bool, DomainError>)
        ensures
            r is Ok <==> self.unit() == other.unit(),
            r is Ok ==> r->Ok_0 == (self.cents() > other.cents()),
            r is Err ==> r->Err_0 is InvalidMoney,
    {
        self.ensure_same_currency(other)?;
        Ok(self.amount_cents > other.amount_cents)
    }

    pub fn is_less_than(&self, other: &Money) -> (r: Result<bool, DomainError>)
        ensures
            r is Ok <==> self.unit() == other.unit(),
            r is Ok ==> r->Ok_0 == (self.cents() < other.cents()),
            r is Err ==> r->Err_0 is InvalidMoney,
    {
        self.ensure_same_currency(other)?;
        Ok(self.amount_cents < other.amount_cents)
    }
}

} // verus!
