use vstd::prelude::*;

verus! {

/// The five caller-supplied payout fields, all carried as text exactly as
/// the vendor mandates.
pub struct B2CInput {
    pub transaction_reference: String,
    pub customer_msisdn: String,
    pub amount: String,
    pub third_party_reference: String,
    pub service_provider_code: String,
}

impl B2CInput {
    /// A payout input with every field empty, to be filled by the setters.
    pub fn new() -> (r: B2CInput)
        ensures
            r.transaction_reference@ == Seq::<char>::empty(),
            r.customer_msisdn@ == Seq::<char>::empty(),
            r.amount@ == Seq::<char>::empty(),
            r.third_party_reference@ == Seq::<char>::empty(),
            r.service_provider_code@ == Seq::<char>::empty(),
    {
        B2CInput {
            transaction_reference: String::new(),
            customer_msisdn: String::new(),
            amount: String::new(),
            third_party_reference: String::new(),
            service_provider_code: String::new(),
        }
    }

    pub fn set_transaction_reference(&mut self, transaction_reference: String)
        ensures
            final(self).transaction_reference == transaction_reference,
            final(self).customer_msisdn == old(self).customer_msisdn,
            final(self).amount == old(self).amount,
            final(self).third_party_reference == old(self).third_party_reference,
            final(self).service_provider_code == old(self).service_provider_code,
    {
        self.transaction_reference = transaction_reference;
    }

    pub fn set_customer_msisdn(&mut self, customer_msisdn: String)
        ensures
            final(self).customer_msisdn == customer_msisdn,
            final(self).transaction_reference == old(self).transaction_reference,
            final(self).amount == old(self).amount,
            final(self).third_party_reference == old(self).third_party_reference,
            final(self).service_provider_code == old(self).service_provider_code,
    {
        self.customer_msisdn = customer_msisdn;
    }

    pub fn set_amount(&mut self, amount: String)
        ensures
            final(self).amount == amount,
            final(self).transaction_reference == old(self).transaction_reference,
            final(self).customer_msisdn == old(self).customer_msisdn,
            final(self).third_party_reference == old(self).third_party_reference,
            final(self).service_provider_code == old(self).service_provider_code,
    {
        self.amount = amount;
    }

    pub fn set_third_party_reference(&mut self, third_party_reference: String)
        ensures
            final(self).third_party_reference == third_party_reference,
            final(self).transaction_reference == old(self).transaction_reference,
            final(self).customer_msisdn == old(self).customer_msisdn,
            final(self).amount == old(self).amount,
            final(self).service_provider_code == old(self).service_provider_code,
    {
        self.third_party_reference = third_party_reference;
    }

    pub fn set_service_provider_code(&mut self, service_provider_code: String)
        ensures
            final(self).service_provider_code == service_provider_code,
            final(self).transaction_reference == old(self).transaction_reference,
            final(self).customer_msisdn == old(self).customer_msisdn,
            final(self).amount == old(self).amount,
            final(self).third_party_reference == old(self).third_party_reference,
    {
        self.service_provider_code = service_provider_code;
    }

    pub fn transaction_reference(&self) -> (r: &str)
        ensures
            r@ == self.transaction_reference@,
    {
        self.transaction_reference.as_str()
    }

    pub fn customer_msisdn(&self) -> (r: &str)
        ensures
            r@ == self.customer_msisdn@,
    {
        self.customer_msisdn.as_str()
    }

    pub fn amount(&self) -> (r: &str)
        ensures
            r@ == self.amount@,
    {
        self.amount.as_str()
    }

    pub fn third_party_reference(&self) -> (r: &str)
        ensures
            r@ == self.third_party_reference@,
    {
        self.third_party_reference.as_str()
    }

    pub fn service_provider_code(&self) -> (r: &str)
        ensures
            r@ == self.service_provider_code@,
    {
        self.service_provider_code.as_str()
    }
}

} // verus!
