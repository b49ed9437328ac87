use vstd::prelude::*;

use crate::error::StoreError;
use crate::model::get_payment_method::GetPaymentMethod;
use crate::model::gift_shop_sale::SpecGiftShopSale;
use crate::model::payment_method::PaymentMethod;
use crate::to_model::ToModel;

verus! {

/// The gift-shop-sale form as the operator fills it in: the payment method
/// starts unchosen; the unit price is in cents, the sales-tax rate in
/// hundredths of a percent.
#[derive(Clone, Debug)]
pub struct GiftShopSale {
    pub item_description: String,
    pub price: u64,
    pub payment_method: Option<PaymentMethod>,
    pub quantity: u16,
    pub sales_tax: u64,
}

/// The mathematical model of the draft.
pub struct SpecGiftShopSaleDraft {
    pub item_description: Seq<char>,
    pub price: u64,
    pub payment_method: Option<PaymentMethod>,
    pub quantity: u16,
    pub sales_tax: u64,
}

impl View for GiftShopSale {
    type V = SpecGiftShopSaleDraft;

    open spec fn view(&self) -> SpecGiftShopSaleDraft {
        SpecGiftShopSaleDraft {
            item_description: self.item_description@,
            price: self.price,
            payment_method: self.payment_method,
            quantity: self.quantity,
            sales_tax: self.sales_tax,
        }
    }
}

/// One edit of the gift-shop-sale form.
#[derive(Clone, Debug)]
pub enum Message {
    DescriptionChanged(String),
    PriceChanged(u64),
    PaymentMethodChanged(PaymentMethod),
    QuantityChanged(u16),
    SalesTaxChanged(u64),
}

/// Whether the draft can become an entity: a payment method is chosen and
/// at least one unit is sold.
pub open spec fn spec_gift_shop_draft_valid(g: SpecGiftShopSaleDraft) -> bool {
    g.payment_method is Some && g.quantity > 0
}

/// The sale the draft describes, priced as it stands.
pub open spec fn spec_draft_sale(g: SpecGiftShopSaleDraft) -> SpecGiftShopSale {
    SpecGiftShopSale {
        item_description: g.item_description,
        price: g.price,
        payment_method: g.payment_method.unwrap(),
        quantity: g.quantity,
        sales_tax: g.sales_tax,
    }
}

/// What one edit does to the draft.
pub open spec fn spec_gift_shop_update(g: SpecGiftShopSaleDraft, m: Message) -> SpecGiftShopSaleDraft {
    match m {
        Message::DescriptionChanged(s) => SpecGiftShopSaleDraft { item_description: s@, ..g },
        Message::PriceChanged(c) => SpecGiftShopSaleDraft { price: c, ..g },
        Message::PaymentMethodChanged(p) => SpecGiftShopSaleDraft { payment_method: Some(p), ..g },
        Message::QuantityChanged(q) => SpecGiftShopSaleDraft { quantity: q, ..g },
        Message::SalesTaxChanged(t) => SpecGiftShopSaleDraft { sales_tax: t, ..g },
    }
}

impl GiftShopSale {
    /// Applies one edit to the draft.
    pub fn update(&mut self, message: Message)
        ensures
            final(self)@ == spec_gift_shop_update(old(self)@, message),
    {
        match message {
            Message::DescriptionChanged(s) => self.item_description = s,
            Message::PriceChanged(c) => self.price = c,
            Message::PaymentMethodChanged(p) => self.payment_method = Some(p),
            Message::QuantityChanged(q) => self.quantity = q,
            Message::SalesTaxChanged(t) => self.sales_tax = t,
        }
    }

    /// The cost of the drafted units before tax.
    pub fn pre_tax_cost(&self) -> (r: u64)
        requires
            self@.price * self@.quantity <= u64::MAX,
        ensures
            r == self@.price * self@.quantity,
    {
        self.price * (self.quantity as u64)
    }

    /// The tax owed on the drafted sale, rounded down to a cent.
    pub fn compute_tax(&self) -> (r: u64)
        requires
            self@.price * self@.quantity + (self@.price * self@.quantity) * self@.sales_tax / 10000
                <= u64::MAX,
        ensures
            r == (self@.price * self@.quantity) * self@.sales_tax / 10000,
    {
        proof {
            crate::model::gift_shop_sale::lemma_gift_shop_parts_fit(
                SpecGiftShopSale {
                    item_description: self@.item_description,
                    price: self.price,
                    payment_method: PaymentMethod::Cash,
                    quantity: self.quantity,
                    sales_tax: self.sales_tax,
                },
            );
        }
        let pre = self.price * (self.quantity as u64);
        let wide: u128 = (pre as u128) * (self.sales_tax as u128);
        (wide / 10000) as u64
    }

    /// The total cost of the drafted sale: pre-tax cost plus tax.
    pub fn compute_total_cost(&self) -> (r: u64)
        requires
            self@.price * self@.quantity + (self@.price * self@.quantity) * self@.sales_tax / 10000
                <= u64::MAX,
        ensures
            r == self@.price * self@.quantity + (self@.price * self@.quantity) * self@.sales_tax
                / 10000,
    {
        proof {
            crate::model::gift_shop_sale::lemma_gift_shop_parts_fit(
                SpecGiftShopSale {
                    item_description: self@.item_description,
                    price: self.price,
                    payment_method: PaymentMethod::Cash,
                    quantity: self.quantity,
                    sales_tax: self.sales_tax,
                },
            );
        }
        self.pre_tax_cost() + self.compute_tax()
    }

    /// Whether the draft can become an entity.
    pub fn is_valid(&self) -> (r: bool)
        ensures
            r == spec_gift_shop_draft_valid(self@),
    {
        self.payment_method.is_some() && self.quantity > 0
    }
}

impl Default for GiftShopSale {
    /// An empty form for one unit at the venue's usual sales-tax rate.
    fn default() -> (r: GiftShopSale)
        ensures
            r@.item_description == Seq::<char>::empty(),
            r@.price == 0,
            r@.payment_method is None,
            r@.quantity == 1,
            r@.sales_tax == 855,
    {
        GiftShopSale {
            item_description: String::new(),
            price: 0,
            payment_method: None,
            quantity: 1,
            sales_tax: 855,
        }
    }
}

impl GetPaymentMethod for GiftShopSale {
    open spec fn spec_get_payment_method(&self) -> Option<PaymentMethod> {
        self.payment_method
    }

    fn get_payment_method(&self) -> (r: Option<PaymentMethod>) {
        self.payment_method
    }
}

impl ToModel for GiftShopSale {
    type ModelType = crate::model::gift_shop_sale::GiftShopSale;

    /// A valid draft becomes the sale it describes; an invalid one is
    /// refused with a validation error.
    open spec fn spec_to_model(&self) -> Result<SpecGiftShopSale, StoreError> {
        if spec_gift_shop_draft_valid(self@) {
            Ok(spec_draft_sale(self@))
        } else {
            Err(StoreError::ValidationError)
        }
    }

    fn to_model(&self) -> (r: Result<crate::model::gift_shop_sale::GiftShopSale, StoreError>) {
        let payment_method = match &self.payment_method {
            None => {
                return Err(StoreError::ValidationError);
            },
            Some(p) => *p,
        };
        if self.quantity == 0 {
            return Err(StoreError::ValidationError);
        }
        let sale = crate::model::gift_shop_sale::GiftShopSale::new(
            self.item_description.clone(),
            self.price,
            payment_method,
            self.quantity,
            self.sales_tax,
        );
        proof {
            assert(sale@ == spec_draft_sale(self@));
        }
        Ok(sale)
    }
}

} // verus!
