use vstd::prelude::*;

use crate::view::admission;
use crate::view::admission::spec_admission_update;
use crate::view::donation;
use crate::view::donation::spec_donation_update;
use crate::view::gift_shop_sale;
use crate::view::gift_shop_sale::{SpecGiftShopSaleDraft, spec_gift_shop_update};
use crate::view::membership;
use crate::view::membership::spec_membership_update;

verus! {

/// The four sale forms as the operator works them, side by side.
#[derive(Debug)]
pub struct SaleScreen {
    admission: admission::Admission,
    donation: donation::Donation,
    membership: membership::Membership,
    gift_shop_sale: gift_shop_sale::GiftShopSale,
}

/// One event of the sale screen: an edit of a form, or the submission that
/// clears it after the sale was taken.
#[derive(Clone, Debug)]
pub enum Message {
    Admission(admission::Message),
    AddAdmission,
    Donation(donation::Message),
    AddDonation,
    Membership(membership::Message),
    AddMembership,
    GiftShopSale(gift_shop_sale::Message),
    AddGiftShopSale,
}

/// A freshly cleared gift-shop form, as its view.
pub open spec fn spec_fresh_gift_shop_draft() -> SpecGiftShopSaleDraft {
    SpecGiftShopSaleDraft {
        item_description: Seq::empty(),
        price: 0,
        payment_method: None,
        quantity: 1,
        sales_tax: 855,
    }
}

/// The admission form after a screen event: edited by its own messages,
/// cleared by its submission, untouched by the rest.
pub open spec fn spec_screen_admission_after(s: SaleScreen, m: Message) -> admission::Admission {
    match m {
        Message::Admission(e) => spec_admission_update(s.spec_admission(), e),
        Message::AddAdmission => admission::Admission {
            kind: None,
            payment_method: None,
            quantity: 1,
        },
        _ => s.spec_admission(),
    }
}

/// The donation form after a screen event.
pub open spec fn spec_screen_donation_after(s: SaleScreen, m: Message) -> donation::Donation {
    match m {
        Message::Donation(e) => spec_donation_update(s.spec_donation(), e),
        Message::AddDonation => donation::Donation { payment_method: None, price: 0 },
        _ => s.spec_donation(),
    }
}

/// The membership form after a screen event.
pub open spec fn spec_screen_membership_after(s: SaleScreen, m: Message) -> membership::Membership {
    match m {
        Message::Membership(e) => spec_membership_update(s.spec_membership(), e),
        Message::AddMembership => membership::Membership {
            kind: None,
            payment_method: None,
            quantity: 1,
        },
        _ => s.spec_membership(),
    }
}

/// The gift-shop form after a screen event.
pub open spec fn spec_screen_gift_shop_after(s: SaleScreen, m: Message) -> SpecGiftShopSaleDraft {
    match m {
        Message::GiftShopSale(e) => spec_gift_shop_update(s.spec_gift_shop_sale(), e),
        Message::AddGiftShopSale => spec_fresh_gift_shop_draft(),
        _ => s.spec_gift_shop_sale(),
    }
}

impl SaleScreen {
    /// The admission form's state.
    pub closed spec fn spec_admission(&self) -> admission::Admission {
        self.admission
    }

    /// The donation form's state.
    pub closed spec fn spec_donation(&self) -> donation::Donation {
        self.donation
    }

    /// The membership form's state.
    pub closed spec fn spec_membership(&self) -> membership::Membership {
        self.membership
    }

    /// The gift-shop form's state.
    pub closed spec fn spec_gift_shop_sale(&self) -> SpecGiftShopSaleDraft {
        self.gift_shop_sale@
    }

    /// Routes an edit to its form, or clears a form after submission; the
    /// other three forms are untouched either way.
    pub fn update(&mut self, message: Message)
        ensures
            final(self).spec_admission() == spec_screen_admission_after(*old(self), message),
            final(self).spec_donation() == spec_screen_donation_after(*old(self), message),
            final(self).spec_membership() == spec_screen_membership_after(*old(self), message),
            final(self).spec_gift_shop_sale() == spec_screen_gift_shop_after(*old(self), message),
    {
        match message {
            Message::Admission(a) => self.admission.update(a),
            Message::Donation(d) => self.donation.update(d),
            Message::Membership(m) => self.membership.update(m),
            Message::GiftShopSale(g) => self.gift_shop_sale.update(g),
            Message::AddAdmission => self.admission = Default::default(),
            Message::AddDonation => self.donation = Default::default(),
            Message::AddMembership => self.membership = Default::default(),
            Message::AddGiftShopSale => self.gift_shop_sale = Default::default(),
        }
    }

    /// The admission form.
    pub fn admission(&self) -> (r: &admission::Admission)
        ensures
            *r == self.spec_admission(),
    {
        &self.admission
    }

    /// The donation form.
    pub fn donation(&self) -> (r: &donation::Donation)
        ensures
            *r == self.spec_donation(),
    {
        &self.donation
    }

    /// The membership form.
    pub fn membership(&self) -> (r: &membership::Membership)
        ensures
            *r == self.spec_membership(),
    {
        &self.membership
    }

    /// The gift-shop form.
    pub fn gift_shop_sale(&self) -> (r: &gift_shop_sale::GiftShopSale)
        ensures
            r@ == self.spec_gift_shop_sale(),
    {
        &self.gift_shop_sale
    }
}

impl Default for SaleScreen {
    /// All four forms empty.
    fn default() -> (r: SaleScreen)
        ensures
            r.spec_admission() == (admission::Admission {
                kind: None,
                payment_method: None,
                quantity: 1,
            }),
            r.spec_donation() == (donation::Donation { payment_method: None, price: 0 }),
            r.spec_membership() == (membership::Membership {
                kind: None,
                payment_method: None,
                quantity: 1,
            }),
            r.spec_gift_shop_sale() == spec_fresh_gift_shop_draft(),
    {
        SaleScreen {
            admission: Default::default(),
            donation: Default::default(),
            membership: Default::default(),
            gift_shop_sale: Default::default(),
        }
    }
}

} // verus!
