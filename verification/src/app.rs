use vstd::prelude::*;

use crate::database::store::Database;
use crate::error::StoreError;
use crate::model::gift_shop_sale::spec_gift_shop_total;
use crate::time::ts_in_range;
use crate::to_model::ToModel;
use crate::view::admission::spec_admission_draft_valid;
use crate::view::donation::spec_donation_draft_valid;
use crate::view::gift_shop_sale::{spec_draft_sale, spec_gift_shop_draft_valid};
use crate::view::membership::spec_membership_draft_valid;
use crate::view::sale_screen;
use crate::view::sale_screen::{
    SaleScreen, spec_screen_admission_after, spec_screen_donation_after,
    spec_screen_gift_shop_after, spec_screen_membership_after,
};

verus! {

/// The point of sale as a whole: the sale screen's forms, the persistence
/// facade, and the last sale's failure, if it failed.
#[derive(Debug)]
pub struct App {
    sale_screen: SaleScreen,
    database: Database,
    error: Option<StoreError>,
}

/// One event of the application.
#[derive(Clone, Debug)]
pub enum Message {
    SaleMessage(sale_screen::Message),
}

impl App {
    /// The sale screen's state.
    pub closed spec fn spec_sale_screen(&self) -> SaleScreen {
        self.sale_screen
    }

    /// The persistence facade's state.
    pub closed spec fn spec_database(&self) -> Database {
        self.database
    }

    /// The last sale's failure, if it failed.
    pub closed spec fn spec_error(&self) -> Option<StoreError> {
        self.error
    }

    /// Whether the application is in a usable state.
    pub open spec fn wf(&self) -> bool {
        self.spec_database().wf()
    }

    /// An application around an already settled facade, with empty forms.
    pub fn new(database: Database) -> (r: App)
        requires
            database.wf(),
        ensures
            r.wf(),
            r.spec_database() == database,
            r.spec_error() is None,
    {
        App { sale_screen: Default::default(), database, error: None }
    }

    /// The persistence facade, for reading daily snapshots.
    pub fn database(&self) -> (r: &Database)
        ensures
            *r == self.spec_database(),
    {
        &self.database
    }

    /// The last sale's failure, if it failed.
    pub fn last_error(&self) -> (r: Option<StoreError>)
        ensures
            r == self.spec_error(),
    {
        self.error
    }

    /// Takes the sale a submission message names: the form's draft is
    /// validated and converted, the entity and its derived record enter the
    /// store, and the form is cleared — the sale is written before the
    /// screen is updated. An invalid draft, or a sale whose total cannot be
    /// represented, is refused and remembered as the last error; the store
    /// is untouched. Edits are routed to their form. Returns the `INSERT`
    /// statements for the caller to execute against the durable store.
    pub fn handle_sale_message(&mut self, message: sale_screen::Message, now_millis: i64) -> (r:
        Vec<String>)
        requires
            old(self).wf(),
            ts_in_range(now_millis as int),
        ensures
            final(self).wf(),
            final(self).spec_database().spec_created() == old(self).spec_database().spec_created(),
            final(self).spec_sale_screen().spec_admission() == spec_screen_admission_after(
                old(self).spec_sale_screen(),
                message,
            ),
            final(self).spec_sale_screen().spec_donation() == spec_screen_donation_after(
                old(self).spec_sale_screen(),
                message,
            ),
            final(self).spec_sale_screen().spec_membership() == spec_screen_membership_after(
                old(self).spec_sale_screen(),
                message,
            ),
            final(self).spec_sale_screen().spec_gift_shop_sale() == spec_screen_gift_shop_after(
                old(self).spec_sale_screen(),
                message,
            ),
            match message {
                sale_screen::Message::AddAdmission => {
                    let draft = old(self).spec_sale_screen().spec_admission();
                    if spec_admission_draft_valid(draft) {
                        &&& final(self).spec_error() is None
                        &&& r@.len() == 2
                        &&& final(self).spec_database().spec_admissions().drop_last() == old(
                            self,
                        ).spec_database().spec_admissions()
                        &&& final(self).spec_database().spec_admissions().last().element
                            == (crate::model::admission::Admission {
                            kind: draft.kind.unwrap(),
                            payment_method: draft.payment_method,
                            quantity: draft.quantity,
                        })
                        &&& final(self).spec_database().spec_admissions().last().date_time
                            == now_millis
                        &&& final(self).spec_database().spec_transactions().drop_last() == old(
                            self,
                        ).spec_database().spec_transactions()
                    } else {
                        &&& final(self).spec_error() == Some(StoreError::ValidationError)
                        &&& r@.len() == 0
                        &&& final(self).spec_database() == old(self).spec_database()
                    }
                },
                sale_screen::Message::AddDonation => {
                    let draft = old(self).spec_sale_screen().spec_donation();
                    if spec_donation_draft_valid(draft) {
                        &&& final(self).spec_error() is None
                        &&& r@.len() == 2
                        &&& final(self).spec_database().spec_donations().drop_last() == old(
                            self,
                        ).spec_database().spec_donations()
                        &&& final(self).spec_database().spec_donations().last().element
                            == (crate::model::donation::Donation {
                            payment_method: draft.payment_method.unwrap(),
                            price: draft.price,
                        })
                        &&& final(self).spec_database().spec_donations().last().date_time
                            == now_millis
                        &&& final(self).spec_database().spec_transactions().drop_last() == old(
                            self,
                        ).spec_database().spec_transactions()
                    } else {
                        &&& final(self).spec_error() == Some(StoreError::ValidationError)
                        &&& r@.len() == 0
                        &&& final(self).spec_database() == old(self).spec_database()
                    }
                },
                sale_screen::Message::AddMembership => {
                    let draft = old(self).spec_sale_screen().spec_membership();
                    if spec_membership_draft_valid(draft) {
                        &&& final(self).spec_error() is None
                        &&& r@.len() == 2
                        &&& final(self).spec_database().spec_memberships().drop_last() == old(
                            self,
                        ).spec_database().spec_memberships()
                        &&& final(self).spec_database().spec_memberships().last().element
                            == (crate::model::membership::Membership {
                            kind: draft.kind.unwrap(),
                            payment_method: draft.payment_method.unwrap(),
                            quantity: draft.quantity,
                        })
                        &&& final(self).spec_database().spec_memberships().last().date_time
                            == now_millis
                        &&& final(self).spec_database().spec_transactions().drop_last() == old(
                            self,
                        ).spec_database().spec_transactions()
                    } else {
                        &&& final(self).spec_error() == Some(StoreError::ValidationError)
                        &&& r@.len() == 0
                        &&& final(self).spec_database() == old(self).spec_database()
                    }
                },
                sale_screen::Message::AddGiftShopSale => {
                    let draft = old(self).spec_sale_screen().spec_gift_shop_sale();
                    if spec_gift_shop_draft_valid(draft) && spec_gift_shop_total(
                        spec_draft_sale(draft),
                    ) <= u64::MAX {
                        &&& final(self).spec_error() is None
                        &&& r@.len() == 2
                        &&& final(self).spec_database().spec_gift_shop_sales().drop_last() == old(
                            self,
                        ).spec_database().spec_gift_shop_sales()
                        &&& final(self).spec_database().spec_gift_shop_sales().last().element@
                            == spec_draft_sale(draft)
                        &&& final(self).spec_database().spec_gift_shop_sales().last().date_time
                            == now_millis
                        &&& final(self).spec_database().spec_transactions().drop_last() == old(
                            self,
                        ).spec_database().spec_transactions()
                    } else {
                        &&& final(self).spec_error() == Some(StoreError::ValidationError)
                        &&& r@.len() == 0
                        &&& final(self).spec_database() == old(self).spec_database()
                    }
                },
                _ => {
                    &&& final(self).spec_error() is None
                    &&& r@.len() == 0
                    &&& final(self).spec_database() == old(self).spec_database()
                },
            },
    {
        let mut statements: Vec<String> = Vec::new();
        let mut failure: Option<StoreError> = None;
        match &message {
            sale_screen::Message::AddAdmission => {
                match self.sale_screen.admission().to_model() {
                    Ok(entity) => {
                        statements = self.database.add_admission(entity, now_millis);
                    },
                    Err(e) => {
                        failure = Some(e);
                    },
                }
            },
            sale_screen::Message::AddDonation => {
                match self.sale_screen.donation().to_model() {
                    Ok(entity) => {
                        statements = self.database.add_donation(entity, now_millis);
                    },
                    Err(e) => {
                        failure = Some(e);
                    },
                }
            },
            sale_screen::Message::AddMembership => {
                match self.sale_screen.membership().to_model() {
                    Ok(entity) => {
                        statements = self.database.add_membership(entity, now_millis);
                    },
                    Err(e) => {
                        failure = Some(e);
                    },
                }
            },
            sale_screen::Message::AddGiftShopSale => {
                match self.sale_screen.gift_shop_sale().to_model() {
                    Ok(entity) => {
                        if entity.total_fits() {
                            statements = self.database.add_gift_shop_sale(entity, now_millis);
                        } else {
                            failure = Some(StoreError::ValidationError);
                        }
                    },
                    Err(e) => {
                        failure = Some(e);
                    },
                }
            },
            _ => {},
        }
        self.error = failure;
        self.sale_screen.update(message);
        statements
    }

    /// Handles one application event.
    pub fn update(&mut self, message: Message, now_millis: i64) -> (r: Vec<String>)
        requires
            old(self).wf(),
            ts_in_range(now_millis as int),
        ensures
            final(self).wf(),
            final(self).spec_database().spec_created() == old(self).spec_database().spec_created(),
    {
        match message {
            Message::SaleMessage(s) => self.handle_sale_message(s, now_millis),
        }
    }
}

} // verus!
