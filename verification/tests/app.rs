use museum_pos::app::{App, Message};
use museum_pos::database::store::Database;
use museum_pos::error::StoreError;
use museum_pos::model::admission_kind::Kind as AdmissionKind;
use museum_pos::model::payment_method::PaymentMethod;
use museum_pos::model::transaction_record::TransactionKind;
use museum_pos::time::DAY_MILLIS;
use museum_pos::view::sale_screen::Message as SaleMessage;
use museum_pos::view::sale_screen::SaleScreen;

#[test]
fn sale_screen_routes_edits_and_clears_on_submission() {
    let mut screen = SaleScreen::default();
    screen.update(SaleMessage::Admission(museum_pos::view::admission::Message::KindSet(
        AdmissionKind::Senior,
    )));
    screen.update(SaleMessage::Admission(
        museum_pos::view::admission::Message::PaymentMethodSet(PaymentMethod::Cash),
    ));
    screen.update(SaleMessage::Admission(museum_pos::view::admission::Message::QuantitySet(4)));
    assert_eq!(screen.admission().kind, Some(AdmissionKind::Senior));
    assert_eq!(screen.admission().quantity, 4);
    // Other forms are untouched by admission edits.
    assert_eq!(screen.donation().payment_method, None);
    screen.update(SaleMessage::AddAdmission);
    assert_eq!(screen.admission().kind, None);
    assert_eq!(screen.admission().quantity, 1);
}

#[test]
fn donation_and_sale_drafts_edit_in_cents() {
    let mut screen = SaleScreen::default();
    screen.update(SaleMessage::Donation(museum_pos::view::donation::Message::Price(1250)));
    assert_eq!(screen.donation().amount(), 1250);
    assert!(!screen.donation().is_valid());
    screen.update(SaleMessage::Donation(
        museum_pos::view::donation::Message::SetPaymentMethod(PaymentMethod::Cash),
    ));
    assert!(screen.donation().is_valid());

    screen.update(SaleMessage::GiftShopSale(
        museum_pos::view::gift_shop_sale::Message::DescriptionChanged("mug".to_string()),
    ));
    screen.update(SaleMessage::GiftShopSale(
        museum_pos::view::gift_shop_sale::Message::PriceChanged(1000),
    ));
    screen.update(SaleMessage::GiftShopSale(
        museum_pos::view::gift_shop_sale::Message::QuantityChanged(2),
    ));
    assert_eq!(screen.gift_shop_sale().compute_total_cost(), 2171);
    assert!(!screen.gift_shop_sale().is_valid());
    screen.update(SaleMessage::GiftShopSale(
        museum_pos::view::gift_shop_sale::Message::PaymentMethodChanged(PaymentMethod::CreditCard),
    ));
    assert!(screen.gift_shop_sale().is_valid());
}

#[test]
fn submitting_a_valid_admission_writes_the_sale_and_its_record() {
    let now = 40 * DAY_MILLIS;
    let mut app = App::new(Database::new(now));
    app.update(
        Message::SaleMessage(SaleMessage::Admission(
            museum_pos::view::admission::Message::KindSet(AdmissionKind::Adult),
        )),
        now,
    );
    app.update(
        Message::SaleMessage(SaleMessage::Admission(
            museum_pos::view::admission::Message::PaymentMethodSet(PaymentMethod::Cash),
        )),
        now,
    );
    let statements = app.update(Message::SaleMessage(SaleMessage::AddAdmission), now);
    assert_eq!(statements.len(), 2);
    assert_eq!(app.last_error(), None);
    assert_eq!(app.database().daily_admissions().len(), 1);
    assert_eq!(app.database().daily_transactions().len(), 1);
    assert_eq!(app.database().daily_transactions()[0].kind, TransactionKind::Admission);
}

#[test]
fn submitting_an_invalid_admission_is_refused_and_remembered() {
    let now = 40 * DAY_MILLIS;
    let mut app = App::new(Database::new(now));
    // No kind chosen: the draft fails validation; the store is untouched.
    let statements = app.update(Message::SaleMessage(SaleMessage::AddAdmission), now);
    assert!(statements.is_empty());
    assert_eq!(app.last_error(), Some(StoreError::ValidationError));
    assert!(app.database().daily_admissions().is_empty());
    assert!(app.database().daily_transactions().is_empty());
}

#[test]
fn todays_transactions_keep_the_boundary_row() {
    let now = 40 * DAY_MILLIS;
    let mut db = Database::new(now - DAY_MILLIS);
    db.add_donation(
        museum_pos::model::donation::Donation {
            payment_method: PaymentMethod::Cash,
            price: 100,
        },
        now - DAY_MILLIS,
    );
    // Exactly one day old: included by the inclusive daily listing.
    let todays = db.todays_transactions(now);
    assert_eq!(todays.len(), 1);
    assert_eq!(todays[0].kind, TransactionKind::Donation);
    let of_kind = db.todays_transactions_of_kind(TransactionKind::Donation, now);
    assert_eq!(of_kind.len(), 1);
    let none = db.todays_transactions_of_kind(TransactionKind::Membership, now);
    assert!(none.is_empty());
    // One millisecond older falls out.
    let older = db.todays_transactions(now + 1);
    assert!(older.is_empty());
}
