pub mod admission;
pub mod admission_kind;
pub mod as_transaction_record;
pub mod get_payment_method;
pub mod has_payment_method;
pub mod has_total_cost;
pub mod donation;
pub mod gift_shop_sale;
pub mod hour;
pub mod membership;
pub mod membership_kind;
pub mod payment_method;
pub mod transaction_record;
