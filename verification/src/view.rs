pub mod admission;
pub mod donation;
pub mod gift_shop_sale;
pub mod membership;
pub mod sale_screen;
pub mod summary;
