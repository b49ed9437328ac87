use vstd::prelude::*;

use crate::database::object_mapper::{ObjectMapper, lemma_find_field_absent};
use crate::database::storable::{CanBuildObjectMapper, Duplicable, FromSql, TimingColumnsFree};
use crate::error::MarshalError;
use crate::model::as_transaction_record::AsTransactionRecord;
use crate::model::has_payment_method::HasPaymentMethod;
use crate::model::has_total_cost::HasTotalCost;
use crate::model::payment_method::{
    PaymentMethod, spec_decode_payment_method, spec_payment_method_name,
};
use crate::model::transaction_record::{TransactionKind, TransactionRecord};
use crate::value::{
    FieldValue, Row, SpecField, SpecStored, spec_lookup, lookup, spec_decode_u16, decode_u16,
    spec_decode_cents, decode_cents, spec_decode_text, decode_text,
};

verus! {

/// One gift-shop sale: what was sold, the unit price in cents, how it was
/// paid, how many units, and the sales-tax rate in hundredths of a percent.
#[derive(Clone, Debug)]
pub struct GiftShopSale {
    pub item_description: String,
    pub price: u64,
    pub payment_method: PaymentMethod,
    pub quantity: u16,
    pub sales_tax: u64,
}

/// The mathematical model of a gift-shop sale.
pub struct SpecGiftShopSale {
    pub item_description: Seq<char>,
    pub price: u64,
    pub payment_method: PaymentMethod,
    pub quantity: u16,
    pub sales_tax: u64,
}

impl View for GiftShopSale {
    type V = SpecGiftShopSale;

    open spec fn view(&self) -> SpecGiftShopSale {
        SpecGiftShopSale {
            item_description: self.item_description@,
            price: self.price,
            payment_method: self.payment_method,
            quantity: self.quantity,
            sales_tax: self.sales_tax,
        }
    }
}

/// The cost of the sold units before tax, in cents.
pub open spec fn spec_pre_tax_cost(g: SpecGiftShopSale) -> int {
    g.price * g.quantity
}

/// The tax on the sale: the pre-tax cost times the rate, rounded down to a
/// cent.
pub open spec fn spec_tax(g: SpecGiftShopSale) -> int {
    spec_pre_tax_cost(g) * g.sales_tax / 10000
}

/// The total cost of the sale: pre-tax cost plus tax.
pub open spec fn spec_gift_shop_total(g: SpecGiftShopSale) -> int {
    spec_pre_tax_cost(g) + spec_tax(g)
}

impl Duplicable for GiftShopSale {
    fn duplicate(&self) -> (r: GiftShopSale) {
        GiftShopSale {
            item_description: self.item_description.clone(),
            price: self.price,
            payment_method: self.payment_method,
            quantity: self.quantity,
            sales_tax: self.sales_tax,
        }
    }
}

impl GiftShopSale {
    /// Builds a gift-shop sale from its parts.
    pub fn new(
        item_description: String,
        price: u64,
        payment_method: PaymentMethod,
        quantity: u16,
        sales_tax: u64,
    ) -> (r: GiftShopSale)
        ensures
            r@ == (SpecGiftShopSale {
                item_description: item_description@,
                price,
                payment_method,
                quantity,
                sales_tax,
            }),
    {
        GiftShopSale { item_description, price, payment_method, quantity, sales_tax }
    }

    /// The cost of the sold units before tax.
    pub fn pre_tax_cost(&self) -> (r: u64)
        requires
            spec_pre_tax_cost(self@) <= u64::MAX,
        ensures
            r == spec_pre_tax_cost(self@),
    {
        self.price * (self.quantity as u64)
    }

    /// The tax owed on the sale, rounded down to a cent.
    pub fn compute_tax(&self) -> (r: u64)
        requires
            spec_gift_shop_total(self@) <= u64::MAX,
        ensures
            r == spec_tax(self@),
    {
        proof {
            lemma_gift_shop_parts_fit(self@);
        }
        let pre = self.pre_tax_cost();
        let wide: u128 = (pre as u128) * (self.sales_tax as u128);
        (wide / 10000) as u64
    }

    /// Whether the sale's total cost fits the machine word the ledger is
    /// kept in. Totals are checked before a sale is accepted.
    pub fn total_fits(&self) -> (r: bool)
        ensures
            r == (spec_gift_shop_total(self@) <= u64::MAX),
    {
        proof {
            assert((self.price as int) * (self.quantity as int) <= u64::MAX * 0xffff)
                by (nonlinear_arith)
                requires
                    self.price <= u64::MAX,
                    self.quantity <= 0xffff,
            ;
        }
        let pre: u128 = (self.price as u128) * (self.quantity as u128);
        if pre > u64::MAX as u128 {
            proof {
                assert(spec_tax(self@) >= 0) by (nonlinear_arith)
                    requires
                        spec_pre_tax_cost(self@) >= 0,
                ;
                assert(spec_pre_tax_cost(self@) >= 0) by (nonlinear_arith);
            }
            return false;
        }
        proof {
            assert(pre * self.sales_tax <= u64::MAX * u64::MAX) by (nonlinear_arith)
                requires
                    0 <= pre <= u64::MAX,
                    self.sales_tax <= u64::MAX,
            ;
        }
        let taxed: u128 = pre * (self.sales_tax as u128);
        let total: u128 = pre + taxed / 10000;
        total <= u64::MAX as u128
    }

    /// The total cost of the sale: pre-tax cost plus tax.
    pub fn compute_total_cost(&self) -> (r: u64)
        requires
            spec_gift_shop_total(self@) <= u64::MAX,
        ensures
            r == spec_gift_shop_total(self@),
    {
        proof {
            lemma_gift_shop_parts_fit(self@);
        }
        self.pre_tax_cost() + self.compute_tax()
    }
}

/// When a sale's total fits the machine word, so do its pre-tax cost and
/// its tax, and neither is negative.
pub proof fn lemma_gift_shop_parts_fit(g: SpecGiftShopSale)
    requires
        spec_gift_shop_total(g) <= u64::MAX,
    ensures
        0 <= spec_pre_tax_cost(g) <= u64::MAX,
        0 <= spec_tax(g) <= u64::MAX,
        spec_pre_tax_cost(g) * g.sales_tax <= u128::MAX,
        0 <= spec_gift_shop_total(g),
{
    assert(spec_pre_tax_cost(g) >= 0) by (nonlinear_arith);
    assert(spec_pre_tax_cost(g) * g.sales_tax >= 0) by (nonlinear_arith);
    assert(spec_tax(g) >= 0) by (nonlinear_arith)
        requires
            spec_pre_tax_cost(g) * g.sales_tax >= 0,
    ;
    let pre = spec_pre_tax_cost(g);
    let product = pre * g.sales_tax;
    assert(product / 10000 * 10000 <= product && product <= product / 10000 * 10000 + 9999)
        by (nonlinear_arith);
    assert(product <= (u64::MAX + 1) * 10000 - 1) by (nonlinear_arith)
        requires
            product / 10000 <= u64::MAX,
            product / 10000 * 10000 <= product <= product / 10000 * 10000 + 9999,
    ;
    assert((u64::MAX + 1) * 10000 - 1 <= u128::MAX);
}

/// A sale's pre-tax cost, tax, and total are never negative.
pub proof fn lemma_gift_shop_total_nonneg(g: SpecGiftShopSale)
    ensures
        spec_pre_tax_cost(g) >= 0,
        spec_tax(g) >= 0,
        spec_gift_shop_total(g) >= 0,
{
    assert(spec_pre_tax_cost(g) >= 0) by (nonlinear_arith);
    assert(spec_pre_tax_cost(g) * g.sales_tax >= 0) by (nonlinear_arith);
    assert(spec_tax(g) >= 0) by (nonlinear_arith)
        requires
            spec_pre_tax_cost(g) * g.sales_tax >= 0,
    ;
}

impl Default for GiftShopSale {
    /// A cash sale of nothing, at the venue's usual sales-tax rate.
    fn default() -> (r: GiftShopSale)
        ensures
            r@.item_description == Seq::<char>::empty(),
            r@.price == 0,
            r@.payment_method == PaymentMethod::Cash,
            r@.quantity == 0,
            r@.sales_tax == 855,
    {
        GiftShopSale {
            item_description: String::new(),
            price: 0,
            payment_method: PaymentMethod::Cash,
            quantity: 0,
            sales_tax: 855,
        }
    }
}

impl HasTotalCost for GiftShopSale {
    open spec fn spec_total_cost(&self) -> int {
        spec_gift_shop_total(self@)
    }

    proof fn lemma_total_cost_nonneg(&self) {
        lemma_gift_shop_total_nonneg(self@);
    }

    fn total_cost(&self) -> (r: u64) {
        self.compute_total_cost()
    }
}

impl HasPaymentMethod for GiftShopSale {
    open spec fn spec_payment_method(&self) -> Option<PaymentMethod> {
        Some(self.payment_method)
    }

    fn payment_method(&self) -> (r: Option<PaymentMethod>) {
        Some(self.payment_method)
    }
}

impl AsTransactionRecord for GiftShopSale {
    /// A sale always carries its payment method; it is valid when at least
    /// one unit is sold.
    open spec fn spec_is_valid(&self) -> bool {
        self.quantity >= 1
    }

    open spec fn spec_record_kind(&self) -> TransactionKind {
        TransactionKind::GiftShopSale
    }

    open spec fn spec_record_description(&self) -> Seq<char> {
        self.item_description@
    }

    open spec fn spec_record_quantity(&self) -> u16 {
        self.quantity
    }

    open spec fn spec_record_total(&self) -> int {
        spec_gift_shop_total(self@)
    }

    fn is_valid(&self) -> (r: bool) {
        self.quantity >= 1
    }

    fn as_transaction_record(&self) -> (r: TransactionRecord) {
        TransactionRecord::new(
            TransactionKind::GiftShopSale,
            self.item_description.clone(),
            self.quantity,
            self.compute_total_cost(),
        )
    }
}

/// The sale's ordered field list: description, price, payment method,
/// quantity, sales tax.
pub open spec fn spec_gift_shop_fields(g: SpecGiftShopSale) -> Seq<(Seq<char>, SpecField)> {
    seq![
        ("item_description"@, SpecField::Text(g.item_description)),
        ("price"@, SpecField::Money(g.price)),
        ("payment_method"@, SpecField::Text(spec_payment_method_name(g.payment_method))),
        ("quantity"@, SpecField::Int(g.quantity as i32)),
        ("sales_tax"@, SpecField::Money(g.sales_tax)),
    ]
}

impl CanBuildObjectMapper for GiftShopSale {
    open spec fn spec_table_name() -> Seq<char> {
        "gift_shop_sales"@
    }

    open spec fn spec_fields(&self) -> Seq<(Seq<char>, SpecField)> {
        spec_gift_shop_fields(self@)
    }

    open spec fn fields_wf(&self) -> bool {
        true
    }

    fn table_name() -> (r: String) {
        "gift_shop_sales".to_owned()
    }

    fn build_object_mapper(&self) -> (r: ObjectMapper) {
        proof {
            reveal_strlit("item_description");
            reveal_strlit("price");
            reveal_strlit("payment_method");
            reveal_strlit("quantity");
            reveal_strlit("sales_tax");
            assert("item_description"@.len() == 16);
            assert("price"@.len() == 5);
            assert("payment_method"@.len() == 14);
            assert("quantity"@.len() == 8);
            assert("sales_tax"@.len() == 9);
        }
        let mut mapper = ObjectMapper::new("gift_shop_sales");
        mapper.add_field("item_description", FieldValue::Text(self.item_description.clone()));
        proof {
            assert(mapper.fields_view() =~= spec_gift_shop_fields(self@).take(1));
        }
        mapper.add_field("price", FieldValue::Money(self.price));
        proof {
            lemma_find_field_absent(spec_gift_shop_fields(self@).take(1), "price"@);
            assert(mapper.fields_view() =~= spec_gift_shop_fields(self@).take(2));
        }
        mapper.add_field("payment_method", self.payment_method.to_field());
        proof {
            lemma_find_field_absent(spec_gift_shop_fields(self@).take(2), "payment_method"@);
            assert(mapper.fields_view() =~= spec_gift_shop_fields(self@).take(3));
        }
        mapper.add_field("quantity", FieldValue::Int(self.quantity as i32));
        proof {
            lemma_find_field_absent(spec_gift_shop_fields(self@).take(3), "quantity"@);
            assert(mapper.fields_view() =~= spec_gift_shop_fields(self@).take(4));
        }
        mapper.add_field("sales_tax", FieldValue::Money(self.sales_tax));
        proof {
            lemma_find_field_absent(spec_gift_shop_fields(self@).take(4), "sales_tax"@);
            assert(mapper.fields_view() =~= spec_gift_shop_fields(self@));
        }
        mapper
    }
}

impl TimingColumnsFree for GiftShopSale {
    proof fn lemma_timing_columns_free(&self) {
        reveal_strlit("item_description");
        reveal_strlit("price");
        reveal_strlit("payment_method");
        reveal_strlit("quantity");
        reveal_strlit("sales_tax");
        reveal_strlit("date_time");
        reveal_strlit("hour");
        assert("item_description"@.len() == 16);
        assert("price"@.len() == 5);
        assert("payment_method"@.len() == 14);
        assert("quantity"@.len() == 8);
        assert("sales_tax"@.len() == 9);
        assert("date_time"@.len() == 9);
        assert("hour"@.len() == 4);
        assert("sales_tax"@[0] == 's');
        assert("date_time"@[0] == 'd');
        lemma_find_field_absent(self.spec_fields(), "date_time"@);
        lemma_find_field_absent(self.spec_fields(), "hour"@);
    }
}

impl FromSql for GiftShopSale {
    /// Columns are read in field order: description, price, payment method,
    /// quantity, sales tax.
    open spec fn spec_from_sql(row: Seq<(Seq<char>, SpecStored)>) -> Result<
        SpecGiftShopSale,
        MarshalError,
    > {
        match spec_lookup(row, "item_description"@) {
            None => Err(MarshalError::MissingColumn),
            Some(dv) => match spec_decode_text(dv) {
                Err(e) => Err(e),
                Ok(item_description) => match spec_lookup(row, "price"@) {
                    None => Err(MarshalError::MissingColumn),
                    Some(cv) => match spec_decode_cents(cv) {
                        Err(e) => Err(e),
                        Ok(price) => match spec_lookup(row, "payment_method"@) {
                            None => Err(MarshalError::MissingColumn),
                            Some(pv) => match spec_decode_payment_method(pv) {
                                Err(e) => Err(e),
                                Ok(payment_method) => match spec_lookup(row, "quantity"@) {
                                    None => Err(MarshalError::MissingColumn),
                                    Some(qv) => match spec_decode_u16(qv) {
                                        Err(e) => Err(e),
                                        Ok(quantity) => match spec_lookup(row, "sales_tax"@) {
                                            None => Err(MarshalError::MissingColumn),
                                            Some(tv) => match spec_decode_cents(tv) {
                                                Err(e) => Err(e),
                                                Ok(sales_tax) => Ok(
                                                    SpecGiftShopSale {
                                                        item_description,
                                                        price,
                                                        payment_method,
                                                        quantity,
                                                        sales_tax,
                                                    },
                                                ),
                                            },
                                        },
                                    },
                                },
                            },
                        },
                    },
                },
            },
        }
    }

    fn from_sql(row: &Row) -> (r: Result<Self, MarshalError>) {
        let dv = match lookup(row, "item_description") {
            None => {
                return Err(MarshalError::MissingColumn);
            },
            Some(v) => v,
        };
        let item_description = match decode_text(&dv) {
            Err(e) => {
                return Err(e);
            },
            Ok(s) => s,
        };
        let cv = match lookup(row, "price") {
            None => {
                return Err(MarshalError::MissingColumn);
            },
            Some(v) => v,
        };
        let price = match decode_cents(&cv) {
            Err(e) => {
                return Err(e);
            },
            Ok(c) => c,
        };
        let pv = match lookup(row, "payment_method") {
            None => {
                return Err(MarshalError::MissingColumn);
            },
            Some(v) => v,
        };
        let payment_method = match PaymentMethod::decode(&pv) {
            Err(e) => {
                return Err(e);
            },
            Ok(p) => p,
        };
        let qv = match lookup(row, "quantity") {
            None => {
                return Err(MarshalError::MissingColumn);
            },
            Some(v) => v,
        };
        let quantity = match decode_u16(&qv) {
            Err(e) => {
                return Err(e);
            },
            Ok(q) => q,
        };
        let tv = match lookup(row, "sales_tax") {
            None => {
                return Err(MarshalError::MissingColumn);
            },
            Some(v) => v,
        };
        let sales_tax = match decode_cents(&tv) {
            Err(e) => {
                return Err(e);
            },
            Ok(c) => c,
        };
        Ok(GiftShopSale { item_description, price, payment_method, quantity, sales_tax })
    }
}


/// Reading a gift-shop sale back out of the row its own fields store is the
/// identity: the decoded entity is the one that was encoded.
pub proof fn lemma_gift_shop_sale_row_roundtrip(g: SpecGiftShopSale)
    ensures
        GiftShopSale::spec_from_sql(crate::value::spec_stored_row(spec_gift_shop_fields(g)))
            == Ok::<SpecGiftShopSale, MarshalError>(g),
{
    reveal_strlit("item_description");
    reveal_strlit("price");
    reveal_strlit("payment_method");
    reveal_strlit("quantity");
    reveal_strlit("sales_tax");
    assert("item_description"@.len() == 16);
    assert("price"@.len() == 5);
    assert("payment_method"@.len() == 14);
    assert("quantity"@.len() == 8);
    assert("sales_tax"@.len() == 9);
    let fs = spec_gift_shop_fields(g);
    let row = crate::value::spec_stored_row(fs);
    let stored = |i: int| crate::value::spec_stored(fs[i].1);
    assert(row =~= seq![
        ("item_description"@, stored(0)),
        ("price"@, stored(1)),
        ("payment_method"@, stored(2)),
        ("quantity"@, stored(3)),
        ("sales_tax"@, stored(4)),
    ]);
    let r1 = row.drop_first();
    let r2 = r1.drop_first();
    let r3 = r2.drop_first();
    let r4 = r3.drop_first();
    assert(r1 =~= seq![
        ("price"@, stored(1)),
        ("payment_method"@, stored(2)),
        ("quantity"@, stored(3)),
        ("sales_tax"@, stored(4)),
    ]);
    assert(r2 =~= seq![
        ("payment_method"@, stored(2)),
        ("quantity"@, stored(3)),
        ("sales_tax"@, stored(4)),
    ]);
    assert(r3 =~= seq![("quantity"@, stored(3)), ("sales_tax"@, stored(4))]);
    assert(r4 =~= seq![("sales_tax"@, stored(4))]);
    crate::value::lemma_lookup_head(row, "item_description"@);
    crate::value::lemma_lookup_skip(row, "price"@);
    crate::value::lemma_lookup_head(r1, "price"@);
    crate::value::lemma_lookup_skip(row, "payment_method"@);
    crate::value::lemma_lookup_skip(r1, "payment_method"@);
    crate::value::lemma_lookup_head(r2, "payment_method"@);
    crate::value::lemma_lookup_skip(row, "quantity"@);
    crate::value::lemma_lookup_skip(r1, "quantity"@);
    crate::value::lemma_lookup_skip(r2, "quantity"@);
    crate::value::lemma_lookup_head(r3, "quantity"@);
    crate::value::lemma_lookup_skip(row, "sales_tax"@);
    crate::value::lemma_lookup_skip(r1, "sales_tax"@);
    crate::value::lemma_lookup_skip(r2, "sales_tax"@);
    crate::value::lemma_lookup_skip(r3, "sales_tax"@);
    crate::value::lemma_lookup_head(r4, "sales_tax"@);
    crate::model::payment_method::lemma_payment_method_roundtrip(g.payment_method);
}

} // verus!
