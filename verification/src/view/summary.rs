use vstd::prelude::*;

use crate::database::store::Database;
use crate::model::admission::Admission;
use crate::model::admission_kind::Kind as AdmissionKind;
use crate::model::gift_shop_sale::{GiftShopSale, spec_gift_shop_total, spec_tax};
use crate::model::has_payment_method::HasPaymentMethod;
use crate::model::has_total_cost::HasTotalCost;
use crate::model::membership::Membership;
use crate::model::membership_kind::Kind as MembershipKind;
use crate::model::payment_method::PaymentMethod;
use crate::text::{dec_digits_of, fixed2_text_of, fixed2_to_dec, u64_to_dec};

verus! {

/// The total visitor count of the admissions: the sum of their quantities.
pub open spec fn spec_attendance(s: Seq<Admission>) -> int
    decreases s.len(),
{
    if s.len() == 0 {
        0
    } else {
        spec_attendance(s.drop_last()) + s.last().quantity
    }
}

/// The visitor count of the admissions of one kind.
pub open spec fn spec_admission_kind_units(s: Seq<Admission>, kind: AdmissionKind) -> int
    decreases s.len(),
{
    if s.len() == 0 {
        0
    } else {
        spec_admission_kind_units(s.drop_last(), kind) + (if s.last().kind == kind {
            s.last().quantity as int
        } else {
            0
        })
    }
}

/// The unit count of the membership sales, over all kinds.
pub open spec fn spec_membership_units(s: Seq<Membership>) -> int
    decreases s.len(),
{
    if s.len() == 0 {
        0
    } else {
        spec_membership_units(s.drop_last()) + s.last().quantity
    }
}

/// The unit count of the membership sales of one kind.
pub open spec fn spec_membership_kind_units(s: Seq<Membership>, kind: MembershipKind) -> int
    decreases s.len(),
{
    if s.len() == 0 {
        0
    } else {
        spec_membership_kind_units(s.drop_last(), kind) + (if s.last().kind == kind {
            s.last().quantity as int
        } else {
            0
        })
    }
}

/// The summed total cost of a list of priced values, in cents.
pub open spec fn spec_total_cost_sum<T: HasTotalCost>(s: Seq<T>) -> int
    decreases s.len(),
{
    if s.len() == 0 {
        0
    } else {
        spec_total_cost_sum(s.drop_last()) + s.last().spec_total_cost()
    }
}

/// The summed sales tax of the gift-shop sales, in cents.
pub open spec fn spec_tax_sum(s: Seq<GiftShopSale>) -> int
    decreases s.len(),
{
    if s.len() == 0 {
        0
    } else {
        spec_tax_sum(s.drop_last()) + spec_tax(s.last()@)
    }
}

/// The summed total cost of the values carrying the given payment method.
pub open spec fn spec_filter_payment_sum<T: HasPaymentMethod + HasTotalCost>(
    s: Seq<T>,
    method: PaymentMethod,
) -> int
    decreases s.len(),
{
    if s.len() == 0 {
        0
    } else {
        spec_filter_payment_sum(s.drop_last(), method) + (if s.last().spec_payment_method()
            == Some(method) {
            s.last().spec_total_cost()
        } else {
            0
        })
    }
}

proof fn lemma_attendance_step(s: Seq<Admission>, i: int)
    requires
        0 <= i < s.len(),
    ensures
        spec_attendance(s.take(i + 1)) == spec_attendance(s.take(i)) + s[i].quantity,
{
    assert(s.take(i + 1).drop_last() =~= s.take(i));
    assert(s.take(i + 1).last() == s[i]);
}

proof fn lemma_attendance_take_le(s: Seq<Admission>, i: int)
    requires
        0 <= i <= s.len(),
    ensures
        0 <= spec_attendance(s.take(i)) <= spec_attendance(s),
    decreases s.len() - i,
{
    if i == s.len() {
        assert(s.take(i) =~= s);
        lemma_attendance_nonneg(s);
    } else {
        lemma_attendance_nonneg(s.take(i));
        lemma_attendance_step(s, i);
        lemma_attendance_take_le(s, i + 1);
    }
}

proof fn lemma_attendance_nonneg(s: Seq<Admission>)
    ensures
        spec_attendance(s) >= 0,
    decreases s.len(),
{
    if s.len() > 0 {
        lemma_attendance_nonneg(s.drop_last());
    }
}

/// The total visitor count of the admissions.
pub fn attendance_total(admissions: &Vec<Admission>) -> (r: u32)
    requires
        spec_attendance(admissions@) <= u32::MAX,
    ensures
        r == spec_attendance(admissions@),
{
    proof {
        assert(admissions@.take(0) =~= Seq::<Admission>::empty());
    }
    let mut total: u32 = 0;
    let mut i: usize = 0;
    while i < admissions.len()
        invariant
            i <= admissions.len(),
            spec_attendance(admissions@) <= u32::MAX,
            total == spec_attendance(admissions@.take(i as int)),
        decreases admissions.len() - i,
    {
        proof {
            lemma_attendance_step(admissions@, i as int);
            lemma_attendance_take_le(admissions@, i + 1);
        }
        total = total + (admissions[i].quantity as u32);
        i = i + 1;
    }
    proof {
        assert(admissions@.take(admissions@.len() as int) =~= admissions@);
    }
    total
}

proof fn lemma_admission_kind_units_step(s: Seq<Admission>, kind: AdmissionKind, i: int)
    requires
        0 <= i < s.len(),
    ensures
        spec_admission_kind_units(s.take(i + 1), kind) == spec_admission_kind_units(
            s.take(i),
            kind,
        ) + (if s[i].kind == kind {
            s[i].quantity as int
        } else {
            0
        }),
{
    assert(s.take(i + 1).drop_last() =~= s.take(i));
    assert(s.take(i + 1).last() == s[i]);
}

proof fn lemma_admission_kind_units_take_le(s: Seq<Admission>, kind: AdmissionKind, i: int)
    requires
        0 <= i <= s.len(),
    ensures
        0 <= spec_admission_kind_units(s.take(i), kind) <= spec_admission_kind_units(s, kind),
    decreases s.len() - i,
{
    if i == s.len() {
        assert(s.take(i) =~= s);
        lemma_admission_kind_units_nonneg(s, kind);
    } else {
        lemma_admission_kind_units_nonneg(s.take(i), kind);
        lemma_admission_kind_units_step(s, kind, i);
        lemma_admission_kind_units_take_le(s, kind, i + 1);
    }
}

proof fn lemma_admission_kind_units_nonneg(s: Seq<Admission>, kind: AdmissionKind)
    ensures
        spec_admission_kind_units(s, kind) >= 0,
    decreases s.len(),
{
    if s.len() > 0 {
        lemma_admission_kind_units_nonneg(s.drop_last(), kind);
    }
}

/// The visitor count of the admissions of one kind.
pub fn sum_over_admission_kind(admissions: &Vec<Admission>, kind: AdmissionKind) -> (r: u32)
    requires
        spec_admission_kind_units(admissions@, kind) <= u32::MAX,
    ensures
        r == spec_admission_kind_units(admissions@, kind),
{
    proof {
        assert(admissions@.take(0) =~= Seq::<Admission>::empty());
    }
    let mut total: u32 = 0;
    let mut i: usize = 0;
    while i < admissions.len()
        invariant
            i <= admissions.len(),
            spec_admission_kind_units(admissions@, kind) <= u32::MAX,
            total == spec_admission_kind_units(admissions@.take(i as int), kind),
        decreases admissions.len() - i,
    {
        proof {
            lemma_admission_kind_units_step(admissions@, kind, i as int);
            lemma_admission_kind_units_take_le(admissions@, kind, i + 1);
        }
        if admissions[i].kind == kind {
            total = total + (admissions[i].quantity as u32);
        }
        i = i + 1;
    }
    proof {
        assert(admissions@.take(admissions@.len() as int) =~= admissions@);
    }
    total
}

proof fn lemma_membership_kind_units_step(s: Seq<Membership>, kind: MembershipKind, i: int)
    requires
        0 <= i < s.len(),
    ensures
        spec_membership_kind_units(s.take(i + 1), kind) == spec_membership_kind_units(
            s.take(i),
            kind,
        ) + (if s[i].kind == kind {
            s[i].quantity as int
        } else {
            0
        }),
{
    assert(s.take(i + 1).drop_last() =~= s.take(i));
    assert(s.take(i + 1).last() == s[i]);
}

proof fn lemma_membership_kind_units_take_le(s: Seq<Membership>, kind: MembershipKind, i: int)
    requires
        0 <= i <= s.len(),
    ensures
        0 <= spec_membership_kind_units(s.take(i), kind) <= spec_membership_kind_units(s, kind),
    decreases s.len() - i,
{
    if i == s.len() {
        assert(s.take(i) =~= s);
        lemma_membership_kind_units_nonneg(s, kind);
    } else {
        lemma_membership_kind_units_nonneg(s.take(i), kind);
        lemma_membership_kind_units_step(s, kind, i);
        lemma_membership_kind_units_take_le(s, kind, i + 1);
    }
}

proof fn lemma_membership_kind_units_nonneg(s: Seq<Membership>, kind: MembershipKind)
    ensures
        spec_membership_kind_units(s, kind) >= 0,
    decreases s.len(),
{
    if s.len() > 0 {
        lemma_membership_kind_units_nonneg(s.drop_last(), kind);
    }
}

/// The unit count of the membership sales of one kind.
pub fn sum_over_membership_sale(memberships: &Vec<Membership>, kind: MembershipKind) -> (r: u32)
    requires
        spec_membership_kind_units(memberships@, kind) <= u32::MAX,
    ensures
        r == spec_membership_kind_units(memberships@, kind),
{
    proof {
        assert(memberships@.take(0) =~= Seq::<Membership>::empty());
    }
    let mut total: u32 = 0;
    let mut i: usize = 0;
    while i < memberships.len()
        invariant
            i <= memberships.len(),
            spec_membership_kind_units(memberships@, kind) <= u32::MAX,
            total == spec_membership_kind_units(memberships@.take(i as int), kind),
        decreases memberships.len() - i,
    {
        proof {
            lemma_membership_kind_units_step(memberships@, kind, i as int);
            lemma_membership_kind_units_take_le(memberships@, kind, i + 1);
        }
        if memberships[i].matches_type(kind) {
            total = total + (memberships[i].quantity as u32);
        }
        i = i + 1;
    }
    proof {
        assert(memberships@.take(memberships@.len() as int) =~= memberships@);
    }
    total
}


proof fn lemma_total_cost_sum_step<T: HasTotalCost>(s: Seq<T>, i: int)
    requires
        0 <= i < s.len(),
    ensures
        spec_total_cost_sum(s.take(i + 1)) == spec_total_cost_sum(s.take(i))
            + s[i].spec_total_cost(),
{
    assert(s.take(i + 1).drop_last() =~= s.take(i));
    assert(s.take(i + 1).last() == s[i]);
}

proof fn lemma_total_cost_sum_nonneg<T: HasTotalCost>(s: Seq<T>)
    ensures
        spec_total_cost_sum(s) >= 0,
    decreases s.len(),
{
    if s.len() > 0 {
        lemma_total_cost_sum_nonneg(s.drop_last());
        s.last().lemma_total_cost_nonneg();
    }
}

proof fn lemma_total_cost_sum_take_le<T: HasTotalCost>(s: Seq<T>, i: int)
    requires
        0 <= i <= s.len(),
    ensures
        0 <= spec_total_cost_sum(s.take(i)) <= spec_total_cost_sum(s),
    decreases s.len() - i,
{
    if i == s.len() {
        assert(s.take(i) =~= s);
        lemma_total_cost_sum_nonneg(s);
    } else {
        lemma_total_cost_sum_nonneg(s.take(i));
        lemma_total_cost_sum_step(s, i);
        s[i].lemma_total_cost_nonneg();
        lemma_total_cost_sum_take_le(s, i + 1);
    }
}

/// The summed total cost of a list of priced values, in cents.
pub fn total_cost_sum<T: HasTotalCost>(items: &Vec<T>) -> (r: u64)
    requires
        spec_total_cost_sum(items@) <= u64::MAX,
    ensures
        r == spec_total_cost_sum(items@),
{
    proof {
        assert(items@.take(0) =~= Seq::<T>::empty());
    }
    let mut total: u64 = 0;
    let mut i: usize = 0;
    while i < items.len()
        invariant
            i <= items.len(),
            spec_total_cost_sum(items@) <= u64::MAX,
            total == spec_total_cost_sum(items@.take(i as int)),
        decreases items.len() - i,
    {
        proof {
            lemma_total_cost_sum_step(items@, i as int);
            lemma_total_cost_sum_take_le(items@, i as int);
            lemma_total_cost_sum_take_le(items@, i + 1);
            items@[i as int].lemma_total_cost_nonneg();
        }
        let c = items[i].total_cost();
        total = total + c;
        i = i + 1;
    }
    proof {
        assert(items@.take(items@.len() as int) =~= items@);
    }
    total
}

proof fn lemma_filter_payment_sum_step<T: HasPaymentMethod + HasTotalCost>(
    s: Seq<T>,
    method: PaymentMethod,
    i: int,
)
    requires
        0 <= i < s.len(),
    ensures
        spec_filter_payment_sum(s.take(i + 1), method) == spec_filter_payment_sum(
            s.take(i),
            method,
        ) + (if s[i].spec_payment_method() == Some(method) {
            s[i].spec_total_cost()
        } else {
            0
        }),
{
    assert(s.take(i + 1).drop_last() =~= s.take(i));
    assert(s.take(i + 1).last() == s[i]);
}

proof fn lemma_filter_payment_sum_nonneg<T: HasPaymentMethod + HasTotalCost>(
    s: Seq<T>,
    method: PaymentMethod,
)
    ensures
        spec_filter_payment_sum(s, method) >= 0,
    decreases s.len(),
{
    if s.len() > 0 {
        lemma_filter_payment_sum_nonneg(s.drop_last(), method);
        s.last().lemma_total_cost_nonneg();
    }
}

proof fn lemma_filter_payment_sum_take_le<T: HasPaymentMethod + HasTotalCost>(
    s: Seq<T>,
    method: PaymentMethod,
    i: int,
)
    requires
        0 <= i <= s.len(),
    ensures
        0 <= spec_filter_payment_sum(s.take(i), method) <= spec_filter_payment_sum(s, method),
    decreases s.len() - i,
{
    if i == s.len() {
        assert(s.take(i) =~= s);
        lemma_filter_payment_sum_nonneg(s, method);
    } else {
        lemma_filter_payment_sum_nonneg(s.take(i), method);
        lemma_filter_payment_sum_step(s, method, i);
        s[i].lemma_total_cost_nonneg();
        lemma_filter_payment_sum_take_le(s, method, i + 1);
    }
}

/// A sum over one payment method never exceeds the sum over all.
pub proof fn lemma_filter_payment_le_total<T: HasPaymentMethod + HasTotalCost>(
    s: Seq<T>,
    method: PaymentMethod,
)
    ensures
        0 <= spec_filter_payment_sum(s, method) <= spec_total_cost_sum(s),
    decreases s.len(),
{
    lemma_filter_payment_sum_nonneg(s, method);
    if s.len() > 0 {
        lemma_filter_payment_le_total(s.drop_last(), method);
        s.last().lemma_total_cost_nonneg();
    }
}

/// The summed total cost of the values carrying the given payment method.
pub fn filter_by_payment_and_sum<T: HasPaymentMethod + HasTotalCost>(
    items: &Vec<T>,
    method: PaymentMethod,
) -> (r: u64)
    requires
        spec_filter_payment_sum(items@, method) <= u64::MAX,
        spec_total_cost_sum(items@) <= u64::MAX,
    ensures
        r == spec_filter_payment_sum(items@, method),
{
    proof {
        assert(items@.take(0) =~= Seq::<T>::empty());
    }
    let mut total: u64 = 0;
    let mut i: usize = 0;
    while i < items.len()
        invariant
            i <= items.len(),
            spec_filter_payment_sum(items@, method) <= u64::MAX,
            spec_total_cost_sum(items@) <= u64::MAX,
            total == spec_filter_payment_sum(items@.take(i as int), method),
        decreases items.len() - i,
    {
        proof {
            lemma_filter_payment_sum_step(items@, method, i as int);
            lemma_filter_payment_sum_take_le(items@, method, i as int);
            lemma_filter_payment_sum_take_le(items@, method, i + 1);
            lemma_total_cost_sum_step(items@, i as int);
            lemma_total_cost_sum_take_le(items@, i as int);
            lemma_total_cost_sum_take_le(items@, i + 1);
            items@[i as int].lemma_total_cost_nonneg();
        }
        if items[i].matches_payment_method(method) {
            let c = items[i].total_cost();
            total = total + c;
        }
        i = i + 1;
    }
    proof {
        assert(items@.take(items@.len() as int) =~= items@);
    }
    total
}

proof fn lemma_tax_sum_step(s: Seq<GiftShopSale>, i: int)
    requires
        0 <= i < s.len(),
    ensures
        spec_tax_sum(s.take(i + 1)) == spec_tax_sum(s.take(i)) + spec_tax(s[i]@),
{
    assert(s.take(i + 1).drop_last() =~= s.take(i));
    assert(s.take(i + 1).last() == s[i]);
}

proof fn lemma_tax_sum_nonneg(s: Seq<GiftShopSale>)
    ensures
        spec_tax_sum(s) >= 0,
    decreases s.len(),
{
    if s.len() > 0 {
        lemma_tax_sum_nonneg(s.drop_last());
        crate::model::gift_shop_sale::lemma_gift_shop_total_nonneg(s.last()@);
    }
}

proof fn lemma_tax_sum_take_le(s: Seq<GiftShopSale>, i: int)
    requires
        0 <= i <= s.len(),
    ensures
        0 <= spec_tax_sum(s.take(i)) <= spec_tax_sum(s),
    decreases s.len() - i,
{
    if i == s.len() {
        assert(s.take(i) =~= s);
        lemma_tax_sum_nonneg(s);
    } else {
        lemma_tax_sum_nonneg(s.take(i));
        lemma_tax_sum_step(s, i);
        crate::model::gift_shop_sale::lemma_gift_shop_total_nonneg(s[i]@);
        lemma_tax_sum_take_le(s, i + 1);
    }
}

/// The summed sales tax of the gift-shop sales, in cents.
pub fn sales_tax_collected(sales: &Vec<GiftShopSale>) -> (r: u64)
    requires
        spec_tax_sum(sales@) <= u64::MAX,
        forall|i: int|
            0 <= i < sales@.len() ==> spec_gift_shop_total(#[trigger] sales@[i]@) <= u64::MAX,
    ensures
        r == spec_tax_sum(sales@),
{
    proof {
        assert(sales@.take(0) =~= Seq::<GiftShopSale>::empty());
    }
    let mut total: u64 = 0;
    let mut i: usize = 0;
    while i < sales.len()
        invariant
            i <= sales.len(),
            spec_tax_sum(sales@) <= u64::MAX,
            forall|j: int|
                0 <= j < sales@.len() ==> spec_gift_shop_total(#[trigger] sales@[j]@) <= u64::MAX,
            total == spec_tax_sum(sales@.take(i as int)),
        decreases sales.len() - i,
    {
        proof {
            lemma_tax_sum_step(sales@, i as int);
            lemma_tax_sum_take_le(sales@, i as int);
            lemma_tax_sum_take_le(sales@, i + 1);
            crate::model::gift_shop_sale::lemma_gift_shop_total_nonneg(sales@[i as int]@);
        }
        let c = sales[i].compute_tax();
        total = total + c;
        i = i + 1;
    }
    proof {
        assert(sales@.take(sales@.len() as int) =~= sales@);
    }
    total
}

/// The dollar rendering of a count of cents after the given prefix: a bare
/// zero for nothing, two decimals otherwise.
pub open spec fn spec_ff(prefix: Seq<char>, cents: u64) -> Seq<char> {
    if cents == 0 {
        prefix + "0"@
    } else {
        prefix + fixed2_text_of(cents as nat)
    }
}

/// Renders a count of cents after a prefix: a bare zero for nothing, two
/// decimals otherwise.
pub fn ff(prefix: &str, cents: u64) -> (r: String)
    ensures
        r@ == spec_ff(prefix@, cents),
{
    let mut out = prefix.to_owned();
    if cents == 0 {
        proof {
            reveal_strlit("0");
        }
        out.append("0");
    } else {
        let digits = fixed2_to_dec(cents);
        out.append(digits.as_str());
    }
    out
}

/// The summed cost of everything paid with the given method, across all
/// four entity kinds' daily snapshots, in the order admissions,
/// memberships, gift-shop sales, donations.
pub open spec fn spec_total_money(db: Database, method: PaymentMethod) -> int {
    spec_filter_payment_sum(db.spec_daily_admissions(), method) + spec_filter_payment_sum(
        db.spec_daily_memberships(),
        method,
    ) + spec_filter_payment_sum(db.spec_daily_gift_shop_sales(), method)
        + spec_filter_payment_sum(db.spec_daily_donations(), method)
}

/// Sums the daily money taken in by one payment method over all four
/// entity kinds.
pub fn total_money_by_payment_method(database: &Database, payment_method: PaymentMethod) -> (r:
    u64)
    requires
        spec_total_cost_sum(database.spec_daily_admissions()) + spec_total_cost_sum(
            database.spec_daily_memberships(),
        ) + spec_total_cost_sum(database.spec_daily_gift_shop_sales()) + spec_total_cost_sum(
            database.spec_daily_donations(),
        ) <= u64::MAX,
    ensures
        r == spec_total_money(*database, payment_method),
{
    proof {
        lemma_filter_payment_le_total(database.spec_daily_admissions(), payment_method);
        lemma_filter_payment_le_total(database.spec_daily_memberships(), payment_method);
        lemma_filter_payment_le_total(database.spec_daily_gift_shop_sales(), payment_method);
        lemma_filter_payment_le_total(database.spec_daily_donations(), payment_method);
        lemma_total_cost_sum_nonneg(database.spec_daily_admissions());
        lemma_total_cost_sum_nonneg(database.spec_daily_memberships());
        lemma_total_cost_sum_nonneg(database.spec_daily_gift_shop_sales());
        lemma_total_cost_sum_nonneg(database.spec_daily_donations());
    }
    let a = filter_by_payment_and_sum(database.daily_admissions(), payment_method);
    let m = filter_by_payment_and_sum(database.daily_memberships(), payment_method);
    let g = filter_by_payment_and_sum(database.daily_gift_shop_sales(), payment_method);
    let d = filter_by_payment_and_sum(database.daily_donations(), payment_method);
    a + m + g + d
}


proof fn lemma_admission_kind_le_attendance(s: Seq<Admission>, kind: AdmissionKind)
    ensures
        spec_admission_kind_units(s, kind) <= spec_attendance(s),
    decreases s.len(),
{
    if s.len() > 0 {
        lemma_admission_kind_le_attendance(s.drop_last(), kind);
    }
}

proof fn lemma_membership_kind_le_units(s: Seq<Membership>, kind: MembershipKind)
    ensures
        spec_membership_kind_units(s, kind) <= spec_membership_units(s),
    decreases s.len(),
{
    if s.len() > 0 {
        lemma_membership_kind_le_units(s.drop_last(), kind);
    }
}

/// Whether the daily aggregates of a facade fit the machine words the
/// report is computed in.
pub open spec fn spec_summary_fits(db: Database) -> bool {
    &&& spec_attendance(db.spec_daily_admissions()) <= u32::MAX
    &&& spec_membership_units(db.spec_daily_memberships()) <= u32::MAX
    &&& spec_total_cost_sum(db.spec_daily_admissions()) + spec_total_cost_sum(
        db.spec_daily_memberships(),
    ) + spec_total_cost_sum(db.spec_daily_gift_shop_sales()) + spec_total_cost_sum(
        db.spec_daily_donations(),
    ) <= u64::MAX
    &&& spec_total_cost_sum(db.spec_daily_transactions()) <= u64::MAX
    &&& forall|i: int|
        0 <= i < db.spec_daily_gift_shop_sales().len() ==> spec_gift_shop_total(
            #[trigger] db.spec_daily_gift_shop_sales()[i]@,
        ) <= u64::MAX
    &&& spec_tax_sum(db.spec_daily_gift_shop_sales()) <= u64::MAX
}

/// The daily report's four ordered listings: the overall summary, the
/// payments breakdown, the admissions breakdown, and the membership sales
/// breakdown, each a list of label and rendered-value pairs in display
/// order.
#[derive(Debug)]
pub struct SummaryDicts {
    pub summary: Vec<(String, String)>,
    pub payments: Vec<(String, String)>,
    pub admissions: Vec<(String, String)>,
    pub memberships: Vec<(String, String)>,
}

impl SummaryDicts {
    /// Computes the daily report from the facade's daily snapshots.
    pub fn new(database: &Database) -> (r: SummaryDicts)
        requires
            spec_summary_fits(*database),
        ensures
            r.summary@.len() == 7,
            r.summary@[0].0@ == "Total Attendance"@,
            r.summary@[0].1@ == dec_digits_of(
                spec_attendance(database.spec_daily_admissions()) as nat,
            ),
            r.summary@[1].0@ == "Admissions Revenue"@,
            r.summary@[1].1@ == spec_ff(
                "$"@,
                spec_total_cost_sum(database.spec_daily_admissions()) as u64,
            ),
            r.summary@[2].0@ == "Total Donations"@,
            r.summary@[2].1@ == spec_ff(
                "$"@,
                spec_total_cost_sum(database.spec_daily_donations()) as u64,
            ),
            r.summary@[3].0@ == "Membership Sales"@,
            r.summary@[3].1@ == spec_ff(
                "$"@,
                spec_total_cost_sum(database.spec_daily_memberships()) as u64,
            ),
            r.summary@[4].0@ == "Gift Shop Sales"@,
            r.summary@[4].1@ == spec_ff(
                "$"@,
                spec_total_cost_sum(database.spec_daily_gift_shop_sales()) as u64,
            ),
            r.summary@[5].0@ == "Sales Tax Collected"@,
            r.summary@[5].1@ == "$"@ + fixed2_text_of(
                spec_tax_sum(database.spec_daily_gift_shop_sales()) as nat,
            ),
            r.summary@[6].0@ == "Total Daily Revenue"@,
            r.summary@[6].1@ == spec_ff(
                "$"@,
                spec_total_cost_sum(database.spec_daily_transactions()) as u64,
            ),
            r.payments@.len() == 11,
            r.payments@[0].0@ == "Cash - Admissions"@,
            r.payments@[0].1@ == spec_ff(
                "$"@,
                spec_filter_payment_sum(
                    database.spec_daily_admissions(),
                    PaymentMethod::Cash,
                ) as u64,
            ),
            r.payments@[1].0@ == "Credit Card - Admissions"@,
            r.payments@[1].1@ == spec_ff(
                "$"@,
                spec_filter_payment_sum(
                    database.spec_daily_admissions(),
                    PaymentMethod::CreditCard,
                ) as u64,
            ),
            r.payments@[2].0@ == "Free - Admissions"@,
            r.payments@[2].1@ == dec_digits_of(database.spec_daily_admissions().len()),
            r.payments@[3].0@ == "Cash - Donations"@,
            r.payments@[3].1@ == spec_ff(
                "$"@,
                spec_filter_payment_sum(
                    database.spec_daily_donations(),
                    PaymentMethod::Cash,
                ) as u64,
            ),
            r.payments@[4].0@ == "Credit Card - Donations"@,
            r.payments@[4].1@ == spec_ff(
                "$"@,
                spec_filter_payment_sum(
                    database.spec_daily_donations(),
                    PaymentMethod::CreditCard,
                ) as u64,
            ),
            r.payments@[5].0@ == "Cash - Memberships"@,
            r.payments@[5].1@ == spec_ff(
                "$"@,
                spec_filter_payment_sum(
                    database.spec_daily_memberships(),
                    PaymentMethod::Cash,
                ) as u64,
            ),
            r.payments@[6].0@ == "Credit Card - Memberships"@,
            r.payments@[6].1@ == spec_ff(
                "$"@,
                spec_filter_payment_sum(
                    database.spec_daily_memberships(),
                    PaymentMethod::CreditCard,
                ) as u64,
            ),
            r.payments@[7].0@ == "Cash - Shop Sales"@,
            r.payments@[7].1@ == spec_ff(
                "$"@,
                spec_filter_payment_sum(
                    database.spec_daily_gift_shop_sales(),
                    PaymentMethod::Cash,
                ) as u64,
            ),
            r.payments@[8].0@ == "Credit Card - Shop Sales"@,
            r.payments@[8].1@ == spec_ff(
                "$"@,
                spec_filter_payment_sum(
                    database.spec_daily_gift_shop_sales(),
                    PaymentMethod::CreditCard,
                ) as u64,
            ),
            r.payments@[9].0@ == "Total Cash"@,
            r.payments@[9].1@ == spec_ff(
                "$"@,
                spec_total_money(*database, PaymentMethod::Cash) as u64,
            ),
            r.payments@[10].0@ == "Total Credit Card"@,
            r.payments@[10].1@ == spec_ff(
                "$"@,
                spec_total_money(*database, PaymentMethod::CreditCard) as u64,
            ),
            r.admissions@.len() == 5,
            r.admissions@[0].0@ == "Adults"@,
            r.admissions@[0].1@ == dec_digits_of(
                spec_admission_kind_units(
                    database.spec_daily_admissions(),
                    AdmissionKind::Adult,
                ) as nat,
            ),
            r.admissions@[1].0@ == "Seniors"@,
            r.admissions@[1].1@ == dec_digits_of(
                spec_admission_kind_units(
                    database.spec_daily_admissions(),
                    AdmissionKind::Senior,
                ) as nat,
            ),
            r.admissions@[2].0@ == "Children (6-12)"@,
            r.admissions@[2].1@ == dec_digits_of(
                spec_admission_kind_units(
                    database.spec_daily_admissions(),
                    AdmissionKind::ChildUnderThirteen,
                ) as nat,
            ),
            r.admissions@[3].0@ == "Children (Under 6)"@,
            r.admissions@[3].1@ == dec_digits_of(
                spec_admission_kind_units(
                    database.spec_daily_admissions(),
                    AdmissionKind::ChildUnderSix,
                ) as nat,
            ),
            r.admissions@[4].0@ == "PFSP Members"@,
            r.admissions@[4].1@ == dec_digits_of(
                spec_admission_kind_units(
                    database.spec_daily_admissions(),
                    AdmissionKind::PfspMember,
                ) as nat,
            ),
            r.memberships@.len() == 5,
            r.memberships@[0].0@ == "Family"@,
            r.memberships@[0].1@ == dec_digits_of(
                spec_membership_kind_units(
                    database.spec_daily_memberships(),
                    MembershipKind::Family,
                ) as nat,
            ),
            r.memberships@[1].0@ == "Individual"@,
            r.memberships@[1].1@ == dec_digits_of(
                spec_membership_kind_units(
                    database.spec_daily_memberships(),
                    MembershipKind::Individual,
                ) as nat,
            ),
            r.memberships@[2].0@ == "Senior Family"@,
            r.memberships@[2].1@ == dec_digits_of(
                spec_membership_kind_units(
                    database.spec_daily_memberships(),
                    MembershipKind::SeniorFamily,
                ) as nat,
            ),
            r.memberships@[3].0@ == "Senior Individual"@,
            r.memberships@[3].1@ == dec_digits_of(
                spec_membership_kind_units(
                    database.spec_daily_memberships(),
                    MembershipKind::SeniorIndividual,
                ) as nat,
            ),
            r.memberships@[4].0@ == "Lifetime Member"@,
            r.memberships@[4].1@ == dec_digits_of(
                spec_membership_kind_units(
                    database.spec_daily_memberships(),
                    MembershipKind::LifetimeMember,
                ) as nat,
            ),
    {
        proof {
            lemma_total_cost_sum_nonneg(database.spec_daily_admissions());
            lemma_total_cost_sum_nonneg(database.spec_daily_memberships());
            lemma_total_cost_sum_nonneg(database.spec_daily_gift_shop_sales());
            lemma_total_cost_sum_nonneg(database.spec_daily_donations());
            lemma_filter_payment_le_total(database.spec_daily_admissions(), PaymentMethod::Cash);
            lemma_filter_payment_le_total(
                database.spec_daily_admissions(),
                PaymentMethod::CreditCard,
            );
            lemma_filter_payment_le_total(database.spec_daily_donations(), PaymentMethod::Cash);
            lemma_filter_payment_le_total(
                database.spec_daily_donations(),
                PaymentMethod::CreditCard,
            );
            lemma_filter_payment_le_total(database.spec_daily_memberships(), PaymentMethod::Cash);
            lemma_filter_payment_le_total(
                database.spec_daily_memberships(),
                PaymentMethod::CreditCard,
            );
            lemma_filter_payment_le_total(
                database.spec_daily_gift_shop_sales(),
                PaymentMethod::Cash,
            );
            lemma_filter_payment_le_total(
                database.spec_daily_gift_shop_sales(),
                PaymentMethod::CreditCard,
            );
            lemma_admission_kind_le_attendance(
                database.spec_daily_admissions(),
                AdmissionKind::Adult,
            );
            lemma_admission_kind_le_attendance(
                database.spec_daily_admissions(),
                AdmissionKind::Senior,
            );
            lemma_admission_kind_le_attendance(
                database.spec_daily_admissions(),
                AdmissionKind::ChildUnderThirteen,
            );
            lemma_admission_kind_le_attendance(
                database.spec_daily_admissions(),
                AdmissionKind::ChildUnderSix,
            );
            lemma_admission_kind_le_attendance(
                database.spec_daily_admissions(),
                AdmissionKind::PfspMember,
            );
            lemma_admission_kind_units_nonneg(
                database.spec_daily_admissions(),
                AdmissionKind::Adult,
            );
            lemma_admission_kind_units_nonneg(
                database.spec_daily_admissions(),
                AdmissionKind::Senior,
            );
            lemma_admission_kind_units_nonneg(
                database.spec_daily_admissions(),
                AdmissionKind::ChildUnderThirteen,
            );
            lemma_admission_kind_units_nonneg(
                database.spec_daily_admissions(),
                AdmissionKind::ChildUnderSix,
            );
            lemma_admission_kind_units_nonneg(
                database.spec_daily_admissions(),
                AdmissionKind::PfspMember,
            );
            lemma_membership_kind_le_units(
                database.spec_daily_memberships(),
                MembershipKind::Family,
            );
            lemma_membership_kind_le_units(
                database.spec_daily_memberships(),
                MembershipKind::Individual,
            );
            lemma_membership_kind_le_units(
                database.spec_daily_memberships(),
                MembershipKind::SeniorFamily,
            );
            lemma_membership_kind_le_units(
                database.spec_daily_memberships(),
                MembershipKind::SeniorIndividual,
            );
            lemma_membership_kind_le_units(
                database.spec_daily_memberships(),
                MembershipKind::LifetimeMember,
            );
            lemma_membership_kind_units_nonneg(
                database.spec_daily_memberships(),
                MembershipKind::Family,
            );
            lemma_membership_kind_units_nonneg(
                database.spec_daily_memberships(),
                MembershipKind::Individual,
            );
            lemma_membership_kind_units_nonneg(
                database.spec_daily_memberships(),
                MembershipKind::SeniorFamily,
            );
            lemma_membership_kind_units_nonneg(
                database.spec_daily_memberships(),
                MembershipKind::SeniorIndividual,
            );
            lemma_membership_kind_units_nonneg(
                database.spec_daily_memberships(),
                MembershipKind::LifetimeMember,
            );
            lemma_attendance_nonneg(database.spec_daily_admissions());
        }
        let attendance = attendance_total(database.daily_admissions());
        let tax = sales_tax_collected(database.daily_gift_shop_sales());
        let mut tax_text = "$".to_owned();
        let tax_digits = fixed2_to_dec(tax);
        tax_text.append(tax_digits.as_str());
        let mut summary: Vec<(String, String)> = Vec::new();
        summary.push(("Total Attendance".to_owned(), u64_to_dec(attendance as u64)));
        summary.push(
            ("Admissions Revenue".to_owned(), ff("$", total_cost_sum(database.daily_admissions()))),
        );
        summary.push(
            ("Total Donations".to_owned(), ff("$", total_cost_sum(database.daily_donations()))),
        );
        summary.push(
            ("Membership Sales".to_owned(), ff("$", total_cost_sum(database.daily_memberships()))),
        );
        summary.push(
            (
                "Gift Shop Sales".to_owned(),
                ff("$", total_cost_sum(database.daily_gift_shop_sales())),
            ),
        );
        summary.push(("Sales Tax Collected".to_owned(), tax_text));
        summary.push(
            (
                "Total Daily Revenue".to_owned(),
                ff("$", total_cost_sum(database.daily_transactions())),
            ),
        );
        let mut payments: Vec<(String, String)> = Vec::new();
        payments.push(
            (
                "Cash - Admissions".to_owned(),
                ff(
                    "$",
                    filter_by_payment_and_sum(database.daily_admissions(), PaymentMethod::Cash),
                ),
            ),
        );
        payments.push(
            (
                "Credit Card - Admissions".to_owned(),
                ff(
                    "$",
                    filter_by_payment_and_sum(
                        database.daily_admissions(),
                        PaymentMethod::CreditCard,
                    ),
                ),
            ),
        );
        payments.push(
            ("Free - Admissions".to_owned(), u64_to_dec(database.daily_admissions().len() as u64)),
        );
        payments.push(
            (
                "Cash - Donations".to_owned(),
                ff("$", filter_by_payment_and_sum(database.daily_donations(), PaymentMethod::Cash)),
            ),
        );
        payments.push(
            (
                "Credit Card - Donations".to_owned(),
                ff(
                    "$",
                    filter_by_payment_and_sum(
                        database.daily_donations(),
                        PaymentMethod::CreditCard,
                    ),
                ),
            ),
        );
        payments.push(
            (
                "Cash - Memberships".to_owned(),
                ff(
                    "$",
                    filter_by_payment_and_sum(database.daily_memberships(), PaymentMethod::Cash),
                ),
            ),
        );
        payments.push(
            (
                "Credit Card - Memberships".to_owned(),
                ff(
                    "$",
                    filter_by_payment_and_sum(
                        database.daily_memberships(),
                        PaymentMethod::CreditCard,
                    ),
                ),
            ),
        );
        payments.push(
            (
                "Cash - Shop Sales".to_owned(),
                ff(
                    "$",
                    filter_by_payment_and_sum(
                        database.daily_gift_shop_sales(),
                        PaymentMethod::Cash,
                    ),
                ),
            ),
        );
        payments.push(
            (
                "Credit Card - Shop Sales".to_owned(),
                ff(
                    "$",
                    filter_by_payment_and_sum(
                        database.daily_gift_shop_sales(),
                        PaymentMethod::CreditCard,
                    ),
                ),
            ),
        );
        payments.push(
            (
                "Total Cash".to_owned(),
                ff("$", total_money_by_payment_method(database, PaymentMethod::Cash)),
            ),
        );
        payments.push(
            (
                "Total Credit Card".to_owned(),
                ff("$", total_money_by_payment_method(database, PaymentMethod::CreditCard)),
            ),
        );
        let mut admissions: Vec<(String, String)> = Vec::new();
        admissions.push(
            (
                "Adults".to_owned(),
                u64_to_dec(
                    sum_over_admission_kind(
                        database.daily_admissions(),
                        AdmissionKind::Adult,
                    ) as u64,
                ),
            ),
        );
        admissions.push(
            (
                "Seniors".to_owned(),
                u64_to_dec(
                    sum_over_admission_kind(
                        database.daily_admissions(),
                        AdmissionKind::Senior,
                    ) as u64,
                ),
            ),
        );
        admissions.push(
            (
                "Children (6-12)".to_owned(),
                u64_to_dec(
                    sum_over_admission_kind(
                        database.daily_admissions(),
                        AdmissionKind::ChildUnderThirteen,
                    ) as u64,
                ),
            ),
        );
        admissions.push(
            (
                "Children (Under 6)".to_owned(),
                u64_to_dec(
                    sum_over_admission_kind(
                        database.daily_admissions(),
                        AdmissionKind::ChildUnderSix,
                    ) as u64,
                ),
            ),
        );
        admissions.push(
            (
                "PFSP Members".to_owned(),
                u64_to_dec(
                    sum_over_admission_kind(
                        database.daily_admissions(),
                        AdmissionKind::PfspMember,
                    ) as u64,
                ),
            ),
        );
        let mut memberships: Vec<(String, String)> = Vec::new();
        memberships.push(
            (
                "Family".to_owned(),
                u64_to_dec(
                    sum_over_membership_sale(
                        database.daily_memberships(),
                        MembershipKind::Family,
                    ) as u64,
                ),
            ),
        );
        memberships.push(
            (
                "Individual".to_owned(),
                u64_to_dec(
                    sum_over_membership_sale(
                        database.daily_memberships(),
                        MembershipKind::Individual,
                    ) as u64,
                ),
            ),
        );
        memberships.push(
            (
                "Senior Family".to_owned(),
                u64_to_dec(
                    sum_over_membership_sale(
                        database.daily_memberships(),
                        MembershipKind::SeniorFamily,
                    ) as u64,
                ),
            ),
        );
        memberships.push(
            (
                "Senior Individual".to_owned(),
                u64_to_dec(
                    sum_over_membership_sale(
                        database.daily_memberships(),
                        MembershipKind::SeniorIndividual,
                    ) as u64,
                ),
            ),
        );
        memberships.push(
            (
                "Lifetime Member".to_owned(),
                u64_to_dec(
                    sum_over_membership_sale(
                        database.daily_memberships(),
                        MembershipKind::LifetimeMember,
                    ) as u64,
                ),
            ),
        );
        SummaryDicts { summary, payments, admissions, memberships }
    }
}

} // verus!
