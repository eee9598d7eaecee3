//! The search for domain names: which names are free, and what they cost.

use crate::auth::AuthState;
use crate::base::RackhostClient;
use crate::endpoints::{BASE_URL, DOMAIN_SEARCH_PATH};
use crate::error::Error;
use crate::html::{
    attr_at, cells_at, check_page_fits, find_rows, found_rows, on_page, Element,
    ElementView, Row, RowView,
};
use crate::json::{json_leaves, read_json, JsonKey, JsonKeyView, JsonLeaf, JsonLeafView};
use crate::outcome::{
    lemma_try_fold_fails, lemma_try_fold_step, lemma_try_map_fails, lemma_try_map_step,
    result_view, try_fold, try_map,
};
use crate::base::{fetch, get_request};
use crate::request::{
    check_url_fits, parse_url_with_param, url_fits, url_with_param, Request, RequestView,
};
use crate::text::{
    byte_len, contains_word, decimal_int, fits_in, has_word, i64_to_string,
    lemma_decimal_int_is_short,
};
use vstd::prelude::*;
use vstd::string::*;

verus! {

/// What the search says of a name.
#[derive(Debug, Copy, Clone, Ord, PartialOrd, Eq, PartialEq)]
pub enum DomainState {
    /// Nobody holds the name.
    Available,
    /// Somebody else holds the name.
    Unavailable,
    /// The account that searches holds the name.
    RegisteredOnRackhost,
    /// The search does not say.
    Unknown,
}

/// The one currency in which the console's prices are read.
#[derive(Debug, Copy, Clone, Eq, PartialEq)]
pub enum Currency {
    /// The Hungarian forint.
    Huf,
}

/// An amount of money: `mantissa` divided by ten to the power of `scale`, in `currency`.
#[derive(Debug, Copy, Clone, Eq, PartialEq)]
pub struct Money {
    pub mantissa: i128,
    pub scale: u32,
    pub currency: Currency,
}

/// The code under which the console names the forint.
pub const SUPPORTED_CURRENCY: &'static str = "HUF";

/// The amount that `rusty_money` reads in `text` as forints, as the decimal
/// number's mantissa and scale; `None` where it reads no amount.
pub uninterp spec fn huf_amount(text: Seq<char>) -> Option<(i128, u32)>;

/// The longest price, in bytes, that is handed to the money parser, which
/// takes a step deeper for each character that it reads.
pub const PRICE_LIMIT: usize = 0x100;

/// `rusty_money::Money::from_str` with the currency `rusty_money::iso::HUF`;
/// of the amount it keeps `Decimal::mantissa` and `Decimal::scale`. The
/// bound keeps the text so short that the parser of the decimal number
/// stays shallow.
///
/// Trusted: the result depends on `amount` alone, and is `None` exactly where
/// the call fails.
#[verifier::external_body]
fn parse_huf(amount: &str) -> (parsed: Option<(i128, u32)>)
    requires
        byte_len(amount@) <= PRICE_LIMIT,
    ensures
        parsed == huf_amount(amount@),
{
    let money = rusty_money::Money::from_str(amount, rusty_money::iso::HUF).ok()?;
    Some((money.amount().mantissa(), money.amount().scale()))
}

/// The amount that the price `text` stands for in forints: what the money
/// parser reads in it, where it is short enough to be handed to that parser.
pub open spec fn price_amount(text: Seq<char>) -> Option<(i128, u32)> {
    if byte_len(text) <= PRICE_LIMIT {
        huf_amount(text)
    } else {
        None
    }
}

/// The amount that the price `text` stands for in forints, as the decimal
/// number's mantissa and scale. A text of more than [`PRICE_LIMIT`] bytes
/// stands for none.
pub fn read_price(text: &str) -> (amount: Option<(i128, u32)>)
    ensures
        amount == price_amount(text@),
{
    if fits_in(text, PRICE_LIMIT) {
        parse_huf(text)
    } else {
        None
    }
}

/// The forints that an amount read by [`read_price`] stands for.
pub open spec fn forints(amount: (i128, u32)) -> Money {
    Money { mantissa: amount.0, scale: amount.1, currency: Currency::Huf }
}

/// The prices of a name: for each term of one to ten years the price of the
/// whole term, and the fee for the registration where the console names one.
#[derive(Debug, Clone, Copy, PartialEq, Eq)]
pub struct DomainPricing {
    pub registration_price: Option<Money>,
    pub price_one_year: Money,
    pub price_two_years: Money,
    pub price_three_years: Money,
    pub price_four_years: Money,
    pub price_five_years: Money,
    pub price_six_years: Money,
    pub price_seven_years: Money,
    pub price_eight_years: Money,
    pub price_nine_years: Money,
    pub price_ten_years: Option<Money>,
}

impl DomainPricing {
    /// Whether the schedule holds a price for each of the ten terms.
    pub open spec fn is_complete(self) -> bool {
        self.price_ten_years is Some
    }
}

/// Prices as they are collected, term by term, before all are known.
#[derive(Debug, Clone, Copy, PartialEq, Eq)]
pub struct DomainPricingBuilder {
    pub registration_price: Option<Money>,
    pub price_one_year: Option<Money>,
    pub price_two_years: Option<Money>,
    pub price_three_years: Option<Money>,
    pub price_four_years: Option<Money>,
    pub price_five_years: Option<Money>,
    pub price_six_years: Option<Money>,
    pub price_seven_years: Option<Money>,
    pub price_eight_years: Option<Money>,
    pub price_nine_years: Option<Money>,
    pub price_ten_years: Option<Money>,
}

/// The longest term, in years, that a schedule holds a price for.
pub const LONGEST_TERM: u64 = 10;

impl DomainPricingBuilder {
    /// A builder that holds no price.
    pub open spec fn empty() -> DomainPricingBuilder {
        DomainPricingBuilder {
            registration_price: None,
            price_one_year: None,
            price_two_years: None,
            price_three_years: None,
            price_four_years: None,
            price_five_years: None,
            price_six_years: None,
            price_seven_years: None,
            price_eight_years: None,
            price_nine_years: None,
            price_ten_years: None,
        }
    }

    /// The price that the builder holds for the term of `quantity` years, or,
    /// for 0, for the registration.
    pub open spec fn price_for(self, quantity: u64) -> Option<Money> {
        if quantity == 0 {
            self.registration_price
        } else if quantity == 1 {
            self.price_one_year
        } else if quantity == 2 {
            self.price_two_years
        } else if quantity == 3 {
            self.price_three_years
        } else if quantity == 4 {
            self.price_four_years
        } else if quantity == 5 {
            self.price_five_years
        } else if quantity == 6 {
            self.price_six_years
        } else if quantity == 7 {
            self.price_seven_years
        } else if quantity == 8 {
            self.price_eight_years
        } else if quantity == 9 {
            self.price_nine_years
        } else if quantity == 10 {
            self.price_ten_years
        } else {
            None
        }
    }

    /// The builder with `money` as the price for the term of `quantity`
    /// years, or, for 0, for the registration.
    pub open spec fn with_price(self, quantity: u64, money: Money) -> DomainPricingBuilder {
        if quantity == 0 {
            DomainPricingBuilder { registration_price: Some(money), ..self }
        } else if quantity == 1 {
            DomainPricingBuilder { price_one_year: Some(money), ..self }
        } else if quantity == 2 {
            DomainPricingBuilder { price_two_years: Some(money), ..self }
        } else if quantity == 3 {
            DomainPricingBuilder { price_three_years: Some(money), ..self }
        } else if quantity == 4 {
            DomainPricingBuilder { price_four_years: Some(money), ..self }
        } else if quantity == 5 {
            DomainPricingBuilder { price_five_years: Some(money), ..self }
        } else if quantity == 6 {
            DomainPricingBuilder { price_six_years: Some(money), ..self }
        } else if quantity == 7 {
            DomainPricingBuilder { price_seven_years: Some(money), ..self }
        } else if quantity == 8 {
            DomainPricingBuilder { price_eight_years: Some(money), ..self }
        } else if quantity == 9 {
            DomainPricingBuilder { price_nine_years: Some(money), ..self }
        } else if quantity == 10 {
            DomainPricingBuilder { price_ten_years: Some(money), ..self }
        } else {
            self
        }
    }

    /// Whether the builder holds a price for each of the ten terms.
    pub open spec fn is_complete(self) -> bool {
        forall|years: u64| 1 <= years <= LONGEST_TERM ==> (#[trigger] self.price_for(years)) is Some
    }

    /// The schedule that a builder with all ten prices holds.
    pub open spec fn schedule(self) -> DomainPricing {
        DomainPricing {
            registration_price: self.registration_price,
            price_one_year: self.price_one_year->0,
            price_two_years: self.price_two_years->0,
            price_three_years: self.price_three_years->0,
            price_four_years: self.price_four_years->0,
            price_five_years: self.price_five_years->0,
            price_six_years: self.price_six_years->0,
            price_seven_years: self.price_seven_years->0,
            price_eight_years: self.price_eight_years->0,
            price_nine_years: self.price_nine_years->0,
            price_ten_years: self.price_ten_years,
        }
    }

    /// What building gives: the schedule where all ten prices are there.
    pub open spec fn built(self) -> Result<DomainPricing, Error> {
        if self.is_complete() {
            Ok(self.schedule())
        } else {
            Err(Error::IncompletePricing)
        }
    }

    /// What setting the price `price` for `quantity` gives: the price must
    /// be no longer than [`PRICE_LIMIT`] bytes and read as an amount of
    /// money, and the term must be one that a schedule holds.
    pub open spec fn priced(self, price: Seq<char>, quantity: u64) -> Result<
        DomainPricingBuilder,
        Error,
    > {
        match price_amount(price) {
            None => Err(Error::InvalidPrice),
            Some(amount) => if quantity > LONGEST_TERM {
                Err(Error::UnsupportedTerm)
            } else {
                Ok(self.with_price(quantity, forints(amount)))
            },
        }
    }

    /// A builder that holds no price.
    pub fn new() -> (builder: Self)
        ensures
            builder == DomainPricingBuilder::empty(),
    {
        DomainPricingBuilder {
            registration_price: None,
            price_one_year: None,
            price_two_years: None,
            price_three_years: None,
            price_four_years: None,
            price_five_years: None,
            price_six_years: None,
            price_seven_years: None,
            price_eight_years: None,
            price_nine_years: None,
            price_ten_years: None,
        }
    }

    /// Sets the price for the term of `quantity` years, or, for 0, for the
    /// registration, to `money`. A price that was there before is replaced. A
    /// term above ten years is refused, and the builder stays as it was.
    pub fn set_money_by_quantity(&mut self, money: Money, quantity: u64) -> (outcome: Result<
        (),
        Error,
    >)
        ensures
            quantity <= LONGEST_TERM ==> outcome is Ok && *final(self) == old(self).with_price(
                quantity,
                money,
            ),
            quantity > LONGEST_TERM ==> outcome == Err::<(), Error>(Error::UnsupportedTerm)
                && *final(self) == *old(self),
    {
        let money = Some(money);
        match quantity {
            0 => self.registration_price = money,
            1 => self.price_one_year = money,
            2 => self.price_two_years = money,
            3 => self.price_three_years = money,
            4 => self.price_four_years = money,
            5 => self.price_five_years = money,
            6 => self.price_six_years = money,
            7 => self.price_seven_years = money,
            8 => self.price_eight_years = money,
            9 => self.price_nine_years = money,
            10 => self.price_ten_years = money,
            _ => { return Err(Error::UnsupportedTerm); },
        }
        Ok(())
    }

    /// Reads `price` as an amount of forints and sets it as the price for the
    /// term of `quantity` years, or, for 0, for the registration. A price
    /// that is no amount, or longer than [`PRICE_LIMIT`] bytes, is refused,
    /// then a term above ten years; the builder then stays as it was.
    pub fn set_by_quantity(&mut self, price: String, quantity: u64) -> (outcome: Result<(), Error>)
        ensures
            match old(self).priced(price@, quantity) {
                Ok(builder) => outcome is Ok && *final(self) == builder,
                Err(error) => outcome == Err::<(), Error>(error) && *final(self) == *old(self),
            },
    {
        match read_price(price.as_str()) {
            None => Err(Error::InvalidPrice),
            Some(amount) => self.set_money_by_quantity(
                Money { mantissa: amount.0, scale: amount.1, currency: Currency::Huf },
                quantity,
            ),
        }
    }

    /// The schedule, where the builder holds a price for each of the ten
    /// terms; a builder that lacks one is refused.
    pub fn build(self) -> (pricing: Result<DomainPricing, Error>)
        ensures
            pricing == self.built(),
            pricing matches Ok(schedule) ==> schedule.is_complete(),
    {
        proof {
            assert(self.price_for(1) == self.price_one_year);
            assert(self.price_for(2) == self.price_two_years);
            assert(self.price_for(3) == self.price_three_years);
            assert(self.price_for(4) == self.price_four_years);
            assert(self.price_for(5) == self.price_five_years);
            assert(self.price_for(6) == self.price_six_years);
            assert(self.price_for(7) == self.price_seven_years);
            assert(self.price_for(8) == self.price_eight_years);
            assert(self.price_for(9) == self.price_nine_years);
            assert(self.price_for(10) == self.price_ten_years);
        }
        match (
            self.price_one_year,
            self.price_two_years,
            self.price_three_years,
            self.price_four_years,
            self.price_five_years,
            self.price_six_years,
            self.price_seven_years,
            self.price_eight_years,
            self.price_nine_years,
            self.price_ten_years,
        ) {
            (
                Some(one),
                Some(two),
                Some(three),
                Some(four),
                Some(five),
                Some(six),
                Some(seven),
                Some(eight),
                Some(nine),
                Some(ten),
            ) => Ok(
                DomainPricing {
                    registration_price: self.registration_price,
                    price_one_year: one,
                    price_two_years: two,
                    price_three_years: three,
                    price_four_years: four,
                    price_five_years: five,
                    price_six_years: six,
                    price_seven_years: seven,
                    price_eight_years: eight,
                    price_nine_years: nine,
                    price_ten_years: Some(ten),
                },
            ),
            _ => Err(Error::IncompletePricing),
        }
    }
}

impl Default for DomainPricingBuilder {
    fn default() -> (builder: Self)
        ensures
            builder == DomainPricingBuilder::empty(),
    {
        DomainPricingBuilder::new()
    }
}

/// What the search says of one name.
#[derive(Debug, Clone, PartialEq, Eq)]
pub struct DomainInfo {
    /// The name.
    pub url: String,
    pub domain_state: DomainState,
    /// The prices, for a name that the account does not hold.
    pub domain_pricing: Option<DomainPricing>,
}

/// The mathematical value of a [`DomainInfo`].
pub struct DomainInfoView {
    pub url: Seq<char>,
    pub domain_state: DomainState,
    pub domain_pricing: Option<DomainPricing>,
}

impl DeepView for DomainInfo {
    type V = DomainInfoView;

    open spec fn deep_view(&self) -> DomainInfoView {
        DomainInfoView {
            url: self.url@,
            domain_state: self.domain_state,
            domain_pricing: self.domain_pricing,
        }
    }
}

impl DomainInfo {
    /// What is known of a name before its prices are.
    pub fn new(url: String, domain_state: DomainState) -> (info: Self)
        ensures
            info.deep_view() == (DomainInfoView { url: url@, domain_state, domain_pricing: None }),
    {
        Self { url, domain_state, domain_pricing: None }
    }

    /// Adds the prices, in place of any that were there.
    pub fn with_price(&mut self, domain_pricing: DomainPricing)
        ensures
            final(self).deep_view() == (DomainInfoView {
                domain_pricing: Some(domain_pricing),
                ..old(self).deep_view()
            }),
    {
        self.domain_pricing = Some(domain_pricing)
    }
}

/// One price as the page offers it.
#[derive(Debug, Clone, PartialEq, Eq)]
pub struct PriceOption {
    /// The amount, in whole units of the currency.
    pub value: i64,
    /// The code of the currency.
    pub currency: String,
    /// The term in years, or 0 for the registration.
    pub quantity: u64,
}

/// The mathematical value of a [`PriceOption`].
pub struct PriceOptionView {
    pub value: i64,
    pub currency: Seq<char>,
    pub quantity: u64,
}

impl DeepView for PriceOption {
    type V = PriceOptionView;

    open spec fn deep_view(&self) -> PriceOptionView {
        PriceOptionView { value: self.value, currency: self.currency@, quantity: self.quantity }
    }
}

/// Finds each name that the search answered with.
pub const DOMAIN_HITS: &'static str = "div.domain-hit[data-domain]";

/// Finds, below a name, each of its prices.
pub const PRICE_OPTIONS: &'static str = "option[data-json]";

/// The attribute that holds the name.
pub const DOMAIN_ATTRIBUTE: &'static str = "data-domain";

/// The attribute that holds the classes of an element.
pub const CLASS_ATTRIBUTE: &'static str = "class";

/// The attribute that holds a price, as JSON.
pub const PRICE_ATTRIBUTE: &'static str = "data-json";

/// The class of a name that somebody else holds.
pub const TAKEN_CLASS: &'static str = "domain-taken";

/// The class of a name that nobody holds.
pub const FREE_CLASS: &'static str = "domain-free";

/// The parameter of the search that carries the candidate name.
pub const SEARCH_PARAMETER: &'static str = "domainList";

/// The member of a price that holds the rest.
pub const PRICE_KEY: &'static str = "gtag";

/// The member that holds the amount.
pub const VALUE_KEY: &'static str = "value";

/// The member that holds the items that the price is for.
pub const ITEMS_KEY: &'static str = "items";

/// The member of an item that holds the term.
pub const QUANTITY_KEY: &'static str = "quantity";

/// The member that holds the code of the currency.
pub const CURRENCY_KEY: &'static str = "currency";

/// The attributes that are read of a name and of its prices, in this order.
pub open spec fn hit_attrs() -> Seq<Seq<char>> {
    seq![DOMAIN_ATTRIBUTE@, CLASS_ATTRIBUTE@, PRICE_ATTRIBUTE@]
}

/// The paths to the amount, the term and the currency of a price, in this order.
pub open spec fn price_paths() -> Seq<Seq<JsonKeyView>> {
    seq![
        seq![JsonKeyView::Name(PRICE_KEY@), JsonKeyView::Name(VALUE_KEY@)],
        seq![
            JsonKeyView::Name(PRICE_KEY@),
            JsonKeyView::Name(ITEMS_KEY@),
            JsonKeyView::Index(0),
            JsonKeyView::Name(QUANTITY_KEY@),
        ],
        seq![JsonKeyView::Name(PRICE_KEY@), JsonKeyView::Name(CURRENCY_KEY@)],
    ]
}

/// What the classes of a name say of it, `classes` being the value of its
/// `class` attribute, whose words are the classes: taken comes first, then
/// free, and a name with neither class is held by the account that searches.
pub open spec fn domain_state_of(classes: Option<Seq<char>>) -> DomainState {
    match classes {
        None => DomainState::RegisteredOnRackhost,
        Some(classes) => if has_word(classes, TAKEN_CLASS@) {
            DomainState::Unavailable
        } else if has_word(classes, FREE_CLASS@) {
            DomainState::Available
        } else {
            DomainState::RegisteredOnRackhost
        },
    }
}

/// The price in what was read of its JSON: the amount must be an integer
/// that an `i64` holds, the term one that a `u64` holds, the currency a string.
pub open spec fn price_option_of(leaves: Option<Seq<JsonLeafView>>) -> Result<
    PriceOptionView,
    Error,
> {
    match leaves {
        None => Err(Error::InvalidJson),
        Some(leaves) => if leaves.len() < 3 {
            Err(Error::MissingField)
        } else {
            match (leaves[0].signed, leaves[1].unsigned, leaves[2].text) {
                (Some(value), Some(quantity), Some(currency)) => Ok(
                    PriceOptionView { value, currency, quantity },
                ),
                _ => Err(Error::MissingField),
            }
        },
    }
}

/// The price that one element of the page offers.
pub open spec fn price_option_in(option: ElementView) -> Result<PriceOptionView, Error> {
    match attr_at(option, 2) {
        None => Err(Error::MissingAttribute),
        Some(json) => price_option_of(json_leaves(json, price_paths())),
    }
}

/// [`price_option_in`] as a step over elements.
pub open spec fn option_step() -> spec_fn(ElementView) -> Result<PriceOptionView, Error> {
    |option: ElementView| price_option_in(option)
}

/// What one more price makes of the prices collected: the currency must be
/// the forint, the amount must read as money, and the term must be one that
/// a schedule holds.
pub open spec fn add_price(builder: DomainPricingBuilder, option: PriceOptionView) -> Result<
    DomainPricingBuilder,
    Error,
> {
    if option.currency != SUPPORTED_CURRENCY@ {
        Err(Error::UnsupportedCurrency)
    } else {
        builder.priced(decimal_int(option.value as int), option.quantity)
    }
}

/// [`add_price`] as a step over prices.
pub open spec fn price_step() -> spec_fn(DomainPricingBuilder, PriceOptionView) -> Result<
    DomainPricingBuilder,
    Error,
> {
    |builder: DomainPricingBuilder, option: PriceOptionView| add_price(builder, option)
}

/// The schedule that prices make, taken in their order; a later price for a
/// term replaces an earlier one.
pub open spec fn schedule_of(options: Seq<PriceOptionView>) -> Result<DomainPricing, Error> {
    match try_fold(options, DomainPricingBuilder::empty(), price_step()) {
        Err(error) => Err(error),
        Ok(builder) => builder.built(),
    }
}

/// The amount that `option` offers, as the money parser reads it.
pub open spec fn offered_amount(option: PriceOptionView) -> Option<(i128, u32)> {
    huf_amount(decimal_int(option.value as int))
}

/// Whether `option` can be put into a schedule: it is in forints, its amount
/// reads as money, and its term is one that a schedule holds.
pub open spec fn is_priceable(option: PriceOptionView) -> bool {
    &&& option.currency == SUPPORTED_CURRENCY@
    &&& offered_amount(option) is Some
    &&& option.quantity <= LONGEST_TERM
}

/// The price that the last of `options` for the term `quantity` offers.
pub open spec fn last_price_for(options: Seq<PriceOptionView>, quantity: u64) -> Option<Money>
    decreases options.len(),
{
    if options.len() == 0 {
        None
    } else if options.last().quantity == quantity {
        match offered_amount(options.last()) {
            Some(amount) => Some(forints(amount)),
            None => None,
        }
    } else {
        last_price_for(options.drop_last(), quantity)
    }
}

/// An amount that the page offers is never refused for its length: the
/// decimal form of its value is short enough for the money parser.
pub proof fn lemma_offered_price_is_read(option: PriceOptionView)
    ensures
        price_amount(decimal_int(option.value as int)) == offered_amount(option),
{
    lemma_decimal_int_is_short(option.value as int);
}

/// Prices that can all be put into a schedule are all collected, and each
/// term then holds the price that the last option for it offers.
pub proof fn lemma_prices_fill_their_terms(options: Seq<PriceOptionView>)
    requires
        forall|i: int| 0 <= i < options.len() ==> is_priceable(#[trigger] options[i]),
    ensures
        try_fold(options, DomainPricingBuilder::empty(), price_step()) is Ok,
        forall|quantity: u64|
            quantity <= LONGEST_TERM ==> try_fold(
                options,
                DomainPricingBuilder::empty(),
                price_step(),
            )->Ok_0.price_for(quantity) == #[trigger] last_price_for(options, quantity),
    decreases options.len(),
{
    if options.len() > 0 {
        let front = options.drop_last();
        let last = options.last();
        assert forall|i: int| 0 <= i < front.len() implies is_priceable(#[trigger] front[i]) by {
            assert(front[i] == options[i]);
        }
        lemma_prices_fill_their_terms(front);
        let before = try_fold(front, DomainPricingBuilder::empty(), price_step())->Ok_0;
        assert(is_priceable(last));
        lemma_offered_price_is_read(last);
        let money = forints(offered_amount(last)->0);
        let after = before.with_price(last.quantity, money);
        assert(price_step()(before, last) == Ok::<DomainPricingBuilder, Error>(after));
        assert forall|quantity: u64| quantity <= LONGEST_TERM implies after.price_for(quantity)
            == #[trigger] last_price_for(options, quantity) by {
            if quantity == last.quantity {
                assert(after.price_for(quantity) == Some(money));
            } else {
                assert(after.price_for(quantity) == before.price_for(quantity));
                assert(before.price_for(quantity) == last_price_for(front, quantity));
            }
        }
    }
}

/// Prices that can all be put into a schedule, with one at least for each
/// of the ten terms, make a schedule, and each term of it holds the price
/// that the last option for it offers; the fee for the registration is the
/// price of the last option for the term 0, where there is one.
pub proof fn lemma_schedule_holds_the_offered_prices(options: Seq<PriceOptionView>)
    requires
        forall|i: int| 0 <= i < options.len() ==> is_priceable(#[trigger] options[i]),
        forall|years: u64|
            1 <= years <= LONGEST_TERM ==> (#[trigger] last_price_for(options, years)) is Some,
    ensures
        schedule_of(options) == Ok::<DomainPricing, Error>(
            DomainPricing {
                registration_price: last_price_for(options, 0),
                price_one_year: last_price_for(options, 1)->0,
                price_two_years: last_price_for(options, 2)->0,
                price_three_years: last_price_for(options, 3)->0,
                price_four_years: last_price_for(options, 4)->0,
                price_five_years: last_price_for(options, 5)->0,
                price_six_years: last_price_for(options, 6)->0,
                price_seven_years: last_price_for(options, 7)->0,
                price_eight_years: last_price_for(options, 8)->0,
                price_nine_years: last_price_for(options, 9)->0,
                price_ten_years: last_price_for(options, 10),
            },
        ),
{
    lemma_prices_fill_their_terms(options);
    let builder = try_fold(options, DomainPricingBuilder::empty(), price_step())->Ok_0;
    assert(builder.price_for(0) == last_price_for(options, 0));
    assert(builder.price_for(1) == last_price_for(options, 1));
    assert(builder.price_for(2) == last_price_for(options, 2));
    assert(builder.price_for(3) == last_price_for(options, 3));
    assert(builder.price_for(4) == last_price_for(options, 4));
    assert(builder.price_for(5) == last_price_for(options, 5));
    assert(builder.price_for(6) == last_price_for(options, 6));
    assert(builder.price_for(7) == last_price_for(options, 7));
    assert(builder.price_for(8) == last_price_for(options, 8));
    assert(builder.price_for(9) == last_price_for(options, 9));
    assert(builder.price_for(10) == last_price_for(options, 10));
    assert forall|years: u64| 1 <= years <= LONGEST_TERM implies (#[trigger] builder.price_for(
        years,
    )) is Some by {
        assert(builder.price_for(years) == last_price_for(options, years));
    }
}

/// The schedule that the price elements of a name make: all of them are
/// read first, then they are put together.
pub open spec fn pricing_of(options: Seq<ElementView>) -> Result<DomainPricing, Error> {
    match try_map(options, option_step()) {
        Err(error) => Err(error),
        Ok(prices) => schedule_of(prices),
    }
}

/// What the search says of the name that `hit` stands for. A name that the
/// account holds has no prices; any other must have a complete schedule.
pub open spec fn domain_of_hit(hit: RowView) -> Result<DomainInfoView, Error> {
    match attr_at(hit.element, 0) {
        None => Err(Error::MissingAttribute),
        Some(url) => {
            let domain_state = domain_state_of(attr_at(hit.element, 1));
            if domain_state == DomainState::RegisteredOnRackhost {
                Ok(DomainInfoView { url, domain_state, domain_pricing: None })
            } else {
                match pricing_of(cells_at(hit, 0)) {
                    Err(error) => Err(error),
                    Ok(pricing) => Ok(
                        DomainInfoView { url, domain_state, domain_pricing: Some(pricing) },
                    ),
                }
            }
        },
    }
}

/// What the search says of a name always tells whether it is taken, free or
/// held by the account; a name has prices exactly where the account does not
/// hold it, and its schedule then lacks no term.
pub proof fn lemma_prices_follow_the_state(hit: RowView)
    requires
        domain_of_hit(hit) is Ok,
    ensures
        domain_of_hit(hit)->Ok_0.domain_state != DomainState::Unknown,
        domain_of_hit(hit)->Ok_0.domain_state == DomainState::RegisteredOnRackhost
            <==> domain_of_hit(hit)->Ok_0.domain_pricing is None,
        domain_of_hit(hit)->Ok_0.domain_pricing matches Some(pricing) ==> pricing.is_complete(),
{
    let info = domain_of_hit(hit)->Ok_0;
    if info.domain_pricing is Some {
        let prices = try_map(cells_at(hit, 0), option_step())->Ok_0;
        let builder = try_fold(prices, DomainPricingBuilder::empty(), price_step())->Ok_0;
        assert(builder.price_for(10) is Some);
    }
}

/// [`domain_of_hit`] as a step over rows.
pub open spec fn hit_step() -> spec_fn(RowView) -> Result<DomainInfoView, Error> {
    |hit: RowView| domain_of_hit(hit)
}

/// What the search says of the names found, in their order; the first name
/// that fails, fails the whole search.
pub open spec fn domains_of(found: Option<Seq<RowView>>) -> Result<Seq<DomainInfoView>, Error> {
    match found {
        None => Err(Error::InvalidSelector),
        Some(hits) => try_map(hits, hit_step()),
    }
}

/// What the page `body` holds of names.
pub open spec fn domain_hits(body: Seq<char>) -> Option<Seq<RowView>> {
    found_rows(body, DOMAIN_HITS@, seq![PRICE_OPTIONS@], hit_attrs())
}

/// The address of the search, before the candidate name is added.
pub open spec fn search_address() -> Seq<char> {
    BASE_URL@ + DOMAIN_SEARCH_PATH@
}

/// The request that searches for `name`, where the address can be formed.
pub open spec fn search_request_of(name: Seq<char>) -> Result<RequestView, Error> {
    if !url_fits(search_address(), SEARCH_PARAMETER@, name) {
        Err(Error::InvalidUrl)
    } else {
        match url_with_param(search_address(), SEARCH_PARAMETER@, name) {
            None => Err(Error::InvalidUrl),
            Some(url) => Ok(get_request(url)),
        }
    }
}

/// What the classes of a name say of it.
pub fn domain_state_from(classes: Option<&str>) -> (domain_state: DomainState)
    ensures
        domain_state == domain_state_of(classes.deep_view()),
{
    match classes {
        None => DomainState::RegisteredOnRackhost,
        Some(classes) => {
            if contains_word(classes, TAKEN_CLASS) {
                DomainState::Unavailable
            } else if contains_word(classes, FREE_CLASS) {
                DomainState::Available
            } else {
                DomainState::RegisteredOnRackhost
            }
        },
    }
}

/// The price in what was read of its JSON.
pub fn price_option_from(leaves: &Option<Vec<JsonLeaf>>) -> (option: Result<PriceOption, Error>)
    ensures
        result_view(option) == price_option_of(leaves.deep_view()),
{
    match leaves {
        None => Err(Error::InvalidJson),
        Some(leaves) => {
            if leaves.len() < 3 {
                return Err(Error::MissingField);
            }
            proof {
                assert(leaves.deep_view()[0] == leaves@[0].deep_view());
                assert(leaves.deep_view()[1] == leaves@[1].deep_view());
                assert(leaves.deep_view()[2] == leaves@[2].deep_view());
            }
            match (leaves[0].signed, leaves[1].unsigned, &leaves[2].text) {
                (Some(value), Some(quantity), Some(currency)) => Ok(
                    PriceOption { value, currency: currency.clone(), quantity },
                ),
                _ => Err(Error::MissingField),
            }
        },
    }
}

/// The price that one element of the page offers.
pub fn price_option(option: &Element) -> (price: Result<PriceOption, Error>)
    ensures
        result_view(price) == price_option_in(option.deep_view()),
{
    match option.attr(2) {
        None => Err(Error::MissingAttribute),
        Some(json) => {
            let paths: Vec<Vec<JsonKey>> = vec![
                vec![JsonKey::Name(PRICE_KEY), JsonKey::Name(VALUE_KEY)],
                vec![
                    JsonKey::Name(PRICE_KEY),
                    JsonKey::Name(ITEMS_KEY),
                    JsonKey::Index(0),
                    JsonKey::Name(QUANTITY_KEY),
                ],
                vec![JsonKey::Name(PRICE_KEY), JsonKey::Name(CURRENCY_KEY)],
            ];
            proof {
                assert(paths@[0].deep_view() =~= price_paths()[0]);
                assert(paths@[1].deep_view() =~= price_paths()[1]);
                assert(paths@[2].deep_view() =~= price_paths()[2]);
                assert(paths.deep_view() =~= price_paths());
            }
            let leaves = read_json(json, &paths);
            price_option_from(&leaves)
        },
    }
}

/// The prices that the elements of a name offer, in their order.
pub fn price_options(options: &Vec<Element>) -> (prices: Result<Vec<PriceOption>, Error>)
    ensures
        result_view(prices) == try_map(options.deep_view(), option_step()),
{
    let ghost step = option_step();
    let ghost all = options.deep_view();
    let mut prices: Vec<PriceOption> = Vec::new();
    let mut done: usize = 0;
    proof {
        assert(all.take(0) =~= Seq::<ElementView>::empty());
        assert(prices.deep_view() =~= Seq::<PriceOptionView>::empty());
    }
    while done < options.len()
        invariant
            done <= options.len(),
            all == options.deep_view(),
            step == option_step(),
            try_map(all.take(done as int), step) == Ok::<Seq<PriceOptionView>, Error>(
                prices.deep_view(),
            ),
        decreases options.len() - done,
    {
        proof {
            lemma_try_map_step(all, step, done as int);
            assert(all[done as int] == options@[done as int].deep_view());
        }
        match price_option(&options[done]) {
            Err(error) => {
                proof {
                    lemma_try_map_fails(all, step, done + 1);
                }
                return Err(error);
            },
            Ok(price) => {
                let ghost before = prices.deep_view();
                prices.push(price);
                proof {
                    assert(prices.deep_view() =~= before.push(price.deep_view()));
                }
            },
        }
        done = done + 1;
    }
    proof {
        assert(all.take(done as int) =~= all);
    }
    Ok(prices)
}

/// Adds one price to the prices collected. Where it fails, the builder
/// stays as it was.
pub fn add_price_option(builder: &mut DomainPricingBuilder, option: &PriceOption) -> (outcome:
    Result<(), Error>)
    ensures
        match add_price(*old(builder), option.deep_view()) {
            Ok(priced) => outcome is Ok && *final(builder) == priced,
            Err(error) => outcome == Err::<(), Error>(error) && *final(builder) == *old(builder),
        },
{
    if !option.currency.as_str().eq(SUPPORTED_CURRENCY) {
        return Err(Error::UnsupportedCurrency);
    }
    builder.set_by_quantity(i64_to_string(option.value), option.quantity)
}

/// The schedule that prices make, taken in their order.
pub fn schedule_from(options: &Vec<PriceOption>) -> (pricing: Result<DomainPricing, Error>)
    ensures
        pricing == schedule_of(options.deep_view()),
{
    let ghost step = price_step();
    let ghost all = options.deep_view();
    let mut builder = DomainPricingBuilder::new();
    let mut done: usize = 0;
    proof {
        assert(all.take(0) =~= Seq::<PriceOptionView>::empty());
    }
    while done < options.len()
        invariant
            done <= options.len(),
            all == options.deep_view(),
            step == price_step(),
            try_fold(all.take(done as int), DomainPricingBuilder::empty(), step) == Ok::<
                DomainPricingBuilder,
                Error,
            >(builder),
        decreases options.len() - done,
    {
        proof {
            lemma_try_fold_step(all, DomainPricingBuilder::empty(), step, done as int);
            assert(all[done as int] == options@[done as int].deep_view());
        }
        match add_price_option(&mut builder, &options[done]) {
            Err(error) => {
                proof {
                    lemma_try_fold_fails(all, DomainPricingBuilder::empty(), step, done + 1);
                }
                return Err(error);
            },
            Ok(_) => {},
        }
        done = done + 1;
    }
    proof {
        assert(all.take(done as int) =~= all);
    }
    builder.build()
}

/// What the search says of the name that `hit` stands for.
pub fn domain_from_hit(hit: &Row) -> (info: Result<DomainInfo, Error>)
    ensures
        result_view(info) == domain_of_hit(hit.deep_view()),
{
    let url = match hit.element.attr(0) {
        Some(url) => url,
        None => { return Err(Error::MissingAttribute); },
    };
    let domain_state = domain_state_from(hit.element.attr(1));
    match domain_state {
        DomainState::RegisteredOnRackhost => {
            return Ok(DomainInfo::new(String::from_str(url), domain_state));
        },
        _ => {},
    }
    let prices = match hit.cells(0) {
        Some(options) => price_options(options)?,
        None => {
            proof {
                assert(try_map(Seq::<ElementView>::empty(), option_step()) == Ok::<
                    Seq<PriceOptionView>,
                    Error,
                >(Seq::empty()));
            }
            Vec::new()
        },
    };
    let pricing = schedule_from(&prices)?;
    let mut info = DomainInfo::new(String::from_str(url), domain_state);
    info.with_price(pricing);
    Ok(info)
}

/// What the search says of the names found on a page.
pub fn domains_from_hits(found: &Option<Vec<Row>>) -> (domains: Result<Vec<DomainInfo>, Error>)
    ensures
        result_view(domains) == domains_of(found.deep_view()),
{
    match found {
        None => Err(Error::InvalidSelector),
        Some(hits) => {
            let ghost step = hit_step();
            let ghost all = hits.deep_view();
            let mut domains: Vec<DomainInfo> = Vec::new();
            let mut done: usize = 0;
            proof {
                assert(all.take(0) =~= Seq::<RowView>::empty());
                assert(domains.deep_view() =~= Seq::<DomainInfoView>::empty());
            }
            while done < hits.len()
                invariant
                    done <= hits.len(),
                    all == hits.deep_view(),
                    found.deep_view() == Some(all),
                    step == hit_step(),
                    try_map(all.take(done as int), step) == Ok::<Seq<DomainInfoView>, Error>(
                        domains.deep_view(),
                    ),
                decreases hits.len() - done,
            {
                proof {
                    lemma_try_map_step(all, step, done as int);
                    assert(all[done as int] == hits@[done as int].deep_view());
                }
                match domain_from_hit(&hits[done]) {
                    Err(error) => {
                        proof {
                            lemma_try_map_fails(all, step, done + 1);
                        }
                        return Err(error);
                    },
                    Ok(info) => {
                        let ghost before = domains.deep_view();
                        domains.push(info);
                        proof {
                            assert(domains.deep_view() =~= before.push(info.deep_view()));
                        }
                    },
                }
                done = done + 1;
            }
            proof {
                assert(all.take(done as int) =~= all);
            }
            Ok(domains)
        },
    }
}

/// The request that searches for the candidate `name`. A name that makes
/// the address longer than [`URL_LIMIT`](crate::request::URL_LIMIT) bytes has
/// no address.
pub fn search_domain_request(name: &str) -> (request: Result<Request, Error>)
    ensures
        result_view(request) == search_request_of(name@),
{
    let mut address = String::from_str(BASE_URL);
    address.append(DOMAIN_SEARCH_PATH);
    if !check_url_fits(address.as_str(), SEARCH_PARAMETER, name) {
        return Err(Error::InvalidUrl);
    }
    match parse_url_with_param(address.as_str(), SEARCH_PARAMETER, name) {
        None => Err(Error::InvalidUrl),
        Some(url) => Ok(fetch(url)),
    }
}

/// What the search page `body` says of each name on it, in the order in
/// which the parser yields the names: a taken name and a free name with
/// their prices, a name that the account holds without. One price in another currency than the forint, or
/// one schedule that lacks a term, fails the whole search. The search is
/// open to a session in either state. A page of more than
/// [`PAGE_LIMIT`](crate::html::PAGE_LIMIT) bytes is refused unread.
pub fn search_domain<A: AuthState>(rackhost_client: &RackhostClient<A>, body: &str) -> (domains:
    Result<Vec<DomainInfo>, Error>)
    ensures
        result_view(domains) == on_page(body@, domains_of(domain_hits(body@))),
{
    if !check_page_fits(body) {
        return Err(Error::PageTooLong);
    }
    let cells: Vec<&str> = vec![PRICE_OPTIONS];
    let attrs: Vec<&str> = vec![DOMAIN_ATTRIBUTE, CLASS_ATTRIBUTE, PRICE_ATTRIBUTE];
    proof {
        assert(cells.deep_view() =~= seq![PRICE_OPTIONS@]);
        assert(attrs.deep_view() =~= hit_attrs());
    }
    let found = find_rows(body, DOMAIN_HITS, &cells, &attrs);
    domains_from_hits(&found)
}

impl<A: AuthState> RackhostClient<A> {
    /// The request that searches for the candidate `name`.
    pub fn search_domain_request(&self, name: &str) -> (request: Result<Request, Error>)
        ensures
            result_view(request) == search_request_of(name@),
    {
        search_domain_request(name)
    }

    /// What the search page `body` says of each name on it.
    pub fn search_domain(&self, body: &str) -> (domains: Result<Vec<DomainInfo>, Error>)
        ensures
            result_view(domains) == on_page(body@, domains_of(domain_hits(body@))),
    {
        search_domain(self, body)
    }
}

} // verus!
