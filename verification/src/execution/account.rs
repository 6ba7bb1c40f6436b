use vstd::prelude::*;

use crate::common::info::{info_value_view, info_view, push_entry, InfoValue, InfoView};
use crate::decimal::{pow10, ExactDecimal, MAX_DIGITS, MAX_SCALE};

use nautilus_model::types::Currency;

verus! {

#[verifier::external_type_specification]
#[verifier::external_body]
pub struct ExCurrency(Currency);

/// An amount of money as nautilus holds it: the raw fixed-point value, and the same amount as a
/// decimal at the currency's precision.
#[derive(Clone, Copy, Debug, PartialEq, Eq, Structural)]
pub struct MoneyAmount {
    pub raw: i128,
    pub mantissa: i128,
    pub scale: u32,
}

/// `rounded` is `value` rounded to the nearest amount at `rounded`'s scale: exactly `value`
/// where `value` has no more decimals than that scale, else within half a unit of the last
/// decimal.
pub open spec fn rounds_to(value_mantissa: int, value_scale: nat, rounded_mantissa: int, rounded_scale: nat) -> bool {
    if value_scale <= rounded_scale {
        rounded_mantissa * pow10(value_scale) == value_mantissa * pow10(rounded_scale)
    } else {
        let unit = pow10((value_scale - rounded_scale) as nat);
        let diff = rounded_mantissa * unit - value_mantissa;
        2 * (if diff < 0 { -diff } else { diff }) <= unit
    }
}

/// Looks a currency up by its code with `Currency::from_str`.
///
/// The answer depends on the currencies registered in this process, so nothing is stated of it.
#[verifier::external_body]
fn currency_from_code(code: &str) -> (r: Option<Currency>) {
    <Currency as std::str::FromStr>::from_str(code).ok()
}

/// Converts a decimal amount with `Money::from_decimal` in the currency, and reads the result
/// back as its raw value and with `Money::as_decimal`.
///
/// The conversion rounds half to even at the currency's precision (at most 18 decimals) and
/// fails where the amount leaves the range of `Money`. The contract claims what holds of every
/// outcome: the decimal is the amount rounded to the nearest at its scale, and within the
/// 96-bit range of a `Decimal`. The currency's precision and the raw value's scale are left
/// unstated; they depend on the currency value and the build.
#[verifier::external_body]
fn money_from_decimal(mantissa: i128, scale: u32, currency: &Currency) -> (r: Option<MoneyAmount>)
    requires
        scale <= MAX_SCALE,
        -(MAX_DIGITS as int) <= mantissa <= MAX_DIGITS,
    ensures
        r matches Some(a) ==> {
            &&& a.scale <= 18
            &&& -(MAX_DIGITS as int) <= a.mantissa <= MAX_DIGITS
            &&& rounds_to(mantissa as int, scale as nat, a.mantissa as int, a.scale as nat)
        },
{
    match nautilus_model::types::Money::from_decimal(
        rust_decimal::Decimal::from_i128_with_scale(mantissa, scale),
        *currency,
    ) {
        Ok(money) => {
            let d = money.as_decimal();
            Some(MoneyAmount { raw: i128::from(money.raw), mantissa: d.mantissa(), scale: d.scale() })
        },
        Err(_) => None,
    }
}

/// Why no balance can be built from an account.
#[derive(Clone, Copy, Debug, PartialEq, Eq, Structural)]
pub enum BalanceError {
    /// The account's currency is not a known currency.
    UnknownCurrency,
    /// The amount (total, free or locked) is no `Money` in the currency.
    NotMoney(BalanceField),
    /// Total is not locked plus free, as the money amounts hold them.
    Unbalanced,
}

#[derive(Clone, Copy, Debug, PartialEq, Eq, Structural)]
pub enum BalanceField {
    Total,
    Free,
    Locked,
}

/// The balance from the three converted amounts, converted in the order total, free, locked:
/// the first that is no money is refused, and total must equal locked plus free exactly.
pub open spec fn spec_balance(total: Option<MoneyAmount>, free: Option<MoneyAmount>, locked: Option<MoneyAmount>) -> Result<
    (MoneyAmount, MoneyAmount, MoneyAmount),
    BalanceError,
> {
    match (total, free, locked) {
        (None, _, _) => Err(BalanceError::NotMoney(BalanceField::Total)),
        (Some(_), None, _) => Err(BalanceError::NotMoney(BalanceField::Free)),
        (Some(_), Some(_), None) => Err(BalanceError::NotMoney(BalanceField::Locked)),
        (Some(t), Some(f), Some(l)) => if t.raw == l.raw + f.raw {
            Ok((t, f, l))
        } else {
            Err(BalanceError::Unbalanced)
        },
    }
}

pub open spec fn amount_decimal(a: MoneyAmount) -> ExactDecimal {
    ExactDecimal::spec_from_mantissa(a.mantissa, a.scale)
}

/// The account fields that the balance snapshot reads.
#[derive(Clone, Debug)]
pub struct AlpacaAccount {
    pub status: String,
    pub currency: String,
    pub cash: ExactDecimal,
    pub buying_power: ExactDecimal,
    pub equity: ExactDecimal,
    pub portfolio_value: ExactDecimal,
    pub long_market_value: ExactDecimal,
    pub short_market_value: ExactDecimal,
    pub pattern_day_trader: Option<bool>,
    pub trading_blocked: bool,
    pub transfers_blocked: bool,
    pub account_blocked: bool,
    pub trade_suspended_by_user: bool,
    pub shorting_enabled: bool,
    pub multiplier: ExactDecimal,
    pub regt_buying_power: Option<ExactDecimal>,
    pub non_marginable_buying_power: Option<ExactDecimal>,
    pub initial_margin: Option<ExactDecimal>,
    pub maintenance_margin: Option<ExactDecimal>,
    pub last_equity: Option<ExactDecimal>,
    pub last_maintenance_margin: Option<ExactDecimal>,
    pub sma: Option<ExactDecimal>,
    pub accrued_fees: Option<ExactDecimal>,
    pub pending_transfer_in: Option<ExactDecimal>,
    pub options_buying_power: Option<ExactDecimal>,
    pub options_approved_level: Option<u8>,
    pub options_trading_level: Option<u8>,
    pub crypto_status: Option<String>,
}

pub open spec fn opt_decimal_entry(key: Seq<char>, value: Option<ExactDecimal>) -> Seq<
    (Seq<char>, InfoView),
> {
    match value {
        Some(d) => seq![(key, InfoView::Decimal(d))],
        None => seq![],
    }
}

pub open spec fn opt_level_entry(key: Seq<char>, value: Option<u8>) -> Seq<(Seq<char>, InfoView)> {
    match value {
        Some(l) => seq![(key, InfoView::Level(l))],
        None => seq![],
    }
}

/// The account's risk metadata, in the order it is published: the required figures and the
/// status, then each optional figure that the venue sent, then the flags.
pub open spec fn spec_account_info(a: AlpacaAccount) -> Seq<(Seq<char>, InfoView)> {
    seq![
        ("cash"@, InfoView::Decimal(a.cash)),
        ("buying_power"@, InfoView::Decimal(a.buying_power)),
        ("equity"@, InfoView::Decimal(a.equity)),
        ("portfolio_value"@, InfoView::Decimal(a.portfolio_value)),
        ("long_market_value"@, InfoView::Decimal(a.long_market_value)),
        ("short_market_value"@, InfoView::Decimal(a.short_market_value)),
        ("multiplier"@, InfoView::Decimal(a.multiplier)),
        ("status"@, InfoView::Text(a.status@)),
    ] + opt_decimal_entry("regt_buying_power"@, a.regt_buying_power) + opt_decimal_entry(
        "non_marginable_buying_power"@,
        a.non_marginable_buying_power,
    ) + opt_decimal_entry("initial_margin"@, a.initial_margin) + opt_decimal_entry(
        "maintenance_margin"@,
        a.maintenance_margin,
    ) + opt_decimal_entry("last_equity"@, a.last_equity) + opt_decimal_entry(
        "last_maintenance_margin"@,
        a.last_maintenance_margin,
    ) + opt_decimal_entry("sma"@, a.sma) + opt_decimal_entry("accrued_fees"@, a.accrued_fees)
        + opt_decimal_entry("pending_transfer_in"@, a.pending_transfer_in) + opt_decimal_entry(
        "options_buying_power"@,
        a.options_buying_power,
    ) + (match a.pattern_day_trader {
        Some(b) => seq![("pattern_day_trader"@, InfoView::Flag(b))],
        None => seq![],
    }) + opt_level_entry("options_approved_level"@, a.options_approved_level) + opt_level_entry(
        "options_trading_level"@,
        a.options_trading_level,
    ) + (match a.crypto_status {
        Some(s) => seq![("crypto_status"@, InfoView::Text(s@))],
        None => seq![],
    }) + seq![
        ("trading_blocked"@, InfoView::Flag(a.trading_blocked)),
        ("transfers_blocked"@, InfoView::Flag(a.transfers_blocked)),
        ("account_blocked"@, InfoView::Flag(a.account_blocked)),
        ("trade_suspended_by_user"@, InfoView::Flag(a.trade_suspended_by_user)),
        ("shorting_enabled"@, InfoView::Flag(a.shorting_enabled)),
    ]
}

/// The account balance in its currency and the risk metadata published with it.
pub struct AccountSnapshot {
    pub currency: String,
    /// Equity.
    pub total: ExactDecimal,
    /// Equity not held as cash.
    pub locked: ExactDecimal,
    /// Cash.
    pub free: ExactDecimal,
    pub info: Vec<(String, InfoValue)>,
}

fn push_opt_decimal(info: &mut Vec<(String, InfoValue)>, key: &str, value: Option<ExactDecimal>)
    ensures
        info_view(final(info)@) == info_view(old(info)@) + opt_decimal_entry(key@, value),
{
    match value {
        Some(d) => push_entry(info, key, InfoValue::Decimal(d)),
        None => {
            assert(info_view(old(info)@) + opt_decimal_entry(key@, value) =~= info_view(
                old(info)@,
            ));
        },
    }
}

fn push_opt_level(info: &mut Vec<(String, InfoValue)>, key: &str, value: Option<u8>)
    ensures
        info_view(final(info)@) == info_view(old(info)@) + opt_level_entry(key@, value),
{
    match value {
        Some(l) => push_entry(info, key, InfoValue::Level(l)),
        None => {
            assert(info_view(old(info)@) + opt_level_entry(key@, value) =~= info_view(old(info)@));
        },
    }
}

/// The balance snapshot of an account from the converted amounts of equity (the total), cash
/// (free) and their difference (locked), with the venue's figures published alongside at the
/// venue's precision.
pub fn snapshot_from_amounts(
    account: &AlpacaAccount,
    total: Option<MoneyAmount>,
    free: Option<MoneyAmount>,
    locked: Option<MoneyAmount>,
) -> (r: Result<AccountSnapshot, BalanceError>)
    requires
        total matches Some(a) ==> -(MAX_DIGITS as int) <= a.mantissa <= MAX_DIGITS,
        free matches Some(a) ==> -(MAX_DIGITS as int) <= a.mantissa <= MAX_DIGITS,
        locked matches Some(a) ==> -(MAX_DIGITS as int) <= a.mantissa <= MAX_DIGITS,
    ensures
        match spec_balance(total, free, locked) {
            Ok((t, f, l)) => r matches Ok(s) && {
                &&& s.currency@ == account.currency@
                &&& s.total == amount_decimal(t)
                &&& s.free == amount_decimal(f)
                &&& s.locked == amount_decimal(l)
                &&& info_view(s.info@) == spec_account_info(*account)
            },
            Err(e) => r matches Err(x) && x == e,
        },
{
    let (t, f, l) = match (total, free, locked) {
        (None, _, _) => return Err(BalanceError::NotMoney(BalanceField::Total)),
        (Some(_), None, _) => return Err(BalanceError::NotMoney(BalanceField::Free)),
        (Some(_), Some(_), None) => return Err(BalanceError::NotMoney(BalanceField::Locked)),
        (Some(t), Some(f), Some(l)) => (t, f, l),
    };
    let balanced = match l.raw.checked_add(f.raw) {
        Some(sum) => sum == t.raw,
        None => false,
    };
    if !balanced {
        return Err(BalanceError::Unbalanced);
    }
    let mut info: Vec<(String, InfoValue)> = Vec::new();
    let ghost a = *account;
    push_entry(&mut info, "cash", InfoValue::Decimal(account.cash));
    push_entry(&mut info, "buying_power", InfoValue::Decimal(account.buying_power));
    push_entry(&mut info, "equity", InfoValue::Decimal(account.equity));
    push_entry(&mut info, "portfolio_value", InfoValue::Decimal(account.portfolio_value));
    push_entry(&mut info, "long_market_value", InfoValue::Decimal(account.long_market_value));
    push_entry(&mut info, "short_market_value", InfoValue::Decimal(account.short_market_value));
    push_entry(&mut info, "multiplier", InfoValue::Decimal(account.multiplier));
    push_entry(&mut info, "status", InfoValue::Text(account.status.clone()));
    let ghost required = info_view(info@);
    assert(required =~= seq![
        ("cash"@, InfoView::Decimal(a.cash)),
        ("buying_power"@, InfoView::Decimal(a.buying_power)),
        ("equity"@, InfoView::Decimal(a.equity)),
        ("portfolio_value"@, InfoView::Decimal(a.portfolio_value)),
        ("long_market_value"@, InfoView::Decimal(a.long_market_value)),
        ("short_market_value"@, InfoView::Decimal(a.short_market_value)),
        ("multiplier"@, InfoView::Decimal(a.multiplier)),
        ("status"@, InfoView::Text(a.status@)),
    ]);
    push_opt_decimal(&mut info, "regt_buying_power", account.regt_buying_power);
    push_opt_decimal(&mut info, "non_marginable_buying_power", account.non_marginable_buying_power);
    push_opt_decimal(&mut info, "initial_margin", account.initial_margin);
    push_opt_decimal(&mut info, "maintenance_margin", account.maintenance_margin);
    push_opt_decimal(&mut info, "last_equity", account.last_equity);
    push_opt_decimal(&mut info, "last_maintenance_margin", account.last_maintenance_margin);
    push_opt_decimal(&mut info, "sma", account.sma);
    push_opt_decimal(&mut info, "accrued_fees", account.accrued_fees);
    push_opt_decimal(&mut info, "pending_transfer_in", account.pending_transfer_in);
    push_opt_decimal(&mut info, "options_buying_power", account.options_buying_power);
    let ghost before_flag = info_view(info@);
    if let Some(value) = account.pattern_day_trader {
        push_entry(&mut info, "pattern_day_trader", InfoValue::Flag(value));
    } else {
        assert(info_view(info@) =~= before_flag + seq![]);
    }
    push_opt_level(&mut info, "options_approved_level", account.options_approved_level);
    push_opt_level(&mut info, "options_trading_level", account.options_trading_level);
    let ghost before_crypto = info_view(info@);
    if let Some(value) = &account.crypto_status {
        push_entry(&mut info, "crypto_status", InfoValue::Text(value.clone()));
    } else {
        assert(info_view(info@) =~= before_crypto + seq![]);
    }
    let ghost before_flags = info_view(info@);
    push_entry(&mut info, "trading_blocked", InfoValue::Flag(account.trading_blocked));
    push_entry(&mut info, "transfers_blocked", InfoValue::Flag(account.transfers_blocked));
    push_entry(&mut info, "account_blocked", InfoValue::Flag(account.account_blocked));
    push_entry(
        &mut info,
        "trade_suspended_by_user",
        InfoValue::Flag(account.trade_suspended_by_user),
    );
    push_entry(&mut info, "shorting_enabled", InfoValue::Flag(account.shorting_enabled));
    assert(info_view(info@) =~= before_flags + seq![
        ("trading_blocked"@, InfoView::Flag(a.trading_blocked)),
        ("transfers_blocked"@, InfoView::Flag(a.transfers_blocked)),
        ("account_blocked"@, InfoView::Flag(a.account_blocked)),
        ("trade_suspended_by_user"@, InfoView::Flag(a.trade_suspended_by_user)),
        ("shorting_enabled"@, InfoView::Flag(a.shorting_enabled)),
    ]);
    assert(info_view(info@) =~= spec_account_info(a));
    Ok(
        AccountSnapshot {
            currency: account.currency.clone(),
            total: ExactDecimal::from_mantissa(t.mantissa, t.scale),
            locked: ExactDecimal::from_mantissa(l.mantissa, l.scale),
            free: ExactDecimal::from_mantissa(f.mantissa, f.scale),
            info,
        },
    )
}

/// The balance snapshot of an account in its currency: equity is the total, cash is free and
/// the rest is locked, each held as money at the currency's precision; the venue's figures are
/// published alongside at the venue's precision. Which currencies are known is decided by the
/// registry of the process, so the contract states what holds of every success and of every
/// refusal; [`snapshot_from_amounts`] states the decision on given amounts.
pub fn account_balance(account: &AlpacaAccount) -> (r: Result<AccountSnapshot, BalanceError>)
    requires
        account.equity.wf(),
        account.cash.wf(),
        account.equity.difference_fits(account.cash),
    ensures
        r matches Ok(s) ==> {
            &&& s.currency@ == account.currency@
            &&& info_view(s.info@) == spec_account_info(*account)
            &&& rounds_to(account.equity.signed(), account.equity.scale as nat, s.total.signed(), s.total.scale as nat)
            &&& rounds_to(account.cash.signed(), account.cash.scale as nat, s.free.signed(), s.free.scale as nat)
            &&& rounds_to(
                account.equity.spec_minus(account.cash).signed(),
                account.equity.spec_minus(account.cash).scale as nat,
                s.locked.signed(),
                s.locked.scale as nat,
            )
        },
{
    let currency = match currency_from_code(account.currency.as_str()) {
        Some(c) => c,
        None => return Err(BalanceError::UnknownCurrency),
    };
    let difference = account.equity.minus(&account.cash);
    let total = money_from_decimal(account.equity.mantissa(), account.equity.scale, &currency);
    let free = money_from_decimal(account.cash.mantissa(), account.cash.scale, &currency);
    let locked = money_from_decimal(difference.mantissa(), difference.scale, &currency);
    snapshot_from_amounts(account, total, free, locked)
}

} // verus!
