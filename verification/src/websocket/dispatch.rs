use vstd::prelude::*;
use vstd::string::*;

use crate::common::text::str_eq;

verus! {

/// Market-status transitions that a trading-status message can announce.
#[derive(Clone, Copy, Debug, PartialEq, Eq, Structural)]
pub enum MarketStatusAction {
    NoAction,
    Halt,
    Pause,
    Trading,
    Quoting,
    NewPriceIndication,
    ShortSellRestrictionChange,
}

/// The market-status action and the trading, quoting and short-sell-restriction flags of a
/// venue status code; unknown codes change nothing.
pub open spec fn spec_status_code(code: Seq<char>) -> (
    MarketStatusAction,
    Option<bool>,
    Option<bool>,
    Option<bool>,
) {
    if code == "2"@ || code == "H"@ {
        (MarketStatusAction::Halt, Some(false), Some(false), None)
    } else if code == "P"@ || code == "F"@ {
        (MarketStatusAction::Pause, Some(false), None, None)
    } else if code == "3"@ || code == "T"@ {
        (MarketStatusAction::Trading, Some(true), Some(true), None)
    } else if code == "Q"@ {
        (MarketStatusAction::Quoting, Some(false), Some(true), None)
    } else if code == "5"@ || code == "6"@ {
        (MarketStatusAction::NewPriceIndication, None, None, None)
    } else if code == "E"@ {
        (MarketStatusAction::ShortSellRestrictionChange, None, None, Some(true))
    } else {
        (MarketStatusAction::NoAction, None, None, None)
    }
}

/// The halt codes ("2", CTA, and "H", UTP) halt the instrument, stopping trading and quoting;
/// the resume codes ("3", CTA, and "T", UTP) put it back to trading with quoting; neither touches
/// the short-sell restriction. A halt is never reported as trading, nor the reverse.
pub proof fn lemma_halt_and_resume_codes(code: Seq<char>)
    ensures
        (code == "2"@ || code == "H"@) ==> spec_status_code(code) == (
            MarketStatusAction::Halt,
            Some(false),
            Some(false),
            None::<bool>,
        ),
        (code == "3"@ || code == "T"@) ==> spec_status_code(code) == (
            MarketStatusAction::Trading,
            Some(true),
            Some(true),
            None::<bool>,
        ),
        spec_status_code(code).0 == MarketStatusAction::Halt ==> (code == "2"@ || code == "H"@),
        spec_status_code(code).0 == MarketStatusAction::Trading ==> (code == "3"@ || code == "T"@),
{
    reveal_strlit("2");
    reveal_strlit("3");
    reveal_strlit("H");
    reveal_strlit("T");
    reveal_strlit("P");
    reveal_strlit("F");
    reveal_strlit("Q");
    reveal_strlit("5");
    reveal_strlit("6");
    reveal_strlit("E");
    if code == "3"@ || code == "T"@ {
        assert(code[0] == '3' || code[0] == 'T');
        assert("2"@[0] == '2' && "H"@[0] == 'H' && "P"@[0] == 'P' && "F"@[0] == 'F');
        assert(code != "2"@ && code != "H"@ && code != "P"@ && code != "F"@);
    }
}

/// Maps a venue trading-status code.
pub fn map_status_code(code: &str) -> (r: (MarketStatusAction, Option<bool>, Option<bool>, Option<bool>))
    ensures
        r == spec_status_code(code@),
{
    if str_eq(code, "2") || str_eq(code, "H") {
        (MarketStatusAction::Halt, Some(false), Some(false), None)
    } else if str_eq(code, "P") || str_eq(code, "F") {
        (MarketStatusAction::Pause, Some(false), None, None)
    } else if str_eq(code, "3") || str_eq(code, "T") {
        (MarketStatusAction::Trading, Some(true), Some(true), None)
    } else if str_eq(code, "Q") {
        (MarketStatusAction::Quoting, Some(false), Some(true), None)
    } else if str_eq(code, "5") || str_eq(code, "6") {
        (MarketStatusAction::NewPriceIndication, None, None, None)
    } else if str_eq(code, "E") {
        (MarketStatusAction::ShortSellRestrictionChange, None, None, Some(true))
    } else {
        (MarketStatusAction::NoAction, None, None, None)
    }
}

/// The kind of a market-data message and what the dispatcher reads of it.
pub enum MarketDataKind {
    Trade,
    Quote,
    MinuteBar,
    UpdatedBar,
    DailyBar,
    TradeCorrection,
    TradeCancelError,
    TradingStatus { status_code: String, status_message: String, reason_message: String },
    Luld,
    /// A control message (success, error, subscription) or one of an unknown type.
    Control,
}

/// How an instrument's messages are parsed; `I` is the instrument identity and `B` a bar
/// identity.
#[derive(Clone, Copy, Debug)]
pub struct InstrumentParsingContext<I, B> {
    pub instrument_id: I,
    pub price_precision: u8,
    pub size_precision: u8,
    pub minute_bar_type: Option<B>,
    pub daily_bar_type: Option<B>,
}

/// How one market-data message becomes a domain event.
pub enum DispatchPlan<I, B> {
    Trade { instrument_id: I, price_precision: u8, size_precision: u8 },
    Quote { instrument_id: I, price_precision: u8, size_precision: u8 },
    Bar { bar_type: B, price_precision: u8, size_precision: u8 },
    TradeCorrection,
    TradeCancelError,
    InstrumentStatus {
        instrument_id: I,
        action: MarketStatusAction,
        is_trading: Option<bool>,
        is_quoting: Option<bool>,
        is_short_sell_restricted: Option<bool>,
        /// The venue's reason, when it sent one.
        reason: Option<String>,
        /// The venue's status message, when it sent one.
        trading_event: Option<String>,
    },
    Luld,
}

/// Why a message cannot be dispatched.
#[derive(Clone, Debug)]
pub enum DispatchError {
    /// No instrument is registered for the symbol.
    NotRegistered(String),
    NoMinuteBarType(String),
    NoDailyBarType(String),
    NotMarketData,
}

/// Converts market-data messages with explicitly registered instrument precision.
pub struct AlpacaDataDispatcher<I, B> {
    instruments: Vec<(String, InstrumentParsingContext<I, B>)>,
}

pub open spec fn keys_unique<I, B>(v: Seq<(String, InstrumentParsingContext<I, B>)>) -> bool {
    forall|i: int, j: int| 0 <= i < j < v.len() ==> v[i].0@ != v[j].0@
}

pub open spec fn entries_map<I, B>(v: Seq<(String, InstrumentParsingContext<I, B>)>) -> Map<
    Seq<char>,
    InstrumentParsingContext<I, B>,
>
    decreases v.len(),
{
    if v.len() == 0 {
        Map::empty()
    } else {
        entries_map(v.drop_last()).insert(v.last().0@, v.last().1)
    }
}

proof fn lemma_entries_map<I, B>(v: Seq<(String, InstrumentParsingContext<I, B>)>)
    requires
        keys_unique(v),
    ensures
        forall|k: Seq<char>|
            #![trigger entries_map(v).dom().contains(k)]
            entries_map(v).dom().contains(k) <==> exists|i: int| 0 <= i < v.len() && v[i].0@ == k,
        forall|i: int| 0 <= i < v.len() ==> entries_map(v)[#[trigger] v[i].0@] == v[i].1,
    decreases v.len(),
{
    if v.len() > 0 {
        let d = v.drop_last();
        assert(keys_unique(d));
        lemma_entries_map(d);
        assert forall|k: Seq<char>| #![trigger entries_map(v).dom().contains(k)]
            entries_map(v).dom().contains(k) <==> exists|i: int| 0 <= i < v.len() && v[i].0@ == k by {
            if entries_map(v).dom().contains(k) && k != v.last().0@ {
                assert(entries_map(d).dom().contains(k));
                let i = choose|i: int| 0 <= i < d.len() && d[i].0@ == k;
                assert(v[i] == d[i]);
            }
            if exists|i: int| 0 <= i < v.len() && v[i].0@ == k {
                let i = choose|i: int| 0 <= i < v.len() && v[i].0@ == k;
                if i < v.len() - 1 {
                    assert(d[i] == v[i]);
                    assert(entries_map(d).dom().contains(k));
                }
            }
        }
        assert forall|i: int| 0 <= i < v.len() implies entries_map(v)[#[trigger] v[i].0@] == v[i].1 by {
            if i < v.len() - 1 {
                assert(d[i] == v[i]);
                assert(v[i].0@ != v.last().0@);
            }
        }
    }
}

impl<I: Copy, B: Copy> AlpacaDataDispatcher<I, B> {
    /// The registered instruments by venue symbol.
    pub closed spec fn view(&self) -> Map<Seq<char>, InstrumentParsingContext<I, B>> {
        entries_map(self.instruments@)
    }

    pub closed spec fn wf(&self) -> bool {
        keys_unique(self.instruments@)
    }

    pub fn new() -> (r: AlpacaDataDispatcher<I, B>)
        ensures
            r.view() == Map::<Seq<char>, InstrumentParsingContext<I, B>>::empty(),
            r.wf(),
    {
        AlpacaDataDispatcher { instruments: Vec::new() }
    }

    fn find(&self, symbol: &str) -> (r: Option<usize>)
        requires
            self.wf(),
        ensures
            match r {
                Some(i) => i < self.instruments@.len() && self.instruments@[i as int].0@ == symbol@,
                None => !self.view().dom().contains(symbol@),
            },
    {
        proof {
            lemma_entries_map(self.instruments@);
        }
        let mut i: usize = 0;
        while i < self.instruments.len()
            invariant
                i <= self.instruments@.len(),
                forall|j: int| 0 <= j < i ==> self.instruments@[j].0@ != symbol@,
            decreases self.instruments@.len() - i,
        {
            if str_eq(self.instruments[i].0.as_str(), symbol) {
                return Some(i);
            }
            i = i + 1;
        }
        None
    }

    /// The parsing context registered for a symbol.
    pub fn context(&self, symbol: &str) -> (r: Option<InstrumentParsingContext<I, B>>)
        requires
            self.wf(),
        ensures
            r == (if self.view().dom().contains(symbol@) {
                Some(self.view()[symbol@])
            } else {
                None::<InstrumentParsingContext<I, B>>
            }),
    {
        proof {
            lemma_entries_map(self.instruments@);
        }
        match self.find(symbol) {
            Some(i) => Some(self.instruments[i].1),
            None => None,
        }
    }

    /// Registers (or re-registers, forgetting its bar identities) an instrument.
    pub fn register_instrument(
        &mut self,
        symbol: String,
        instrument_id: I,
        price_precision: u8,
        size_precision: u8,
    )
        requires
            old(self).wf(),
        ensures
            final(self).wf(),
            final(self).view() == old(self).view().insert(
                symbol@,
                InstrumentParsingContext {
                    instrument_id,
                    price_precision,
                    size_precision,
                    minute_bar_type: None,
                    daily_bar_type: None,
                },
            ),
    {
        let context = InstrumentParsingContext {
            instrument_id,
            price_precision,
            size_precision,
            minute_bar_type: None,
            daily_bar_type: None,
        };
        self.set_context(symbol, context);
    }

    fn set_context(&mut self, symbol: String, context: InstrumentParsingContext<I, B>)
        requires
            old(self).wf(),
        ensures
            final(self).wf(),
            final(self).view() == old(self).view().insert(symbol@, context),
    {
        proof {
            lemma_entries_map(self.instruments@);
        }
        let ghost before = self.instruments@;
        match self.find(symbol.as_str()) {
            Some(i) => {
                let mut instruments: Vec<(String, InstrumentParsingContext<I, B>)> = Vec::new();
                std::mem::swap(&mut instruments, &mut self.instruments);
                instruments.set(i, (symbol, context));
                self.instruments = instruments;
                proof {
                    let after = self.instruments@;
                    assert(keys_unique(after)) by {
                        assert forall|p: int, q: int| 0 <= p < q < after.len() implies after[p].0@
                            != after[q].0@ by {
                            if p != i as int && q != i as int {
                                assert(after[p] == before[p] && after[q] == before[q]);
                            } else if p == i as int {
                                assert(after[q] == before[q]);
                            } else {
                                assert(after[p] == before[p]);
                            }
                        }
                    }
                    lemma_entries_map(after);
                    assert(entries_map(after) =~= entries_map(before).insert(symbol@, context)) by {
                        assert forall|k: Seq<char>| #![trigger entries_map(after).dom().contains(k)]
                            entries_map(after).dom().contains(k) <==> entries_map(before).insert(
                            symbol@,
                            context,
                        ).dom().contains(k) by {
                            if entries_map(after).dom().contains(k) {
                                let j = choose|j: int| 0 <= j < after.len() && after[j].0@ == k;
                                if j != i as int {
                                    assert(after[j] == before[j]);
                                }
                            }
                            if entries_map(before).dom().contains(k) {
                                let j = choose|j: int| 0 <= j < before.len() && before[j].0@ == k;
                                if j != i as int {
                                    assert(after[j] == before[j]);
                                } else {
                                    assert(after[j].0@ == k);
                                }
                            }
                            if k == symbol@ {
                                assert(after[i as int].0@ == k);
                            }
                        }
                        assert forall|k: Seq<char>|
                            #![trigger entries_map(after)[k]]
                            entries_map(after).dom().contains(k) implies entries_map(after)[k]
                            == entries_map(before).insert(symbol@, context)[k] by {
                            let j = choose|j: int| 0 <= j < after.len() && after[j].0@ == k;
                            if j != i as int {
                                assert(after[j] == before[j]);
                            }
                        }
                    }
                }
            },
            None => {
                self.instruments.push((symbol, context));
                proof {
                    let after = self.instruments@;
                    assert(after.drop_last() =~= before);
                    assert(keys_unique(after)) by {
                        assert forall|p: int, q: int| 0 <= p < q < after.len() implies after[p].0@
                            != after[q].0@ by {
                            if q == after.len() - 1 {
                                assert(after[p] == before[p]);
                                assert(entries_map(before).dom().contains(before[p].0@));
                            } else {
                                assert(after[p] == before[p] && after[q] == before[q]);
                            }
                        }
                    }
                }
            },
        }
    }

    /// Registers the bar identities of an instrument's minute and daily bars.
    pub fn register_bar_types(&mut self, symbol: &str, minute: Option<B>, daily: Option<B>) -> (r:
        Result<(), DispatchError>)
        requires
            old(self).wf(),
        ensures
            final(self).wf(),
            old(self).view().dom().contains(symbol@) ==> r is Ok && final(self).view()
                == old(self).view().insert(
                symbol@,
                InstrumentParsingContext {
                    minute_bar_type: minute,
                    daily_bar_type: daily,
                    ..old(self).view()[symbol@]
                },
            ),
            !old(self).view().dom().contains(symbol@) ==> r is Err && final(self).view() == old(
                self,
            ).view(),
    {
        match self.context(symbol) {
            Some(context) => {
                let updated = InstrumentParsingContext {
                    minute_bar_type: minute,
                    daily_bar_type: daily,
                    ..context
                };
                self.set_context(String::from_str(symbol), updated);
                Ok(())
            },
            None => Err(DispatchError::NotRegistered(String::from_str(symbol))),
        }
    }

    /// Decides how a market-data message of the given kind and symbol becomes a domain event:
    /// every kind needs a registered instrument, bars need the registered bar identity, and a
    /// trading status carries its mapped flags and the venue's non-empty texts.
    pub fn dispatch(&self, kind: &MarketDataKind, symbol: &str) -> (r: Result<
        DispatchPlan<I, B>,
        DispatchError,
    >)
        requires
            self.wf(),
        ensures
            kind is Control ==> r matches Err(DispatchError::NotMarketData),
            !(kind is Control) && !self.view().dom().contains(symbol@) ==> (r matches Err(
                DispatchError::NotRegistered(s),
            ) && s@ == symbol@),
            !(kind is Control) && self.view().dom().contains(symbol@) ==> {
                let c = self.view()[symbol@];
                match *kind {
                    MarketDataKind::Trade => (r matches Ok(DispatchPlan::Trade { instrument_id, price_precision, size_precision })
                        && instrument_id == c.instrument_id && price_precision == c.price_precision
                        && size_precision == c.size_precision),
                    MarketDataKind::Quote => (r matches Ok(DispatchPlan::Quote { instrument_id, price_precision, size_precision })
                        && instrument_id == c.instrument_id && price_precision == c.price_precision
                        && size_precision == c.size_precision),
                    MarketDataKind::MinuteBar | MarketDataKind::UpdatedBar => match c.minute_bar_type {
                        Some(b) => (r matches Ok(DispatchPlan::Bar { bar_type, price_precision, size_precision })
                            && bar_type == b && price_precision == c.price_precision
                            && size_precision == c.size_precision),
                        None => r matches Err(DispatchError::NoMinuteBarType(_)),
                    },
                    MarketDataKind::DailyBar => match c.daily_bar_type {
                        Some(b) => (r matches Ok(DispatchPlan::Bar { bar_type, price_precision, size_precision })
                            && bar_type == b && price_precision == c.price_precision
                            && size_precision == c.size_precision),
                        None => r matches Err(DispatchError::NoDailyBarType(_)),
                    },
                    MarketDataKind::TradeCorrection => r matches Ok(DispatchPlan::TradeCorrection),
                    MarketDataKind::TradeCancelError => r matches Ok(DispatchPlan::TradeCancelError),
                    MarketDataKind::TradingStatus { status_code, status_message, reason_message } => {
                        let (a, t, q, s) = spec_status_code(status_code@);
                        (r matches Ok(DispatchPlan::InstrumentStatus { instrument_id, action, is_trading, is_quoting, is_short_sell_restricted, reason, trading_event })
                            && instrument_id == c.instrument_id && action == a && is_trading == t
                            && is_quoting == q && is_short_sell_restricted == s
                            && (reason matches Some(x) ==> x@ == reason_message@)
                            && (reason is None <==> reason_message@.len() == 0)
                            && (trading_event matches Some(x) ==> x@ == status_message@)
                            && (trading_event is None <==> status_message@.len() == 0))
                    },
                    MarketDataKind::Luld => r matches Ok(DispatchPlan::Luld),
                    MarketDataKind::Control => true,
                }
            },
    {
        if let MarketDataKind::Control = kind {
            return Err(DispatchError::NotMarketData);
        }
        let c = match self.context(symbol) {
            Some(c) => c,
            None => return Err(DispatchError::NotRegistered(String::from_str(symbol))),
        };
        match kind {
            MarketDataKind::Trade => Ok(
                DispatchPlan::Trade {
                    instrument_id: c.instrument_id,
                    price_precision: c.price_precision,
                    size_precision: c.size_precision,
                },
            ),
            MarketDataKind::Quote => Ok(
                DispatchPlan::Quote {
                    instrument_id: c.instrument_id,
                    price_precision: c.price_precision,
                    size_precision: c.size_precision,
                },
            ),
            MarketDataKind::MinuteBar | MarketDataKind::UpdatedBar => match c.minute_bar_type {
                Some(bar_type) => Ok(
                    DispatchPlan::Bar {
                        bar_type,
                        price_precision: c.price_precision,
                        size_precision: c.size_precision,
                    },
                ),
                None => Err(DispatchError::NoMinuteBarType(String::from_str(symbol))),
            },
            MarketDataKind::DailyBar => match c.daily_bar_type {
                Some(bar_type) => Ok(
                    DispatchPlan::Bar {
                        bar_type,
                        price_precision: c.price_precision,
                        size_precision: c.size_precision,
                    },
                ),
                None => Err(DispatchError::NoDailyBarType(String::from_str(symbol))),
            },
            MarketDataKind::TradeCorrection => Ok(DispatchPlan::TradeCorrection),
            MarketDataKind::TradeCancelError => Ok(DispatchPlan::TradeCancelError),
            MarketDataKind::TradingStatus { status_code, status_message, reason_message } => {
                let (action, is_trading, is_quoting, is_short_sell_restricted) = map_status_code(
                    status_code.as_str(),
                );
                let reason = if reason_message.unicode_len() == 0 {
                    None
                } else {
                    Some(reason_message.clone())
                };
                let trading_event = if status_message.unicode_len() == 0 {
                    None
                } else {
                    Some(status_message.clone())
                };
                Ok(
                    DispatchPlan::InstrumentStatus {
                        instrument_id: c.instrument_id,
                        action,
                        is_trading,
                        is_quoting,
                        is_short_sell_restricted,
                        reason,
                        trading_event,
                    },
                )
            },
            MarketDataKind::Luld => Ok(DispatchPlan::Luld),
            MarketDataKind::Control => Err(DispatchError::NotMarketData),
        }
    }
}

} // verus!
