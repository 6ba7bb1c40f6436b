use vstd::prelude::*;

use crate::common::text::views;
use crate::decimal::ExactDecimal;

verus! {

/// A value of the free-form metadata published with instruments and account states.
#[derive(Clone, Debug)]
pub enum InfoValue {
    Null,
    Text(String),
    Flag(bool),
    Level(u8),
    /// A decimal kept at the venue's precision.
    Decimal(ExactDecimal),
    TextList(Vec<String>),
}

/// Mathematical view of an [`InfoValue`].
pub enum InfoView {
    Null,
    Text(Seq<char>),
    Flag(bool),
    Level(u8),
    Decimal(ExactDecimal),
    TextList(Seq<Seq<char>>),
}

pub open spec fn info_value_view(v: InfoValue) -> InfoView {
    match v {
        InfoValue::Null => InfoView::Null,
        InfoValue::Text(s) => InfoView::Text(s@),
        InfoValue::Flag(b) => InfoView::Flag(b),
        InfoValue::Level(l) => InfoView::Level(l),
        InfoValue::Decimal(d) => InfoView::Decimal(d),
        InfoValue::TextList(l) => InfoView::TextList(views(l@)),
    }
}

pub open spec fn entry_view(e: (String, InfoValue)) -> (Seq<char>, InfoView) {
    (e.0@, info_value_view(e.1))
}

/// The entries of a metadata list, in insertion order.
pub open spec fn info_view(v: Seq<(String, InfoValue)>) -> Seq<(Seq<char>, InfoView)> {
    v.map_values(|e: (String, InfoValue)| entry_view(e))
}

/// Appends one entry.
pub fn push_entry(info: &mut Vec<(String, InfoValue)>, key: &str, value: InfoValue)
    ensures
        info_view(final(info)@) == info_view(old(info)@) + seq![(key@, info_value_view(value))],
{
    info.push((String::from_str(key), value));
    assert(info_view(final(info)@) =~= info_view(old(info)@) + seq![
        (key@, info_value_view(value)),
    ]);
}

} // verus!
