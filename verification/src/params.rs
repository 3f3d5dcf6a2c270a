//! The loosely-typed parameter payload a command arrives with, and the
//! permissive extraction policy over it: a missing or mistyped field falls
//! back to a documented default instead of rejecting the request.

use vstd::prelude::*;
use crate::text::str_eq;

verus! {

/// One parameter value as the router reads it. `Uint` carries a JSON
/// number that is a non-negative integer; `Str` carries a JSON string;
/// `Unusable` stands for a value that is present but of no shape any
/// extraction accepts (a fraction, a negative or oversized number, an
/// array, a nested object).
#[derive(Debug, Clone, PartialEq, Eq)]
pub enum ParamValue {
    Null,
    Bool(bool),
    Uint(u64),
    Str(String),
    Unusable,
}

/// Mathematical model of a `ParamValue`.
pub enum ParamValueView {
    Null,
    Bool(bool),
    Uint(u64),
    Str(Seq<char>),
    Unusable,
}

impl View for ParamValue {
    type V = ParamValueView;

    open spec fn view(&self) -> ParamValueView {
        match self {
            ParamValue::Null => ParamValueView::Null,
            ParamValue::Bool(b) => ParamValueView::Bool(*b),
            ParamValue::Uint(n) => ParamValueView::Uint(*n),
            ParamValue::Str(s) => ParamValueView::Str(s@),
            ParamValue::Unusable => ParamValueView::Unusable,
        }
    }
}

/// One key/value pair of the payload.
#[derive(Debug, Clone, PartialEq, Eq)]
pub struct ParamEntry {
    pub key: String,
    pub value: ParamValue,
}

/// Mathematical model of a `ParamEntry`.
pub struct ParamEntryView {
    pub key: Seq<char>,
    pub value: ParamValueView,
}

impl View for ParamEntry {
    type V = ParamEntryView;

    open spec fn view(&self) -> ParamEntryView {
        ParamEntryView { key: self.key@, value: self.value@ }
    }
}

/// The value under `key`, if any: the first entry with that key wins.
pub open spec fn spec_lookup(entries: Seq<ParamEntryView>, key: Seq<char>) -> Option<
    ParamValueView,
>
    decreases entries.len(),
{
    if entries.len() == 0 {
        None
    } else if entries[0].key == key {
        Some(entries[0].value)
    } else {
        spec_lookup(entries.drop_first(), key)
    }
}

/// The non-negative integer under `key`, or `default` when the key is
/// absent or its value is not such an integer.
pub open spec fn spec_u64_or(entries: Seq<ParamEntryView>, key: Seq<char>, default: u64) -> u64 {
    match spec_lookup(entries, key) {
        Some(ParamValueView::Uint(n)) => n,
        _ => default,
    }
}

/// The string under `key`, or `default` when the key is absent or its
/// value is not a string.
pub open spec fn spec_str_or(entries: Seq<ParamEntryView>, key: Seq<char>, default: Seq<char>) -> Seq<
    char,
> {
    match spec_lookup(entries, key) {
        Some(ParamValueView::Str(s)) => s,
        _ => default,
    }
}

/// A command's parameter payload: an ordered list of key/value pairs.
#[derive(Debug, Clone, PartialEq, Eq)]
pub struct Params {
    entries: Vec<ParamEntry>,
}

impl View for Params {
    type V = Seq<ParamEntryView>;

    closed spec fn view(&self) -> Seq<ParamEntryView> {
        self.entries@.map_values(|e: ParamEntry| e@)
    }
}

impl Params {
    /// An empty payload: every extraction falls back to its default.
    pub fn new() -> (r: Params)
        ensures
            r@ == Seq::<ParamEntryView>::empty(),
    {
        let r = Params { entries: Vec::new() };
        proof {
            assert(r@ =~= Seq::<ParamEntryView>::empty());
        }
        r
    }

    /// Appends one key/value pair at the end of the payload.
    pub fn push(&mut self, key: String, value: ParamValue)
        ensures
            final(self)@ == old(self)@.push(ParamEntryView { key: key@, value: value@ }),
    {
        let entry = ParamEntry { key, value };
        let ghost entry_view = entry@;
        self.entries.push(entry);
        proof {
            assert(final(self)@ =~= old(self)@.push(entry_view));
        }
    }

    /// The non-negative integer under `key`, or `default` when the key is
    /// absent or holds anything else.
    pub fn get_u64_or(&self, key: &str, default: u64) -> (r: u64)
        ensures
            r == spec_u64_or(self@, key@, default),
    {
        let n = self.entries.len();
        let mut i: usize = 0;
        proof {
            assert(self@.skip(0) =~= self@);
        }
        while i < n
            invariant
                0 <= i <= n,
                n == self.entries.len(),
                spec_lookup(self@, key@) == spec_lookup(self@.skip(i as int), key@),
            decreases n - i,
        {
            let entry = &self.entries[i];
            proof {
                assert(self@.skip(i as int)[0] == entry@);
                assert(self@.skip(i as int).drop_first() =~= self@.skip(i as int + 1));
            }
            if str_eq(entry.key.as_str(), key) {
                return match &entry.value {
                    ParamValue::Uint(v) => *v,
                    _ => default,
                };
            }
            i = i + 1;
        }
        proof {
            assert(self@.skip(n as int) =~= Seq::<ParamEntryView>::empty());
        }
        default
    }

    /// The string under `key`, or a copy of `default` when the key is
    /// absent or holds anything else.
    pub fn get_str_or(&self, key: &str, default: &str) -> (r: String)
        ensures
            r@ == spec_str_or(self@, key@, default@),
    {
        let n = self.entries.len();
        let mut i: usize = 0;
        proof {
            assert(self@.skip(0) =~= self@);
        }
        while i < n
            invariant
                0 <= i <= n,
                n == self.entries.len(),
                spec_lookup(self@, key@) == spec_lookup(self@.skip(i as int), key@),
            decreases n - i,
        {
            let entry = &self.entries[i];
            proof {
                assert(self@.skip(i as int)[0] == entry@);
                assert(self@.skip(i as int).drop_first() =~= self@.skip(i as int + 1));
            }
            if str_eq(entry.key.as_str(), key) {
                return match &entry.value {
                    ParamValue::Str(s) => s.clone(),
                    _ => default.to_owned(),
                };
            }
            i = i + 1;
        }
        proof {
            assert(self@.skip(n as int) =~= Seq::<ParamEntryView>::empty());
        }
        default.to_owned()
    }
}

} // verus!
