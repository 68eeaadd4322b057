use vstd::prelude::*;
use crate::status::{Mode, RankedStatus, mode_from_code, status_from_code};

verus! {

/// How many beatmap sets a search returns when the request names no amount.
pub const DEFAULT_SEARCH_AMOUNT: u64 = 100;

/// The query parameters of a beatmap set search, each optional.
/// `status` and `mode` are wire codes.
#[derive(Debug, Clone)]
pub struct SearchParams {
    pub query: Option<String>,
    pub amount: Option<u64>,
    pub offset: Option<u64>,
    pub status: Option<i8>,
    pub mode: Option<i8>,
    pub osu_direct: Option<bool>,
}

/// A search with every default filled in.
#[derive(Debug, Clone)]
pub struct SearchRequest {
    pub query: Option<String>,
    pub amount: u64,
    pub offset: u64,
    pub status: RankedStatus,
    pub mode: Mode,
    pub osu_direct: bool,
}

/// The status a search filters on: the one with the given code, else ranked.
pub open spec fn status_filter_spec(code: Option<i8>) -> RankedStatus {
    match code {
        Some(c) => match status_from_code(c as int) {
            Some(s) => s,
            None => RankedStatus::Ranked,
        },
        None => RankedStatus::Ranked,
    }
}

/// The mode a search filters on: the one with the given code, else all modes.
pub open spec fn mode_filter_spec(code: Option<i8>) -> Mode {
    match code {
        Some(c) => match mode_from_code(c as int) {
            Some(m) => m,
            None => Mode::All,
        },
        None => Mode::All,
    }
}

impl SearchParams {
    /// Fills in the defaults: 100 results from offset 0, ranked sets of every
    /// mode, in the JSON format. An unknown status or mode code falls back
    /// to its default.
    pub fn resolve(self) -> (r: SearchRequest)
        ensures
            r.query == self.query,
            r.amount == (match self.amount { Some(a) => a, None => DEFAULT_SEARCH_AMOUNT }),
            r.offset == (match self.offset { Some(o) => o, None => 0 }),
            r.status == status_filter_spec(self.status),
            r.mode == mode_filter_spec(self.mode),
            r.osu_direct == (self.osu_direct == Some(true)),
    {
        let amount = match self.amount {
            Some(a) => a,
            None => DEFAULT_SEARCH_AMOUNT,
        };
        let offset = match self.offset {
            Some(o) => o,
            None => 0,
        };
        let status = match self.status {
            Some(c) => match RankedStatus::from_i8(c) {
                Some(s) => s,
                None => RankedStatus::Ranked,
            },
            None => RankedStatus::Ranked,
        };
        let mode = match self.mode {
            Some(c) => match Mode::from_i8(c) {
                Some(m) => m,
                None => Mode::All,
            },
            None => Mode::All,
        };
        let osu_direct = match self.osu_direct {
            Some(d) => d,
            None => false,
        };
        SearchRequest { query: self.query, amount, offset, status, mode, osu_direct }
    }
}

/// One condition that every search hit must meet.
#[derive(Debug, Clone)]
pub enum SearchCondition {
    /// The text matches the artist, creator, title, tags or a difficulty name.
    Text(String),
    /// Some difficulty of the set is of this mode.
    ModeIs(Mode),
    /// The set has this status.
    StatusIs(RankedStatus),
}

/// The conditions of a search, in order: the text if there is one, then
/// the mode and the status unless they are `All`.
pub open spec fn search_conditions_spec(query: Option<String>, status: RankedStatus, mode: Mode) -> Seq<SearchCondition> {
    let text = match query {
        Some(q) => seq![SearchCondition::Text(q)],
        None => Seq::empty(),
    };
    let by_mode = if mode != Mode::All { seq![SearchCondition::ModeIs(mode)] } else { Seq::empty() };
    let by_status = if status != RankedStatus::All {
        seq![SearchCondition::StatusIs(status)]
    } else {
        Seq::empty()
    };
    text + by_mode + by_status
}

/// Builds the conditions of a search; a search with none matches every set.
pub fn search_conditions(query: Option<String>, status: RankedStatus, mode: Mode) -> (r: Vec<SearchCondition>)
    ensures
        r@ == search_conditions_spec(query, status, mode),
{
    let ghost q = query;
    let mut r: Vec<SearchCondition> = Vec::new();
    match query {
        Some(q) => r.push(SearchCondition::Text(q)),
        None => {},
    }
    if mode != Mode::All {
        r.push(SearchCondition::ModeIs(mode));
    }
    if status != RankedStatus::All {
        r.push(SearchCondition::StatusIs(status));
    }
    assert(r@ =~= search_conditions_spec(q, status, mode));
    r
}

} // verus!
