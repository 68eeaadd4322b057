use vstd::prelude::*;

verus! {

/// Game mode filter of a search; `All` matches every mode.
#[derive(Debug, Clone, Copy, PartialEq, Eq, Structural)]
pub enum Mode {
    All,
    Standard,
    Taiko,
    Catch,
    Mania,
}

/// Ranked status of a beatmap set, as the upstream catalog reports it.
/// `All` is only meaningful as a search filter.
#[derive(Debug, Clone, Copy, PartialEq, Eq, Structural)]
pub enum RankedStatus {
    All,
    Graveyard,
    WorkInProgress,
    Pending,
    Ranked,
    Approved,
    Qualified,
    Loved,
}

/// The wire code of a mode.
pub open spec fn mode_code(m: Mode) -> int {
    match m {
        Mode::All => -1,
        Mode::Standard => 0,
        Mode::Taiko => 1,
        Mode::Catch => 2,
        Mode::Mania => 3,
    }
}

/// The wire code of a ranked status.
pub open spec fn status_code(s: RankedStatus) -> int {
    match s {
        RankedStatus::All => -3,
        RankedStatus::Graveyard => -2,
        RankedStatus::WorkInProgress => -1,
        RankedStatus::Pending => 0,
        RankedStatus::Ranked => 1,
        RankedStatus::Approved => 2,
        RankedStatus::Qualified => 3,
        RankedStatus::Loved => 4,
    }
}

/// The mode with the given wire code, if there is one.
pub open spec fn mode_from_code(code: int) -> Option<Mode> {
    if code == -1 {
        Some(Mode::All)
    } else if code == 0 {
        Some(Mode::Standard)
    } else if code == 1 {
        Some(Mode::Taiko)
    } else if code == 2 {
        Some(Mode::Catch)
    } else if code == 3 {
        Some(Mode::Mania)
    } else {
        None
    }
}

/// The status with the given wire code, if there is one.
pub open spec fn status_from_code(code: int) -> Option<RankedStatus> {
    if code == -3 {
        Some(RankedStatus::All)
    } else if code == -2 {
        Some(RankedStatus::Graveyard)
    } else if code == -1 {
        Some(RankedStatus::WorkInProgress)
    } else if code == 0 {
        Some(RankedStatus::Pending)
    } else if code == 1 {
        Some(RankedStatus::Ranked)
    } else if code == 2 {
        Some(RankedStatus::Approved)
    } else if code == 3 {
        Some(RankedStatus::Qualified)
    } else if code == 4 {
        Some(RankedStatus::Loved)
    } else {
        None
    }
}

/// A status after which the upstream record is no longer expected to change.
pub open spec fn status_is_final(s: RankedStatus) -> bool {
    s == RankedStatus::Ranked || s == RankedStatus::Approved || s == RankedStatus::Loved
        || s == RankedStatus::All
}

impl Mode {
    /// The mode with the given wire code, if there is one.
    pub fn from_i8(code: i8) -> (r: Option<Mode>)
        ensures
            r == mode_from_code(code as int),
            r matches Some(m) ==> mode_code(m) == code,
            r is None <==> !(-1 <= code <= 3),
    {
        match code {
            -1 => Some(Mode::All),
            0 => Some(Mode::Standard),
            1 => Some(Mode::Taiko),
            2 => Some(Mode::Catch),
            3 => Some(Mode::Mania),
            _ => None,
        }
    }

    /// The wire code of this mode.
    pub fn code(&self) -> (r: i8)
        ensures
            r == mode_code(*self),
    {
        match self {
            Mode::All => -1,
            Mode::Standard => 0,
            Mode::Taiko => 1,
            Mode::Catch => 2,
            Mode::Mania => 3,
        }
    }
}

impl RankedStatus {
    /// The status with the given wire code, if there is one.
    pub fn from_i8(code: i8) -> (r: Option<RankedStatus>)
        ensures
            r == status_from_code(code as int),
            r matches Some(s) ==> status_code(s) == code,
            r is None <==> !(-3 <= code <= 4),
    {
        match code {
            -3 => Some(RankedStatus::All),
            -2 => Some(RankedStatus::Graveyard),
            -1 => Some(RankedStatus::WorkInProgress),
            0 => Some(RankedStatus::Pending),
            1 => Some(RankedStatus::Ranked),
            2 => Some(RankedStatus::Approved),
            3 => Some(RankedStatus::Qualified),
            4 => Some(RankedStatus::Loved),
            _ => None,
        }
    }

    /// The wire code of this status.
    pub fn code(&self) -> (r: i8)
        ensures
            r == status_code(*self),
    {
        match self {
            RankedStatus::All => -3,
            RankedStatus::Graveyard => -2,
            RankedStatus::WorkInProgress => -1,
            RankedStatus::Pending => 0,
            RankedStatus::Ranked => 1,
            RankedStatus::Approved => 2,
            RankedStatus::Qualified => 3,
            RankedStatus::Loved => 4,
        }
    }

    /// Whether entities with this status are never re-validated.
    pub fn is_final(&self) -> (r: bool)
        ensures
            r == status_is_final(*self),
    {
        match self {
            RankedStatus::Ranked | RankedStatus::Approved | RankedStatus::Loved | RankedStatus::All => true,
            _ => false,
        }
    }

    /// The statuses that the updater re-validates, in wire-code order.
    pub fn non_final() -> (r: Vec<RankedStatus>)
        ensures
            forall|s: RankedStatus| r@.contains(s) <==> !status_is_final(s),
            r@.no_duplicates(),
    {
        let r = vec![
            RankedStatus::Graveyard,
            RankedStatus::WorkInProgress,
            RankedStatus::Pending,
            RankedStatus::Qualified,
        ];
        assert(r@ =~= seq![
            RankedStatus::Graveyard,
            RankedStatus::WorkInProgress,
            RankedStatus::Pending,
            RankedStatus::Qualified,
        ]);
        assert forall|s: RankedStatus| r@.contains(s) <==> !status_is_final(s) by {
            if !status_is_final(s) {
                match s {
                    RankedStatus::Graveyard => assert(r@[0] == s),
                    RankedStatus::WorkInProgress => assert(r@[1] == s),
                    RankedStatus::Pending => assert(r@[2] == s),
                    RankedStatus::Qualified => assert(r@[3] == s),
                    _ => {},
                }
            }
        }
        r
    }
}

} // verus!
