use vstd::prelude::*;

verus! {

/// How pressing a reminder is, from most to least urgent.
#[derive(Debug, Clone, Copy, PartialEq, Eq, Structural)]
pub enum Urgency {
    Extreme,
    High,
    Normal,
    Low,
}

/// The urgency levels as they travel on the wire.
#[derive(Debug, Clone, Copy, PartialEq, Eq, Structural)]
pub enum UrgencyDto {
    Extreme,
    High,
    Normal,
    Low,
}

/// The fixed wire ordinal of each urgency level.
pub open spec fn ordinal_of(u: Urgency) -> int {
    match u {
        Urgency::Extreme => 0,
        Urgency::High => 1,
        Urgency::Normal => 2,
        Urgency::Low => 3,
    }
}

/// The wire counterpart of a domain urgency.
pub open spec fn dto_of(u: Urgency) -> UrgencyDto {
    match u {
        Urgency::Extreme => UrgencyDto::Extreme,
        Urgency::High => UrgencyDto::High,
        Urgency::Normal => UrgencyDto::Normal,
        Urgency::Low => UrgencyDto::Low,
    }
}

/// The domain counterpart of a wire urgency.
pub open spec fn urgency_of(d: UrgencyDto) -> Urgency {
    match d {
        UrgencyDto::Extreme => Urgency::Extreme,
        UrgencyDto::High => Urgency::High,
        UrgencyDto::Normal => Urgency::Normal,
        UrgencyDto::Low => Urgency::Low,
    }
}

/// The wire urgency carried by an ordinal, if the ordinal names one.
pub open spec fn dto_of_ordinal(n: int) -> Option<UrgencyDto> {
    if n == 0 {
        Some(UrgencyDto::Extreme)
    } else if n == 1 {
        Some(UrgencyDto::High)
    } else if n == 2 {
        Some(UrgencyDto::Normal)
    } else if n == 3 {
        Some(UrgencyDto::Low)
    } else {
        None
    }
}

impl Default for Urgency {
    fn default() -> (r: Urgency)
        ensures
            r == Urgency::Normal,
    {
        Urgency::Normal
    }
}

impl Urgency {
    /// The wire ordinal of this level.
    pub fn ordinal(self) -> (r: i32)
        ensures
            r == ordinal_of(self),
            0 <= r <= 3,
    {
        match self {
            Urgency::Extreme => 0,
            Urgency::High => 1,
            Urgency::Normal => 2,
            Urgency::Low => 3,
        }
    }
}

impl UrgencyDto {
    /// Reads a wire ordinal; `None` when it names no level.
    pub fn from_ordinal(n: i32) -> (r: Option<UrgencyDto>)
        ensures
            r == dto_of_ordinal(n as int),
    {
        match n {
            0 => Some(UrgencyDto::Extreme),
            1 => Some(UrgencyDto::High),
            2 => Some(UrgencyDto::Normal),
            3 => Some(UrgencyDto::Low),
            _ => None,
        }
    }

    /// The wire ordinal of this level.
    pub fn ordinal(self) -> (r: i32)
        ensures
            r == ordinal_of(urgency_of(self)),
    {
        match self {
            UrgencyDto::Extreme => 0,
            UrgencyDto::High => 1,
            UrgencyDto::Normal => 2,
            UrgencyDto::Low => 3,
        }
    }
}

impl From<UrgencyDto> for Urgency {
    fn from(d: UrgencyDto) -> (r: Urgency)
        ensures
            r == urgency_of(d),
    {
        match d {
            UrgencyDto::Extreme => Urgency::Extreme,
            UrgencyDto::High => Urgency::High,
            UrgencyDto::Normal => Urgency::Normal,
            UrgencyDto::Low => Urgency::Low,
        }
    }
}

impl vstd::std_specs::convert::FromSpecImpl<UrgencyDto> for Urgency {
    open spec fn obeys_from_spec() -> bool {
        true
    }

    open spec fn from_spec(d: UrgencyDto) -> Urgency {
        urgency_of(d)
    }
}

impl From<Urgency> for UrgencyDto {
    fn from(u: Urgency) -> (r: UrgencyDto)
        ensures
            r == dto_of(u),
    {
        match u {
            Urgency::Extreme => UrgencyDto::Extreme,
            Urgency::High => UrgencyDto::High,
            Urgency::Normal => UrgencyDto::Normal,
            Urgency::Low => UrgencyDto::Low,
        }
    }
}

impl vstd::std_specs::convert::FromSpecImpl<Urgency> for UrgencyDto {
    open spec fn obeys_from_spec() -> bool {
        true
    }

    open spec fn from_spec(u: Urgency) -> UrgencyDto {
        dto_of(u)
    }
}

impl From<Urgency> for i32 {
    fn from(u: Urgency) -> (r: i32)
        ensures
            r == ordinal_of(u),
    {
        u.ordinal()
    }
}

impl vstd::std_specs::convert::FromSpecImpl<Urgency> for i32 {
    open spec fn obeys_from_spec() -> bool {
        true
    }

    open spec fn from_spec(u: Urgency) -> i32 {
        ordinal_of(u) as i32
    }
}

/// Encoding a level to its ordinal and reading it back gives the same level,
/// through the wire enum as well; the ordinals are Extreme 0, High 1, Normal 2, Low 3.
pub proof fn lemma_urgency_ordinal_round_trip(u: Urgency)
    ensures
        dto_of_ordinal(ordinal_of(u)) == Some(dto_of(u)),
        urgency_of(dto_of(u)) == u,
        ordinal_of(urgency_of(dto_of(u))) == ordinal_of(u),
        ordinal_of(Urgency::Extreme) == 0,
        ordinal_of(Urgency::High) == 1,
        ordinal_of(Urgency::Normal) == 2,
        ordinal_of(Urgency::Low) == 3,
{
}

} // verus!
