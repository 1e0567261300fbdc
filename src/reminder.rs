use vstd::prelude::*;

use crate::ident::{fresh_id, id_text, id_to_string, parse_id, parsed_id};
use crate::time::{
    chrono_to_prost_timestamp, prost_timestamp_to_chrono, wire_time_spec, UtcTime,
};
use crate::urgency::{dto_of_ordinal, ordinal_of, urgency_of, Urgency, UrgencyDto};
use crate::wire::{opt_text, NewReminderDto, ReminderDto, ReminderDtoView};

verus! {

/// Why a wire message could not be turned into a reminder.
#[derive(Debug, Clone, Copy, PartialEq, Eq, Structural)]
pub enum ConversionError {
    BadId,
    BadTimestamp,
    BadUrgency,
}

impl ConversionError {
    /// A human-readable account of the failure.
    pub fn message(&self) -> (r: String)
        ensures
            r@ == conversion_message(*self),
    {
        match self {
            ConversionError::BadId => "Failed to parse reminder id".to_owned(),
            ConversionError::BadTimestamp => "Failed to convert timestamp".to_owned(),
            ConversionError::BadUrgency => "Unknown urgency ordinal".to_owned(),
        }
    }
}

pub open spec fn conversion_message(e: ConversionError) -> Seq<char> {
    match e {
        ConversionError::BadId => "Failed to parse reminder id"@,
        ConversionError::BadTimestamp => "Failed to convert timestamp"@,
        ConversionError::BadUrgency => "Unknown urgency ordinal"@,
    }
}

/// A reminder: something to be done by a deadline, with how urgent it is.
#[derive(Debug)]
pub struct Reminder {
    id: u128,
    active: bool,
    title: String,
    description: Option<String>,
    urgency: Urgency,
    started: UtcTime,
    deadline: UtcTime,
}

/// The content of a reminder, with its texts as character sequences.
pub struct ReminderView {
    pub id: u128,
    pub active: bool,
    pub title: Seq<char>,
    pub description: Option<Seq<char>>,
    pub urgency: Urgency,
    pub started: UtcTime,
    pub deadline: UtcTime,
}

impl View for Reminder {
    type V = ReminderView;

    closed spec fn view(&self) -> ReminderView {
        ReminderView {
            id: self.id,
            active: self.active,
            title: self.title@,
            description: opt_text(self.description),
            urgency: self.urgency,
            started: self.started,
            deadline: self.deadline,
        }
    }
}

/// Whether the text of an identifier reads back as that identifier.
pub open spec fn id_round_trips(id: u128) -> bool {
    parsed_id(id_text(id)) == Some(id)
}

impl ReminderView {
    /// Both times are valid UTC date-times and the identifier survives its text form.
    pub open spec fn wf(self) -> bool {
        &&& self.started.wf()
        &&& self.deadline.wf()
        &&& id_round_trips(self.id)
    }
}

/// The wire form of a reminder.
pub open spec fn encode(r: ReminderView) -> ReminderDtoView {
    ReminderDtoView {
        id: id_text(r.id),
        active: r.active,
        title: r.title,
        description: r.description,
        urgency: ordinal_of(r.urgency) as i32,
        started: Some(prost_types::Timestamp { seconds: r.started.secs, nanos: r.started.nanos as i32 }),
        deadline: Some(
            prost_types::Timestamp { seconds: r.deadline.secs, nanos: r.deadline.nanos as i32 },
        ),
    }
}

/// The reminder a full wire message stands for, or the first thing wrong with it: the
/// identifier, then the urgency, then the start time, then the deadline.
pub open spec fn decode(d: ReminderDtoView) -> Result<ReminderView, ConversionError> {
    if parsed_id(d.id) is None {
        Err(ConversionError::BadId)
    } else if dto_of_ordinal(d.urgency as int) is None {
        Err(ConversionError::BadUrgency)
    } else if wire_time_spec(d.started) is None {
        Err(ConversionError::BadTimestamp)
    } else if wire_time_spec(d.deadline) is None {
        Err(ConversionError::BadTimestamp)
    } else {
        Ok(
            ReminderView {
                id: parsed_id(d.id)->Some_0,
                active: d.active,
                title: d.title,
                description: d.description,
                urgency: urgency_of(dto_of_ordinal(d.urgency as int)->Some_0),
                started: wire_time_spec(d.started)->Some_0,
                deadline: wire_time_spec(d.deadline)->Some_0,
            },
        )
    }
}

/// Why a creation message cannot become a reminder, if anything is wrong with it: the urgency
/// is checked before the deadline.
pub open spec fn new_dto_error(d: NewReminderDto) -> Option<ConversionError> {
    if dto_of_ordinal(d.urgency as int) is None {
        Some(ConversionError::BadUrgency)
    } else if wire_time_spec(d.deadline) is None {
        Some(ConversionError::BadTimestamp)
    } else {
        None
    }
}

impl Reminder {
    pub open spec fn wf(&self) -> bool {
        self@.wf()
    }

    /// Makes a new, active reminder with a fresh identifier, started now. Without an urgency it
    /// is `Normal`.
    pub fn new(
        title: String,
        description: Option<String>,
        urgency: Option<Urgency>,
        deadline: UtcTime,
    ) -> (r: Reminder)
        requires
            deadline.wf(),
        ensures
            r.wf(),
            r@.active,
            r@.title == title@,
            r@.description == opt_text(description),
            r@.urgency == (match urgency {
                Some(u) => u,
                None => Urgency::Normal,
            }),
            r@.deadline == deadline,
    {
        let id = fresh_id();
        let started = UtcTime::now();
        Reminder::with_identity(id, started, title, description, urgency, deadline)
    }

    /// Makes a new, active reminder with the given identifier and start time. Without an
    /// urgency it is `Normal`.
    pub fn with_identity(
        id: u128,
        started: UtcTime,
        title: String,
        description: Option<String>,
        urgency: Option<Urgency>,
        deadline: UtcTime,
    ) -> (r: Reminder)
        ensures
            r@ == (ReminderView {
                id,
                active: true,
                title: title@,
                description: opt_text(description),
                urgency: match urgency {
                    Some(u) => u,
                    None => Urgency::Normal,
                },
                started,
                deadline,
            }),
    {
        let urgency = match urgency {
            Some(u) => u,
            None => Urgency::default(),
        };
        Reminder { id, active: true, title, description, urgency, started, deadline }
    }

    /// Builds a new reminder from a creation message. The identifier and start time are always
    /// assigned here, never taken from the client.
    pub fn try_from_new(dto: NewReminderDto) -> (r: Result<Reminder, ConversionError>)
        ensures
            new_dto_error(dto) matches Some(e) ==> r == Err::<Reminder, ConversionError>(e),
            new_dto_error(dto) is None ==> r is Ok,
            r matches Ok(rem) ==> {
                &&& rem.wf()
                &&& rem@.active
                &&& rem@.title == dto.title@
                &&& rem@.description == opt_text(dto.description)
                &&& rem@.urgency == urgency_of(dto_of_ordinal(dto.urgency as int)->Some_0)
                &&& Some(rem@.deadline) == wire_time_spec(dto.deadline)
            },
    {
        let urgency = match UrgencyDto::from_ordinal(dto.urgency) {
            Some(u) => Urgency::from(u),
            None => return Err(ConversionError::BadUrgency),
        };
        let deadline = match prost_timestamp_to_chrono(dto.deadline) {
            Some(t) => t,
            None => return Err(ConversionError::BadTimestamp),
        };
        Ok(Reminder::new(dto.title, dto.description, Some(urgency), deadline))
    }

    /// Rebuilds a reminder from its full wire form.
    pub fn try_from_dto(dto: ReminderDto) -> (r: Result<Reminder, ConversionError>)
        ensures
            decode(dto@) matches Err(e) ==> r == Err::<Reminder, ConversionError>(e),
            decode(dto@) matches Ok(v) ==> (r matches Ok(rem) && rem@ == v && rem.wf()),
    {
        let id = match parse_id(dto.id.as_str()) {
            Ok(v) => v,
            Err(_) => return Err(ConversionError::BadId),
        };
        let urgency = match UrgencyDto::from_ordinal(dto.urgency) {
            Some(u) => Urgency::from(u),
            None => return Err(ConversionError::BadUrgency),
        };
        let started = match prost_timestamp_to_chrono(dto.started) {
            Some(t) => t,
            None => return Err(ConversionError::BadTimestamp),
        };
        let deadline = match prost_timestamp_to_chrono(dto.deadline) {
            Some(t) => t,
            None => return Err(ConversionError::BadTimestamp),
        };
        Ok(
            Reminder {
                id,
                active: dto.active,
                title: dto.title,
                description: dto.description,
                urgency,
                started,
                deadline,
            },
        )
    }

    pub fn id(&self) -> (r: u128)
        ensures
            r == self@.id,
    {
        self.id
    }

    pub fn active(&self) -> (r: bool)
        ensures
            r == self@.active,
    {
        self.active
    }

    pub fn title(&self) -> (r: &String)
        ensures
            r@ == self@.title,
    {
        &self.title
    }

    pub fn description(&self) -> (r: &Option<String>)
        ensures
            opt_text(*r) == self@.description,
    {
        &self.description
    }

    pub fn urgency(&self) -> (r: Urgency)
        ensures
            r == self@.urgency,
    {
        self.urgency
    }

    pub fn started(&self) -> (r: UtcTime)
        ensures
            r == self@.started,
    {
        self.started
    }

    pub fn deadline(&self) -> (r: UtcTime)
        ensures
            r == self@.deadline,
    {
        self.deadline
    }

    /// The wire form of this reminder.
    pub fn into_dto(self) -> (r: ReminderDto)
        requires
            self.wf(),
        ensures
            r@ == encode(self@),
    {
        ReminderDto {
            id: id_to_string(self.id),
            active: self.active,
            title: self.title,
            description: self.description,
            urgency: i32::from(self.urgency),
            started: Some(chrono_to_prost_timestamp(self.started)),
            deadline: Some(chrono_to_prost_timestamp(self.deadline)),
        }
    }
}

/// Writing a reminder to the wire and reading it back gives the same reminder, field for field,
/// when its times lie at or after the epoch.
pub proof fn lemma_reminder_round_trip(r: ReminderView)
    requires
        r.wf(),
        r.started.secs >= 0,
        r.deadline.secs >= 0,
    ensures
        decode(encode(r)) == Ok::<ReminderView, ConversionError>(r),
{
    crate::urgency::lemma_urgency_ordinal_round_trip(r.urgency);
    crate::time::lemma_timestamp_round_trip(r.started);
    crate::time::lemma_timestamp_round_trip(r.deadline);
}

} // verus!
