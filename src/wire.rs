use vstd::prelude::*;

verus! {

/// The creation message: what a client may say about a reminder it wants made.
#[derive(Debug, Clone)]
pub struct NewReminderDto {
    pub title: String,
    pub description: Option<String>,
    pub urgency: i32,
    pub deadline: Option<prost_types::Timestamp>,
}

/// A full reminder as it travels on the wire.
#[derive(Debug, Clone)]
pub struct ReminderDto {
    pub id: String,
    pub active: bool,
    pub title: String,
    pub description: Option<String>,
    pub urgency: i32,
    pub started: Option<prost_types::Timestamp>,
    pub deadline: Option<prost_types::Timestamp>,
}

/// The content of a wire reminder, with its texts as character sequences.
pub struct ReminderDtoView {
    pub id: Seq<char>,
    pub active: bool,
    pub title: Seq<char>,
    pub description: Option<Seq<char>>,
    pub urgency: i32,
    pub started: Option<prost_types::Timestamp>,
    pub deadline: Option<prost_types::Timestamp>,
}

/// The characters of an optional text.
pub open spec fn opt_text(s: Option<String>) -> Option<Seq<char>> {
    match s {
        Some(t) => Some(t@),
        None => None,
    }
}

impl View for ReminderDto {
    type V = ReminderDtoView;

    open spec fn view(&self) -> ReminderDtoView {
        ReminderDtoView {
            id: self.id@,
            active: self.active,
            title: self.title@,
            description: opt_text(self.description),
            urgency: self.urgency,
            started: self.started,
            deadline: self.deadline,
        }
    }
}

#[derive(Debug, Clone)]
pub struct CreateReminderRequest {
    pub reminder: Option<NewReminderDto>,
}

#[derive(Debug, Clone)]
pub struct CreateReminderResponse {
    pub created: bool,
    pub reminder: Option<ReminderDto>,
}

#[derive(Debug, Clone)]
pub struct GetReminderByIdRequest {
    pub id: String,
}

#[derive(Debug, Clone)]
pub struct GetReminderByIdResponse {
    pub reminder: Option<ReminderDto>,
}

#[derive(Debug, Clone)]
pub struct SearchReminderByTitleRequest {
    pub title: String,
}

} // verus!
