use vstd::prelude::*;

use crate::ident::parsed_id;
use crate::reminder::{conversion_message, encode, new_dto_error, ConversionError, Reminder};
use crate::time::wire_time_spec;
use crate::urgency::{dto_of_ordinal, urgency_of};
use crate::wire::{
    opt_text, CreateReminderRequest, CreateReminderResponse, GetReminderByIdRequest,
    GetReminderByIdResponse,
};

verus! {

/// The status codes this service answers with.
#[derive(Debug, Clone, Copy, PartialEq, Eq, Structural)]
pub enum StatusCode {
    Aborted,
    InvalidArgument,
    NotFound,
}

/// A failed call: a status code and a human-readable message.
#[derive(Debug, Clone)]
pub struct RpcStatus {
    pub code: StatusCode,
    pub message: String,
}

/// The content of a status, with its message as a character sequence.
pub struct StatusView {
    pub code: StatusCode,
    pub message: Seq<char>,
}

impl View for RpcStatus {
    type V = StatusView;

    open spec fn view(&self) -> StatusView {
        StatusView { code: self.code, message: self.message@ }
    }
}

pub open spec fn status(code: StatusCode, message: Seq<char>) -> StatusView {
    StatusView { code, message }
}

/// The first step of creating a reminder: the reminder a request asks for, or why it cannot
/// be made. An absent payload and a malformed one are both `Aborted`.
pub fn begin_create(request: CreateReminderRequest) -> (r: Result<Reminder, RpcStatus>)
    ensures
        request.reminder is None ==> (r matches Err(s) && s@ == status(
            StatusCode::Aborted,
            "No Data for creation"@,
        )),
        request.reminder matches Some(d) ==> {
            &&& new_dto_error(d) matches Some(e) ==> (r matches Err(s) && s@ == status(
                StatusCode::Aborted,
                conversion_message(e),
            ))
            &&& new_dto_error(d) is None ==> (r matches Ok(rem) && {
                &&& rem.wf()
                &&& rem@.active
                &&& rem@.title == d.title@
                &&& rem@.description == opt_text(d.description)
                &&& rem@.urgency == urgency_of(dto_of_ordinal(d.urgency as int)->Some_0)
                &&& Some(rem@.deadline) == wire_time_spec(d.deadline)
            })
        },
{
    let dto = match request.reminder {
        Some(d) => d,
        None => {
            return Err(
                RpcStatus { code: StatusCode::Aborted, message: "No Data for creation".to_owned() },
            )
        },
    };
    match Reminder::try_from_new(dto) {
        Ok(rem) => Ok(rem),
        Err(e) => Err(RpcStatus { code: StatusCode::Aborted, message: e.message() }),
    }
}

/// The last step of creating a reminder, once the store has answered: the created reminder,
/// or the store's failure as `Aborted` with its message.
pub fn complete_create(reminder: Reminder, stored: Result<(), String>) -> (r: Result<
    CreateReminderResponse,
    RpcStatus,
>)
    requires
        reminder.wf(),
    ensures
        stored matches Err(m) ==> (r matches Err(s) && s@ == status(StatusCode::Aborted, m@)),
        stored is Ok ==> (r matches Ok(resp) && resp.created && (resp.reminder matches Some(d)
            && d@ == encode(reminder@))),
{
    match stored {
        Ok(()) => Ok(CreateReminderResponse { created: true, reminder: Some(reminder.into_dto()) }),
        Err(m) => Err(RpcStatus { code: StatusCode::Aborted, message: m }),
    }
}

/// The identifier a lookup asks for, or `InvalidArgument` when the text is no identifier.
pub fn begin_lookup(request: &GetReminderByIdRequest) -> (r: Result<u128, RpcStatus>)
    ensures
        parsed_id(request.id@) matches Some(v) ==> r == Ok::<u128, RpcStatus>(v),
        parsed_id(request.id@) is None ==> (r matches Err(s) && s@ == status(
            StatusCode::InvalidArgument,
            conversion_message(ConversionError::BadId),
        )),
{
    match crate::ident::parse_id(request.id.as_str()) {
        Ok(v) => Ok(v),
        Err(_) => Err(
            RpcStatus {
                code: StatusCode::InvalidArgument,
                message: ConversionError::BadId.message(),
            },
        ),
    }
}

/// The answer to a lookup, once the store has answered: the reminder found, `NotFound` when
/// there is none, or the store's failure as `Aborted` with its message.
pub fn complete_lookup(found: Result<Option<Reminder>, String>) -> (r: Result<
    GetReminderByIdResponse,
    RpcStatus,
>)
    requires
        found matches Ok(Some(rem)) ==> rem.wf(),
    ensures
        found matches Ok(Some(rem)) ==> (r matches Ok(resp) && (resp.reminder matches Some(d)
            && d@ == encode(rem@))),
        found matches Ok(None) ==> (r matches Err(s) && s@ == status(
            StatusCode::NotFound,
            "No reminder with that id"@,
        )),
        found matches Err(m) ==> (r matches Err(s) && s@ == status(StatusCode::Aborted, m@)),
{
    match found {
        Ok(Some(rem)) => Ok(GetReminderByIdResponse { reminder: Some(rem.into_dto()) }),
        Ok(None) => Err(
            RpcStatus { code: StatusCode::NotFound, message: "No reminder with that id".to_owned() },
        ),
        Err(m) => Err(RpcStatus { code: StatusCode::Aborted, message: m }),
    }
}

} // verus!
