//! The replies of the administrative API. Each function here computes what
//! one route answers, as a status code and a body; the transport around it
//! is not this library's business.

use crate::gateway::{CommandGateway, Delivery};
use crate::messages::CommandMsg;
use crate::state::{ApplicationState, ProgramStatus};
use vstd::prelude::*;

verus! {

/// The status code of a reply to a request that was served.
pub const HTTP_OK: u16 = 200;

/// The status code of a reply to a command that could not be passed on.
pub const HTTP_BAD_REQUEST: u16 = 400;

/// The status code of a reply about a program that is not known.
pub const HTTP_NOT_FOUND: u16 = 404;

/// A reply of the administrative API.
#[derive(Debug, Clone, PartialEq, Eq)]
pub struct HttpReply {
    pub status: u16,
    pub body: String,
}

impl View for HttpReply {
    type V = (u16, Seq<char>);

    open spec fn view(&self) -> (u16, Seq<char>) {
        (self.status, self.body@)
    }
}

/// The body of the reply to a liveness ping.
pub open spec fn ready_body() -> Seq<char> {
    "supers ready\n"@
}

/// The body of the reply that shows the application's status.
pub open spec fn app_status_body(status: Seq<char>) -> Seq<char> {
    "App status is: "@ + status + "\n"@
}

/// One line of the listing of program statuses.
pub open spec fn program_line(entry: (Seq<char>, ProgramStatus)) -> Seq<char> {
    entry.0 + ": "@ + entry.1.text() + "\n"@
}

/// The lines of a listing, one per entry, in order.
pub open spec fn program_lines(listing: Seq<(Seq<char>, ProgramStatus)>) -> Seq<char>
    decreases listing.len(),
{
    if listing.len() == 0 {
        Seq::empty()
    } else {
        program_lines(listing.drop_last()) + program_line(listing.last())
    }
}

/// The body of the reply that lists all program statuses.
pub open spec fn programs_body(listing: Seq<(Seq<char>, ProgramStatus)>) -> Seq<char> {
    "Program Statuses:\n"@ + program_lines(listing)
}

/// The body of the reply that shows one program's status.
pub open spec fn program_body(name: Seq<char>, status: ProgramStatus) -> Seq<char> {
    "Status of program "@ + name + " is: "@ + status.text() + "\n"@
}

/// The body of the reply about a program that is not known.
pub open spec fn not_found_body(name: Seq<char>) -> Seq<char> {
    "No program with name "@ + name + " found.\n"@
}

/// The body of the reply to a command that is on its way.
pub open spec fn instructed_body(name: Seq<char>, msg: CommandMsg) -> Seq<char> {
    "Program "@ + name + " has been instructed to "@ + msg.verb() + ".\n"@
}

/// The body of the reply to a command that the mailbox did not take.
pub open spec fn send_failed_body(name: Seq<char>) -> Seq<char> {
    "Error sending message to "@ + name + " channel\n"@
}

/// The reply to a command for the program `name`, given what became of it.
pub open spec fn command_reply_of(name: Seq<char>, msg: CommandMsg, delivery: Delivery) -> (
    u16,
    Seq<char>,
) {
    match delivery {
        Delivery::Delivered => (HTTP_OK, instructed_body(name, msg)),
        Delivery::UnknownProgram => (HTTP_NOT_FOUND, not_found_body(name)),
        Delivery::MailboxClosed => (HTTP_BAD_REQUEST, send_failed_body(name)),
    }
}

/// The reply about a program that is not known.
fn not_found(name: &str) -> (reply: HttpReply)
    ensures
        reply@ == (HTTP_NOT_FOUND, not_found_body(name@)),
{
    let mut body = String::from_str("No program with name ");
    body.append(name);
    body.append(" found.\n");
    HttpReply { status: HTTP_NOT_FOUND, body }
}

/// `GET /ready`: the liveness ping.
pub fn ready() -> (reply: HttpReply)
    ensures
        reply@ == (HTTP_OK, ready_body()),
{
    HttpReply { status: HTTP_OK, body: String::from_str("supers ready\n") }
}

/// `GET /app`: the status of the application.
pub fn get_app_status(state: &ApplicationState) -> (reply: HttpReply)
    ensures
        reply@ == (HTTP_OK, app_status_body(state.application_status.text())),
{
    let status = state.application_status().to_text();
    let mut body = String::from_str("App status is: ");
    body.append(status.as_str());
    body.append("\n");
    HttpReply { status: HTTP_OK, body }
}

/// `GET /programs`: the status of every program that has one, a line each,
/// in the order in which the programs were first written to the registry.
pub fn get_programs(state: &ApplicationState) -> (reply: HttpReply)
    requires
        state.wf(),
    ensures
        reply@ == (HTTP_OK, programs_body(state.listing())),
{
    let snapshot = state.list();
    let mut body = String::from_str("Program Statuses:\n");
    let ghost listing = state.listing();
    let mut i: usize = 0;
    while i < snapshot.len()
        invariant
            i <= snapshot@.len(),
            snapshot@.len() == listing.len(),
            forall|j: int|
                0 <= j < snapshot@.len() ==> (#[trigger] snapshot@[j]).0@ == listing[j].0
                    && snapshot@[j].1 == listing[j].1,
            body@ == programs_body(listing.take(i as int)),
        decreases snapshot@.len() - i,
    {
        let status = snapshot[i].1.to_text();
        proof {
            let upto = listing.take(i + 1);
            assert(upto.drop_last() =~= listing.take(i as int));
            assert(upto.last() == listing[i as int]);
            assert(listing[i as int] == (snapshot@[i as int].0@, snapshot@[i as int].1));
        }
        body.append(snapshot[i].0.as_str());
        body.append(": ");
        body.append(status.as_str());
        body.append("\n");
        assert(body@ =~= programs_body(listing.take(i + 1)));
        i += 1;
    }
    assert(listing.take(i as int) =~= listing);
    HttpReply { status: HTTP_OK, body }
}

/// `GET /programs/{name}`: the status of one program, or "not found" for a
/// name that has no status in the registry.
pub fn get_program(state: &ApplicationState, name: &str) -> (reply: HttpReply)
    requires
        state.wf(),
    ensures
        reply@ == if state.statuses().contains_key(name@) {
            (HTTP_OK, program_body(name@, state.statuses()[name@]))
        } else {
            (HTTP_NOT_FOUND, not_found_body(name@))
        },
{
    match state.get(name) {
        None => not_found(name),
        Some(status) => {
            let text = status.to_text();
            let mut body = String::from_str("Status of program ");
            body.append(name);
            body.append(" is: ");
            body.append(text.as_str());
            body.append("\n");
            HttpReply { status: HTTP_OK, body }
        },
    }
}

/// The reply to a command for the program `name`, once it is known what
/// became of the command.
pub fn command_reply(name: &str, msg: CommandMsg, delivery: Delivery) -> (reply: HttpReply)
    ensures
        reply@ == command_reply_of(name@, msg, delivery),
{
    match delivery {
        Delivery::UnknownProgram => not_found(name),
        Delivery::Delivered => {
            let mut body = String::from_str("Program ");
            body.append(name);
            body.append(" has been instructed to ");
            body.append(msg.name());
            body.append(".\n");
            HttpReply { status: HTTP_OK, body }
        },
        Delivery::MailboxClosed => {
            let mut body = String::from_str("Error sending message to ");
            body.append(name);
            body.append(" channel\n");
            HttpReply { status: HTTP_BAD_REQUEST, body }
        },
    }
}

/// Passes a command for the program `name` on to its supervisor and says
/// how that went.
///
/// A name that the gateway does not know reaches no supervisor and is
/// answered "not found". For a known name the answer depends on the mailbox
/// alone: "instructed" when it took the command, "error sending" when not.
pub fn send_command(gateway: &CommandGateway, name: &str, msg: CommandMsg) -> (reply: HttpReply)
    requires
        gateway.wf(),
    ensures
        !gateway@.contains_key(name@) ==> reply@ == command_reply_of(
            name@,
            msg,
            Delivery::UnknownProgram,
        ),
        gateway@.contains_key(name@) ==> reply@ == command_reply_of(
            name@,
            msg,
            Delivery::Delivered,
        ) || reply@ == command_reply_of(name@, msg, Delivery::MailboxClosed),
{
    let delivery = gateway.dispatch(name, msg);
    command_reply(name, msg, delivery)
}

/// `POST /programs/{name}/start`.
pub fn start_program(gateway: &CommandGateway, name: &str) -> (reply: HttpReply)
    requires
        gateway.wf(),
    ensures
        !gateway@.contains_key(name@) ==> reply@ == command_reply_of(
            name@,
            CommandMsg::Start,
            Delivery::UnknownProgram,
        ),
        gateway@.contains_key(name@) ==> reply@ == command_reply_of(
            name@,
            CommandMsg::Start,
            Delivery::Delivered,
        ) || reply@ == command_reply_of(name@, CommandMsg::Start, Delivery::MailboxClosed),
{
    send_command(gateway, name, CommandMsg::Start)
}

/// `POST /programs/{name}/stop`.
pub fn stop_program(gateway: &CommandGateway, name: &str) -> (reply: HttpReply)
    requires
        gateway.wf(),
    ensures
        !gateway@.contains_key(name@) ==> reply@ == command_reply_of(
            name@,
            CommandMsg::Stop,
            Delivery::UnknownProgram,
        ),
        gateway@.contains_key(name@) ==> reply@ == command_reply_of(
            name@,
            CommandMsg::Stop,
            Delivery::Delivered,
        ) || reply@ == command_reply_of(name@, CommandMsg::Stop, Delivery::MailboxClosed),
{
    send_command(gateway, name, CommandMsg::Stop)
}

/// `POST /programs/{name}/restart`.
pub fn restart_program(gateway: &CommandGateway, name: &str) -> (reply: HttpReply)
    requires
        gateway.wf(),
    ensures
        !gateway@.contains_key(name@) ==> reply@ == command_reply_of(
            name@,
            CommandMsg::Restart,
            Delivery::UnknownProgram,
        ),
        gateway@.contains_key(name@) ==> reply@ == command_reply_of(
            name@,
            CommandMsg::Restart,
            Delivery::Delivered,
        ) || reply@ == command_reply_of(name@, CommandMsg::Restart, Delivery::MailboxClosed),
{
    send_command(gateway, name, CommandMsg::Restart)
}

} // verus!
