//! The three use cases of the command line: list all reminders, create
//! one, delete the selected ones.
//!
//! A use case neither prints, reads nor sends. It is a function from its
//! stage and the event that arrived to its next stage and a `Step`: the
//! lines to print and what to do next. A caller starts with the `Idle`
//! stage and `Event::Start`, does what each step asks, and hands back what
//! came of it, until a step asks to exit or to fail. An event that a stage
//! does not wait for ends the use case with a failure.

use vstd::prelude::*;
use vstd::string::*;
use crate::clock::{get_local_timezone, is_utc_offset};
use crate::config::Config;
use crate::oye::{
    create_outcome, create_request_of, delete_outcome, delete_request_of, list_outcome,
    list_request_of, ClientError, ClientErrorView, Exchange, ExchangeView, OyeClient,
    OyeClientError, OyeClientErrorView, Reminder, ReminderId, ReminderView, Request, RequestView,
};
use crate::selection::{
    ask_user_to_select_reminders, first_invalid, ids_of, selection_answer, selection_of,
    typed_tokens, Answer, AnswerView, Selection,
};
use crate::text::{decimal, decimal_string};

verus! {

/// What a caller hands to a use case.
#[derive(Debug, PartialEq, Eq)]
pub enum Event {
    /// Nothing happened yet: the use case begins.
    Start,
    /// The request of the last step was sent, and this came of it.
    Exchange(Exchange),
    /// The line that the user typed, as it was read.
    Line(String),
}

/// What an `Event` holds.
pub enum EventView {
    Start,
    Exchange(ExchangeView),
    Line(Seq<char>),
}

impl View for Event {
    type V = EventView;

    open spec fn view(&self) -> EventView {
        match self {
            Event::Start => EventView::Start,
            Event::Exchange(exchange) => EventView::Exchange(exchange@),
            Event::Line(line) => EventView::Line(line@),
        }
    }
}

/// What a caller is to do after it has printed the lines of a step.
#[derive(Debug, PartialEq, Eq)]
pub enum Next {
    /// Send the request, and come back with `Event::Exchange`.
    Send(Request),
    /// Read a line from the user, and come back with `Event::Line`.
    ReadLine,
    /// The use case is done.
    Exit,
    /// The use case has failed: report the message and end with a failure.
    Fail(String),
}

/// What a `Next` holds.
pub enum NextView {
    Send(RequestView),
    ReadLine,
    Exit,
    Fail(Seq<char>),
}

impl View for Next {
    type V = NextView;

    open spec fn view(&self) -> NextView {
        match self {
            Next::Send(request) => NextView::Send(request@),
            Next::ReadLine => NextView::ReadLine,
            Next::Exit => NextView::Exit,
            Next::Fail(message) => NextView::Fail(message@),
        }
    }
}

/// One step of a use case: the lines to print, in order, and what to do
/// next.
#[derive(Debug, PartialEq, Eq)]
pub struct Step {
    pub lines: Vec<String>,
    pub next: Next,
}

/// What a `Step` holds.
pub struct StepView {
    pub lines: Seq<Seq<char>>,
    pub next: NextView,
}

impl View for Step {
    type V = StepView;

    open spec fn view(&self) -> StepView {
        StepView { lines: self.lines.deep_view(), next: self.next@ }
    }
}

/// The line that reports a failure at the top level.
pub open spec fn error_line_of(message: Seq<char>) -> Seq<char> {
    "ERROR: "@ + message
}

/// Writes the line that reports a failure at the top level.
pub fn error_line(message: &str) -> (r: String)
    ensures
        r@ == error_line_of(message@),
{
    let mut r = String::from_str("ERROR: ");
    r.append(message);
    r
}

/// The step that prints nothing and fails with `message`.
pub open spec fn failure(message: Seq<char>) -> StepView {
    StepView { lines: Seq::empty(), next: NextView::Fail(message) }
}

/// The step for an event that the stage did not wait for.
pub open spec fn out_of_turn() -> StepView {
    failure("an event arrived out of turn"@)
}

/// The error for a request that cannot be built for the service at `base`.
pub open spec fn unbuildable(base: Seq<char>) -> ClientErrorView {
    ClientErrorView::TransportError("could not build a request to "@ + base)
}

/// The line that shows the reminder at position `n`, counted from 1.
pub open spec fn numbered_line(n: nat, description: Seq<char>) -> Seq<char> {
    "  "@ + decimal(n) + "  "@ + description
}

/// The lines that show the reminders of a listing, each with its position,
/// in the order of the listing.
pub open spec fn numbered_lines(reminders: Seq<ReminderView>) -> Seq<Seq<char>> {
    Seq::new(reminders.len(), |i: int| numbered_line((i + 1) as nat, reminders[i].description))
}

fn step_of(lines: Vec<String>, next: Next) -> (r: Step)
    ensures
        r@ == (StepView { lines: lines.deep_view(), next: next@ }),
{
    Step { lines, next }
}

fn fail_with(message: String) -> (r: Step)
    ensures
        r@ == failure(message@),
{
    let lines: Vec<String> = Vec::new();
    assert(lines.deep_view() =~= Seq::<Seq<char>>::empty());
    Step { lines, next: Next::Fail(message) }
}

fn fail_out_of_turn() -> (r: Step)
    ensures
        r@ == out_of_turn(),
{
    fail_with(String::from_str("an event arrived out of turn"))
}

fn unbuildable_request(base: &str) -> (r: ClientError)
    ensures
        r@ == unbuildable(base@),
{
    let mut detail = String::from_str("could not build a request to ");
    detail.append(base);
    ClientError::TransportError(detail)
}

fn push_line(lines: &mut Vec<String>, line: String)
    ensures
        final(lines).deep_view() == old(lines).deep_view().push(line@),
{
    lines.push(line);
    assert(lines.deep_view() =~= old(lines).deep_view().push(line@));
}

fn push_numbered_lines(lines: &mut Vec<String>, reminders: &Vec<Reminder>)
    ensures
        final(lines).deep_view() == old(lines).deep_view() + numbered_lines(
            reminders.deep_view(),
        ),
{
    let ghost before = lines.deep_view();
    let ghost all = numbered_lines(reminders.deep_view());
    let mut i: usize = 0;
    assert(before + all.take(0) =~= before);
    while i < reminders.len()
        invariant
            i <= reminders.len(),
            all == numbered_lines(reminders.deep_view()),
            lines.deep_view() == before + all.take(i as int),
        decreases reminders.len() - i,
    {
        let mut line = String::from_str("  ");
        let number = decimal_string(i + 1);
        line.append(number.as_str());
        line.append("  ");
        line.append(reminders[i].description.as_str());
        assert(line@ == all[i as int]);
        push_line(lines, line);
        assert((before + all.take(i as int)).push(all[i as int]) =~= before + all.take(i + 1));
        i += 1;
    }
    assert(all.take(reminders.len() as int) =~= all);
}

/// The step that prints nothing and sends `request`.
pub open spec fn sending(request: RequestView) -> StepView {
    StepView { lines: Seq::empty(), next: NextView::Send(request) }
}

fn send(request: Request) -> (r: Step)
    ensures
        r@ == sending(request@),
{
    let lines: Vec<String> = Vec::new();
    assert(lines.deep_view() =~= Seq::<Seq<char>>::empty());
    Step { lines, next: Next::Send(request) }
}

/// What a listing, or the failure to get one, holds.
pub open spec fn listing_view(outcome: Result<Vec<Reminder>, OyeClientError>) -> Result<
    Seq<ReminderView>,
    OyeClientErrorView,
> {
    match outcome {
        Ok(reminders) => Ok(reminders.deep_view()),
        Err(error) => Err(error@),
    }
}

/// What a reminder, or the failure to get one, holds.
pub open spec fn reminder_view(outcome: Result<Reminder, OyeClientError>) -> Result<
    ReminderView,
    OyeClientErrorView,
> {
    match outcome {
        Ok(reminder) => Ok(reminder@),
        Err(error) => Err(error@),
    }
}

/// How far the use case that lists all reminders has come.
#[derive(Clone, Copy, Debug, PartialEq, Eq, Structural)]
pub enum ListStage {
    /// Not begun: waits for `Event::Start`.
    Idle,
    /// The list request is out: waits for `Event::Exchange`.
    Listing,
    /// Ended: waits for nothing.
    Done,
}

/// The message for a listing that failed.
pub open spec fn list_failure_message(error: OyeClientErrorView) -> Seq<char> {
    "failed to list reminders, reason: "@ + error.described()
}

/// The last step of listing all reminders. No reminders is no failure: a
/// notice says so. Reminders are shown in the order of the service, each
/// with its position counted from 1.
pub open spec fn listing_report(
    outcome: Result<Seq<ReminderView>, OyeClientErrorView>,
) -> StepView {
    match outcome {
        Ok(reminders) => if reminders.len() == 0 {
            StepView { lines: seq!["There are no reminders"@], next: NextView::Exit }
        } else {
            StepView {
                lines: seq!["Reminders:"@] + numbered_lines(reminders),
                next: NextView::Exit,
            }
        },
        Err(error) => failure(list_failure_message(error)),
    }
}

/// Reports a listing, or the failure to get one.
pub fn report_listing(outcome: Result<Vec<Reminder>, OyeClientError>) -> (r: Step)
    ensures
        r@ == listing_report(listing_view(outcome)),
{
    match outcome {
        Ok(reminders) => {
            let mut lines: Vec<String> = Vec::new();
            assert(lines.deep_view() =~= Seq::<Seq<char>>::empty());
            if reminders.len() == 0 {
                push_line(&mut lines, String::from_str("There are no reminders"));
                assert(lines.deep_view() =~= seq!["There are no reminders"@]);
            } else {
                push_line(&mut lines, String::from_str("Reminders:"));
                assert(lines.deep_view() =~= seq!["Reminders:"@]);
                push_numbered_lines(&mut lines, &reminders);
            }
            step_of(lines, Next::Exit)
        },
        Err(error) => {
            let mut message = String::from_str("failed to list reminders, reason: ");
            let reason = error.describe();
            message.append(reason.as_str());
            fail_with(message)
        },
    }
}

/// One step of listing all reminders from the service at `base`.
pub open spec fn list_step(base: Seq<char>, stage: ListStage, event: EventView) -> (
    ListStage,
    StepView,
) {
    match (stage, event) {
        (ListStage::Idle, EventView::Start) => match list_request_of(base) {
            Some(request) => (ListStage::Listing, sending(request)),
            None => (
                ListStage::Done,
                listing_report(Err(OyeClientErrorView::FailedToGetReminders(unbuildable(base)))),
            ),
        },
        (ListStage::Listing, EventView::Exchange(exchange)) => (
            ListStage::Done,
            listing_report(list_outcome(exchange)),
        ),
        _ => (ListStage::Done, out_of_turn()),
    }
}

/// Lists all reminders: one step of the use case.
pub fn list_all_reminders(config: &Config, stage: ListStage, event: Event) -> (r: (
    ListStage,
    Step,
))
    ensures
        (r.0, r.1@) == list_step(config.oye_api_url@, stage, event@),
{
    let client = OyeClient::new(config);
    match (stage, event) {
        (ListStage::Idle, Event::Start) => match client.list_request() {
            Some(request) => (ListStage::Listing, send(request)),
            None => {
                let cause = unbuildable_request(client.base_url.as_str());
                (ListStage::Done, report_listing(Err(OyeClientError::FailedToGetReminders(cause))))
            },
        },
        (ListStage::Listing, Event::Exchange(exchange)) => (
            ListStage::Done,
            report_listing(OyeClient::get_reminders(exchange)),
        ),
        _ => (ListStage::Done, fail_out_of_turn()),
    }
}

/// How far the use case that creates a reminder has come.
#[derive(Clone, Copy, Debug, PartialEq, Eq, Structural)]
pub enum CreateStage {
    /// Not begun: waits for `Event::Start`.
    Idle,
    /// The user was asked for the reminder: waits for `Event::Line`.
    Asking,
    /// The create request is out: waits for `Event::Exchange`.
    Creating,
    /// Ended: waits for nothing.
    Done,
}

/// The last step of creating a reminder. What is confirmed is the reminder
/// that the service reports, not what was typed.
pub open spec fn creation_report(outcome: Result<ReminderView, OyeClientErrorView>) -> StepView {
    match outcome {
        Ok(reminder) => StepView {
            lines: seq!["Reminder successfully created, reminder="@ + reminder.described()],
            next: NextView::Exit,
        },
        Err(error) => failure("failed to add reminder, reason: "@ + error.described()),
    }
}

/// Reports a created reminder, or the failure to create one.
pub fn report_creation(outcome: Result<Reminder, OyeClientError>) -> (r: Step)
    ensures
        r@ == creation_report(reminder_view(outcome)),
{
    match outcome {
        Ok(reminder) => {
            let mut line = String::from_str("Reminder successfully created, reminder=");
            let shown = reminder.describe();
            line.append(shown.as_str());
            let mut lines: Vec<String> = Vec::new();
            assert(lines.deep_view() =~= Seq::<Seq<char>>::empty());
            push_line(&mut lines, line);
            assert(lines.deep_view() =~= seq![line@]);
            step_of(lines, Next::Exit)
        },
        Err(error) => {
            let mut message = String::from_str("failed to add reminder, reason: ");
            let reason = error.describe();
            message.append(reason.as_str());
            fail_with(message)
        },
    }
}

/// One step of creating a reminder at the service at `base`, where
/// `timezone` is the local offset from UTC. The typed line is the
/// utterance, as it was read.
pub open spec fn create_step(
    base: Seq<char>,
    stage: CreateStage,
    event: EventView,
    timezone: Seq<char>,
) -> (CreateStage, StepView) {
    match (stage, event) {
        (CreateStage::Idle, EventView::Start) => (
            CreateStage::Asking,
            StepView { lines: seq!["Type reminder:"@], next: NextView::ReadLine },
        ),
        (CreateStage::Asking, EventView::Line(utterance)) => match create_request_of(
            base,
            utterance,
            timezone,
        ) {
            Some(request) => (CreateStage::Creating, sending(request)),
            None => (
                CreateStage::Done,
                creation_report(
                    Err(OyeClientErrorView::FailedToCreateReminder(unbuildable(base))),
                ),
            ),
        },
        (CreateStage::Creating, EventView::Exchange(exchange)) => (
            CreateStage::Done,
            creation_report(create_outcome(exchange)),
        ),
        _ => (CreateStage::Done, out_of_turn()),
    }
}

/// Creates a reminder: one step of the use case, for a given local offset
/// from UTC.
pub fn create_reminder_in_timezone(
    config: &Config,
    stage: CreateStage,
    event: Event,
    timezone: &str,
) -> (r: (CreateStage, Step))
    ensures
        (r.0, r.1@) == create_step(config.oye_api_url@, stage, event@, timezone@),
{
    let client = OyeClient::new(config);
    match (stage, event) {
        (CreateStage::Idle, Event::Start) => {
            let mut lines: Vec<String> = Vec::new();
            assert(lines.deep_view() =~= Seq::<Seq<char>>::empty());
            push_line(&mut lines, String::from_str("Type reminder:"));
            assert(lines.deep_view() =~= seq!["Type reminder:"@]);
            (CreateStage::Asking, step_of(lines, Next::ReadLine))
        },
        (CreateStage::Asking, Event::Line(utterance)) => match client.create_request(
            utterance.as_str(),
            timezone,
        ) {
            Some(request) => (CreateStage::Creating, send(request)),
            None => {
                let cause = unbuildable_request(client.base_url.as_str());
                (
                    CreateStage::Done,
                    report_creation(Err(OyeClientError::FailedToCreateReminder(cause))),
                )
            },
        },
        (CreateStage::Creating, Event::Exchange(exchange)) => (
            CreateStage::Done,
            report_creation(OyeClient::create_reminder(exchange)),
        ),
        _ => (CreateStage::Done, fail_out_of_turn()),
    }
}

/// Creates a reminder: one step of the use case, with the local offset from
/// UTC as the clock gives it now.
pub fn create_reminder(config: &Config, stage: CreateStage, event: Event) -> (r: (
    CreateStage,
    Step,
))
    ensures
        exists|timezone: Seq<char>|
            is_utc_offset(timezone) && (r.0, r.1@) == #[trigger] create_step(
                config.oye_api_url@,
                stage,
                event@,
                timezone,
            ),
{
    let timezone = get_local_timezone();
    create_reminder_in_timezone(config, stage, event, timezone.as_str())
}

/// How far the use case that deletes the selected reminders has come.
#[derive(Debug, PartialEq, Eq)]
pub enum DeleteStage {
    /// Not begun: waits for `Event::Start`.
    Idle,
    /// The list request is out: waits for `Event::Exchange`.
    Listing,
    /// The user was shown what is on offer and asked to select: waits for
    /// `Event::Line`.
    Selecting { available: Selection },
    /// The request to delete `current` is out, and `rest` is still to be
    /// deleted after it, in this order: waits for `Event::Exchange`.
    Deleting { current: ReminderId, rest: Vec<ReminderId> },
    /// Ended: waits for nothing.
    Done,
}

/// What a `DeleteStage` holds.
pub enum DeleteStageView {
    Idle,
    Listing,
    Selecting { available: Map<Seq<char>, Seq<char>> },
    Deleting { current: Seq<char>, rest: Seq<Seq<char>> },
    Done,
}

impl View for DeleteStage {
    type V = DeleteStageView;

    open spec fn view(&self) -> DeleteStageView {
        match self {
            DeleteStage::Idle => DeleteStageView::Idle,
            DeleteStage::Listing => DeleteStageView::Listing,
            DeleteStage::Selecting { available } => DeleteStageView::Selecting {
                available: available@,
            },
            DeleteStage::Deleting { current, rest } => DeleteStageView::Deleting {
                current: current@,
                rest: rest.deep_view(),
            },
            DeleteStage::Done => DeleteStageView::Done,
        }
    }
}

/// The line that asks for a selection.
pub open spec fn selection_prompt() -> Seq<char> {
    "Reminders to delete:"@
}

/// The lines that show what is on offer and ask for the first selection.
pub open spec fn selection_menu(reminders: Seq<ReminderView>) -> Seq<Seq<char>> {
    seq!["Available reminders:"@] + numbered_lines(reminders) + seq![
        "Input the remiders you want to delete. Separate them by spaces if you want to delete many."@,
        selection_prompt(),
    ]
}

/// The message for a deletion that failed.
pub open spec fn delete_failure_message(id: Seq<char>, error: OyeClientErrorView) -> Seq<char> {
    "failed to delete reminder "@ + id + ", reason: "@ + error.described()
}

/// The line that confirms a deletion, with the id and the description that
/// the service reports.
pub open spec fn deletion_line(deleted: ReminderView) -> Seq<char> {
    "Successfully deleted reminder "@ + deleted.id + ": "@ + deleted.description
}

/// The step after the listing arrived. A failed listing ends the use case
/// with a failure. No reminders ends it with a notice, and nothing is
/// deleted. Else the user is shown the reminders and asked to select.
pub open spec fn after_listing(outcome: Result<Seq<ReminderView>, OyeClientErrorView>) -> (
    DeleteStageView,
    StepView,
) {
    match outcome {
        Ok(reminders) => if reminders.len() == 0 {
            (
                DeleteStageView::Done,
                StepView { lines: seq!["There are no reminders to delete"@], next: NextView::Exit },
            )
        } else {
            (
                DeleteStageView::Selecting { available: selection_of(ids_of(reminders)) },
                StepView { lines: selection_menu(reminders), next: NextView::ReadLine },
            )
        },
        Err(error) => (
            DeleteStageView::Done,
            failure("failed to get reminders!: "@ + error.described()),
        ),
    }
}

/// The step that prints `lines` and goes on to delete `ids`, first to
/// last: it sends the request for the first, or exits where none is left.
pub open spec fn deleting(base: Seq<char>, lines: Seq<Seq<char>>, ids: Seq<Seq<char>>) -> (
    DeleteStageView,
    StepView,
) {
    if ids.len() == 0 {
        (DeleteStageView::Done, StepView { lines, next: NextView::Exit })
    } else {
        match delete_request_of(base, ids[0]) {
            Some(request) => (
                DeleteStageView::Deleting { current: ids[0], rest: ids.drop_first() },
                StepView { lines, next: NextView::Send(request) },
            ),
            None => (
                DeleteStageView::Done,
                StepView {
                    lines,
                    next: NextView::Fail(
                        delete_failure_message(
                            ids[0],
                            OyeClientErrorView::FailedToDeleteReminder(unbuildable(base)),
                        ),
                    ),
                },
            ),
        }
    }
}

/// The step after an answer was read. Nothing selected, or a token that is
/// not on offer, asks again and keeps what is on offer. A valid selection
/// goes on to delete what it selects.
pub open spec fn after_answer(
    base: Seq<char>,
    available: Map<Seq<char>, Seq<char>>,
    answer: AnswerView,
) -> (DeleteStageView, StepView) {
    match answer {
        AnswerView::Nothing => (
            DeleteStageView::Selecting { available },
            StepView {
                lines: seq![
                    "You've selected nothing, please input numbers separated by spaces"@,
                    selection_prompt(),
                ],
                next: NextView::ReadLine,
            },
        ),
        AnswerView::Invalid(token) => (
            DeleteStageView::Selecting { available },
            StepView {
                lines: seq![
                    token
                        + " is not a valid selection, please input numbers from the available list above"@,
                    selection_prompt(),
                ],
                next: NextView::ReadLine,
            },
        ),
        AnswerView::Selected(ids) => deleting(base, Seq::empty(), ids),
    }
}

/// The step after the answer to the request to delete `current` arrived. A
/// failure ends the use case at once: `rest` is not tried. A success is
/// confirmed, and the use case goes on with `rest`.
pub open spec fn after_deletion(
    base: Seq<char>,
    current: Seq<char>,
    rest: Seq<Seq<char>>,
    outcome: Result<ReminderView, OyeClientErrorView>,
) -> (DeleteStageView, StepView) {
    match outcome {
        Ok(deleted) => deleting(base, seq![deletion_line(deleted)], rest),
        Err(error) => (DeleteStageView::Done, failure(delete_failure_message(current, error))),
    }
}

/// One step of deleting selected reminders at the service at `base`.
pub open spec fn delete_step(base: Seq<char>, stage: DeleteStageView, event: EventView) -> (
    DeleteStageView,
    StepView,
) {
    match (stage, event) {
        (DeleteStageView::Idle, EventView::Start) => match list_request_of(base) {
            Some(request) => (DeleteStageView::Listing, sending(request)),
            None => after_listing(
                Err(OyeClientErrorView::FailedToGetReminders(unbuildable(base))),
            ),
        },
        (DeleteStageView::Listing, EventView::Exchange(exchange)) => after_listing(
            list_outcome(exchange),
        ),
        (DeleteStageView::Selecting { available }, EventView::Line(line)) => after_answer(
            base,
            available,
            selection_answer(available, line),
        ),
        (DeleteStageView::Deleting { current, rest }, EventView::Exchange(exchange)) =>
            after_deletion(base, current, rest, delete_outcome(exchange)),
        _ => (DeleteStageView::Done, out_of_turn()),
    }
}

fn delete_failure(id: &str, error: &OyeClientError) -> (r: String)
    ensures
        r@ == delete_failure_message(id@, error@),
{
    let mut message = String::from_str("failed to delete reminder ");
    message.append(id);
    message.append(", reason: ");
    let reason = error.describe();
    message.append(reason.as_str());
    message
}

/// Goes on to the listing, or to the failure to get one.
pub fn proceed_after_listing(outcome: Result<Vec<Reminder>, OyeClientError>) -> (r: (
    DeleteStage,
    Step,
))
    ensures
        (r.0@, r.1@) == after_listing(listing_view(outcome)),
{
    match outcome {
        Ok(reminders) => {
            let mut lines: Vec<String> = Vec::new();
            assert(lines.deep_view() =~= Seq::<Seq<char>>::empty());
            if reminders.len() == 0 {
                push_line(&mut lines, String::from_str("There are no reminders to delete"));
                assert(lines.deep_view() =~= seq!["There are no reminders to delete"@]);
                (DeleteStage::Done, step_of(lines, Next::Exit))
            } else {
                let available = Selection::new(&reminders);
                push_line(&mut lines, String::from_str("Available reminders:"));
                push_numbered_lines(&mut lines, &reminders);
                push_line(
                    &mut lines,
                    String::from_str(
                        "Input the remiders you want to delete. Separate them by spaces if you want to delete many.",
                    ),
                );
                push_line(&mut lines, String::from_str("Reminders to delete:"));
                assert(lines.deep_view() =~= selection_menu(reminders.deep_view()));
                (DeleteStage::Selecting { available }, step_of(lines, Next::ReadLine))
            }
        },
        Err(error) => {
            let mut message = String::from_str("failed to get reminders!: ");
            let reason = error.describe();
            message.append(reason.as_str());
            (DeleteStage::Done, fail_with(message))
        },
    }
}

/// Prints `lines` and goes on to delete `ids`, first to last.
pub fn proceed_deleting(client: &OyeClient, lines: Vec<String>, ids: Vec<ReminderId>) -> (r: (
    DeleteStage,
    Step,
))
    ensures
        (r.0@, r.1@) == deleting(client.base_url@, lines.deep_view(), ids.deep_view()),
{
    if ids.len() == 0 {
        return (DeleteStage::Done, step_of(lines, Next::Exit));
    }
    let mut rest = ids;
    let current = rest.remove(0);
    assert(current@ == ids.deep_view()[0]);
    assert(rest.deep_view() =~= ids.deep_view().drop_first());
    match client.delete_request(current.as_str()) {
        Some(request) => (
            DeleteStage::Deleting { current, rest },
            step_of(lines, Next::Send(request)),
        ),
        None => {
            let cause = unbuildable_request(client.base_url.as_str());
            let error = OyeClientError::FailedToDeleteReminder(cause);
            let message = delete_failure(current.as_str(), &error);
            (DeleteStage::Done, step_of(lines, Next::Fail(message)))
        },
    }
}

/// Goes on after an answer was read against what is on offer.
pub fn proceed_after_answer(client: &OyeClient, available: Selection, answer: Answer) -> (r: (
    DeleteStage,
    Step,
))
    ensures
        (r.0@, r.1@) == after_answer(client.base_url@, available@, answer@),
{
    let mut lines: Vec<String> = Vec::new();
    assert(lines.deep_view() =~= Seq::<Seq<char>>::empty());
    match answer {
        Answer::Nothing => {
            push_line(
                &mut lines,
                String::from_str("You've selected nothing, please input numbers separated by spaces"),
            );
            push_line(&mut lines, String::from_str("Reminders to delete:"));
            assert(lines.deep_view() =~= seq![
                "You've selected nothing, please input numbers separated by spaces"@,
                selection_prompt(),
            ]);
            (DeleteStage::Selecting { available }, step_of(lines, Next::ReadLine))
        },
        Answer::Invalid(token) => {
            let mut notice = token;
            notice.append(
                " is not a valid selection, please input numbers from the available list above",
            );
            push_line(&mut lines, notice);
            push_line(&mut lines, String::from_str("Reminders to delete:"));
            assert(lines.deep_view() =~= seq![notice@, selection_prompt()]);
            (DeleteStage::Selecting { available }, step_of(lines, Next::ReadLine))
        },
        Answer::Selected(ids) => proceed_deleting(client, lines, ids),
    }
}

/// Goes on after the answer to the request to delete `current` arrived.
pub fn proceed_after_deletion(
    client: &OyeClient,
    current: ReminderId,
    rest: Vec<ReminderId>,
    outcome: Result<Reminder, OyeClientError>,
) -> (r: (DeleteStage, Step))
    ensures
        (r.0@, r.1@) == after_deletion(
            client.base_url@,
            current@,
            rest.deep_view(),
            reminder_view(outcome),
        ),
{
    match outcome {
        Ok(deleted) => {
            let mut line = String::from_str("Successfully deleted reminder ");
            line.append(deleted.id.as_str());
            line.append(": ");
            line.append(deleted.description.as_str());
            let mut lines: Vec<String> = Vec::new();
            assert(lines.deep_view() =~= Seq::<Seq<char>>::empty());
            push_line(&mut lines, line);
            assert(lines.deep_view() =~= seq![deletion_line(deleted@)]);
            proceed_deleting(client, lines, rest)
        },
        Err(error) => (
            DeleteStage::Done,
            fail_with(delete_failure(current.as_str(), &error)),
        ),
    }
}

/// Deletes the reminders that the user selects: one step of the use case.
pub fn delete_reminder_interactive(config: &Config, stage: DeleteStage, event: Event) -> (r: (
    DeleteStage,
    Step,
))
    ensures
        (r.0@, r.1@) == delete_step(config.oye_api_url@, stage@, event@),
{
    let client = OyeClient::new(config);
    match (stage, event) {
        (DeleteStage::Idle, Event::Start) => match client.list_request() {
            Some(request) => (DeleteStage::Listing, send(request)),
            None => {
                let cause = unbuildable_request(client.base_url.as_str());
                proceed_after_listing(Err(OyeClientError::FailedToGetReminders(cause)))
            },
        },
        (DeleteStage::Listing, Event::Exchange(exchange)) => proceed_after_listing(
            OyeClient::get_reminders(exchange),
        ),
        (DeleteStage::Selecting { available }, Event::Line(line)) => {
            let answer = ask_user_to_select_reminders(&available, line.as_str());
            proceed_after_answer(&client, available, answer)
        },
        (DeleteStage::Deleting { current, rest }, Event::Exchange(exchange)) =>
            proceed_after_deletion(&client, current, rest, OyeClient::delete_reminder(exchange)),
        _ => (DeleteStage::Done, fail_out_of_turn()),
    }
}

/// An empty listing ends both the use case that lists and the one that
/// deletes: with a notice, without a failure, and with no request to send.
pub proof fn lemma_empty_listing_ends(base: Seq<char>, exchange: ExchangeView)
    requires
        list_outcome(exchange) == Ok::<Seq<ReminderView>, OyeClientErrorView>(Seq::empty()),
    ensures
        list_step(base, ListStage::Listing, EventView::Exchange(exchange)) == (
            ListStage::Done,
            StepView { lines: seq!["There are no reminders"@], next: NextView::Exit },
        ),
        delete_step(base, DeleteStageView::Listing, EventView::Exchange(exchange)) == (
            DeleteStageView::Done,
            StepView { lines: seq!["There are no reminders to delete"@], next: NextView::Exit },
        ),
{
}

/// A use case that has ended sends nothing more, whatever arrives.
pub proof fn lemma_done_sends_nothing(base: Seq<char>, event: EventView, timezone: Seq<char>)
    ensures
        !(list_step(base, ListStage::Done, event).1.next is Send),
        !(create_step(base, CreateStage::Done, event, timezone).1.next is Send),
        !(delete_step(base, DeleteStageView::Done, event).1.next is Send),
        list_step(base, ListStage::Done, event).0 == ListStage::Done,
        create_step(base, CreateStage::Done, event, timezone).0 == CreateStage::Done,
        delete_step(base, DeleteStageView::Done, event).0 == DeleteStageView::Done,
{
}

/// An answer without a token, or with a token that is not on offer, is no
/// failure: the user is asked again, what is on offer stays, and nothing
/// is sent.
pub proof fn lemma_unusable_answer_asks_again(
    base: Seq<char>,
    available: Map<Seq<char>, Seq<char>>,
    line: Seq<char>,
)
    requires
        typed_tokens(line).len() == 0 || first_invalid(available, typed_tokens(line)) is Some,
    ensures
        delete_step(base, DeleteStageView::Selecting { available }, EventView::Line(line)).0
            == (DeleteStageView::Selecting { available }),
        delete_step(base, DeleteStageView::Selecting { available }, EventView::Line(line)).1.next
            == NextView::ReadLine,
{
}

/// A deletion that fails ends the use case at once with that failure:
/// what was still to be deleted is not tried.
pub proof fn lemma_failed_deletion_ends(
    base: Seq<char>,
    current: Seq<char>,
    rest: Seq<Seq<char>>,
    exchange: ExchangeView,
    error: OyeClientErrorView,
)
    requires
        delete_outcome(exchange) == Err::<ReminderView, OyeClientErrorView>(error),
    ensures
        delete_step(
            base,
            DeleteStageView::Deleting { current, rest },
            EventView::Exchange(exchange),
        ) == (DeleteStageView::Done, failure(delete_failure_message(current, error))),
{
}

} // verus!
