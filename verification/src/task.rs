//! Calendar events and the tasks made from them.

use crate::directives::{
    has_directive_markers, has_two_markers, parse_event_options, parse_event_options_spec,
};
use crate::options::{lookup, Directives, Entry};
use crate::error::{
    BatchError, BatchErrorView, DirectiveError, DirectiveErrorView, EventError, EventErrorView,
    TimeErrorView,
};
use crate::json::{options_json, options_json_spec};
use crate::schedule::{
    epoch_u32, epoch_u32_spec, event_start_spec, last_modified_spec, parse_event_time,
    parse_last_modified, zone_known,
};
use vstd::prelude::*;

verus! {

/// The kind of every task that this connector makes.
pub const TASK_KIND: &'static str = "notify";

/// The directive that names the project of a task.
pub const PROJECT_KEY: &'static str = "project";

/// An event of the calendar feed.
#[derive(Clone, Debug)]
pub struct CalendarEvent {
    pub id: String,
    pub subject: String,
    /// The display name of the location.
    pub location: String,
    /// The local date and time at which the event starts.
    pub start_date_time: String,
    /// The name of the zone of the start.
    pub start_timezone: String,
    /// When the event was last changed, as an RFC 3339 timestamp.
    pub last_modified: String,
    /// The body as it came, markup included.
    pub body_content: String,
    pub body_content_type: String,
}

/// A `CalendarEvent` as a mathematical value.
pub struct CalendarEventView {
    pub id: Seq<char>,
    pub subject: Seq<char>,
    pub location: Seq<char>,
    pub start_date_time: Seq<char>,
    pub start_timezone: Seq<char>,
    pub last_modified: Seq<char>,
    pub body_content: Seq<char>,
    pub body_content_type: Seq<char>,
}

impl View for CalendarEvent {
    type V = CalendarEventView;

    open spec fn view(&self) -> CalendarEventView {
        CalendarEventView {
            id: self.id@,
            subject: self.subject@,
            location: self.location@,
            start_date_time: self.start_date_time@,
            start_timezone: self.start_timezone@,
            last_modified: self.last_modified@,
            body_content: self.body_content@,
            body_content_type: self.body_content_type@,
        }
    }
}

/// A task for the host to run.
#[derive(Debug)]
pub struct Task {
    pub name: String,
    pub kind: String,
    pub project_code: String,
    pub external_id: String,
    /// When the event was last changed, in seconds, truncated to 32 bits.
    pub external_modified_at: u32,
    /// When the event starts, in seconds, truncated to 32 bits.
    pub start_at: u32,
    /// All directives of the event as a JSON object.
    pub options: String,
}

/// A `Task` as a mathematical value.
pub struct TaskView {
    pub name: Seq<char>,
    pub kind: Seq<char>,
    pub project_code: Seq<char>,
    pub external_id: Seq<char>,
    pub external_modified_at: u32,
    pub start_at: u32,
    pub options: Seq<char>,
}

impl View for Task {
    type V = TaskView;

    open spec fn view(&self) -> TaskView {
        TaskView {
            name: self.name@,
            kind: self.kind@,
            project_code: self.project_code@,
            external_id: self.external_id@,
            external_modified_at: self.external_modified_at,
            start_at: self.start_at,
            options: self.options@,
        }
    }
}

/// The task for an event whose directives and times are known: it takes its
/// project from the directive `project` and carries all directives as JSON.
pub open spec fn materialize_spec(
    event: CalendarEventView,
    entries: Seq<Entry>,
    start: i64,
    modified: i64,
) -> Result<TaskView, EventErrorView> {
    match lookup(entries, PROJECT_KEY@) {
        None => Err(EventErrorView::Directive(DirectiveErrorView::MissingProjectCode)),
        Some(project) => match options_json_spec(entries) {
            None => Err(EventErrorView::OptionsNotSerializable),
            Some(options) => Ok(
                TaskView {
                    name: event.subject,
                    kind: TASK_KIND@,
                    project_code: project,
                    external_id: event.id,
                    external_modified_at: epoch_u32_spec(modified),
                    start_at: epoch_u32_spec(start),
                    options,
                },
            ),
        },
    }
}

/// The task for an event: its directives are read first, then its start,
/// then the time of its last change; the first failure is the result.
pub open spec fn event_task_spec(event: CalendarEventView) -> Result<TaskView, EventErrorView> {
    match parse_event_options_spec(event.body_content) {
        Err(e) => Err(EventErrorView::Directive(e)),
        Ok(entries) => match event_start_spec(event.start_date_time, event.start_timezone) {
            Err(e) => Err(EventErrorView::Time(e)),
            Ok(start) => match last_modified_spec(event.last_modified) {
                Err(e) => Err(EventErrorView::Time(e)),
                Ok(modified) => materialize_spec(event, entries, start, modified),
            },
        },
    }
}

/// Makes the task for an event from its directives and its resolved times.
pub fn materialize_task(
    event: &CalendarEvent,
    directives: &Directives,
    start: i64,
    modified: i64,
) -> (r: Result<Task, EventError>)
    ensures
        match r {
            Ok(task) => materialize_spec(event@, directives.entries(), start, modified) == Ok::<
                TaskView,
                EventErrorView,
            >(task@),
            Err(e) => materialize_spec(event@, directives.entries(), start, modified) == Err::<
                TaskView,
                EventErrorView,
            >(e@),
        },
{
    let project_code = match directives.get(PROJECT_KEY) {
        Some(code) => code.clone(),
        None => {
            return Err(EventError::Directive(DirectiveError::MissingProjectCode));
        },
    };
    let options = match options_json(directives) {
        Some(text) => text,
        None => {
            return Err(EventError::OptionsNotSerializable);
        },
    };
    Ok(
        Task {
            name: event.subject.clone(),
            kind: TASK_KIND.to_owned(),
            project_code,
            external_id: event.id.clone(),
            external_modified_at: epoch_u32(modified),
            start_at: epoch_u32(start),
            options,
        },
    )
}

/// Turns one event into a task.
pub fn process_single_event(event: &CalendarEvent) -> (r: Result<Task, EventError>)
    ensures
        match r {
            Ok(task) => event_task_spec(event@) == Ok::<TaskView, EventErrorView>(task@),
            Err(e) => event_task_spec(event@) == Err::<TaskView, EventErrorView>(e@),
        },
{
    let directives = match parse_event_options(event.body_content.as_str()) {
        Ok(d) => d,
        Err(e) => {
            return Err(EventError::Directive(e));
        },
    };
    let start = match parse_event_time(
        event.start_date_time.as_str(),
        event.start_timezone.as_str(),
    ) {
        Ok(t) => t,
        Err(e) => {
            return Err(EventError::Time(e));
        },
    };
    let modified = match parse_last_modified(event.last_modified.as_str()) {
        Ok(t) => t,
        Err(e) => {
            return Err(EventError::Time(e));
        },
    };
    materialize_task(event, &directives, start, modified)
}

/// The events as mathematical values.
pub open spec fn events_view(events: Seq<CalendarEvent>) -> Seq<CalendarEventView> {
    events.map_values(|e: CalendarEvent| e@)
}

/// The tasks as mathematical values.
pub open spec fn tasks_view(tasks: Seq<Task>) -> Seq<TaskView> {
    tasks.map_values(|t: Task| t@)
}

/// Whether an event carries directives: its body, as it came, holds the
/// sentinel marker at least twice.
pub open spec fn carries_directives(event: CalendarEventView) -> bool {
    has_two_markers(event.body_content)
}

/// The tasks of a feed: one for each event that carries directives, in the
/// order of the feed. The first such event that fails ends the batch with its
/// subject and its failure, and no task is given.
pub open spec fn batch_spec(events: Seq<CalendarEventView>) -> Result<
    Seq<TaskView>,
    BatchErrorView,
>
    decreases events.len(),
{
    if events.len() == 0 {
        Ok(Seq::empty())
    } else {
        match batch_spec(events.drop_last()) {
            Err(e) => Err(e),
            Ok(tasks) => {
                let event = events.last();
                if !carries_directives(event) {
                    Ok(tasks)
                } else {
                    match event_task_spec(event) {
                        Ok(task) => Ok(tasks.push(task)),
                        Err(cause) => Err(BatchErrorView { subject: event.subject, cause }),
                    }
                }
            },
        }
    }
}

/// A batch that has failed on its first events fails in the same way on all.
pub proof fn lemma_batch_failure_stays(events: Seq<CalendarEventView>, n: int)
    requires
        0 <= n <= events.len(),
        batch_spec(events.take(n)) is Err,
    ensures
        batch_spec(events) == batch_spec(events.take(n)),
    decreases events.len() - n,
{
    if n < events.len() {
        assert(events.take(n + 1).drop_last() =~= events.take(n));
        lemma_batch_failure_stays(events, n + 1);
    } else {
        assert(events.take(n) =~= events);
    }
}

/// Turns the events of a feed into tasks, in the order of the feed. Events
/// without two sentinel markers are passed over. The first event that fails
/// ends the batch.
pub fn process_events(events: &Vec<CalendarEvent>) -> (r: Result<Vec<Task>, BatchError>)
    ensures
        match r {
            Ok(tasks) => batch_spec(events_view(events@)) == Ok::<Seq<TaskView>, BatchErrorView>(
                tasks_view(tasks@),
            ),
            Err(e) => batch_spec(events_view(events@)) == Err::<Seq<TaskView>, BatchErrorView>(e@),
        },
{
    let ghost all = events_view(events@);
    let mut tasks: Vec<Task> = Vec::new();
    let mut i: usize = 0;
    proof {
        assert(tasks_view(tasks@) =~= Seq::<TaskView>::empty());
    }
    while i < events.len()
        invariant
            i <= events@.len(),
            all == events_view(events@),
            batch_spec(all.take(i as int)) == Ok::<Seq<TaskView>, BatchErrorView>(
                tasks_view(tasks@),
            ),
        decreases events.len() - i,
    {
        let event = &events[i];
        proof {
            assert(all.take(i + 1).drop_last() =~= all.take(i as int));
        }
        if has_directive_markers(event.body_content.as_str()) {
            match process_single_event(event) {
                Ok(task) => {
                    let ghost before = tasks_view(tasks@);
                    tasks.push(task);
                    assert(tasks_view(tasks@) =~= before.push(task@));
                },
                Err(cause) => {
                    proof {
                        lemma_batch_failure_stays(all, i + 1);
                    }
                    return Err(BatchError { subject: event.subject.clone(), cause });
                },
            }
        }
        i += 1;
    }
    proof {
        assert(all.take(i as int) =~= all);
    }
    Ok(tasks)
}

/// Every task of a batch is of the kind `notify`.
pub proof fn law_tasks_are_notifications(events: Seq<CalendarEventView>)
    ensures
        batch_spec(events) matches Ok(tasks) ==> forall|i: int|
            0 <= i < tasks.len() ==> (#[trigger] tasks[i]).kind == TASK_KIND@,
    decreases events.len(),
{
    if events.len() > 0 {
        law_tasks_are_notifications(events.drop_last());
    }
}

/// Events that do not carry directives change nothing: a feed yields what
/// the events that carry directives yield alone.
pub proof fn law_unmarked_events_are_passed_over(events: Seq<CalendarEventView>)
    ensures
        batch_spec(events) == batch_spec(
            events.filter(|e: CalendarEventView| carries_directives(e)),
        ),
    decreases events.len(),
{
    reveal(Seq::filter);
    let marked = |e: CalendarEventView| carries_directives(e);
    if events.len() > 0 {
        let before = events.drop_last();
        law_unmarked_events_are_passed_over(before);
        if carries_directives(events.last()) {
            let kept = before.filter(marked).push(events.last());
            assert(kept.drop_last() =~= before.filter(marked));
        }
    }
}

/// An event that carries directives never yields more than one task, and an
/// event that carries none yields none: a batch has at most as many tasks as
/// events that carry directives.
pub proof fn law_at_most_one_task_per_marked_event(events: Seq<CalendarEventView>)
    ensures
        batch_spec(events) matches Ok(tasks) ==> tasks.len() <= events.filter(
            |e: CalendarEventView| carries_directives(e),
        ).len(),
    decreases events.len(),
{
    reveal(Seq::filter);
    if events.len() > 0 {
        law_at_most_one_task_per_marked_event(events.drop_last());
    }
}

/// An event that carries readable directives and names an unknown zone ends
/// the batch with `UnknownZone`, whatever events come after it, provided
/// that the events before it yield their tasks.
pub proof fn law_unknown_zone_aborts_batch(events: Seq<CalendarEventView>, i: int)
    requires
        0 <= i < events.len(),
        batch_spec(events.take(i)) is Ok,
        carries_directives(events[i]),
        parse_event_options_spec(events[i].body_content) is Ok,
        !zone_known(events[i].start_timezone),
    ensures
        batch_spec(events) == Err::<Seq<TaskView>, BatchErrorView>(
            BatchErrorView {
                subject: events[i].subject,
                cause: EventErrorView::Time(TimeErrorView::UnknownZone(events[i].start_timezone)),
            },
        ),
{
    assert(events.take(i + 1).drop_last() =~= events.take(i));
    lemma_batch_failure_stays(events, i + 1);
}

/// A feed in two parts yields what its parts yield, in their order: where the
/// first part fails, that is the failure of the whole; else the tasks of the
/// first part come before those of the second, or the second part's failure
/// is that of the whole.
pub proof fn law_batch_of_joined_feeds(first: Seq<CalendarEventView>, second: Seq<CalendarEventView>)
    ensures
        batch_spec(first + second) == match batch_spec(first) {
            Err(e) => Err::<Seq<TaskView>, BatchErrorView>(e),
            Ok(before) => match batch_spec(second) {
                Err(e) => Err(e),
                Ok(after) => Ok(before + after),
            },
        },
    decreases second.len(),
{
    if second.len() == 0 {
        assert(first + second =~= first);
        if let Ok(before) = batch_spec(first) {
            assert(before + Seq::<TaskView>::empty() =~= before);
        }
    } else {
        law_batch_of_joined_feeds(first, second.drop_last());
        assert((first + second).drop_last() =~= first + second.drop_last());
        if let (Ok(before), Ok(after)) = (batch_spec(first), batch_spec(second.drop_last())) {
            if let Ok(task) = event_task_spec(second.last()) {
                assert((before + after).push(task) =~= before + after.push(task));
            }
        }
    }
}

} // verus!
