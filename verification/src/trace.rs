//! Runs seen as a whole: the events that are reported to a run one after
//! another, the actions that the run asks for in answer, and what holds of
//! every run.

use vstd::prelude::*;
use crate::layout::PROJECT_DIRECTORY_NAME;
use crate::request::RequestView;
use crate::run::{
    initial, prepared_settings, request_settings, ActionView, EventView, Outcome, PhaseView,
    RunErrorView, RunView,
};
use crate::search_path::{
    lemma_file_as_header_directory_is_fatal, search_path_arguments, LibraryEntryView,
};

verus! {

/// The actions that a run asks for, one after each of `events`.
pub open spec fn actions(run: RunView, events: Seq<EventView>) -> Seq<ActionView>
    decreases events.len(),
{
    if events.len() == 0 {
        Seq::empty()
    } else {
        seq![run.step(events[0]).1] + actions(run.step(events[0]).0, events.drop_first())
    }
}

/// The run after `events`.
pub open spec fn after(run: RunView, events: Seq<EventView>) -> RunView
    decreases events.len(),
{
    if events.len() == 0 {
        run
    } else {
        after(run.step(events[0]).0, events.drop_first())
    }
}

/// What the disk shows while one request is carried out.
pub struct Report {
    /// What lies below the libraries root.
    pub entries: Seq<LibraryEntryView>,
    /// The absolute paths of the request's headers, in order.
    pub headers: Seq<Seq<char>>,
}

impl Report {
    /// Whether nothing stands in the way of `request`: the scan meets no
    /// fault and every header of the request has an absolute path.
    pub open spec fn serves(self, request: RequestView) -> bool {
        search_path_arguments(self.entries) is Ok && self.headers.len() == request.headers.len()
    }

    /// The arguments for the header search path that the scan gives.
    pub open spec fn search_arguments(self) -> Seq<Seq<char>> {
        search_path_arguments(self.entries)->Ok_0
    }
}

/// The events that report the absolute paths of headers.
pub open spec fn header_events(paths: Seq<Seq<char>>) -> Seq<EventView> {
    paths.map_values(|path: Seq<char>| EventView::Header(Some(path)))
}

/// The events of one request that succeeds: what the scan found, the
/// absolute path of each header, and that the file was written.
pub open spec fn request_events(report: Report) -> Seq<EventView> {
    seq![EventView::Libraries(Some(report.entries))] + header_events(report.headers)
        + seq![EventView::Output(Outcome::Written)]
}

/// The events of requests that succeed one after another.
pub open spec fn run_events(reports: Seq<Report>) -> Seq<EventView>
    decreases reports.len(),
{
    if reports.len() == 0 {
        Seq::empty()
    } else {
        request_events(reports[0]) + run_events(reports.drop_first())
    }
}

/// A run of `requests` that is about to take up the request at `index`, or
/// that has finished if there is no such request.
pub open spec fn at_request(requests: Seq<RequestView>, index: nat) -> RunView {
    initial(requests).begin(index).0
}

/// What a run asks for while the request at `index` succeeds: each header
/// of the request in turn, then the file, written from the settings of the
/// request, and then the next request or nothing more.
pub open spec fn request_actions(requests: Seq<RequestView>, index: nat, report: Report) -> Seq<
    ActionView,
> {
    let run = at_request(requests, index);
    Seq::new(
        run.request().headers.len(),
        |i: int| ActionView::ResolveHeader { path: run.header_at(i as nat) },
    ) + seq![
        ActionView::Emit {
            output: run.output(),
            prefix: run.request().prefix,
            settings: request_settings(run.request(), report.search_arguments(), report.headers),
        },
        run.begin(index + 1).1,
    ]
}

/// What a run asks for while the requests from `from` on succeed one after
/// another.
pub open spec fn run_actions(requests: Seq<RequestView>, reports: Seq<Report>, from: nat) -> Seq<
    ActionView,
>
    decreases reports.len(),
{
    if reports.len() == 0 {
        Seq::empty()
    } else {
        request_actions(requests, from, reports[0]) + run_actions(
            requests,
            reports.drop_first(),
            from + 1,
        )
    }
}

/// A run asks for one action after each event.
pub proof fn lemma_one_action_per_event(run: RunView, events: Seq<EventView>)
    ensures
        actions(run, events).len() == events.len(),
    decreases events.len(),
{
    if events.len() > 0 {
        lemma_one_action_per_event(run.step(events[0]).0, events.drop_first());
    }
}

/// A run that has ended asks for nothing more: whatever is reported to it,
/// it answers that it has finished, or that it has failed.
pub proof fn lemma_ended_run_asks_for_nothing(run: RunView, events: Seq<EventView>)
    requires
        run.phase is Done || run.phase is Failed,
    ensures
        actions(run, events).len() == events.len(),
        forall|i: int|
            0 <= i < events.len() ==> #[trigger] actions(run, events)[i] == if run.phase is Done {
                ActionView::Finish
            } else {
                ActionView::Abort(RunErrorView::OutOfTurn)
            },
    decreases events.len(),
{
    if events.len() > 0 {
        let rest = events.drop_first();
        lemma_ended_run_asks_for_nothing(run, rest);
        assert forall|i: int| 0 <= i < events.len() implies #[trigger] actions(run, events)[i]
            == if run.phase is Done {
            ActionView::Finish
        } else {
            ActionView::Abort(RunErrorView::OutOfTurn)
        } by {
            if i > 0 {
                assert(actions(run, events)[i] == actions(run, rest)[i - 1]);
            }
        }
    }
}

/// Started from anywhere but the project directory, a run fails at once and
/// asks for nothing but to be ended: it never has the libraries scanned, a
/// header resolved or a file written.
pub proof fn lemma_wrong_directory_only_aborts(requests: Seq<RequestView>, events: Seq<EventView>)
    requires
        events.len() > 0,
        events[0] != EventView::WorkingDirectory(Some(PROJECT_DIRECTORY_NAME@)),
    ensures
        actions(initial(requests), events).len() == events.len(),
        actions(initial(requests), events)[0] is Abort,
        events[0] is WorkingDirectory ==> actions(initial(requests), events)[0] == ActionView::Abort(
            RunErrorView::WrongDirectory,
        ),
        forall|i: int|
            0 <= i < events.len() ==> #[trigger] actions(initial(requests), events)[i] is Abort,
{
    let start = initial(requests);
    let rest = events.drop_first();
    let failed = start.step(events[0]).0;
    assert(failed.phase is Failed);
    lemma_ended_run_asks_for_nothing(failed, rest);
    assert forall|i: int| 0 <= i < events.len() implies #[trigger] actions(start, events)[i]
        is Abort by {
        if i > 0 {
            assert(actions(start, events)[i] == actions(failed, rest)[i - 1]);
        }
    }
}

/// Where the first scan finds, in a library directory, something that bears
/// the name of the header directory without being a directory, the run ends
/// before any file is written: it never asks for a header to be resolved or
/// for a file to be written, whatever is reported to it afterwards.
pub proof fn lemma_file_as_header_directory_prevents_output(
    requests: Seq<RequestView>,
    events: Seq<EventView>,
    entries: Seq<LibraryEntryView>,
    k: int,
)
    requires
        events.len() >= 2,
        events[1] == EventView::Libraries(Some(entries)),
        0 <= k < entries.len(),
        entries[k].exists,
        !entries[k].is_dir,
    ensures
        actions(initial(requests), events).len() == events.len(),
        forall|i: int|
            0 <= i < events.len() ==> !(#[trigger] actions(initial(requests), events)[i] is Emit)
                && !(actions(initial(requests), events)[i] is ResolveHeader),
        requests.len() > 0 ==> forall|i: int|
            1 <= i < events.len() ==> #[trigger] actions(initial(requests), events)[i] is Abort,
        requests.len() > 0 && events[0] == EventView::WorkingDirectory(
            Some(PROJECT_DIRECTORY_NAME@),
        ) ==> actions(initial(requests), events)[1] == ActionView::Abort(
            RunErrorView::Scan(search_path_arguments(entries)->Err_0),
        ),
{
    let start = initial(requests);
    let first = start.step(events[0]).0;
    let tail = events.drop_first();
    let second = first.step(tail[0]).0;
    let rest = tail.drop_first();
    lemma_file_as_header_directory_is_fatal(entries, k);
    assert(tail[0] == events[1]);
    assert(second.phase is Done || second.phase is Failed);
    lemma_ended_run_asks_for_nothing(second, rest);
    lemma_one_action_per_event(start, events);
    assert(actions(start, events)[1] == actions(first, tail)[0]);
    assert(actions(first, tail)[0] == first.step(tail[0]).1);
    assert forall|i: int| 0 <= i < events.len() implies !(#[trigger] actions(start, events)[i]
        is Emit) && !(actions(start, events)[i] is ResolveHeader) by {
        if i > 0 {
            assert(actions(start, events)[i] == actions(first, tail)[i - 1]);
            if i > 1 {
                assert(actions(first, tail)[i - 1] == actions(second, rest)[i - 2]);
            }
        }
    }
    if requests.len() > 0 {
        assert(second.phase is Failed);
        assert forall|i: int| 1 <= i < events.len() implies #[trigger] actions(start, events)[i]
            is Abort by {
            assert(actions(start, events)[i] == actions(first, tail)[i - 1]);
            if i > 1 {
                assert(actions(first, tail)[i - 1] == actions(second, rest)[i - 2]);
            }
        }
    }
}

/// One event is answered by one step.
pub proof fn lemma_single_event(run: RunView, event: EventView)
    ensures
        actions(run, seq![event]) == seq![run.step(event).1],
        after(run, seq![event]) == run.step(event).0,
{
    let events = seq![event];
    let rest = events.drop_first();
    assert(rest.len() == 0);
    assert(actions(run.step(event).0, rest) =~= Seq::empty());
    assert(after(run.step(event).0, rest) == run.step(event).0);
    assert(actions(run, events) =~= seq![run.step(event).1]);
}

/// Events that come one after another are taken in one after another.
pub proof fn lemma_events_in_sequence(run: RunView, first: Seq<EventView>, second: Seq<EventView>)
    ensures
        actions(run, first + second) == actions(run, first) + actions(after(run, first), second),
        after(run, first + second) == after(after(run, first), second),
    decreases first.len(),
{
    if first.len() == 0 {
        assert(first + second =~= second);
        assert(actions(run, first) + actions(run, second) =~= actions(run, second));
    } else {
        let all = first + second;
        let next = run.step(first[0]).0;
        assert(all[0] == first[0]);
        assert(all.drop_first() =~= first.drop_first() + second);
        lemma_events_in_sequence(next, first.drop_first(), second);
        assert(actions(run, all) =~= actions(run, first) + actions(after(run, first), second));
    }
}

proof fn lemma_headers_resolve(
    run: RunView,
    arguments: Seq<Seq<char>>,
    paths: Seq<Seq<char>>,
    resolved: nat,
)
    requires
        run.current < run.requests.len(),
        paths.len() == run.request().headers.len(),
        resolved <= paths.len(),
    ensures
        ({
            let started = run.proceed(prepared_settings(arguments, paths.take(resolved as int)), resolved);
            let events = header_events(paths.skip(resolved as int));
            &&& seq![started.1] + actions(started.0, events) == Seq::new(
                (paths.len() - resolved) as nat,
                |i: int| ActionView::ResolveHeader { path: run.header_at((resolved + i) as nat) },
            ) + seq![
                ActionView::Emit {
                    output: run.output(),
                    prefix: run.request().prefix,
                    settings: request_settings(run.request(), arguments, paths),
                },
            ]
            &&& after(started.0, events) == (RunView { phase: PhaseView::AwaitOutput, ..run })
        }),
    decreases paths.len() - resolved,
{
    let prepared = prepared_settings(arguments, paths.take(resolved as int));
    let started = run.proceed(prepared, resolved);
    let events = header_events(paths.skip(resolved as int));
    let emit = ActionView::Emit {
        output: run.output(),
        prefix: run.request().prefix,
        settings: request_settings(run.request(), arguments, paths),
    };
    let expected = Seq::new(
        (paths.len() - resolved) as nat,
        |i: int| ActionView::ResolveHeader { path: run.header_at((resolved + i) as nat) },
    ) + seq![emit];
    if resolved == paths.len() {
        assert(paths.take(resolved as int) =~= paths);
        assert(events =~= Seq::empty());
        assert(seq![started.1] + actions(started.0, events) =~= expected);
    } else {
        let state = started.0;
        let further = prepared_settings(arguments, paths.take(resolved as int + 1));
        assert(events[0] == EventView::Header(Some(paths[resolved as int])));
        assert(paths.take(resolved as int + 1) =~= paths.take(resolved as int).push(paths[resolved as int]));
        assert(state.step(events[0]) == state.proceed(further, resolved + 1));
        assert(events.drop_first() =~= header_events(paths.skip(resolved as int + 1)));
        lemma_headers_resolve(state, arguments, paths, resolved + 1);
        let rest = seq![state.proceed(further, resolved + 1).1] + actions(
            state.proceed(further, resolved + 1).0,
            events.drop_first(),
        );
        assert(actions(state, events) =~= rest);
        assert(state.request() == run.request());
        assert(forall|i: nat| state.header_at(i) == run.header_at(i));
        assert(seq![started.1] + actions(state, events) =~= expected);
    }
}

/// A request that nothing stands in the way of is carried out in full: the
/// run asks for each of its headers in order, then has its file written
/// from the settings of the request, with the search path that the scan
/// gave and the headers as they were resolved, and moves on.
pub proof fn lemma_request_succeeds(requests: Seq<RequestView>, index: nat, report: Report)
    requires
        index < requests.len(),
        report.serves(requests[index as int]),
    ensures
        actions(at_request(requests, index), request_events(report)) == request_actions(
            requests,
            index,
            report,
        ),
        after(at_request(requests, index), request_events(report)) == at_request(
            requests,
            index + 1,
        ),
{
    let run = at_request(requests, index);
    let scan = seq![EventView::Libraries(Some(report.entries))];
    let headers = header_events(report.headers);
    let written = seq![EventView::Output(Outcome::Written)];
    let arguments = report.search_arguments();
    let started = run.proceed(prepared_settings(arguments, Seq::empty()), 0);
    let waiting = RunView { phase: PhaseView::AwaitOutput, ..run };

    assert(report.headers.take(0) =~= Seq::empty());
    assert(report.headers.skip(0) =~= report.headers);
    lemma_headers_resolve(run, arguments, report.headers, 0);

    lemma_single_event(run, EventView::Libraries(Some(report.entries)));
    lemma_single_event(waiting, EventView::Output(Outcome::Written));

    lemma_events_in_sequence(run, scan, headers);
    lemma_events_in_sequence(run, scan + headers, written);
    assert(actions(run, request_events(report)) =~= request_actions(requests, index, report));
}

/// While nothing stands in the way, a run carries out its remaining
/// requests one after another, each in full, and finishes after the last.
pub proof fn lemma_remaining_requests_succeed(
    requests: Seq<RequestView>,
    reports: Seq<Report>,
    from: nat,
)
    requires
        from + reports.len() == requests.len(),
        forall|i: int| 0 <= i < reports.len() ==> (#[trigger] reports[i]).serves(requests[from + i]),
    ensures
        actions(at_request(requests, from), run_events(reports)) == run_actions(
            requests,
            reports,
            from,
        ),
        after(at_request(requests, from), run_events(reports)) == at_request(
            requests,
            requests.len(),
        ),
    decreases reports.len(),
{
    if reports.len() > 0 {
        let rest = reports.drop_first();
        assert(reports[0].serves(requests[from as int]));
        lemma_request_succeeds(requests, from, reports[0]);
        assert forall|i: int| 0 <= i < rest.len() implies (#[trigger] rest[i]).serves(
            requests[from + 1 + i],
        ) by {
            assert(rest[i] == reports[i + 1]);
        }
        lemma_remaining_requests_succeed(requests, rest, from + 1);
        lemma_events_in_sequence(
            at_request(requests, from),
            request_events(reports[0]),
            run_events(rest),
        );
    }
}

/// Started from the project directory, with nothing in the way of any
/// request, a run carries out every request, in order, and then finishes:
/// one file per request, and nothing asked for besides.
pub proof fn lemma_run_succeeds(requests: Seq<RequestView>, reports: Seq<Report>)
    requires
        reports.len() == requests.len(),
        forall|i: int| 0 <= i < reports.len() ==> (#[trigger] reports[i]).serves(requests[i]),
    ensures
        actions(
            initial(requests),
            seq![EventView::WorkingDirectory(Some(PROJECT_DIRECTORY_NAME@))] + run_events(reports),
        ) == seq![initial(requests).begin(0).1] + run_actions(requests, reports, 0),
        after(
            initial(requests),
            seq![EventView::WorkingDirectory(Some(PROJECT_DIRECTORY_NAME@))] + run_events(reports),
        ).phase is Done,
{
    let start = initial(requests);
    let arrival = seq![EventView::WorkingDirectory(Some(PROJECT_DIRECTORY_NAME@))];
    lemma_single_event(start, EventView::WorkingDirectory(Some(PROJECT_DIRECTORY_NAME@)));
    lemma_remaining_requests_succeed(requests, reports, 0);
    lemma_events_in_sequence(start, arrival, run_events(reports));
}

} // verus!
