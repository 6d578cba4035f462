//! Runs of several requests, sent one after another.
//!
//! Two runs exist. *Queueing* appends tracks to a device's queue, in order. *Playing*
//! first asks whether the device is playing, then queues the tracks, then either skips to
//! the next track (where something was playing) or starts playback (where nothing was).
//! Either run stops at the first request that fails, and undoes nothing.
//!
//! A [`Workflow`] never sends anything. It exists while one request is in flight; the
//! caller sends that request, reports with [`Workflow::step`] what became of it, and gets
//! back the next request, or the end of the run.

use crate::api::player::{
    currently_playing_request, enqueue_request, skip_request, start_playing_request,
    EnqueueTrack, GetCurrentlyPlayingTrack, SkipToNextTrack, StartPlaying,
};
use crate::config::SpotifyConfig;
use crate::failure::{Failure, FailureView};
use crate::http::{Reply, Request, RequestView};
use crate::json::{json_of_text, Json, JsonView};
use crate::objects::CurrentlyPlayingTrackResponse;
use crate::outcome::{plain_outcome, record_outcome, refusal, settle, settle_plain};
use std::rc::Rc;
use vstd::prelude::*;

verus! {

/// Which request of a run is in flight.
#[derive(Clone, Copy, Debug, PartialEq, Eq)]
pub enum Stage {
    /// The question whether the device is playing.
    Query,
    /// The request that queues the track at `index`.
    Enqueue { index: usize },
    /// The command that ends a playing run: skip, or start.
    Finish,
}

/// What came of sending a request.
#[derive(Debug, Clone, PartialEq, Eq)]
pub enum Arrival {
    /// A reply came back.
    Reply(Reply),
    /// No reply came back; the text says why.
    Lost(String),
}

/// Mathematical model of [`Arrival`], with the body of a reply as the parsed document
/// (`None` where the body is not JSON).
pub enum ArrivalView {
    Reply { status: u16, document: Option<JsonView> },
    Lost { detail: Seq<char> },
}

impl DeepView for Arrival {
    type V = ArrivalView;

    open spec fn deep_view(&self) -> ArrivalView {
        match self {
            Arrival::Reply(reply) => ArrivalView::Reply {
                status: reply.status,
                document: json_of_text(reply.body@),
            },
            Arrival::Lost(detail) => ArrivalView::Lost { detail: detail@ },
        }
    }
}

impl Arrival {
    /// The reply, or the failure to get one.
    pub fn reply(self) -> (result: Result<Reply, Failure>)
        ensures
            match (self, result) {
                (Arrival::Reply(reply), Ok(same)) => same == reply,
                (Arrival::Lost(detail), Err(failure)) => failure.deep_view() == (
                FailureView::Transport { detail: detail@ }),
                _ => false,
            },
    {
        match self {
            Arrival::Reply(reply) => Ok(reply),
            Arrival::Lost(detail) => Err(Failure::Transport { detail }),
        }
    }
}

/// A run with one request in flight.
#[derive(Debug)]
pub struct Workflow {
    config: Rc<SpotifyConfig>,
    device_id: String,
    uris: Vec<String>,
    plays: bool,
    active: bool,
    stage: Stage,
}

/// Mathematical model of [`Workflow`].
pub struct WorkflowView {
    pub token: Seq<char>,
    pub device: Seq<char>,
    /// The tracks to queue, in order.
    pub uris: Seq<Seq<char>>,
    /// Whether this is a playing run; otherwise it only queues.
    pub plays: bool,
    /// Whether playback was found active. Means nothing while the question is in flight.
    pub active: bool,
    pub stage: Stage,
}

/// Where a run stands.
#[derive(Debug)]
pub enum Progress {
    /// `Send(request, workflow)`: send the request, then report to the workflow.
    Send(Request, Workflow),
    /// The run is over and every request succeeded.
    Done,
    /// The run is over because a request failed. Nothing was sent after it.
    Failed(Failure),
}

/// Mathematical model of [`Progress`].
pub enum ProgressView {
    Send { request: RequestView, workflow: WorkflowView },
    Done,
    Failed { failure: FailureView },
}

impl WorkflowView {
    /// The request that is in flight.
    pub open spec fn in_flight(self) -> RequestView {
        match self.stage {
            Stage::Query => currently_playing_request(self.token),
            Stage::Enqueue { index } => enqueue_request(
                self.token,
                self.device,
                self.uris[index as int],
            ),
            Stage::Finish => if self.active {
                skip_request(self.token, self.device)
            } else {
                start_playing_request(self.token, self.device, Seq::empty())
            },
        }
    }

    /// The run with `stage` in flight.
    pub open spec fn at(self, stage: Stage) -> WorkflowView {
        WorkflowView { stage, ..self }
    }

    /// How the run goes on once the first `queued` tracks are in the queue.
    pub open spec fn proceed(self, queued: nat) -> ProgressView {
        if queued < self.uris.len() {
            let workflow = self.at(Stage::Enqueue { index: queued as usize });
            ProgressView::Send { request: workflow.in_flight(), workflow }
        } else if self.plays {
            let workflow = self.at(Stage::Finish);
            ProgressView::Send { request: workflow.in_flight(), workflow }
        } else {
            ProgressView::Done
        }
    }

    /// How the run goes on when `arrival` is what came of the request in flight.
    pub open spec fn step(self, arrival: ArrivalView) -> ProgressView {
        match arrival {
            ArrivalView::Lost { detail } => ProgressView::Failed {
                failure: FailureView::Transport { detail },
            },
            ArrivalView::Reply { status, document } => match self.stage {
                Stage::Query => match record_outcome::<CurrentlyPlayingTrackResponse>(
                    status,
                    document,
                ) {
                    Ok(state) => (WorkflowView { active: state.is_playing, ..self }).proceed(0),
                    Err(failure) => ProgressView::Failed { failure },
                },
                Stage::Enqueue { index } => match plain_outcome(status, document) {
                    Ok(_) => self.proceed((index + 1) as nat),
                    Err(failure) => ProgressView::Failed { failure },
                },
                Stage::Finish => match plain_outcome(status, document) {
                    Ok(_) => ProgressView::Done,
                    Err(failure) => ProgressView::Failed { failure },
                },
            },
        }
    }
}

/// The start of a playing run: the question whether the device is playing.
pub open spec fn play_start(
    token: Seq<char>,
    device: Seq<char>,
    uris: Seq<Seq<char>>,
) -> ProgressView {
    let workflow = WorkflowView {
        token,
        device,
        uris,
        plays: true,
        active: false,
        stage: Stage::Query,
    };
    ProgressView::Send { request: workflow.in_flight(), workflow }
}

/// The start of a queueing run: the first track, or the end where there is none.
pub open spec fn enqueue_start(
    token: Seq<char>,
    device: Seq<char>,
    uris: Seq<Seq<char>>,
) -> ProgressView {
    (WorkflowView {
        token,
        device,
        uris,
        plays: false,
        active: false,
        stage: Stage::Query,
    }).proceed(0)
}

impl DeepView for Workflow {
    type V = WorkflowView;

    closed spec fn deep_view(&self) -> WorkflowView {
        WorkflowView {
            token: self.config.access_token@,
            device: self.device_id@,
            uris: self.uris.deep_view(),
            plays: self.plays,
            active: self.active,
            stage: self.stage,
        }
    }
}

impl DeepView for Progress {
    type V = ProgressView;

    open spec fn deep_view(&self) -> ProgressView {
        match self {
            Progress::Send(request, workflow) => ProgressView::Send {
                request: request.deep_view(),
                workflow: workflow.deep_view(),
            },
            Progress::Done => ProgressView::Done,
            Progress::Failed(failure) => ProgressView::Failed { failure: failure.deep_view() },
        }
    }
}

impl Workflow {
    #[verifier::type_invariant]
    spec fn well_formed(self) -> bool {
        self.stage matches Stage::Enqueue { index } ==> index < self.uris.len()
    }

    /// Starts a playing run on the device `device_id` with the tracks `uris`.
    pub fn play(config: &Rc<SpotifyConfig>, device_id: &str, uris: Vec<String>) -> (progress:
        Progress)
        ensures
            progress.deep_view() == play_start(
                config.access_token@,
                device_id@,
                uris.deep_view(),
            ),
    {
        let workflow = Workflow {
            config: config.clone(),
            device_id: device_id.to_owned(),
            uris,
            plays: true,
            active: false,
            stage: Stage::Query,
        };
        let request = workflow.request();
        Progress::Send(request, workflow)
    }

    /// Starts a queueing run on the device `device_id` with the tracks `uris`.
    pub fn enqueue(config: &Rc<SpotifyConfig>, device_id: &str, uris: Vec<String>) -> (progress:
        Progress)
        ensures
            progress.deep_view() == enqueue_start(
                config.access_token@,
                device_id@,
                uris.deep_view(),
            ),
    {
        let workflow = Workflow {
            config: config.clone(),
            device_id: device_id.to_owned(),
            uris,
            plays: false,
            active: false,
            stage: Stage::Query,
        };
        workflow.proceed(0)
    }

    /// The request in flight.
    fn request(&self) -> (request: Request)
        ensures
            request.deep_view() == self.deep_view().in_flight(),
    {
        proof {
            use_type_invariant(self);
        }
        match self.stage {
            Stage::Query => GetCurrentlyPlayingTrack::new(&self.config).request(),
            Stage::Enqueue { index } => EnqueueTrack::new(
                &self.config,
                self.device_id.as_str(),
                self.uris[index].as_str(),
            ).request(),
            Stage::Finish => if self.active {
                SkipToNextTrack::new(&self.config, self.device_id.as_str()).request()
            } else {
                StartPlaying::new(&self.config, self.device_id.as_str()).request()
            },
        }
    }

    fn proceed(self, queued: usize) -> (progress: Progress)
        requires
            queued <= self.uris.len(),
        ensures
            progress.deep_view() == self.deep_view().proceed(queued as nat),
    {
        let mut workflow = self;
        if queued < workflow.uris.len() {
            workflow.stage = Stage::Enqueue { index: queued };
            let request = workflow.request();
            Progress::Send(request, workflow)
        } else if workflow.plays {
            workflow.stage = Stage::Finish;
            let request = workflow.request();
            Progress::Send(request, workflow)
        } else {
            Progress::Done
        }
    }

    /// Goes on with the run, given the status and the parsed body of the reply to the
    /// request in flight.
    pub fn advance(self, status: u16, document: &Option<Json>) -> (progress: Progress)
        ensures
            progress.deep_view() == self.deep_view().step(
                ArrivalView::Reply { status, document: document.deep_view() },
            ),
    {
        proof {
            use_type_invariant(&self);
        }
        match self.stage {
            Stage::Query => match settle::<CurrentlyPlayingTrackResponse>(status, document) {
                Ok(state) => {
                    let mut workflow = self;
                    workflow.active = state.is_playing;
                    workflow.proceed(0)
                },
                Err(failure) => Progress::Failed(failure),
            },
            Stage::Enqueue { index } => match settle_plain(status, document) {
                Ok(_) => self.proceed(index + 1),
                Err(failure) => Progress::Failed(failure),
            },
            Stage::Finish => match settle_plain(status, document) {
                Ok(_) => Progress::Done,
                Err(failure) => Progress::Failed(failure),
            },
        }
    }

    /// Goes on with the run, given what came of the request in flight.
    pub fn step(self, arrival: Arrival) -> (progress: Progress)
        ensures
            progress.deep_view() == self.deep_view().step(arrival.deep_view()),
    {
        match arrival {
            Arrival::Lost(detail) => Progress::Failed(Failure::Transport { detail }),
            Arrival::Reply(reply) => {
                let document = Json::parse(reply.body.as_str());
                self.advance(reply.status, &document)
            },
        }
    }
}

/// The requests that go out, in order, from `progress` on, when `arrivals` is what comes
/// of them one after another. The request that follows the last arrival goes out too.
pub open spec fn sent(progress: ProgressView, arrivals: Seq<ArrivalView>) -> Seq<RequestView>
    decreases arrivals.len(),
{
    match progress {
        ProgressView::Send { request, workflow } => if arrivals.len() == 0 {
            seq![request]
        } else {
            seq![request] + sent(workflow.step(arrivals[0]), arrivals.drop_first())
        },
        _ => Seq::empty(),
    }
}

/// Where a run stands after `arrivals`. Arrivals past the end of the run change nothing.
pub open spec fn after(progress: ProgressView, arrivals: Seq<ArrivalView>) -> ProgressView
    decreases arrivals.len(),
{
    match progress {
        ProgressView::Send { request, workflow } => if arrivals.len() == 0 {
            progress
        } else {
            after(workflow.step(arrivals[0]), arrivals.drop_first())
        },
        _ => progress,
    }
}

/// A reply that a queueing request or a closing command takes for a success: one with
/// a success status whose body holds no error envelope.
pub open spec fn accepted(arrival: ArrivalView) -> bool {
    arrival matches ArrivalView::Reply { status, document } && plain_outcome(
        status,
        document,
    ) is Ok
}

/// The requests that queue `uris` from the track at `from` on, in order.
pub open spec fn enqueue_requests(
    token: Seq<char>,
    device: Seq<char>,
    uris: Seq<Seq<char>>,
    from: nat,
) -> Seq<RequestView> {
    Seq::new(
        (uris.len() - from) as nat,
        |i: int| enqueue_request(token, device, uris[from + i]),
    )
}

/// The command that ends a playing run.
pub open spec fn closing_request(
    token: Seq<char>,
    device: Seq<char>,
    playing: bool,
) -> RequestView {
    if playing {
        skip_request(token, device)
    } else {
        start_playing_request(token, device, Seq::empty())
    }
}

/// The failure that an arrival stands for, where it is not taken for a success.
pub open spec fn failure_of(arrival: ArrivalView) -> FailureView {
    match arrival {
        ArrivalView::Lost { detail } => FailureView::Transport { detail },
        ArrivalView::Reply { status, document } => refusal(status, document),
    }
}

/// The requests that remain of a run once the first `queued` tracks are in the queue.
pub open spec fn remaining(workflow: WorkflowView, queued: nat) -> Seq<RequestView> {
    enqueue_requests(workflow.token, workflow.device, workflow.uris, queued) + if workflow.plays {
        seq![closing_request(workflow.token, workflow.device, workflow.active)]
    } else {
        Seq::empty()
    }
}

proof fn lemma_rest_of_run(workflow: WorkflowView, queued: nat, arrivals: Seq<ArrivalView>)
    requires
        workflow.uris.len() <= usize::MAX,
        queued <= workflow.uris.len(),
        arrivals.len() == remaining(workflow, queued).len(),
        forall|k: int| 0 <= k < arrivals.len() ==> accepted(#[trigger] arrivals[k]),
    ensures
        sent(workflow.proceed(queued), arrivals) == remaining(workflow, queued),
        after(workflow.proceed(queued), arrivals) == ProgressView::Done,
    decreases workflow.uris.len() - queued,
{
    if queued < workflow.uris.len() {
        // The track at `queued` goes out; the rest follows by induction.
        lemma_rest_of_run(workflow, queued + 1, arrivals.drop_first());
        assert(remaining(workflow, queued) =~= seq![
            workflow.at(Stage::Enqueue { index: queued as usize }).in_flight(),
        ] + remaining(workflow, queued + 1));
    } else if workflow.plays {
        // Only the closing command is left.
        assert(sent(ProgressView::Done, arrivals.drop_first()) =~= Seq::empty());
        assert(after(ProgressView::Done, arrivals.drop_first()) == ProgressView::Done);
        assert(remaining(workflow, queued) =~= seq![workflow.at(Stage::Finish).in_flight()]);
    } else {
        assert(remaining(workflow, queued) =~= Seq::empty());
    }
}

/// A playing run in which every request succeeds sends the question whether the device
/// is playing, then one queueing request for each track in order, then one closing
/// command, and nothing else: a skip where the device was playing, a start where it was
/// not.
pub proof fn play_run_sends_queue_then_closing(
    token: Seq<char>,
    device: Seq<char>,
    uris: Seq<Seq<char>>,
    first: ArrivalView,
    rest: Seq<ArrivalView>,
)
    requires
        uris.len() <= usize::MAX,
        first is Reply,
        record_outcome::<CurrentlyPlayingTrackResponse>(first->status, first->document) is Ok,
        rest.len() == uris.len() + 1,
        forall|k: int| 0 <= k < rest.len() ==> accepted(#[trigger] rest[k]),
    ensures
        ({
            let playing = record_outcome::<CurrentlyPlayingTrackResponse>(
                first->status,
                first->document,
            )->Ok_0.is_playing;
            let run = sent(play_start(token, device, uris), seq![first] + rest);
            &&& run == seq![currently_playing_request(token)] + enqueue_requests(
                token,
                device,
                uris,
                0,
            ) + seq![closing_request(token, device, playing)]
            &&& playing ==> !run.contains(start_playing_request(token, device, Seq::empty()))
            &&& !playing ==> !run.contains(skip_request(token, device))
        }),
        after(play_start(token, device, uris), seq![first] + rest) == ProgressView::Done,
{
    let state = record_outcome::<CurrentlyPlayingTrackResponse>(
        first->status,
        first->document,
    )->Ok_0;
    let known = WorkflowView {
        token,
        device,
        uris,
        plays: true,
        active: state.is_playing,
        stage: Stage::Query,
    };
    let arrivals = seq![first] + rest;
    assert(arrivals.drop_first() =~= rest);
    lemma_rest_of_run(known, 0, rest);
    let run = sent(play_start(token, device, uris), arrivals);
    assert(run =~= seq![currently_playing_request(token)] + remaining(known, 0));
    lemma_requests_differ(token, device);
    assert forall|k: int| 0 <= k < run.len() implies (state.is_playing ==> run[k]
        != start_playing_request(token, device, Seq::empty())) && (!state.is_playing ==> run[k]
        != skip_request(token, device)) by {
        if 0 < k <= uris.len() {
            assert(run[k] == enqueue_request(token, device, uris[k - 1]));
        }
    }
}

/// The commands of a run can be told apart by method and address.
proof fn lemma_requests_differ(token: Seq<char>, device: Seq<char>)
    ensures
        skip_request(token, device).url != start_playing_request(token, device, Seq::empty()).url,
        forall|uri: Seq<char>| #[trigger]
            enqueue_request(token, device, uri).url != skip_request(token, device).url,
        forall|uri: Seq<char>| #[trigger]
            enqueue_request(token, device, uri).method != start_playing_request(
                token,
                device,
                Seq::empty(),
            ).method,
        currently_playing_request(token).method != skip_request(token, device).method,
        currently_playing_request(token).method != start_playing_request(
            token,
            device,
            Seq::empty(),
        ).method,
{
    reveal_strlit("https://api.spotify.com/v1/me/player/next");
    reveal_strlit("https://api.spotify.com/v1/me/player/play");
    reveal_strlit("https://api.spotify.com/v1/me/player/queue");
    assert("https://api.spotify.com/v1/me/player/next"@[39] == 'x');
    assert("https://api.spotify.com/v1/me/player/play"@[39] == 'a');
    assert("https://api.spotify.com/v1/me/player/queue"@[39] == 'e');
}

/// A queueing run in which every request succeeds sends one queueing request for each
/// track, in order, and nothing else.
pub proof fn enqueue_run_sends_queue(
    token: Seq<char>,
    device: Seq<char>,
    uris: Seq<Seq<char>>,
    arrivals: Seq<ArrivalView>,
)
    requires
        uris.len() <= usize::MAX,
        arrivals.len() == uris.len(),
        forall|k: int| 0 <= k < arrivals.len() ==> accepted(#[trigger] arrivals[k]),
    ensures
        sent(enqueue_start(token, device, uris), arrivals) == enqueue_requests(
            token,
            device,
            uris,
            0,
        ),
        after(enqueue_start(token, device, uris), arrivals) == ProgressView::Done,
{
    let start = WorkflowView {
        token,
        device,
        uris,
        plays: false,
        active: false,
        stage: Stage::Query,
    };
    lemma_rest_of_run(start, 0, arrivals);
}

/// A run ends with the first queueing request or closing command that fails: a lost
/// request, a reply without a success status or a reply that holds an error envelope is
/// reported as the failure, and nothing is sent after it.
pub proof fn run_stops_at_first_failure(
    workflow: WorkflowView,
    arrival: ArrivalView,
    later: Seq<ArrivalView>,
)
    requires
        workflow.stage !is Query,
        !accepted(arrival),
    ensures
        workflow.step(arrival) == (ProgressView::Failed { failure: failure_of(arrival) }),
        sent(workflow.step(arrival), later) == Seq::<RequestView>::empty(),
        after(workflow.step(arrival), later) == workflow.step(arrival),
{
}

proof fn lemma_run_until_failure(
    workflow: WorkflowView,
    queued: nat,
    arrivals: Seq<ArrivalView>,
    failing: nat,
)
    requires
        workflow.uris.len() <= usize::MAX,
        queued <= workflow.uris.len(),
        failing < arrivals.len(),
        failing < remaining(workflow, queued).len(),
        forall|k: int| 0 <= k < failing ==> accepted(#[trigger] arrivals[k]),
        !accepted(arrivals[failing as int]),
    ensures
        sent(workflow.proceed(queued), arrivals) == remaining(workflow, queued).take(
            failing + 1int,
        ),
        after(workflow.proceed(queued), arrivals) == (ProgressView::Failed {
            failure: failure_of(arrivals[failing as int]),
        }),
    decreases failing,
{
    let current = if queued < workflow.uris.len() {
        workflow.at(Stage::Enqueue { index: queued as usize })
    } else {
        workflow.at(Stage::Finish)
    };
    assert(remaining(workflow, queued)[0] == current.in_flight());
    if failing == 0 {
        run_stops_at_first_failure(current, arrivals[0], arrivals.drop_first());
        assert(remaining(workflow, queued).take(1) =~= seq![current.in_flight()]);
    } else {
        // The request in flight succeeds, so it queued a track; the rest follows by
        // induction.
        lemma_run_until_failure(workflow, queued + 1, arrivals.drop_first(), (failing - 1) as nat);
        assert(remaining(workflow, queued) =~= seq![current.in_flight()] + remaining(
            workflow,
            queued + 1,
        ));
        assert(remaining(workflow, queued).take(failing + 1int) =~= seq![current.in_flight()]
            + remaining(workflow, queued + 1).take(failing as int));
    }
}

/// A playing run stops where a request after the question fails: the requests up to and
/// including the one that failed are those of a run without failure, nothing is sent
/// after it, and the run ends with that request's failure.
pub proof fn play_run_stops_where_a_request_fails(
    token: Seq<char>,
    device: Seq<char>,
    uris: Seq<Seq<char>>,
    first: ArrivalView,
    rest: Seq<ArrivalView>,
    failing: nat,
)
    requires
        uris.len() <= usize::MAX,
        first is Reply,
        record_outcome::<CurrentlyPlayingTrackResponse>(first->status, first->document) is Ok,
        failing < rest.len(),
        failing <= uris.len(),
        forall|k: int| 0 <= k < failing ==> accepted(#[trigger] rest[k]),
        !accepted(rest[failing as int]),
    ensures
        ({
            let playing = record_outcome::<CurrentlyPlayingTrackResponse>(
                first->status,
                first->document,
            )->Ok_0.is_playing;
            let plan = seq![currently_playing_request(token)] + enqueue_requests(
                token,
                device,
                uris,
                0,
            ) + seq![closing_request(token, device, playing)];
            sent(play_start(token, device, uris), seq![first] + rest) == plan.take(failing + 2int)
        }),
        after(play_start(token, device, uris), seq![first] + rest) == (ProgressView::Failed {
            failure: failure_of(rest[failing as int]),
        }),
{
    let state = record_outcome::<CurrentlyPlayingTrackResponse>(
        first->status,
        first->document,
    )->Ok_0;
    let known = WorkflowView {
        token,
        device,
        uris,
        plays: true,
        active: state.is_playing,
        stage: Stage::Query,
    };
    let arrivals = seq![first] + rest;
    assert(arrivals.drop_first() =~= rest);
    lemma_run_until_failure(known, 0, rest, failing);
    let plan = seq![currently_playing_request(token)] + remaining(known, 0);
    assert(plan.take(failing + 2int) =~= seq![currently_playing_request(token)] + remaining(
        known,
        0,
    ).take(failing + 1int));
}

/// A queueing run stops where a request fails: the tracks up to and including the one
/// whose request failed were sent, in order, none after it, and the run ends with that
/// request's failure.
pub proof fn enqueue_run_stops_where_a_request_fails(
    token: Seq<char>,
    device: Seq<char>,
    uris: Seq<Seq<char>>,
    arrivals: Seq<ArrivalView>,
    failing: nat,
)
    requires
        uris.len() <= usize::MAX,
        failing < arrivals.len(),
        failing < uris.len(),
        forall|k: int| 0 <= k < failing ==> accepted(#[trigger] arrivals[k]),
        !accepted(arrivals[failing as int]),
    ensures
        sent(enqueue_start(token, device, uris), arrivals) == enqueue_requests(
            token,
            device,
            uris,
            0,
        ).take(failing + 1int),
        after(enqueue_start(token, device, uris), arrivals) == (ProgressView::Failed {
            failure: failure_of(arrivals[failing as int]),
        }),
{
    let start = WorkflowView {
        token,
        device,
        uris,
        plays: false,
        active: false,
        stage: Stage::Query,
    };
    lemma_run_until_failure(start, 0, arrivals, failing);
}

/// A playing run whose question fails, because it was lost, refused or answered with
/// something else than the state of playback, sends nothing further: no track is queued
/// and no command is given.
pub proof fn play_run_stops_where_the_question_fails(
    token: Seq<char>,
    device: Seq<char>,
    uris: Seq<Seq<char>>,
    first: ArrivalView,
    rest: Seq<ArrivalView>,
)
    requires
        first matches ArrivalView::Reply { status, document } ==> record_outcome::<
            CurrentlyPlayingTrackResponse,
        >(status, document) is Err,
    ensures
        sent(play_start(token, device, uris), seq![first] + rest) == seq![
            currently_playing_request(token),
        ],
        after(play_start(token, device, uris), seq![first] + rest) == (ProgressView::Failed {
            failure: match first {
                ArrivalView::Lost { detail } => FailureView::Transport { detail },
                ArrivalView::Reply { status, document } => record_outcome::<
                    CurrentlyPlayingTrackResponse,
                >(status, document)->Err_0,
            },
        }),
{
    let arrivals = seq![first] + rest;
    assert(arrivals.drop_first() =~= rest);
    let start = play_start(token, device, uris);
    let next = start->workflow.step(first);
    assert(next is Failed);
    assert(sent(next, rest) =~= Seq::empty());
    assert(after(start, arrivals) == after(next, rest));
}

} // verus!
