//! The course of a run, as a state machine.
//!
//! A run alternates between work that only the outside world can do and
//! decisions on its outcome. The decisions are made here: [`start`] names the
//! first request, and [`step`] takes the state of the run and the outcome of
//! the last request to the next request, to the action that ends the run, or
//! to the error that stops it. The caller performs the requests.

use crate::command::{
    download_command, extract_tar, extract_tar_command, extract_zip, install_deb,
    install_deb_command, query_command, release_download, release_query, ToolCommand,
    ToolCommandView,
};
use crate::error::InstallError;
use crate::model::{asset_names, release_tags, Release, ReleaseView};
use crate::resolve::{
    first_match, labels, lemma_asset_labels, lemma_first_match, lemma_release_labels, position,
    resolved_asset, resolved_release,
};
use crate::strategy::{classify, removes_download, strategy_of, Strategy};
use vstd::prelude::*;
use vstd::string::*;

verus! {

/// Work that the caller does for the run.
#[derive(Clone, Debug, PartialEq, Eq)]
pub enum Request {
    /// Run the command and read the list of releases that it prints.
    Query(ToolCommand),
    /// Offer the labels to the user and wait for the choice.
    Prompt(Vec<String>),
    /// Run the command, which writes the asset into the working directory.
    Download(ToolCommand),
    /// Run the command, which installs the downloaded package `file`.
    InstallPackage { file: String, command: ToolCommand },
    /// Run the command, which unpacks the downloaded archive `file`.
    ExtractArchive { file: String, command: ToolCommand },
}

/// The action that ends a run.
#[derive(Clone, Debug, PartialEq, Eq)]
pub enum Completion {
    /// Delete the downloaded file.
    RemoveFile { file: String },
    /// Move the downloaded file to the user's personal executable directory.
    MoveToBin { file: String },
    /// Tell the user that the file is not handled, and leave it where it is.
    LeaveInPlace { file: String },
}

/// Where a run stands while a request is being performed.
#[derive(Clone, Debug, PartialEq, Eq)]
pub enum State {
    /// The releases of `repo` are being listed.
    Querying { repo: String },
    /// The user is choosing among `releases`.
    ChoosingRelease { repo: String, releases: Vec<Release> },
    /// The user is choosing among the assets of `release`.
    ChoosingAsset { repo: String, release: Release },
    /// The asset named `file` is being downloaded.
    Downloading { file: String },
    /// The downloaded `file` is being installed or unpacked.
    Installing { file: String },
}

/// The outcome of a request.
#[derive(Clone, Debug, PartialEq, Eq)]
pub enum Event {
    /// The hosting service listed these releases.
    Releases(Vec<Release>),
    /// The hosting service could not be queried, or its reply was malformed.
    RequestFailed,
    /// The user chose this label.
    Chosen(String),
    /// The user left the prompt without choosing.
    Aborted,
    /// The asset is in the working directory.
    Downloaded,
    /// The asset could not be retrieved.
    DownloadFailed,
    /// The tool has run. `success` tells whether it reported success; what
    /// follows does not depend on it.
    ToolExited { success: bool },
}

/// What follows an event.
#[derive(Clone, Debug, PartialEq, Eq)]
pub enum Step {
    /// Perform the request and come back with its outcome.
    Continue(State, Request),
    /// Perform the action; the run is then complete.
    Finish(Completion),
    /// Stop: the run has failed.
    Fail(InstallError),
}

/// What a [`Request`] stands for in contracts.
pub enum RequestView {
    Query(ToolCommandView),
    Prompt(Seq<Seq<char>>),
    Download(ToolCommandView),
    InstallPackage { file: Seq<char>, command: ToolCommandView },
    ExtractArchive { file: Seq<char>, command: ToolCommandView },
}

/// What a [`Completion`] stands for in contracts.
pub enum CompletionView {
    RemoveFile { file: Seq<char> },
    MoveToBin { file: Seq<char> },
    LeaveInPlace { file: Seq<char> },
}

/// What a [`State`] stands for in contracts.
pub enum StateView {
    Querying { repo: Seq<char> },
    ChoosingRelease { repo: Seq<char>, releases: Seq<ReleaseView> },
    ChoosingAsset { repo: Seq<char>, release: ReleaseView },
    Downloading { file: Seq<char> },
    Installing { file: Seq<char> },
}

/// What an [`Event`] stands for in contracts.
pub enum EventView {
    Releases(Seq<ReleaseView>),
    RequestFailed,
    Chosen(Seq<char>),
    Aborted,
    Downloaded,
    DownloadFailed,
    ToolExited { success: bool },
}

/// What a [`Step`] stands for in contracts.
pub enum StepView {
    Continue(StateView, RequestView),
    Finish(CompletionView),
    Fail(InstallError),
}

impl View for Request {
    type V = RequestView;

    open spec fn view(&self) -> RequestView {
        match self {
            Request::Query(command) => RequestView::Query(command@),
            Request::Prompt(labels) => RequestView::Prompt(labels.deep_view()),
            Request::Download(command) => RequestView::Download(command@),
            Request::InstallPackage { file, command } => RequestView::InstallPackage {
                file: file@,
                command: command@,
            },
            Request::ExtractArchive { file, command } => RequestView::ExtractArchive {
                file: file@,
                command: command@,
            },
        }
    }
}

impl View for Completion {
    type V = CompletionView;

    open spec fn view(&self) -> CompletionView {
        match self {
            Completion::RemoveFile { file } => CompletionView::RemoveFile { file: file@ },
            Completion::MoveToBin { file } => CompletionView::MoveToBin { file: file@ },
            Completion::LeaveInPlace { file } => CompletionView::LeaveInPlace { file: file@ },
        }
    }
}

impl View for State {
    type V = StateView;

    open spec fn view(&self) -> StateView {
        match self {
            State::Querying { repo } => StateView::Querying { repo: repo@ },
            State::ChoosingRelease { repo, releases } => StateView::ChoosingRelease {
                repo: repo@,
                releases: releases.deep_view(),
            },
            State::ChoosingAsset { repo, release } => StateView::ChoosingAsset {
                repo: repo@,
                release: release@,
            },
            State::Downloading { file } => StateView::Downloading { file: file@ },
            State::Installing { file } => StateView::Installing { file: file@ },
        }
    }
}

impl View for Event {
    type V = EventView;

    open spec fn view(&self) -> EventView {
        match self {
            Event::Releases(releases) => EventView::Releases(releases.deep_view()),
            Event::RequestFailed => EventView::RequestFailed,
            Event::Chosen(label) => EventView::Chosen(label@),
            Event::Aborted => EventView::Aborted,
            Event::Downloaded => EventView::Downloaded,
            Event::DownloadFailed => EventView::DownloadFailed,
            Event::ToolExited { success } => EventView::ToolExited { success: *success },
        }
    }
}

impl View for Step {
    type V = StepView;

    open spec fn view(&self) -> StepView {
        match self {
            Step::Continue(state, request) => StepView::Continue(state@, request@),
            Step::Finish(completion) => StepView::Finish(completion@),
            Step::Fail(error) => StepView::Fail(*error),
        }
    }
}

impl DeepView for Step {
    type V = StepView;

    open spec fn deep_view(&self) -> StepView {
        self@
    }
}

/// The first step of a run for `repo`: list its releases.
pub open spec fn first_step(repo: Seq<char>) -> StepView {
    StepView::Continue(StateView::Querying { repo }, RequestView::Query(query_command(repo)))
}

/// What follows the list of releases: the user chooses among their tags. An
/// empty list leaves nothing to choose, so no prompt is made and the run
/// fails.
pub open spec fn after_releases(repo: Seq<char>, releases: Seq<ReleaseView>) -> StepView {
    if releases.len() == 0 {
        StepView::Fail(InstallError::NotFound)
    } else {
        StepView::Continue(
            StateView::ChoosingRelease { repo, releases },
            RequestView::Prompt(release_tags(releases)),
        )
    }
}

/// What follows the choice of a release: the user chooses among the names of
/// its assets. The run fails where no release has the tag, and where the
/// release has no asset to choose.
pub open spec fn after_release_choice(
    repo: Seq<char>,
    releases: Seq<ReleaseView>,
    tag: Seq<char>,
) -> StepView {
    match resolved_release(releases, tag) {
        None => StepView::Fail(InstallError::NotFound),
        Some(release) => if release.assets.len() == 0 {
            StepView::Fail(InstallError::NotFound)
        } else {
            StepView::Continue(
                StateView::ChoosingAsset { repo, release },
                RequestView::Prompt(asset_names(release.assets)),
            )
        },
    }
}

/// What follows the choice of an asset: it is downloaded from the chosen
/// release. The run fails where the release has no asset of that name.
pub open spec fn after_asset_choice(
    repo: Seq<char>,
    release: ReleaseView,
    name: Seq<char>,
) -> StepView {
    match resolved_asset(release, name) {
        None => StepView::Fail(InstallError::NotFound),
        Some(asset) => StepView::Continue(
            StateView::Downloading { file: asset.name },
            RequestView::Download(download_command(repo, release.tag_name, asset.name)),
        ),
    }
}

/// What follows the download: the strategy that the file's name calls for.
pub open spec fn after_download(file: Seq<char>) -> StepView {
    match strategy_of(file) {
        Strategy::PackageInstall => StepView::Continue(
            StateView::Installing { file },
            RequestView::InstallPackage { file, command: install_deb_command(file) },
        ),
        Strategy::ArchiveExtraction => StepView::Continue(
            StateView::Installing { file },
            RequestView::ExtractArchive { file, command: extract_tar_command(file) },
        ),
        Strategy::ZipExtraction => StepView::Fail(InstallError::UnimplementedStrategy),
        Strategy::Unhandled => StepView::Finish(CompletionView::LeaveInPlace { file }),
        Strategy::RawBinary => StepView::Finish(CompletionView::MoveToBin { file }),
    }
}

/// What follows the tool: the downloaded file is deleted and the run is
/// complete. The status of the tool plays no part: a tool that failed is
/// followed as one that succeeded.
pub open spec fn after_tool(file: Seq<char>, success: bool) -> StepView {
    StepView::Finish(CompletionView::RemoveFile { file })
}

/// Whether `event` is an outcome of `request`.
pub open spec fn answers(request: RequestView, event: EventView) -> bool {
    match request {
        RequestView::Query(_) => event is Releases || event is RequestFailed,
        RequestView::Prompt(_) => event is Chosen || event is Aborted,
        RequestView::Download(_) => event is Downloaded || event is DownloadFailed,
        RequestView::InstallPackage { .. } | RequestView::ExtractArchive { .. } => event
            is ToolExited,
    }
}

/// What follows `event` in `state`; `None` where the event is not an outcome
/// of the request that the state waits for.
pub open spec fn step_spec(state: StateView, event: EventView) -> Option<StepView> {
    match (state, event) {
        (StateView::Querying { repo }, EventView::Releases(releases)) => Some(
            after_releases(repo, releases),
        ),
        (StateView::Querying { .. }, EventView::RequestFailed) => Some(
            StepView::Fail(InstallError::RequestFailure),
        ),
        (StateView::ChoosingRelease { repo, releases }, EventView::Chosen(tag)) => Some(
            after_release_choice(repo, releases, tag),
        ),
        (StateView::ChoosingRelease { .. }, EventView::Aborted) => Some(
            StepView::Fail(InstallError::SelectionAborted),
        ),
        (StateView::ChoosingAsset { repo, release }, EventView::Chosen(name)) => Some(
            after_asset_choice(repo, release, name),
        ),
        (StateView::ChoosingAsset { .. }, EventView::Aborted) => Some(
            StepView::Fail(InstallError::SelectionAborted),
        ),
        (StateView::Downloading { file }, EventView::Downloaded) => Some(after_download(file)),
        (StateView::Downloading { .. }, EventView::DownloadFailed) => Some(
            StepView::Fail(InstallError::DownloadFailure),
        ),
        (StateView::Installing { file }, EventView::ToolExited { success }) => Some(
            after_tool(file, success),
        ),
        _ => None,
    }
}

/// The first step of a run for `repo`.
pub fn start(repo: String) -> (step: Step)
    ensures
        step@ == first_step(repo@),
{
    let command = release_query(repo.as_str());
    Step::Continue(State::Querying { repo }, Request::Query(command))
}

/// The step that follows the list of releases.
pub fn on_releases(repo: String, releases: Vec<Release>) -> (step: Step)
    ensures
        step@ == after_releases(repo@, releases.deep_view()),
{
    if releases.len() == 0 {
        Step::Fail(InstallError::NotFound)
    } else {
        let tags = labels(&releases);
        proof {
            lemma_release_labels(releases);
        }
        Step::Continue(State::ChoosingRelease { repo, releases }, Request::Prompt(tags))
    }
}

/// The step that follows the choice of a release.
pub fn on_release_choice(repo: String, releases: Vec<Release>, tag: &str) -> (step: Step)
    ensures
        step@ == after_release_choice(repo@, releases.deep_view(), tag@),
{
    let mut releases = releases;
    proof {
        lemma_release_labels(releases);
        lemma_first_match(release_tags(releases.deep_view()), tag@);
    }
    match position(&releases, tag) {
        None => Step::Fail(InstallError::NotFound),
        Some(i) => {
            let release = releases.swap_remove(i);
            if release.assets.len() == 0 {
                Step::Fail(InstallError::NotFound)
            } else {
                let names = labels(&release.assets);
                proof {
                    lemma_asset_labels(release.assets);
                }
                Step::Continue(State::ChoosingAsset { repo, release }, Request::Prompt(names))
            }
        },
    }
}

/// The step that follows the choice of an asset.
pub fn on_asset_choice(repo: String, release: Release, name: &str) -> (step: Step)
    ensures
        step@ == after_asset_choice(repo@, release@, name@),
{
    proof {
        lemma_asset_labels(release.assets);
        lemma_first_match(asset_names(release@.assets), name@);
    }
    match position(&release.assets, name) {
        None => Step::Fail(InstallError::NotFound),
        Some(i) => {
            let file = release.assets[i].name.clone();
            let command = release_download(
                repo.as_str(),
                release.tag_name.as_str(),
                file.as_str(),
            );
            Step::Continue(State::Downloading { file }, Request::Download(command))
        },
    }
}

/// The step that follows the download of `file`.
pub fn on_download(file: String) -> (step: Step)
    ensures
        step@ == after_download(file@),
{
    match classify(file.as_str()) {
        Strategy::PackageInstall => {
            let command = install_deb(file.as_str());
            Step::Continue(
                State::Installing { file: file.clone() },
                Request::InstallPackage { file, command },
            )
        },
        Strategy::ArchiveExtraction => {
            let command = extract_tar(file.as_str());
            Step::Continue(
                State::Installing { file: file.clone() },
                Request::ExtractArchive { file, command },
            )
        },
        Strategy::ZipExtraction => match extract_zip(file.as_str()) {
            Ok(command) => Step::Continue(
                State::Installing { file: file.clone() },
                Request::ExtractArchive { file, command },
            ),
            Err(error) => Step::Fail(error),
        },
        Strategy::Unhandled => Step::Finish(Completion::LeaveInPlace { file }),
        Strategy::RawBinary => Step::Finish(Completion::MoveToBin { file }),
    }
}

/// The step that follows the install or extraction tool.
pub fn on_tool_exit(file: String, success: bool) -> (step: Step)
    ensures
        step@ == after_tool(file@, success),
{
    Step::Finish(Completion::RemoveFile { file })
}

/// The step that follows `event` in `state`; `None` where the event is not an
/// outcome of the request that the state waits for.
pub fn step(state: State, event: Event) -> (next: Option<Step>)
    ensures
        next.deep_view() == step_spec(state@, event@),
{
    match state {
        State::Querying { repo } => match event {
            Event::Releases(releases) => Some(on_releases(repo, releases)),
            Event::RequestFailed => Some(Step::Fail(InstallError::RequestFailure)),
            _ => None,
        },
        State::ChoosingRelease { repo, releases } => match event {
            Event::Chosen(tag) => Some(on_release_choice(repo, releases, tag.as_str())),
            Event::Aborted => Some(Step::Fail(InstallError::SelectionAborted)),
            _ => None,
        },
        State::ChoosingAsset { repo, release } => match event {
            Event::Chosen(name) => Some(on_asset_choice(repo, release, name.as_str())),
            Event::Aborted => Some(Step::Fail(InstallError::SelectionAborted)),
            _ => None,
        },
        State::Downloading { file } => match event {
            Event::Downloaded => Some(on_download(file)),
            Event::DownloadFailed => Some(Step::Fail(InstallError::DownloadFailure)),
            _ => None,
        },
        State::Installing { file } => match event {
            Event::ToolExited { success } => Some(on_tool_exit(file, success)),
            _ => None,
        },
    }
}

/// The file that a run installs and the strategy it installs it by, given
/// what the service lists and what the user chooses.
pub open spec fn planned_install(
    releases: Seq<ReleaseView>,
    tag: Seq<char>,
    name: Seq<char>,
) -> Result<(Seq<char>, Strategy), InstallError> {
    match resolved_release(releases, tag) {
        None => Err(InstallError::NotFound),
        Some(release) => match resolved_asset(release, name) {
            None => Err(InstallError::NotFound),
            Some(asset) => Ok((asset.name, strategy_of(asset.name))),
        },
    }
}

/// A repository without releases leads to no prompt: the run fails at once.
pub proof fn lemma_no_release_no_prompt(repo: Seq<char>, releases: Seq<ReleaseView>)
    requires
        releases.len() == 0,
    ensures
        step_spec(StateView::Querying { repo }, EventView::Releases(releases)) == Some(
            StepView::Fail(InstallError::NotFound),
        ),
{
}

/// No step asks for a prompt without labels.
pub proof fn lemma_prompt_has_labels(state: StateView, event: EventView)
    ensures
        step_spec(state, event) matches Some(StepView::Continue(_, RequestView::Prompt(offered)))
            ==> offered.len() > 0,
{
}

/// The assets offered after the choice of a release are those of a release of
/// the list that carries the chosen tag.
pub proof fn lemma_assets_offered_from_chosen_release(
    repo: Seq<char>,
    releases: Seq<ReleaseView>,
    tag: Seq<char>,
)
    ensures
        after_release_choice(repo, releases, tag) matches StepView::Continue(
            StateView::ChoosingAsset { repo: kept, release },
            RequestView::Prompt(offered),
        ) ==> {
            &&& kept == repo
            &&& releases.contains(release)
            &&& release.tag_name == tag
            &&& offered == asset_names(release.assets)
        },
{
    lemma_first_match(release_tags(releases), tag);
}

/// The asset that is downloaded belongs to the chosen release and carries the
/// chosen name; it is asked of that release, under that name.
pub proof fn lemma_download_from_chosen_release(
    repo: Seq<char>,
    release: ReleaseView,
    name: Seq<char>,
)
    ensures
        after_asset_choice(repo, release, name) matches StepView::Continue(
            StateView::Downloading { file },
            RequestView::Download(command),
        ) ==> {
            &&& file == name
            &&& exists|i: int| 0 <= i < release.assets.len() && release.assets[i].name == file
            &&& command == download_command(repo, release.tag_name, file)
        },
{
    lemma_first_match(asset_names(release.assets), name);
    if let Some(i) = first_match(asset_names(release.assets), name) {
        assert(release.assets[i].name == name);
    }
}

/// A run installs what [`planned_install`] names: after the two choices it
/// downloads the planned file from the chosen release, and after the download
/// it does what the planned strategy calls for; where nothing can be planned,
/// one of the two choices fails the run with the planned error.
pub proof fn lemma_run_installs_as_planned(
    repo: Seq<char>,
    releases: Seq<ReleaseView>,
    tag: Seq<char>,
    name: Seq<char>,
)
    ensures
        match planned_install(releases, tag, name) {
            Ok((file, strategy)) => {
                &&& resolved_release(releases, tag) matches Some(release)
                &&& after_asset_choice(repo, release, name) == StepView::Continue(
                    StateView::Downloading { file },
                    RequestView::Download(download_command(repo, tag, file)),
                )
                &&& release.assets.len() > 0
                &&& after_release_choice(repo, releases, tag) == StepView::Continue(
                    StateView::ChoosingAsset { repo, release },
                    RequestView::Prompt(asset_names(release.assets)),
                )
                &&& strategy == strategy_of(file)
            },
            Err(error) => {
                ||| after_release_choice(repo, releases, tag) == StepView::Fail(error)
                ||| resolved_release(releases, tag) matches Some(release) && after_asset_choice(
                    repo,
                    release,
                    name,
                ) == StepView::Fail(error)
            },
        },
{
    lemma_first_match(release_tags(releases), tag);
    if let Some(release) = resolved_release(releases, tag) {
        lemma_first_match(asset_names(release.assets), name);
    }
}

/// Idempotence: a run that sees the same releases and receives the same
/// choices as another installs the same file by the same strategy.
pub proof fn lemma_same_choices_same_install(
    first_releases: Seq<ReleaseView>,
    first_tag: Seq<char>,
    first_name: Seq<char>,
    second_releases: Seq<ReleaseView>,
    second_tag: Seq<char>,
    second_name: Seq<char>,
)
    requires
        first_releases == second_releases,
        first_tag == second_tag,
        first_name == second_name,
    ensures
        planned_install(first_releases, first_tag, first_name) == planned_install(
            second_releases,
            second_tag,
            second_name,
        ),
{
}

/// Two calls of [`step`] on equal states and equal events give equal steps.
pub proof fn lemma_step_repeats(
    first_state: State,
    first_event: Event,
    first: Option<Step>,
    second_state: State,
    second_event: Event,
    second: Option<Step>,
)
    requires
        first_state@ == second_state@,
        first_event@ == second_event@,
        first.deep_view() == step_spec(first_state@, first_event@),
        second.deep_view() == step_spec(second_state@, second_event@),
    ensures
        first.deep_view() == second.deep_view(),
{
}

/// Cleanup after a handled file: where the name of a downloaded file calls
/// for the package installer or for the archive tool, the tool is run on the
/// file, and whatever the tool reports, the run then ends by deleting the
/// file.
pub proof fn lemma_handled_file_is_removed(file: Seq<char>, success: bool)
    requires
        strategy_of(file) == Strategy::PackageInstall || strategy_of(file)
            == Strategy::ArchiveExtraction,
    ensures
        after_download(file) matches StepView::Continue(state, request) && {
            &&& request matches RequestView::InstallPackage { file: handled, .. } ==> handled
                == file
            &&& request matches RequestView::ExtractArchive { file: handled, .. } ==> handled
                == file
            &&& request is InstallPackage || request is ExtractArchive
            &&& step_spec(state, EventView::ToolExited { success }) == Some(
                StepView::Finish(CompletionView::RemoveFile { file }),
            )
        },
{
}

/// A tool that fails is followed exactly as a tool that succeeds.
pub proof fn lemma_tool_status_is_not_looked_at(state: StateView)
    ensures
        step_spec(state, EventView::ToolExited { success: false }) == step_spec(
            state,
            EventView::ToolExited { success: true },
        ),
{
}

/// No step fails a run with [`InstallError::ExternalToolFailure`].
pub proof fn lemma_tool_failure_is_never_reported(state: StateView, event: EventView)
    ensures
        step_spec(state, event) != Some(StepView::Fail(InstallError::ExternalToolFailure)),
{
    if let (StateView::ChoosingRelease { releases, .. }, EventView::Chosen(tag)) = (state, event) {
        lemma_first_match(release_tags(releases), tag);
    }
}

/// The first request of a run is one that every outcome of it can follow.
pub proof fn lemma_first_step_is_answered(repo: Seq<char>, event: EventView)
    ensures
        first_step(repo) matches StepView::Continue(state, request) && (answers(request, event)
            <==> step_spec(state, event) is Some),
{
}

/// A run never gets stuck: where a step continues with a state and a request,
/// the events that [`step_spec`] takes in that state are exactly the outcomes
/// of that request.
pub proof fn lemma_step_is_answered(state: StateView, event: EventView, answer: EventView)
    ensures
        step_spec(state, event) matches Some(StepView::Continue(next, request)) ==> (answers(
            request,
            answer,
        ) <==> step_spec(next, answer) is Some),
{
}

/// After the download, a run turns to a tool or fails for want of one exactly
/// where the strategy is one that deletes the file; otherwise it ends at once
/// and the file is kept.
pub proof fn lemma_unhandled_file_is_kept(file: Seq<char>)
    ensures
        !removes_download(strategy_of(file)) <==> after_download(file) is Finish,
        after_download(file) matches StepView::Finish(completion) ==> completion
            == (CompletionView::LeaveInPlace { file }) || completion
            == (CompletionView::MoveToBin { file }),
{
}

} // verus!
