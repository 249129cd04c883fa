//! One upgrade check as a state machine. The caller performs each action
//! (fetch the sha256 file, read or write the state file, download, replace
//! the binary, exit) and hands back what came of it as an event; every
//! decision is taken here.
use vstd::prelude::*;
use crate::digest::sha256_hex;
use crate::text::{
    is_space, lemma_skip_space_to, lemma_trim_end_to, opt_view, skip_space, trim_end_at,
};
use crate::upgrade::{
    MAX_TARBALL_BYTES,
    check_declared_length, decide, declared_length_ok, extract_binary, extracted_binary,
    is_sha_hex, parse_remote_sha, recorded_sha, remote_sha_from, sha_url, sha_url_for,
    state_from_contents, tarball_ok, tarball_url, tarball_url_for, upgrade_decision,
    UpgradeDecision, UpgradeError, UpgradeFault, verify_tarball,
};

verus! {

/// Where a check stands.
#[derive(Debug, PartialEq, Eq, Structural, Clone, Copy)]
pub enum Phase {
    FetchingSha,
    ReadingState,
    RecordingBaseline,
    AwaitingHead,
    AwaitingBody,
    Swapping,
    RecordingUpgrade,
    Finished,
}

/// What came of the last action.
#[derive(Debug, PartialEq, Eq)]
pub enum UpgradeEvent {
    /// The body of the sha256 file.
    ShaBody(String),
    /// The contents of the state file, `None` where it could not be read.
    StateFile(Option<String>),
    /// The tarball response arrived, with the length it declares, if any.
    ResponseHead(Option<u64>),
    /// The tarball's body.
    TarballBody(Vec<u8>),
    /// The new binary replaced the running one.
    Swapped,
    /// The state file was written.
    StateWritten,
    /// The action failed with this message.
    Failed(String),
}

/// What the caller does next.
#[derive(Debug, PartialEq, Eq)]
pub enum UpgradeAction {
    /// Fetch the sha256 file at this URL.
    FetchSha(String),
    /// Read the state file.
    ReadState,
    /// Write this sha256 to the state file.
    WriteState(String),
    /// Request the tarball at this URL.
    Download(String),
    /// Read the body of the tarball response.
    ReadBody,
    /// Replace the running binary with these bytes.
    Swap(Vec<u8>),
    /// Exit, so that the service manager starts the new binary.
    Exit,
    /// The check is over, with this outcome.
    Done(Result<(), UpgradeError>),
}

pub ghost enum EventView {
    ShaBody(Seq<char>),
    StateFile(Option<Seq<char>>),
    ResponseHead(Option<u64>),
    TarballBody(Seq<u8>),
    Swapped,
    StateWritten,
    Failed(Seq<char>),
}

pub ghost enum ActionView {
    FetchSha(Seq<char>),
    ReadState,
    WriteState(Seq<char>),
    Download(Seq<char>),
    ReadBody,
    Swap(Seq<u8>),
    Exit,
    Done(Result<(), UpgradeFault>),
}

impl View for UpgradeEvent {
    type V = EventView;

    open spec fn view(&self) -> EventView {
        match self {
            UpgradeEvent::ShaBody(b) => EventView::ShaBody(b@),
            UpgradeEvent::StateFile(c) => EventView::StateFile(opt_view(c)),
            UpgradeEvent::ResponseHead(n) => EventView::ResponseHead(*n),
            UpgradeEvent::TarballBody(b) => EventView::TarballBody(b@),
            UpgradeEvent::Swapped => EventView::Swapped,
            UpgradeEvent::StateWritten => EventView::StateWritten,
            UpgradeEvent::Failed(m) => EventView::Failed(m@),
        }
    }
}

impl View for UpgradeAction {
    type V = ActionView;

    open spec fn view(&self) -> ActionView {
        match self {
            UpgradeAction::FetchSha(u) => ActionView::FetchSha(u@),
            UpgradeAction::ReadState => ActionView::ReadState,
            UpgradeAction::WriteState(s) => ActionView::WriteState(s@),
            UpgradeAction::Download(u) => ActionView::Download(u@),
            UpgradeAction::ReadBody => ActionView::ReadBody,
            UpgradeAction::Swap(b) => ActionView::Swap(b@),
            UpgradeAction::Exit => ActionView::Exit,
            UpgradeAction::Done(r) => ActionView::Done(
                match r {
                    Ok(()) => Ok(()),
                    Err(e) => Err(e@),
                },
            ),
        }
    }
}

/// A check by plain values: the asset it is for, where it stands, and the
/// published sha256 once it is known.
pub ghost struct CycleView {
    pub target: Seq<char>,
    pub phase: Phase,
    pub remote: Seq<char>,
}

/// One upgrade check.
pub struct UpgradeCycle {
    target: String,
    phase: Phase,
    remote: String,
}

impl View for UpgradeCycle {
    type V = CycleView;

    closed spec fn view(&self) -> CycleView {
        CycleView { target: self.target@, phase: self.phase, remote: self.remote@ }
    }
}

/// Which events a check waits for in each phase: the result of the action
/// it asked for, or that action's failure.
pub open spec fn accepts(phase: Phase, e: EventView) -> bool {
    match e {
        EventView::Failed(_) => phase != Phase::Finished,
        EventView::ShaBody(_) => phase == Phase::FetchingSha,
        EventView::StateFile(_) => phase == Phase::ReadingState,
        EventView::ResponseHead(_) => phase == Phase::AwaitingHead,
        EventView::TarballBody(_) => phase == Phase::AwaitingBody,
        EventView::Swapped => phase == Phase::Swapping,
        EventView::StateWritten => phase == Phase::RecordingBaseline || phase
            == Phase::RecordingUpgrade,
    }
}

/// A check that is over.
pub open spec fn finish(c: CycleView, outcome: Result<(), UpgradeFault>) -> (CycleView, ActionView) {
    (CycleView { phase: Phase::Finished, ..c }, ActionView::Done(outcome))
}

/// A check moved on to `phase`, asking for `a`.
pub open spec fn go(c: CycleView, phase: Phase, a: ActionView) -> (CycleView, ActionView) {
    (CycleView { phase, ..c }, a)
}

/// The check as it starts: it fetches the published sha256 first.
pub open spec fn cycle_start(target: Seq<char>) -> (CycleView, ActionView) {
    (
        CycleView { target, phase: Phase::FetchingSha, remote: Seq::empty() },
        ActionView::FetchSha(sha_url_for(target)),
    )
}

/// The next state of a check and what it asks for, given what came of its
/// last action.
pub open spec fn cycle_step(c: CycleView, e: EventView) -> (CycleView, ActionView) {
    match e {
        EventView::Failed(m) => finish(c, Err(UpgradeFault::Io(m))),
        EventView::ShaBody(body) => match remote_sha_from(body) {
            Err(err) => finish(c, Err(err)),
            Ok(h) => (
                CycleView { phase: Phase::ReadingState, remote: h, ..c },
                ActionView::ReadState,
            ),
        },
        EventView::StateFile(contents) => match decide(c.remote, recorded_sha(contents)) {
            UpgradeDecision::RecordBaseline => go(
                c,
                Phase::RecordingBaseline,
                ActionView::WriteState(c.remote),
            ),
            UpgradeDecision::UpToDate => finish(c, Ok(())),
            UpgradeDecision::Upgrade => go(
                c,
                Phase::AwaitingHead,
                ActionView::Download(tarball_url_for(c.target)),
            ),
        },
        EventView::ResponseHead(len) => match declared_length_ok(len) {
            Err(err) => finish(c, Err(err)),
            Ok(()) => go(c, Phase::AwaitingBody, ActionView::ReadBody),
        },
        EventView::TarballBody(bytes) => match tarball_ok(bytes, c.remote) {
            Err(err) => finish(c, Err(err)),
            Ok(()) => match extracted_binary(bytes, c.target) {
                Err(err) => finish(c, Err(err)),
                Ok(bin) => go(c, Phase::Swapping, ActionView::Swap(bin)),
            },
        },
        EventView::Swapped => go(c, Phase::RecordingUpgrade, ActionView::WriteState(c.remote)),
        EventView::StateWritten => if c.phase == Phase::RecordingBaseline {
            finish(c, Ok(()))
        } else {
            (CycleView { phase: Phase::Finished, ..c }, ActionView::Exit)
        },
    }
}

/// What holds of every check the caller can hold: once the published sha256
/// is known it is 64 hex digits.
pub open spec fn cycle_wf(c: CycleView) -> bool {
    c.phase != Phase::FetchingSha && c.phase != Phase::Finished ==> is_sha_hex(c.remote)
}


/// How far a check has got; every step moves it further.
pub open spec fn phase_rank(p: Phase) -> int {
    match p {
        Phase::FetchingSha => 0,
        Phase::ReadingState => 1,
        Phase::RecordingBaseline => 2,
        Phase::AwaitingHead => 2,
        Phase::AwaitingBody => 3,
        Phase::Swapping => 4,
        Phase::RecordingUpgrade => 5,
        Phase::Finished => 6,
    }
}

/// Every step moves a check to a later phase, so a check ends after at most
/// six steps; a finished check waits for nothing more.
pub proof fn law_check_always_ends(c: CycleView, e: EventView)
    requires
        accepts(c.phase, e),
    ensures
        phase_rank(cycle_step(c, e).0.phase) > phase_rank(c.phase),
        cycle_step(c, e).0.target == c.target,
        forall|e2: EventView| !accepts(Phase::Finished, e2),
{
}

/// The running binary is only replaced by the binary unpacked from a
/// downloaded tarball that is within the size limit and whose sha256 is the
/// published one.
pub proof fn law_swap_only_verified_binary(c: CycleView, e: EventView)
    requires
        accepts(c.phase, e),
        cycle_wf(c),
    ensures
        cycle_step(c, e).1 matches ActionView::Swap(bin) ==> c.phase == Phase::AwaitingBody
            && match e {
            EventView::TarballBody(bytes) => {
                &&& bytes.len() <= MAX_TARBALL_BYTES
                &&& sha256_hex(bytes) == c.remote
                &&& extracted_binary(bytes, c.target) == Ok::<Seq<u8>, UpgradeFault>(bin)
            },
            _ => false,
        },
{
}

/// The state file only ever receives the published sha256 (64 hex digits):
/// on a first run, where nothing is recorded yet, or right after the binary
/// was replaced.
pub proof fn law_state_records_published_sha(c: CycleView, e: EventView)
    requires
        accepts(c.phase, e),
        cycle_wf(c),
    ensures
        cycle_step(c, e).1 matches ActionView::WriteState(s) ==> {
            &&& s == c.remote
            &&& is_sha_hex(s)
            &&& (c.phase == Phase::Swapping && e == EventView::Swapped) || (c.phase
                == Phase::ReadingState && match e {
                EventView::StateFile(contents) => recorded_sha(contents) is None,
                _ => false,
            })
        },
{
}

/// The agent exits only once the new binary is in place and its sha256 is
/// recorded.
pub proof fn law_exit_only_after_recorded_upgrade(c: CycleView, e: EventView)
    requires
        accepts(c.phase, e),
    ensures
        cycle_step(c, e).1 == ActionView::Exit ==> c.phase == Phase::RecordingUpgrade && e
            == EventView::StateWritten,
        cycle_step(c, e).0.phase == Phase::RecordingUpgrade ==> c.phase == Phase::Swapping && e
            == EventView::Swapped,
{
}

/// A failed action ends the check with that failure, and nothing is
/// replaced or recorded after it.
pub proof fn law_failure_ends_check(c: CycleView, m: Seq<char>)
    requires
        accepts(c.phase, EventView::Failed(m)),
    ensures
        cycle_step(c, EventView::Failed(m)) == finish(
            c,
            Err::<(), UpgradeFault>(UpgradeFault::Io(m)),
        ),
{
}

/// Once the published sha256 is known and the state file read: with nothing
/// recorded the sha is recorded and nothing downloaded; with the same sha
/// recorded the check is done; with another one the tarball is downloaded.
pub proof fn law_what_the_state_file_decides(c: CycleView, contents: Option<Seq<char>>)
    requires
        c.phase == Phase::ReadingState,
    ensures
        recorded_sha(contents) is None ==> cycle_step(c, EventView::StateFile(contents)) == go(
            c,
            Phase::RecordingBaseline,
            ActionView::WriteState(c.remote),
        ),
        recorded_sha(contents) == Some(c.remote) ==> cycle_step(
            c,
            EventView::StateFile(contents),
        ) == finish(c, Ok::<(), UpgradeFault>(())),
        (recorded_sha(contents) matches Some(l) && l != c.remote) ==> cycle_step(
            c,
            EventView::StateFile(contents),
        ) == go(c, Phase::AwaitingHead, ActionView::Download(tarball_url_for(c.target))),
{
}


/// Reading back a state file that holds a published sha256 (as a check
/// writes it) gives that sha unchanged.
pub proof fn law_state_round_trip(sha: Seq<char>)
    requires
        is_sha_hex(sha),
    ensures
        recorded_sha(Some(sha)) == Some(sha),
{
    assert(!is_space(sha[0]));
    assert(skip_space(sha, 0) == 0);
    let n = sha.len() as int;
    assert(!is_space(sha[n - 1]));
    assert(trim_end_at(sha, n) == n);
    assert(sha.subrange(0, n) =~= sha);
}


/// The state file's contents are read as the sha they hold whatever
/// whitespace surrounds it (a trailing newline, say); contents that are all
/// whitespace (or empty) hold no sha.
pub proof fn law_state_file_trimmed(pre: Seq<char>, sha: Seq<char>, post: Seq<char>)
    requires
        is_sha_hex(sha),
        forall|i: int| 0 <= i < pre.len() ==> is_space(#[trigger] pre[i]),
        forall|i: int| 0 <= i < post.len() ==> is_space(#[trigger] post[i]),
    ensures
        recorded_sha(Some(pre + sha + post)) == Some(sha),
        recorded_sha(Some(pre + post)) is None,
{
    let x = pre + sha + post;
    let a = pre.len() as int;
    let e = a + 64;
    assert forall|m: int| 0 <= m < a implies is_space(#[trigger] x[m]) by {
        assert(x[m] == pre[m]);
    }
    assert(x[a] == sha[0]);
    assert(!is_space(sha[0]));
    lemma_skip_space_to(x, 0, a);
    assert forall|m: int| e <= m < x.len() implies is_space(#[trigger] x[m]) by {
        assert(x[m] == post[m - e]);
    }
    assert(x[e - 1] == sha[63]);
    assert(!is_space(sha[63]));
    lemma_trim_end_to(x, e, x.len() as int);
    assert(x.subrange(a, e) =~= sha);
    let y = pre + post;
    assert forall|m: int| 0 <= m < y.len() implies is_space(#[trigger] y[m]) by {
        if m < a {
            assert(y[m] == pre[m]);
        } else {
            assert(y[m] == post[m - a]);
        }
    }
    lemma_skip_space_to(y, 0, y.len() as int);
}

/// A second check that finds the same published sha256 as the one a first
/// check recorded reads the state file and is done: it downloads, replaces
/// and writes nothing.
pub proof fn law_second_check_is_up_to_date(target: Seq<char>, body: Seq<char>, sha: Seq<char>)
    requires
        remote_sha_from(body) == Ok::<Seq<char>, UpgradeFault>(sha),
    ensures
        ({
            let (c1, a1) = cycle_step(cycle_start(target).0, EventView::ShaBody(body));
            let (c2, a2) = cycle_step(c1, EventView::StateFile(Some(sha)));
            &&& a1 == ActionView::ReadState
            &&& a2 == ActionView::Done(Ok::<(), UpgradeFault>(()))
            &&& c2.phase == Phase::Finished
        }),
{
    law_state_round_trip(sha);
}

impl UpgradeCycle {
    /// The asset this check is for.
    pub fn target(&self) -> (r: &str)
        ensures
            r@ == self@.target,
    {
        self.target.as_str()
    }

    /// Where this check stands.
    pub fn phase(&self) -> (r: Phase)
        ensures
            r == self@.phase,
    {
        self.phase
    }

    /// Starts a check for the release asset `target`.
    pub fn start(target: &str) -> (r: (UpgradeCycle, UpgradeAction))
        ensures
            (r.0@, r.1@) == cycle_start(target@),
            cycle_wf(r.0@),
    {
        (
            UpgradeCycle {
                target: String::from_str(target),
                phase: Phase::FetchingSha,
                remote: String::new(),
            },
            UpgradeAction::FetchSha(sha_url(target)),
        )
    }

    /// Takes what came of the last action and says what to do next.
    pub fn step(&mut self, event: UpgradeEvent) -> (r: UpgradeAction)
        requires
            accepts(old(self)@.phase, event@),
            cycle_wf(old(self)@),
        ensures
            (final(self)@, r@) == cycle_step(old(self)@, event@),
            cycle_wf(final(self)@),
    {
        match event {
            UpgradeEvent::Failed(m) => {
                self.phase = Phase::Finished;
                UpgradeAction::Done(Err(UpgradeError::Io(m)))
            },
            UpgradeEvent::ShaBody(body) => match parse_remote_sha(body.as_str()) {
                Err(err) => {
                    self.phase = Phase::Finished;
                    UpgradeAction::Done(Err(err))
                },
                Ok(h) => {
                    self.phase = Phase::ReadingState;
                    self.remote = h;
                    UpgradeAction::ReadState
                },
            },
            UpgradeEvent::StateFile(contents) => {
                let local = state_from_contents(&contents);
                match upgrade_decision(self.remote.as_str(), &local) {
                    UpgradeDecision::RecordBaseline => {
                        self.phase = Phase::RecordingBaseline;
                        UpgradeAction::WriteState(self.remote.clone())
                    },
                    UpgradeDecision::UpToDate => {
                        self.phase = Phase::Finished;
                        UpgradeAction::Done(Ok(()))
                    },
                    UpgradeDecision::Upgrade => {
                        self.phase = Phase::AwaitingHead;
                        UpgradeAction::Download(tarball_url(self.target.as_str()))
                    },
                }
            },
            UpgradeEvent::ResponseHead(len) => match check_declared_length(len) {
                Err(err) => {
                    self.phase = Phase::Finished;
                    UpgradeAction::Done(Err(err))
                },
                Ok(()) => {
                    self.phase = Phase::AwaitingBody;
                    UpgradeAction::ReadBody
                },
            },
            UpgradeEvent::TarballBody(bytes) => match verify_tarball(
                bytes.as_slice(),
                self.remote.as_str(),
            ) {
                Err(err) => {
                    self.phase = Phase::Finished;
                    UpgradeAction::Done(Err(err))
                },
                Ok(()) => match extract_binary(bytes.as_slice(), self.target.as_str()) {
                    Err(err) => {
                        self.phase = Phase::Finished;
                        UpgradeAction::Done(Err(err))
                    },
                    Ok(bin) => {
                        self.phase = Phase::Swapping;
                        UpgradeAction::Swap(bin)
                    },
                },
            },
            UpgradeEvent::Swapped => {
                self.phase = Phase::RecordingUpgrade;
                UpgradeAction::WriteState(self.remote.clone())
            },
            UpgradeEvent::StateWritten => {
                if self.phase == Phase::RecordingBaseline {
                    self.phase = Phase::Finished;
                    UpgradeAction::Done(Ok(()))
                } else {
                    self.phase = Phase::Finished;
                    UpgradeAction::Exit
                }
            },
        }
    }
}

} // verus!
