//! A source's worker: it polls at once, then again every interval or
//! whenever asked; an action is followed by a poll, so the screen reflects
//! it without waiting a full cycle. The waiting and the calls happen
//! outside; what to do after each wake-up is decided here.

use vstd::prelude::*;

use crate::panel::{CmdView, SourceCmd};

verus! {

/// Why a worker woke up.
pub enum Wake {
    /// Its interval ran out.
    Timer,
    /// The console sent a command.
    Command(SourceCmd),
    /// The console hung up.
    Closed,
}

pub enum WakeView {
    Timer,
    Command(CmdView),
    Closed,
}

impl View for Wake {
    type V = WakeView;

    open spec fn view(&self) -> WakeView {
        match self {
            Wake::Timer => WakeView::Timer,
            Wake::Command(c) => WakeView::Command(c@),
            Wake::Closed => WakeView::Closed,
        }
    }
}

/// What a worker does next.
pub enum Job {
    /// Poll the source and report the panel.
    Poll,
    /// Carry out an action and report how it went.
    Execute { action_id: String, row_key: String },
    /// Stop working.
    Stop,
}

pub enum JobView {
    Poll,
    Execute { action_id: Seq<char>, row_key: Seq<char> },
    Stop,
}

impl View for Job {
    type V = JobView;

    open spec fn view(&self) -> JobView {
        match self {
            Job::Poll => JobView::Poll,
            Job::Execute { action_id, row_key } => JobView::Execute { action_id: action_id@, row_key: row_key@ },
            Job::Stop => JobView::Stop,
        }
    }
}

pub open spec fn jobs_view(v: Seq<Job>) -> Seq<JobView> {
    v.map_values(|j: Job| j@)
}

/// The jobs a wake-up leads to, in order.
pub open spec fn jobs_of(w: WakeView) -> Seq<JobView> {
    match w {
        WakeView::Timer => seq![JobView::Poll],
        WakeView::Command(CmdView::Refresh) => seq![JobView::Poll],
        WakeView::Command(CmdView::Execute { action_id, row_key }) => seq![
            JobView::Execute { action_id, row_key },
            JobView::Poll,
        ],
        WakeView::Closed => seq![JobView::Stop],
    }
}

/// The first thing a worker does: poll.
pub fn first_jobs() -> (v: Vec<Job>)
    ensures
        jobs_view(v@) == seq![JobView::Poll],
{
    let v = vec![Job::Poll];
    assert(jobs_view(v@) =~= seq![JobView::Poll]);
    v
}

pub fn jobs_after(wake: Wake) -> (v: Vec<Job>)
    ensures
        jobs_view(v@) == jobs_of(wake@),
{
    let ghost w = wake@;
    let v = match wake {
        Wake::Timer => vec![Job::Poll],
        Wake::Command(SourceCmd::Refresh) => vec![Job::Poll],
        Wake::Command(SourceCmd::Execute { action_id, row_key }) => vec![
            Job::Execute { action_id, row_key },
            Job::Poll,
        ],
        Wake::Closed => vec![Job::Stop],
    };
    assert(jobs_view(v@) =~= jobs_of(w));
    v
}

/// Whatever wakes a live worker, it ends by polling, so the panel always
/// catches up with what just happened; an action runs first, and only when
/// one was asked for; a hang-up stops the worker and nothing else.
pub proof fn law_every_wake_ends_in_a_poll(w: WakeView)
    ensures
        !(w is Closed) ==> jobs_of(w).last() == JobView::Poll,
        w is Closed ==> jobs_of(w) == seq![JobView::Stop],
        forall|i: int| 0 <= i < jobs_of(w).len() && (#[trigger] jobs_of(w)[i]) is Execute ==> {
            &&& i == 0
            &&& w matches WakeView::Command(CmdView::Execute { action_id, row_key })
            &&& jobs_of(w)[i] == (JobView::Execute { action_id, row_key })
        },
{
}

} // verus!
