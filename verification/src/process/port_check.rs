//! Finding the processes on a port from `lsof`'s output, and the steps of
//! ending a process by signals.
use vstd::prelude::*;
use crate::error::{AppError, AppErrorView};
use crate::text::{
    char_vecs_view, decimal, decimal_spec, lines_spec, parse_u32, parse_u32_spec, push_chars,
    split_lines, strings_view, trim_end_len, trim_spec, trim_start_index,
};

verus! {

/// The numbers found on the given lines: each line, trimmed, that reads as a
/// `u32`, in order; other lines are skipped.
pub open spec fn pids_of_lines(lines: Seq<Seq<char>>) -> Seq<u32>
    decreases lines.len(),
{
    if lines.len() == 0 {
        Seq::empty()
    } else {
        let rest = pids_of_lines(lines.drop_last());
        match parse_u32_spec(trim_spec(lines.last())) {
            Some(p) => rest.push(p),
            None => rest,
        }
    }
}

/// The process ids in `lsof -t` output: one per line.
pub open spec fn parse_pids_spec(out: Seq<char>) -> Seq<u32> {
    pids_of_lines(lines_spec(out))
}

/// Reads the process ids `lsof -t` printed.
pub fn parse_pids(out: &str) -> (r: Vec<u32>)
    ensures
        r@ == parse_pids_spec(out@),
{
    let lines = split_lines(out);
    let ghost lv = char_vecs_view(lines@);
    let mut r: Vec<u32> = Vec::new();
    let mut i: usize = 0;
    assert(lv.take(0) =~= Seq::<Seq<char>>::empty());
    while i < lines.len()
        invariant
            i <= lines.len(),
            lv == char_vecs_view(lines@),
            r@ == pids_of_lines(lv.take(i as int)),
        decreases lines.len() - i,
    {
        let l = &lines[i];
        let end = trim_end_len(l);
        let start = trim_start_index(l, end);
        let parsed = parse_u32(l, start, end);
        assert(lv.take(i + 1).drop_last() =~= lv.take(i as int));
        assert(lv.take(i + 1).last() == l@);
        if let Some(p) = parsed {
            r.push(p);
        }
        i += 1;
    }
    assert(lv.take(lines.len() as int) =~= lv);
    r
}

/// The process ids on a port, given whether `lsof` succeeded and what it
/// printed: none when it failed.
pub fn pids_from_lsof(succeeded: bool, out: &str) -> (r: Vec<u32>)
    ensures
        r@ == if succeeded {
            parse_pids_spec(out@)
        } else {
            Seq::empty()
        },
{
    if succeeded {
        parse_pids(out)
    } else {
        Vec::new()
    }
}

/// The arguments for `lsof` that list the ids of processes on `port`.
pub fn lsof_args(port: u16) -> (r: Vec<String>)
    ensures
        strings_view(r@) == seq!["-i"@, ":"@ + decimal_spec(port as nat), "-t"@],
{
    let mut r: Vec<String> = Vec::new();
    r.push(String::from_str("-i"));
    let mut p = String::from_str(":");
    push_chars(&mut p, &decimal(port as u64));
    r.push(p);
    r.push(String::from_str("-t"));
    assert(strings_view(r@) =~= seq!["-i"@, ":"@ + decimal_spec(port as nat), "-t"@]);
    r
}

/// What sending a signal to a process came to.
#[derive(Debug, Clone)]
pub enum SignalOutcome {
    Delivered,
    /// There is no such process.
    NoSuchProcess,
    /// Any other failure, with its description.
    Failed(String),
}

/// Which signal was just sent.
#[derive(Debug, Clone, Copy, PartialEq, Eq, Structural)]
pub enum KillStage {
    Terminate,
    Kill,
}

/// What to do next while ending a process.
#[derive(Debug, Clone)]
pub enum KillAction {
    /// Wait this many milliseconds, then send the kill signal.
    KillAfter(u64),
    /// Wait this many milliseconds, then report success.
    FinishAfter(u64),
    /// Report success now.
    Finish,
    /// Report this failure.
    Fail(AppError),
}

/// A kill action as plain values.
pub enum KillActionView {
    KillAfter(u64),
    FinishAfter(u64),
    Finish,
    Fail(AppErrorView),
}

impl View for KillAction {
    type V = KillActionView;

    open spec fn view(&self) -> KillActionView {
        match self {
            KillAction::KillAfter(ms) => KillActionView::KillAfter(*ms),
            KillAction::FinishAfter(ms) => KillActionView::FinishAfter(*ms),
            KillAction::Finish => KillActionView::Finish,
            KillAction::Fail(e) => KillActionView::Fail(e@),
        }
    }
}

/// The next step of ending process `pid`: after a delivered terminate
/// signal, wait 2000 ms and send the kill signal; after a delivered kill
/// signal, wait 200 ms and succeed; a vanished process is success; any
/// other failure is reported with the signal's name and the pid.
pub open spec fn kill_step_spec(stage: KillStage, pid: u32, outcome: SignalOutcome) -> KillActionView {
    match outcome {
        SignalOutcome::Delivered => match stage {
            KillStage::Terminate => KillActionView::KillAfter(2000),
            KillStage::Kill => KillActionView::FinishAfter(200),
        },
        SignalOutcome::NoSuchProcess => KillActionView::Finish,
        SignalOutcome::Failed(e) => KillActionView::Fail(
            AppErrorView::Process(
                (match stage {
                    KillStage::Terminate => "failed to SIGTERM pid "@,
                    KillStage::Kill => "failed to SIGKILL pid "@,
                }) + decimal_spec(pid as nat) + ": "@ + e@,
            ),
        ),
    }
}

/// Decides the next step of ending process `pid`.
pub fn kill_step(stage: KillStage, pid: u32, outcome: SignalOutcome) -> (r: KillAction)
    ensures
        r@ == kill_step_spec(stage, pid, outcome),
{
    match outcome {
        SignalOutcome::Delivered => match stage {
            KillStage::Terminate => KillAction::KillAfter(2000),
            KillStage::Kill => KillAction::FinishAfter(200),
        },
        SignalOutcome::NoSuchProcess => KillAction::Finish,
        SignalOutcome::Failed(e) => {
            let mut m = match stage {
                KillStage::Terminate => String::from_str("failed to SIGTERM pid "),
                KillStage::Kill => String::from_str("failed to SIGKILL pid "),
            };
            push_chars(&mut m, &decimal(pid as u64));
            m.append(": ");
            m.append(e.as_str());
            KillAction::Fail(AppError::Process(m))
        },
    }
}

} // verus!
