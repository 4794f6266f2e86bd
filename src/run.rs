use vstd::prelude::*;

use crate::config::Config;
use crate::error::{ResticError, describe};
use crate::jobs::references_valid;
use crate::restic::copy_strings;
use crate::text::{join, joined, same_text, views};

verus! {

/// The options of a run.
pub struct RunCommand {
    /// Configuration file.
    pub config: String,
    /// Dry run: no archive is created and no tag is edited.
    pub dry_run: bool,
    /// Path names whose jobs are skipped.
    pub exclude: Vec<String>,
    /// Modes to run (all when empty).
    pub mode: Vec<String>,
}

/// Which kinds of jobs a run performs.
#[derive(Debug, Clone, Copy, PartialEq, Eq, Structural)]
pub struct ModeSelection {
    pub rsync: bool,
    pub restic: bool,
    pub restic_forget: bool,
}

/// The lower-case form of a string.
pub uninterp spec fn lower_of(s: Seq<char>) -> Seq<char>;

/// Relies on `str::to_lowercase`: the result depends on the characters alone.
#[verifier::external_body]
pub(crate) fn lowercase(s: &str) -> (r: String)
    ensures
        r@ == lower_of(s@),
{
    s.to_lowercase()
}

/// The selection named by lower-case mode names: all modes when none is
/// named; `None` when a name is not a mode.
pub open spec fn selection_of(modes: Seq<Seq<char>>) -> Option<ModeSelection> {
    if modes.len() == 0 {
        Some(ModeSelection { rsync: true, restic: true, restic_forget: true })
    } else if forall|i: int|
        0 <= i < modes.len() ==> #[trigger] modes[i] == "rsync"@ || modes[i] == "restic"@ || modes[i]
            == "restic_forget"@ {
        Some(
            ModeSelection {
                rsync: exists|i: int| 0 <= i < modes.len() && #[trigger] modes[i] == "rsync"@,
                restic: exists|i: int| 0 <= i < modes.len() && #[trigger] modes[i] == "restic"@,
                restic_forget: exists|i: int|
                    0 <= i < modes.len() && #[trigger] modes[i] == "restic_forget"@,
            },
        )
    } else {
        None
    }
}

impl ModeSelection {
    /// The selection named by lower-case mode names; the error is the
    /// position of the first name that is not a mode.
    pub fn from_lowered(modes: &Vec<String>) -> (r: Result<ModeSelection, usize>)
        ensures
            match r {
                Ok(s) => selection_of(views(modes@)) == Some(s),
                Err(i) => selection_of(views(modes@)) is None && i < modes.len(),
            },
    {
        if modes.len() == 0 {
            return Ok(ModeSelection { rsync: true, restic: true, restic_forget: true });
        }
        let mut s = ModeSelection { rsync: false, restic: false, restic_forget: false };
        let ghost m = views(modes@);
        let mut i: usize = 0;
        while i < modes.len()
            invariant
                i <= modes.len(),
                m == views(modes@),
                m.len() == modes.len(),
                forall|j: int|
                    0 <= j < i ==> #[trigger] m[j] == "rsync"@ || m[j] == "restic"@ || m[j]
                        == "restic_forget"@,
                s.rsync == exists|j: int| 0 <= j < i && #[trigger] m[j] == "rsync"@,
                s.restic == exists|j: int| 0 <= j < i && #[trigger] m[j] == "restic"@,
                s.restic_forget == exists|j: int| 0 <= j < i && #[trigger] m[j] == "restic_forget"@,
            decreases modes.len() - i,
        {
            let e = modes[i].as_str();
            assert(m[i as int] == e@);
            proof {
                reveal_strlit("rsync");
                reveal_strlit("restic");
                reveal_strlit("restic_forget");
                assert("rsync"@.len() != "restic"@.len());
                assert("rsync"@.len() != "restic_forget"@.len());
                assert("restic"@.len() != "restic_forget"@.len());
            }
            if same_text(e, "rsync") {
                s.rsync = true;
            } else if same_text(e, "restic") {
                s.restic = true;
            } else if same_text(e, "restic_forget") {
                s.restic_forget = true;
            } else {
                assert(!(m[i as int] == "rsync"@ || m[i as int] == "restic"@ || m[i as int]
                    == "restic_forget"@));
                return Err(i);
            }
            i = i + 1;
        }
        Ok(s)
    }

    /// The selection named by mode names, compared without regard to case;
    /// the error is the first name that is not a mode.
    pub fn from(modes: Vec<String>) -> (r: Result<ModeSelection, String>)
        ensures
            match r {
                Ok(s) => selection_of(views(modes@).map_values(|m: Seq<char>| lower_of(m)))
                    == Some(s),
                Err(_) => selection_of(views(modes@).map_values(|m: Seq<char>| lower_of(m))) is None,
            },
    {
        let mut lowered: Vec<String> = Vec::new();
        let mut i: usize = 0;
        while i < modes.len()
            invariant
                i <= modes.len(),
                views(lowered@) == views(modes@.subrange(0, i as int)).map_values(
                    |m: Seq<char>| lower_of(m),
                ),
            decreases modes.len() - i,
        {
            let l = lowercase(modes[i].as_str());
            proof {
                crate::text::lemma_views_push(lowered@, l);
            }
            lowered.push(l);
            assert(views(modes@.subrange(0, i + 1)).map_values(|m: Seq<char>| lower_of(m))
                =~= views(modes@.subrange(0, i as int)).map_values(|m: Seq<char>| lower_of(m)).push(
                lower_of(modes@[i as int]@),
            ));
            i = i + 1;
        }
        assert(modes@.subrange(0, modes.len() as int) =~= modes@);
        match ModeSelection::from_lowered(&lowered) {
            Ok(s) => Ok(s),
            Err(k) => Err(modes[k].clone()),
        }
    }
}

/// Whether a job over the source names `src` is skipped by the exclude
/// filter: some excluded name is one of its sources.
pub open spec fn skipped(exclude: Seq<Seq<char>>, src: Seq<Seq<char>>) -> bool {
    exists|i: int, j: int| 0 <= i < exclude.len() && 0 <= j < src.len() && exclude[i] == src[j]
}

fn contains_text(v: &Vec<String>, x: &str) -> (r: bool)
    ensures
        r == exists|j: int| 0 <= j < v.len() && v@[j]@ == x@,
{
    let mut j: usize = 0;
    while j < v.len()
        invariant
            j <= v.len(),
            forall|k: int| 0 <= k < j ==> v@[k]@ != x@,
        decreases v.len() - j,
    {
        if same_text(v[j].as_str(), x) {
            return true;
        }
        j = j + 1;
    }
    false
}

/// Whether the exclude filter skips a job over the sources `src`.
pub fn job_skipped(exclude: &Vec<String>, src: &Vec<String>) -> (r: bool)
    ensures
        r == skipped(views(exclude@), views(src@)),
{
    let mut i: usize = 0;
    while i < exclude.len()
        invariant
            i <= exclude.len(),
            forall|a: int, b: int| 0 <= a < i && 0 <= b < src.len() ==> exclude@[a]@ != src@[b]@,
        decreases exclude.len() - i,
    {
        if contains_text(src, exclude[i].as_str()) {
            let ghost j = choose|j: int| 0 <= j < src.len() && src@[j]@ == exclude@[i as int]@;
            assert(views(exclude@)[i as int] == views(src@)[j]);
            return true;
        }
        i = i + 1;
    }
    false
}

/// Whether some outcome of `results` is a failure.
pub open spec fn any_failed(results: Seq<(String, Result<(), ResticError>)>) -> bool {
    exists|i: int| 0 <= i < results.len() && (#[trigger] results[i]).1 is Err
}

/// The exit status of a run from the outcomes of every target it
/// attempted: 1 when any failed, else 0.
pub fn exit_status(results: &Vec<(String, Result<(), ResticError>)>) -> (r: i32)
    ensures
        r == if any_failed(results@) {
            1i32
        } else {
            0i32
        },
{
    let mut i: usize = 0;
    while i < results.len()
        invariant
            i <= results.len(),
            forall|j: int| 0 <= j < i ==> (#[trigger] results@[j]).1 is Ok,
        decreases results.len() - i,
    {
        if results[i].1.is_err() {
            assert(results@[i as int].1 is Err);
            return 1;
        }
        i = i + 1;
    }
    0
}

/// Relies on `rand::random_range`: a value drawn uniformly from `0..bound`.
#[verifier::external_body]
fn draw_below(bound: u64) -> (r: u64)
    requires
        bound > 0,
    ensures
        r < bound,
{
    rand::random_range(0..bound)
}

/// The random start delay in seconds, drawn from `[0, bound)`; none without
/// a positive bound.
pub fn start_delay(bound: Option<u64>) -> (r: Option<u64>)
    ensures
        match bound {
            Some(b) if b > 0 => match r {
                Some(w) => w < b,
                None => false,
            },
            _ => r is None,
        },
{
    match bound {
        Some(b) => {
            if b > 0 {
                Some(draw_below(b))
            } else {
                None
            }
        },
        None => None,
    }
}

/// The message that reports one target's outcome of a job; `what` names the
/// job kind and `subject` what it worked on.
pub open spec fn outcome_text(
    what: Seq<char>,
    subject: Seq<Seq<char>>,
    target: Seq<char>,
    outcome: Result<(), ResticError>,
) -> Seq<char> {
    match outcome {
        Ok(()) => what + " successful for "@ + joined(subject, ", "@) + " to "@ + target,
        Err(e) => what + " failed for "@ + joined(subject, ", "@) + " to "@ + target + ": "@
            + describe(e),
    }
}

/// The message that reports one target's outcome of a job.
pub fn outcome_message(
    what: &str,
    subject: &Vec<String>,
    target: &str,
    outcome: &Result<(), ResticError>,
) -> (r: String)
    ensures
        r@ == outcome_text(what@, views(subject@), target@, *outcome),
{
    let mut m = what.to_owned();
    match outcome {
        Ok(()) => m.append(" successful for "),
        Err(_) => m.append(" failed for "),
    }
    let s = join(subject, ", ");
    m.append(s.as_str());
    m.append(" to ");
    m.append(target);
    match outcome {
        Ok(()) => {},
        Err(e) => {
            m.append(": ");
            let d = e.message();
            m.append(d.as_str());
        },
    }
    m
}

/// What the caller must do next in a run.
pub enum RunAction {
    /// Sleep this many seconds.
    Sleep(u64),
    /// Run this script with `sh` and report its exit status.
    RunScript(String),
    /// Run the mirror job at this index and report its outcome.
    MirrorJob(usize),
    /// Run the archive job at this index and report its per-target outcomes.
    ArchiveJob(usize),
    /// Run the retention job at this index and report its per-target outcomes.
    ForgetJob(usize),
    /// End the process with this status.
    Exit(i32),
}

/// An action as seen by the proofs.
pub enum RunStep {
    Sleep(u64),
    RunScript(Seq<char>),
    MirrorJob(int),
    ArchiveJob(int),
    ForgetJob(int),
    Exit(i32),
}

impl View for RunAction {
    type V = RunStep;

    open spec fn view(&self) -> RunStep {
        match self {
            RunAction::Sleep(w) => RunStep::Sleep(*w),
            RunAction::RunScript(s) => RunStep::RunScript(s@),
            RunAction::MirrorJob(i) => RunStep::MirrorJob(*i as int),
            RunAction::ArchiveJob(i) => RunStep::ArchiveJob(*i as int),
            RunAction::ForgetJob(i) => RunStep::ForgetJob(*i as int),
            RunAction::Exit(c) => RunStep::Exit(*c),
        }
    }
}

/// What the caller reports back.
pub enum RunEvent {
    /// The sleep is over.
    Slept,
    /// The script ended with this exit status (`None`: it could not run).
    ScriptExited(Option<i32>),
    /// The job ended: its per-target outcomes, or the failure that stopped
    /// the job as a whole (an unknown reference, a missing source, a side
    /// effect that could not be performed).
    JobDone(Result<Vec<(String, Result<(), ResticError>)>, ResticError>),
}

/// Where a run stands.
#[derive(Debug, Clone, Copy, PartialEq, Eq, Structural)]
pub enum RunStage {
    Delaying,
    Starting,
    Mirror(usize),
    Archive(usize),
    Forget(usize),
    Ending,
    Over,
}

/// Every job of the configuration, mirror jobs first, then archive jobs,
/// then retention jobs.
pub open spec fn job_count(cfg: Config) -> int {
    (cfg.rsync@.len() + cfg.restic@.len() + cfg.restic_forget@.len()) as int
}

/// Whether the job at position `p` runs: its mode is selected and, for an
/// archive job, the exclude filter does not skip it.
pub open spec fn job_enabled(cfg: Config, m: ModeSelection, ex: Seq<Seq<char>>, p: int) -> bool {
    let nr = cfg.rsync@.len() as int;
    let na = cfg.restic@.len() as int;
    if p < nr {
        m.rsync
    } else if p < nr + na {
        m.restic && !skipped(ex, views(cfg.restic@[p - nr].src@))
    } else {
        m.restic_forget
    }
}

/// The first job at or after position `p` that runs.
pub open spec fn next_job(cfg: Config, m: ModeSelection, ex: Seq<Seq<char>>, p: int) -> Option<int>
    decreases job_count(cfg) - p,
{
    if p < 0 || p >= job_count(cfg) {
        None
    } else if job_enabled(cfg, m, ex, p) {
        Some(p)
    } else {
        next_job(cfg, m, ex, p + 1)
    }
}

/// The stage of waiting for the job at position `q`.
pub open spec fn job_stage(cfg: Config, q: int) -> RunStage {
    let nr = cfg.rsync@.len() as int;
    let na = cfg.restic@.len() as int;
    if q < nr {
        RunStage::Mirror(q as usize)
    } else if q < nr + na {
        RunStage::Archive((q - nr) as usize)
    } else {
        RunStage::Forget((q - nr - na) as usize)
    }
}

/// The action that runs the job at position `q`.
pub open spec fn job_step(cfg: Config, q: int) -> RunStep {
    let nr = cfg.rsync@.len() as int;
    let na = cfg.restic@.len() as int;
    if q < nr {
        RunStep::MirrorJob(q)
    } else if q < nr + na {
        RunStep::ArchiveJob(q - nr)
    } else {
        RunStep::ForgetJob(q - nr - na)
    }
}

/// The position of the job a stage waits for.
pub open spec fn stage_pos(cfg: Config, s: RunStage) -> int {
    match s {
        RunStage::Mirror(i) => i as int,
        RunStage::Archive(i) => cfg.rsync@.len() + i as int,
        RunStage::Forget(i) => cfg.rsync@.len() + cfg.restic@.len() + i as int,
        _ => 0,
    }
}

/// The exit status of a run that was not aborted.
pub open spec fn status_of(results: Seq<(String, Result<(), ResticError>)>) -> i32 {
    if any_failed(results) {
        1
    } else {
        0
    }
}

/// After the last job: the end script, else the exit.
pub open spec fn after_jobs(cfg: Config, results: Seq<(String, Result<(), ResticError>)>) -> (
    RunStage,
    RunStep,
) {
    match cfg.end_script {
        Some(s) => (RunStage::Ending, RunStep::RunScript(s@)),
        None => (RunStage::Over, RunStep::Exit(status_of(results))),
    }
}

/// Going on with the jobs from position `p`.
pub open spec fn jobs_from(
    cfg: Config,
    m: ModeSelection,
    ex: Seq<Seq<char>>,
    results: Seq<(String, Result<(), ResticError>)>,
    p: int,
) -> (RunStage, RunStep) {
    match next_job(cfg, m, ex, p) {
        Some(q) => (job_stage(cfg, q), job_step(cfg, q)),
        None => after_jobs(cfg, results),
    }
}

/// After the delay: the start script, else the jobs.
pub open spec fn after_delay(
    cfg: Config,
    m: ModeSelection,
    ex: Seq<Seq<char>>,
    results: Seq<(String, Result<(), ResticError>)>,
) -> (RunStage, RunStep) {
    match cfg.start_script {
        Some(s) => (RunStage::Starting, RunStep::RunScript(s@)),
        None => jobs_from(cfg, m, ex, results, 0),
    }
}

/// Whether `e` answers what stage `s` waits for.
pub open spec fn run_answers(s: RunStage, e: RunEvent) -> bool {
    match s {
        RunStage::Delaying => e is Slept,
        RunStage::Starting | RunStage::Ending => e is ScriptExited,
        RunStage::Mirror(_) | RunStage::Archive(_) | RunStage::Forget(_) => e is JobDone,
        RunStage::Over => false,
    }
}

/// Whether a stage names a job of `cfg`.
pub open spec fn stage_fits(cfg: Config, s: RunStage) -> bool {
    match s {
        RunStage::Mirror(i) => i < cfg.rsync@.len(),
        RunStage::Archive(i) => i < cfg.restic@.len(),
        RunStage::Forget(i) => i < cfg.restic_forget@.len(),
        _ => true,
    }
}

/// The position of the `i`-th job of group `ph` (0 mirror, 1 archive,
/// 2 retention).
pub open spec fn group_pos(cfg: Config, ph: u8, i: int) -> int {
    if ph == 0 {
        i
    } else if ph == 1 {
        cfg.rsync@.len() + i
    } else {
        cfg.rsync@.len() + cfg.restic@.len() + i
    }
}

pub open spec fn group_len(cfg: Config, ph: u8) -> int {
    if ph == 0 {
        cfg.rsync@.len() as int
    } else if ph == 1 {
        cfg.restic@.len() as int
    } else {
        cfg.restic_forget@.len() as int
    }
}

/// A run of the whole configuration, one action at a time.
pub struct RunState {
    pub stage: RunStage,
    pub modes: ModeSelection,
    /// Source names whose archive jobs are skipped.
    pub exclude: Vec<String>,
    /// Every outcome so far, job after job, target after target.
    pub results: Vec<(String, Result<(), ResticError>)>,
}

/// The first job at or after the `i`-th of group `ph` that runs.
fn next_job_from(cfg: &Config, m: ModeSelection, ex: &Vec<String>, ph0: u8, i0: usize) -> (r: Option<(u8, usize)>)
    requires
        ph0 < 3,
        i0 <= group_len(*cfg, ph0),
    ensures
        match r {
            Some((ph, i)) => ph < 3 && i < group_len(*cfg, ph) && next_job(
                *cfg,
                m,
                views(ex@),
                group_pos(*cfg, ph0, i0 as int),
            ) == Some(group_pos(*cfg, ph, i as int)),
            None => next_job(*cfg, m, views(ex@), group_pos(*cfg, ph0, i0 as int)) is None,
        },
{
    let ghost start = group_pos(*cfg, ph0, i0 as int);
    let mut ph = ph0;
    let mut i = i0;
    while ph < 3
        invariant
            start == group_pos(*cfg, ph0, i0 as int),
            ph <= 3,
            ph < 3 ==> i <= group_len(*cfg, ph),
            ph < 3 ==> 0 <= group_pos(*cfg, ph, i as int) <= job_count(*cfg),
            ph < 3 ==> next_job(*cfg, m, views(ex@), start) == next_job(
                *cfg,
                m,
                views(ex@),
                group_pos(*cfg, ph, i as int),
            ),
            ph == 3 ==> next_job(*cfg, m, views(ex@), start) == next_job(
                *cfg,
                m,
                views(ex@),
                job_count(*cfg),
            ),
        decreases 3 * (job_count(*cfg) - (if ph < 3 {
            group_pos(*cfg, ph, i as int)
        } else {
            job_count(*cfg)
        })) + (3 - ph),
    {
        let len = if ph == 0 {
            cfg.rsync.len()
        } else if ph == 1 {
            cfg.restic.len()
        } else {
            cfg.restic_forget.len()
        };
        assert(len == group_len(*cfg, ph));
        if i < len {
            let on = if ph == 0 {
                m.rsync
            } else if ph == 1 {
                m.restic && !job_skipped(ex, &cfg.restic[i].src)
            } else {
                m.restic_forget
            };
            assert(job_enabled(*cfg, m, views(ex@), group_pos(*cfg, ph, i as int)) == on);
            assert(0 <= group_pos(*cfg, ph, i as int) < job_count(*cfg));
            if on {
                assert(next_job(*cfg, m, views(ex@), group_pos(*cfg, ph, i as int)) == Some(
                    group_pos(*cfg, ph, i as int),
                ));
                return Some((ph, i));
            }
            assert(group_pos(*cfg, ph, i + 1) == group_pos(*cfg, ph, i as int) + 1);
            i = i + 1;
        } else {
            ph = ph + 1;
            i = 0;
        }
    }
    None
}

impl RunState {
    /// Takes the action for the first job at or after the `i`-th of group
    /// `ph`, or what follows the last job.
    fn continue_from(&mut self, cfg: &Config, ph: u8, i: usize) -> (r: RunAction)
        requires
            ph < 3,
            i <= group_len(*cfg, ph),
        ensures
            final(self).modes == old(self).modes,
            final(self).exclude == old(self).exclude,
            final(self).results == old(self).results,
            stage_fits(*cfg, final(self).stage),
            (final(self).stage, r@) == jobs_from(
                *cfg,
                old(self).modes,
                views(old(self).exclude@),
                old(self).results@,
                group_pos(*cfg, ph, i as int),
            ),
    {
        match next_job_from(cfg, self.modes, &self.exclude, ph, i) {
            Some((g, k)) => {
                if g == 0 {
                    self.stage = RunStage::Mirror(k);
                    RunAction::MirrorJob(k)
                } else if g == 1 {
                    self.stage = RunStage::Archive(k);
                    RunAction::ArchiveJob(k)
                } else {
                    self.stage = RunStage::Forget(k);
                    RunAction::ForgetJob(k)
                }
            },
            None => match &cfg.end_script {
                Some(s) => {
                    self.stage = RunStage::Ending;
                    RunAction::RunScript(s.clone())
                },
                None => {
                    self.stage = RunStage::Over;
                    RunAction::Exit(exit_status(&self.results))
                },
            },
        }
    }

    /// Starts a run of `cfg` with the options `opts` and the start delay
    /// `wait` already drawn. A configuration whose names repeat or whose
    /// jobs name undeclared sources or targets, or an unknown mode, ends the
    /// run at once with status 1.
    pub fn start(cfg: &Config, opts: &RunCommand, wait: Option<u64>) -> (r: (RunState, RunAction))
        ensures
            stage_fits(*cfg, r.0.stage),
            !(cfg.wf() && references_valid(*cfg)) ==> r.0.stage == RunStage::Over && r.1@
                == RunStep::Exit(1),
            cfg.wf() && references_valid(*cfg) ==> match selection_of(
                views(opts.mode@).map_values(|m: Seq<char>| lower_of(m)),
            ) {
                None => r.0.stage == RunStage::Over && r.1@ == RunStep::Exit(1),
                Some(m) => r.0.modes == m && views(r.0.exclude@) == views(opts.exclude@)
                    && r.0.results@.len() == 0 && match wait {
                    Some(w) => r.0.stage == RunStage::Delaying && r.1@ == RunStep::Sleep(w),
                    None => (r.0.stage, r.1@) == after_delay(
                        *cfg,
                        m,
                        views(opts.exclude@),
                        Seq::empty(),
                    ),
                },
            },
    {
        let over = RunState {
            stage: RunStage::Over,
            modes: ModeSelection { rsync: false, restic: false, restic_forget: false },
            exclude: Vec::new(),
            results: Vec::new(),
        };
        if !cfg.names_are_unique() || cfg.check_references().is_err() {
            return (over, RunAction::Exit(1));
        }
        let modes = match ModeSelection::from(copy_strings(&opts.mode)) {
            Ok(m) => m,
            Err(_) => return (over, RunAction::Exit(1)),
        };
        let mut st = RunState {
            stage: RunStage::Delaying,
            modes,
            exclude: copy_strings(&opts.exclude),
            results: Vec::new(),
        };
        match wait {
            Some(w) => (st, RunAction::Sleep(w)),
            None => {
                let a = st.after_delay(cfg);
                (st, a)
            },
        }
    }

    /// The action that follows the delay.
    fn after_delay(&mut self, cfg: &Config) -> (r: RunAction)
        ensures
            final(self).modes == old(self).modes,
            final(self).exclude == old(self).exclude,
            final(self).results == old(self).results,
            stage_fits(*cfg, final(self).stage),
            (final(self).stage, r@) == after_delay(
                *cfg,
                old(self).modes,
                views(old(self).exclude@),
                old(self).results@,
            ),
    {
        match &cfg.start_script {
            Some(s) => {
                self.stage = RunStage::Starting;
                RunAction::RunScript(s.clone())
            },
            None => self.continue_from(cfg, 0, 0),
        }
    }

    /// Whether `e` answers what the run waits for, on `cfg`.
    pub fn accepts(&self, cfg: &Config, e: &RunEvent) -> (r: bool)
        ensures
            r == (run_answers(self.stage, *e) && stage_fits(*cfg, self.stage)),
    {
        let fits = match self.stage {
            RunStage::Mirror(i) => i < cfg.rsync.len(),
            RunStage::Archive(i) => i < cfg.restic.len(),
            RunStage::Forget(i) => i < cfg.restic_forget.len(),
            _ => true,
        };
        let answers = match (self.stage, e) {
            (RunStage::Delaying, RunEvent::Slept) => true,
            (RunStage::Starting, RunEvent::ScriptExited(_)) => true,
            (RunStage::Ending, RunEvent::ScriptExited(_)) => true,
            (RunStage::Mirror(_), RunEvent::JobDone(_)) => true,
            (RunStage::Archive(_), RunEvent::JobDone(_)) => true,
            (RunStage::Forget(_), RunEvent::JobDone(_)) => true,
            _ => false,
        };
        fits && answers
    }

    /// Takes what the caller reports and says what to do next.
    ///
    /// A failed start or end script ends the run with status 1, and nothing
    /// follows a failed start script. A job that fails as a whole ends the
    /// run with status 1. A finished job adds exactly its per-target
    /// outcomes, and the run goes on with the next job its mode selects
    /// (archive jobs over an excluded source are passed over and add
    /// nothing). After the end script the status is 1 when any outcome is a
    /// failure, else 0.
    pub fn advance(&mut self, cfg: &Config, e: RunEvent) -> (r: RunAction)
        requires
            run_answers(old(self).stage, e),
            stage_fits(*cfg, old(self).stage),
        ensures
            final(self).modes == old(self).modes,
            final(self).exclude == old(self).exclude,
            stage_fits(*cfg, final(self).stage),
            match (old(self).stage, e) {
                (RunStage::Delaying, RunEvent::Slept) => final(self).results == old(self).results
                    && (final(self).stage, r@) == after_delay(
                    *cfg,
                    old(self).modes,
                    views(old(self).exclude@),
                    old(self).results@,
                ),
                (RunStage::Starting, RunEvent::ScriptExited(c)) => final(self).results
                    == old(self).results && if c == Some(0i32) {
                    (final(self).stage, r@) == jobs_from(
                        *cfg,
                        old(self).modes,
                        views(old(self).exclude@),
                        old(self).results@,
                        0,
                    )
                } else {
                    final(self).stage == RunStage::Over && r@ == RunStep::Exit(1)
                },
                (RunStage::Ending, RunEvent::ScriptExited(c)) => final(self).results
                    == old(self).results && final(self).stage == RunStage::Over && r@
                    == RunStep::Exit(
                    if c == Some(0i32) {
                        status_of(old(self).results@)
                    } else {
                        1
                    },
                ),
                (_, RunEvent::JobDone(Err(_))) => final(self).results == old(self).results
                    && final(self).stage == RunStage::Over && r@ == RunStep::Exit(1),
                (s, RunEvent::JobDone(Ok(rs))) => final(self).results@ == old(self).results@ + rs@
                    && (final(self).stage, r@) == jobs_from(
                    *cfg,
                    old(self).modes,
                    views(old(self).exclude@),
                    final(self).results@,
                    stage_pos(*cfg, s) + 1,
                ),
                _ => false,
            },
    {
        match e {
            RunEvent::Slept => self.after_delay(cfg),
            RunEvent::ScriptExited(c) => {
                let ok = match c {
                    Some(x) => x == 0,
                    None => false,
                };
                if let RunStage::Starting = self.stage {
                    if ok {
                        self.continue_from(cfg, 0, 0)
                    } else {
                        self.stage = RunStage::Over;
                        RunAction::Exit(1)
                    }
                } else {
                    self.stage = RunStage::Over;
                    if ok {
                        RunAction::Exit(exit_status(&self.results))
                    } else {
                        RunAction::Exit(1)
                    }
                }
            },
            RunEvent::JobDone(Err(_)) => {
                self.stage = RunStage::Over;
                RunAction::Exit(1)
            },
            RunEvent::JobDone(Ok(rs)) => {
                let mut rs = rs;
                self.results.append(&mut rs);
                match self.stage {
                    RunStage::Mirror(i) => {
                        assert(i < cfg.rsync.len());
                        self.continue_from(cfg, 0, i + 1)
                    },
                    RunStage::Archive(i) => {
                        assert(i < cfg.restic.len());
                        self.continue_from(cfg, 1, i + 1)
                    },
                    RunStage::Forget(i) => {
                        assert(i < cfg.restic_forget.len());
                        self.continue_from(cfg, 2, i + 1)
                    },
                    _ => {
                        self.stage = RunStage::Over;
                        RunAction::Exit(1)
                    },
                }
            },
        }
    }
}

/// The next job is the first one at or after the given position that runs:
/// every job passed over, such as an archive job over an excluded source,
/// is one that does not run.
pub proof fn lemma_next_job_first(cfg: Config, m: ModeSelection, ex: Seq<Seq<char>>, p: int)
    requires
        0 <= p,
    ensures
        match next_job(cfg, m, ex, p) {
            Some(q) => p <= q < job_count(cfg) && job_enabled(cfg, m, ex, q) && forall|k: int|
                p <= k < q ==> !#[trigger] job_enabled(cfg, m, ex, k),
            None => forall|k: int| p <= k < job_count(cfg) ==> !#[trigger] job_enabled(cfg, m, ex, k),
        },
    decreases job_count(cfg) - p,
{
    if p < job_count(cfg) && !job_enabled(cfg, m, ex, p) {
        lemma_next_job_first(cfg, m, ex, p + 1);
    }
}

/// An archive job over an excluded source never runs.
pub proof fn lemma_excluded_job_never_runs(
    cfg: Config,
    m: ModeSelection,
    ex: Seq<Seq<char>>,
    i: int,
    p: int,
)
    requires
        0 <= i < cfg.restic@.len(),
        skipped(ex, views(cfg.restic@[i].src@)),
        0 <= p,
    ensures
        next_job(cfg, m, ex, p) != Some(cfg.rsync@.len() as int + i),
{
    lemma_next_job_first(cfg, m, ex, p);
}

/// Once a target's failure is recorded, the run's status is 1 whatever
/// outcomes follow.
pub proof fn lemma_failure_sticks(
    a: Seq<(String, Result<(), ResticError>)>,
    b: Seq<(String, Result<(), ResticError>)>,
    i: int,
)
    requires
        0 <= i < a.len(),
        a[i].1 is Err,
    ensures
        status_of(a + b) == 1,
{
    assert((a + b)[i] == a[i]);
}

} // verus!
