use vstd::prelude::*;

use crate::paths::first_missing;

verus! {

/// The coarse kind of a filesystem change notification.
#[derive(Clone, Copy, PartialEq, Eq, Structural)]
pub enum ChangeKind {
    Created,
    Modified,
    /// Metadata-only changes, removals, accesses and anything else.
    Other,
}

/// One notification from the path watcher: its kind and the paths it names.
pub struct ChangeEvent {
    pub kind: ChangeKind,
    pub paths: Vec<String>,
}

/// What the path watcher delivers: a change, or a transient watch failure.
pub enum WatchEvent {
    Change(ChangeEvent),
    Failure,
}

/// One thing the caller does to carry out a restart, in the order given.
#[derive(Clone, Copy, PartialEq, Eq, Structural)]
pub enum Step {
    /// Kill the running child and wait until it has been reaped.
    Terminate,
    /// Clear the terminal.
    ClearScreen,
    /// Print a separator line.
    Separator,
    /// Print which path changed, and when.
    Announce,
    /// Start a new child with the resolved command.
    Spawn,
}

/// How the supervisor answers one watch event.
pub enum Reaction {
    /// Nothing to do: the event is of an ignored kind or inside the debounce window.
    Ignore,
    /// A watch failure, to be reported; the child is left alone.
    ReportFailure,
    /// Restart the child: `changed` is the first path of the event, if any.
    Restart { changed: Option<String>, steps: Vec<Step> },
}

/// Only creations and modifications can trigger a restart.
pub open spec fn is_trigger(k: ChangeKind) -> bool {
    k is Created || k is Modified
}

/// Milliseconds from `since` to `now` on a monotonic clock, never negative.
pub open spec fn elapsed(since: u64, now: u64) -> int {
    if now >= since {
        now - since
    } else {
        0
    }
}

/// Whether an event of kind `k` at `now` triggers a restart, given the time
/// of the last accepted trigger and the debounce interval.
pub open spec fn accepted(last: u64, debounce: u64, k: ChangeKind, now: u64) -> bool {
    is_trigger(k) && elapsed(last, now) >= debounce
}

/// The steps of one restart: terminate the running child, if any; clear the
/// screen or print a separator; announce the change; spawn the replacement.
/// The quiet flag drops the printed lines but not the clearing.
pub open spec fn restart_plan(running: bool, quiet: bool, no_clear: bool) -> Seq<Step> {
    let stop = if running { seq![Step::Terminate] } else { Seq::<Step>::empty() };
    let lead = if no_clear {
        if quiet { Seq::<Step>::empty() } else { seq![Step::Separator] }
    } else {
        seq![Step::ClearScreen]
    };
    let notice = if quiet { Seq::<Step>::empty() } else { seq![Step::Announce, Step::Separator] };
    stop + lead + notice + seq![Step::Spawn]
}

/// Whether a child is alive after carrying out `steps`, starting with `live`.
pub open spec fn live_after(live: bool, steps: Seq<Step>) -> bool
    decreases steps.len(),
{
    if steps.len() == 0 {
        live
    } else {
        let next = match steps[0] {
            Step::Terminate => false,
            Step::Spawn => true,
            _ => live,
        };
        live_after(next, steps.drop_first())
    }
}

/// Whether carrying out `steps`, starting with `live`, never spawns a child
/// while another one is alive.
pub open spec fn spawn_safe(live: bool, steps: Seq<Step>) -> bool
    decreases steps.len(),
{
    if steps.len() == 0 {
        true
    } else {
        match steps[0] {
            Step::Terminate => spawn_safe(false, steps.drop_first()),
            Step::Spawn => !live && spawn_safe(true, steps.drop_first()),
            _ => spawn_safe(live, steps.drop_first()),
        }
    }
}

/// The first path that an event names, if any.
pub open spec fn first_path(paths: Seq<String>) -> Option<String> {
    if paths.len() > 0 {
        Some(paths[0])
    } else {
        None
    }
}

/// Why watching cannot start.
pub enum SetupError {
    /// The watch path at this position does not exist.
    PathNotFound(usize),
    /// The executable does not resolve on the search path.
    CommandNotFound,
}

/// Whether every watch path exists.
pub open spec fn all_exist(paths_exist: Seq<bool>) -> bool {
    forall|i: int| 0 <= i < paths_exist.len() ==> paths_exist[i]
}

/// The settings of a supervisor, fixed when it is made.
#[derive(Clone, Copy)]
pub struct Settings {
    /// The least time, in milliseconds, between two accepted triggers; zero
    /// accepts every trigger.
    pub debounce_ms: u64,
    /// Suppress the status lines.
    pub quiet: bool,
    /// Print a separator instead of clearing the screen.
    pub no_clear: bool,
}

/// The restart decision logic: the debounce timestamp and the one child slot.
/// Both change only through `start` and `handle`.
pub struct Supervisor {
    settings: Settings,
    last_run_ms: u64,
    running: bool,
}

impl Supervisor {
    pub closed spec fn debounce(&self) -> u64 {
        self.settings.debounce_ms
    }

    pub closed spec fn quiet(&self) -> bool {
        self.settings.quiet
    }

    pub closed spec fn no_clear(&self) -> bool {
        self.settings.no_clear
    }

    /// The time of the last accepted trigger (or of the start).
    pub closed spec fn last_run(&self) -> u64 {
        self.last_run_ms
    }

    /// Whether the child slot holds a live child.
    pub closed spec fn running(&self) -> bool {
        self.running
    }

    /// Checks the setup and makes an idle supervisor, with no child yet.
    ///
    /// `paths_exist` tells, for each watch path in order, whether it exists;
    /// `command_found` whether the executable resolves on the search path.
    /// The setup fails at the first missing path, else when the command is
    /// not found.
    pub fn prepare(settings: Settings, paths_exist: &Vec<bool>, command_found: bool) -> (r: Result<
        Supervisor,
        SetupError,
    >)
        ensures
            r is Ok <==> all_exist(paths_exist@) && command_found,
            !all_exist(paths_exist@) <==> r matches Err(SetupError::PathNotFound(_)),
            r matches Err(SetupError::PathNotFound(k)) ==> k < paths_exist@.len()
                && !paths_exist@[k as int] && forall|j: int| 0 <= j < k ==> paths_exist@[j],
            r matches Ok(s) ==> {
                &&& !s.running()
                &&& s.debounce() == settings.debounce_ms
                &&& s.quiet() == settings.quiet
                &&& s.no_clear() == settings.no_clear
            },
    {
        match first_missing(paths_exist) {
            Some(k) => Err(SetupError::PathNotFound(k)),
            None => {
                if !command_found {
                    return Err(SetupError::CommandNotFound);
                }
                Ok(Supervisor { settings, last_run_ms: 0, running: false })
            },
        }
    }

    /// Whether the child slot holds a live child.
    pub fn is_running(&self) -> (r: bool)
        ensures
            r == self.running(),
    {
        self.running
    }

    /// The time of the last accepted trigger, or of the start.
    pub fn last_trigger_ms(&self) -> (r: u64)
        ensures
            r == self.last_run(),
    {
        self.last_run_ms
    }

    /// The unconditional first run: the debounce window starts at `now_ms`
    /// and one child is spawned.
    pub fn start(&mut self, now_ms: u64) -> (steps: Vec<Step>)
        requires
            !old(self).running(),
        ensures
            steps@ == seq![Step::Spawn],
            spawn_safe(false, steps@),
            final(self).running(),
            final(self).last_run() == now_ms,
            final(self).debounce() == old(self).debounce(),
            final(self).quiet() == old(self).quiet(),
            final(self).no_clear() == old(self).no_clear(),
    {
        self.last_run_ms = now_ms;
        self.running = true;
        let mut steps: Vec<Step> = Vec::new();
        steps.push(Step::Spawn);
        proof {
            reveal_with_fuel(spawn_safe, 2);
        }
        steps
    }

    /// Decides what to do about one watch event arriving at `now_ms`.
    ///
    /// A creation or modification at least the debounce interval after the
    /// last accepted trigger restarts the child and moves the window to
    /// `now_ms`; any other event leaves the state as it was.
    pub fn handle(&mut self, event: &WatchEvent, now_ms: u64) -> (r: Reaction)
        ensures
            final(self).debounce() == old(self).debounce(),
            final(self).quiet() == old(self).quiet(),
            final(self).no_clear() == old(self).no_clear(),
            match event {
                WatchEvent::Failure => r is ReportFailure && *final(self) == *old(self),
                WatchEvent::Change(e) => if accepted(
                    old(self).last_run(),
                    old(self).debounce(),
                    e.kind,
                    now_ms,
                ) {
                    &&& r matches Reaction::Restart { changed, steps }
                    &&& changed == first_path(e.paths@)
                    &&& steps@ == restart_plan(old(self).running(), old(self).quiet(), old(self).no_clear())
                    &&& spawn_safe(old(self).running(), steps@)
                    &&& live_after(old(self).running(), steps@)
                    &&& final(self).running()
                    &&& final(self).last_run() == now_ms
                } else {
                    r is Ignore && *final(self) == *old(self)
                },
            },
    {
        match event {
            WatchEvent::Failure => Reaction::ReportFailure,
            WatchEvent::Change(e) => {
                let trigger = match e.kind {
                    ChangeKind::Created => true,
                    ChangeKind::Modified => true,
                    ChangeKind::Other => false,
                };
                let since = if now_ms >= self.last_run_ms {
                    now_ms - self.last_run_ms
                } else {
                    0
                };
                if !trigger || since < self.settings.debounce_ms {
                    return Reaction::Ignore;
                }
                self.last_run_ms = now_ms;
                let changed = if e.paths.len() > 0 {
                    Some(e.paths[0].clone())
                } else {
                    None
                };
                let steps = restart_steps(self.running, self.settings.quiet, self.settings.no_clear);
                self.running = true;
                Reaction::Restart { changed, steps }
            },
        }
    }
}

/// Builds the plan of one restart.
fn restart_steps(running: bool, quiet: bool, no_clear: bool) -> (steps: Vec<Step>)
    ensures
        steps@ == restart_plan(running, quiet, no_clear),
        spawn_safe(running, steps@),
        live_after(running, steps@),
{
    let mut steps: Vec<Step> = Vec::new();
    if running {
        steps.push(Step::Terminate);
    }
    if no_clear {
        if !quiet {
            steps.push(Step::Separator);
        }
    } else {
        steps.push(Step::ClearScreen);
    }
    if !quiet {
        steps.push(Step::Announce);
        steps.push(Step::Separator);
    }
    steps.push(Step::Spawn);
    proof {
        assert(steps@ =~= restart_plan(running, quiet, no_clear));
        reveal_with_fuel(spawn_safe, 6);
        reveal_with_fuel(live_after, 6);
    }
    steps
}

/// The number of restarts that a stream of change events triggers, each
/// event given by its kind and arrival time, from a window opened at `last`.
pub open spec fn restarts(last: u64, debounce: u64, evs: Seq<(ChangeKind, u64)>) -> nat
    decreases evs.len(),
{
    if evs.len() == 0 {
        0
    } else if accepted(last, debounce, evs[0].0, evs[0].1) {
        1 + restarts(evs[0].1, debounce, evs.drop_first())
    } else {
        restarts(last, debounce, evs.drop_first())
    }
}

/// The time of the last accepted trigger after a stream of change events.
pub open spec fn window_after(last: u64, debounce: u64, evs: Seq<(ChangeKind, u64)>) -> u64
    decreases evs.len(),
{
    if evs.len() == 0 {
        last
    } else if accepted(last, debounce, evs[0].0, evs[0].1) {
        window_after(evs[0].1, debounce, evs.drop_first())
    } else {
        window_after(last, debounce, evs.drop_first())
    }
}

/// The steps that a started supervisor hands out for a stream of change events.
pub open spec fn trace(
    last: u64,
    debounce: u64,
    quiet: bool,
    no_clear: bool,
    evs: Seq<(ChangeKind, u64)>,
) -> Seq<Step>
    decreases evs.len(),
{
    if evs.len() == 0 {
        Seq::<Step>::empty()
    } else if accepted(last, debounce, evs[0].0, evs[0].1) {
        restart_plan(true, quiet, no_clear) + trace(
            evs[0].1,
            debounce,
            quiet,
            no_clear,
            evs.drop_first(),
        )
    } else {
        trace(last, debounce, quiet, no_clear, evs.drop_first())
    }
}

/// The number of `Spawn` steps in a plan.
pub open spec fn spawn_count(steps: Seq<Step>) -> nat
    decreases steps.len(),
{
    if steps.len() == 0 {
        0
    } else {
        (if steps[0] is Spawn { 1nat } else { 0nat }) + spawn_count(steps.drop_first())
    }
}

/// Arrival times that never go backwards.
pub open spec fn in_time_order(evs: Seq<(ChangeKind, u64)>) -> bool {
    forall|i: int, j: int| 0 <= i < j < evs.len() ==> evs[i].1 <= evs[j].1
}

/// Every event of the stream is a creation or a modification.
pub open spec fn all_triggers(evs: Seq<(ChangeKind, u64)>) -> bool {
    forall|i: int| 0 <= i < evs.len() ==> is_trigger(#[trigger] evs[i].0)
}

/// Events that all arrive inside the window opened at `w` trigger nothing.
proof fn lemma_inside_window(w: u64, debounce: u64, evs: Seq<(ChangeKind, u64)>)
    requires
        forall|i: int| 0 <= i < evs.len() ==> w <= #[trigger] evs[i].1 && evs[i].1 < w + debounce,
    ensures
        restarts(w, debounce, evs) == 0,
        window_after(w, debounce, evs) == w,
    decreases evs.len(),
{
    if evs.len() > 0 {
        let rest = evs.drop_first();
        assert forall|i: int| 0 <= i < rest.len() implies w <= #[trigger] rest[i].1 && rest[i].1 < w
            + debounce by {
            assert(rest[i] == evs[i + 1]);
        }
        lemma_inside_window(w, debounce, rest);
    }
}

/// A burst of triggers that arrive in order and within less than the
/// debounce interval of each other, no earlier than the open window, restarts
/// the child at most once, and exactly once when its first event falls
/// outside that window.
pub proof fn lemma_burst_restarts_once(last: u64, debounce: u64, evs: Seq<(ChangeKind, u64)>)
    requires
        evs.len() > 0,
        in_time_order(evs),
        last <= evs[0].1,
        evs.last().1 - evs[0].1 < debounce,
    ensures
        restarts(last, debounce, evs) <= 1,
        all_triggers(evs) && elapsed(last, evs[0].1) >= debounce ==> restarts(last, debounce, evs)
            == 1,
    decreases evs.len(),
{
    let rest = evs.drop_first();
    if accepted(last, debounce, evs[0].0, evs[0].1) {
        let t = evs[0].1;
        assert forall|i: int| 0 <= i < rest.len() implies t <= #[trigger] rest[i].1 && rest[i].1 < t
            + debounce by {
            assert(rest[i] == evs[i + 1]);
            assert(evs[i + 1].1 <= evs[evs.len() - 1].1);
        }
        lemma_inside_window(t, debounce, rest);
    } else if rest.len() > 0 {
        assert(rest[0] == evs[1]);
        assert(rest.last() == evs.last());
        lemma_burst_restarts_once(last, debounce, rest);
    } else {
        assert(restarts(last, debounce, rest) == 0);
    }
}

/// Triggers that arrive in order, each at least the debounce interval after
/// the one before and the first at least that long after the open window,
/// each restart the child.
pub proof fn lemma_spaced_restarts_each(last: u64, debounce: u64, evs: Seq<(ChangeKind, u64)>)
    requires
        all_triggers(evs),
        evs.len() > 0 ==> elapsed(last, evs[0].1) >= debounce,
        forall|i: int| 0 <= i < evs.len() - 1 ==> elapsed(#[trigger] evs[i].1, evs[i + 1].1) >= debounce,
    ensures
        restarts(last, debounce, evs) == evs.len(),
    decreases evs.len(),
{
    if evs.len() > 0 {
        let rest = evs.drop_first();
        assert(is_trigger(evs[0].0));
        assert forall|i: int| 0 <= i < rest.len() implies is_trigger(#[trigger] rest[i].0) by {
            assert(rest[i] == evs[i + 1]);
        }
        assert forall|i: int| 0 <= i < rest.len() - 1 implies elapsed(
            #[trigger] rest[i].1,
            rest[i + 1].1,
        ) >= debounce by {
            assert(rest[i] == evs[i + 1]);
            assert(rest[i + 1] == evs[i + 2]);
        }
        if rest.len() > 0 {
            assert(rest[0] == evs[1]);
        }
        lemma_spaced_restarts_each(evs[0].1, debounce, rest);
    }
}

/// One missing watch path, wherever it stands in the list, makes the setup
/// fail, so that no supervisor is made and no child is spawned.
pub proof fn lemma_missing_path_blocks_setup(paths_exist: Seq<bool>, k: int)
    requires
        0 <= k < paths_exist.len(),
        !paths_exist[k],
    ensures
        !all_exist(paths_exist),
{
}

/// Splitting a stream: the restarts and the window of `a + b` are those of
/// `a`, then those of `b` from the window that `a` leaves.
proof fn lemma_stream_split(
    last: u64,
    debounce: u64,
    quiet: bool,
    no_clear: bool,
    a: Seq<(ChangeKind, u64)>,
    b: Seq<(ChangeKind, u64)>,
)
    ensures
        restarts(last, debounce, a + b) == restarts(last, debounce, a) + restarts(
            window_after(last, debounce, a),
            debounce,
            b,
        ),
        window_after(last, debounce, a + b) == window_after(
            window_after(last, debounce, a),
            debounce,
            b,
        ),
        trace(last, debounce, quiet, no_clear, a + b) == trace(last, debounce, quiet, no_clear, a)
            + trace(window_after(last, debounce, a), debounce, quiet, no_clear, b),
    decreases a.len(),
{
    if a.len() == 0 {
        assert(a + b =~= b);
    } else {
        assert((a + b).drop_first() =~= a.drop_first() + b);
        assert((a + b)[0] == a[0]);
        let next = if accepted(last, debounce, a[0].0, a[0].1) {
            a[0].1
        } else {
            last
        };
        lemma_stream_split(next, debounce, quiet, no_clear, a.drop_first(), b);
        if accepted(last, debounce, a[0].0, a[0].1) {
            assert(restart_plan(true, quiet, no_clear) + (trace(
                next,
                debounce,
                quiet,
                no_clear,
                a.drop_first(),
            ) + trace(window_after(last, debounce, a), debounce, quiet, no_clear, b))
                =~= (restart_plan(true, quiet, no_clear) + trace(
                next,
                debounce,
                quiet,
                no_clear,
                a.drop_first(),
            )) + trace(window_after(last, debounce, a), debounce, quiet, no_clear, b));
        }
    }
}

/// An event that is neither a creation nor a modification changes nothing,
/// whenever it arrives: removing it from a stream leaves the restarts, the
/// window and the steps handed out as they were.
pub proof fn lemma_other_kinds_inert(
    last: u64,
    debounce: u64,
    quiet: bool,
    no_clear: bool,
    before: Seq<(ChangeKind, u64)>,
    ev: (ChangeKind, u64),
    after: Seq<(ChangeKind, u64)>,
)
    requires
        !is_trigger(ev.0),
    ensures
        restarts(last, debounce, before + seq![ev] + after) == restarts(
            last,
            debounce,
            before + after,
        ),
        window_after(last, debounce, before + seq![ev] + after) == window_after(
            last,
            debounce,
            before + after,
        ),
        trace(last, debounce, quiet, no_clear, before + seq![ev] + after) == trace(
            last,
            debounce,
            quiet,
            no_clear,
            before + after,
        ),
{
    let w = window_after(last, debounce, before);
    let tail = seq![ev] + after;
    assert(before + seq![ev] + after =~= before + tail);
    lemma_stream_split(last, debounce, quiet, no_clear, before, tail);
    lemma_stream_split(last, debounce, quiet, no_clear, before, after);
    assert(tail.drop_first() =~= after);
    assert(tail[0] == ev);
}

/// Carrying out `a` then `b`.
proof fn lemma_steps_split(live: bool, a: Seq<Step>, b: Seq<Step>)
    ensures
        spawn_safe(live, a + b) == (spawn_safe(live, a) && spawn_safe(live_after(live, a), b)),
        live_after(live, a + b) == live_after(live_after(live, a), b),
        spawn_count(a + b) == spawn_count(a) + spawn_count(b),
    decreases a.len(),
{
    if a.len() == 0 {
        assert(a + b =~= b);
    } else {
        assert((a + b).drop_first() =~= a.drop_first() + b);
        assert((a + b)[0] == a[0]);
        let next = match a[0] {
            Step::Terminate => false,
            Step::Spawn => true,
            _ => live,
        };
        lemma_steps_split(next, a.drop_first(), b);
    }
}

/// One restart of a running child spawns exactly one replacement, only after
/// the old one is gone, and leaves a child running.
proof fn lemma_restart_plan(quiet: bool, no_clear: bool)
    ensures
        spawn_safe(true, restart_plan(true, quiet, no_clear)),
        live_after(true, restart_plan(true, quiet, no_clear)),
        spawn_count(restart_plan(true, quiet, no_clear)) == 1,
{
    reveal_with_fuel(spawn_safe, 6);
    reveal_with_fuel(live_after, 6);
    reveal_with_fuel(spawn_count, 6);
}

/// What a started supervisor hands out keeps one child running.
proof fn lemma_trace_keeps_one_child(
    last: u64,
    debounce: u64,
    quiet: bool,
    no_clear: bool,
    evs: Seq<(ChangeKind, u64)>,
)
    ensures
        spawn_safe(true, trace(last, debounce, quiet, no_clear, evs)),
        live_after(true, trace(last, debounce, quiet, no_clear, evs)),
        spawn_count(trace(last, debounce, quiet, no_clear, evs)) == restarts(last, debounce, evs),
    decreases evs.len(),
{
    if evs.len() > 0 {
        let next = if accepted(last, debounce, evs[0].0, evs[0].1) {
            evs[0].1
        } else {
            last
        };
        lemma_trace_keeps_one_child(next, debounce, quiet, no_clear, evs.drop_first());
        if accepted(last, debounce, evs[0].0, evs[0].1) {
            lemma_restart_plan(quiet, no_clear);
            lemma_steps_split(
                true,
                restart_plan(true, quiet, no_clear),
                trace(next, debounce, quiet, no_clear, evs.drop_first()),
            );
        }
    }
}

/// From the first spawn on, whatever the events, no child is ever spawned
/// while another is alive, one child is alive after each event, and the
/// spawns number one more than the restarts.
pub proof fn lemma_one_child_at_a_time(
    start: u64,
    debounce: u64,
    quiet: bool,
    no_clear: bool,
    evs: Seq<(ChangeKind, u64)>,
)
    ensures
        spawn_safe(false, seq![Step::Spawn] + trace(start, debounce, quiet, no_clear, evs)),
        live_after(false, seq![Step::Spawn] + trace(start, debounce, quiet, no_clear, evs)),
        spawn_count(seq![Step::Spawn] + trace(start, debounce, quiet, no_clear, evs)) == 1
            + restarts(start, debounce, evs),
{
    lemma_trace_keeps_one_child(start, debounce, quiet, no_clear, evs);
    lemma_steps_split(false, seq![Step::Spawn], trace(start, debounce, quiet, no_clear, evs));
    reveal_with_fuel(spawn_safe, 2);
    reveal_with_fuel(live_after, 2);
    reveal_with_fuel(spawn_count, 2);
}

/// With no change event at all, the start spawns exactly one child, which
/// stays alive.
pub proof fn lemma_no_events_single_run(start: u64, debounce: u64, quiet: bool, no_clear: bool)
    ensures
        spawn_count(seq![Step::Spawn] + trace(start, debounce, quiet, no_clear, seq![])) == 1,
        live_after(false, seq![Step::Spawn] + trace(start, debounce, quiet, no_clear, seq![])),
{
    lemma_one_child_at_a_time(start, debounce, quiet, no_clear, seq![]);
}

} // verus!
