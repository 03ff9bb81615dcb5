use vstd::prelude::*;

verus! {

/// The abstract state of a stopwatch: whole seconds counted and the running flag.
pub struct StopwatchView {
    pub length: nat,
    pub is_running: bool,
}

impl StopwatchView {
    pub open spec fn started(self) -> StopwatchView {
        StopwatchView { is_running: true, ..self }
    }

    pub open spec fn stopped(self) -> StopwatchView {
        StopwatchView { is_running: false, ..self }
    }

    pub open spec fn advanced(self, n: nat) -> StopwatchView {
        StopwatchView { length: self.length + n, ..self }
    }

    /// The state after advancing by each amount of `ns` in turn.
    pub open spec fn after_advances(self, ns: Seq<u64>) -> StopwatchView
        decreases ns.len(),
    {
        if ns.len() == 0 {
            self
        } else {
            self.after_advances(ns.drop_last()).advanced(ns.last() as nat)
        }
    }
}

/// The state every reset leads to.
pub open spec fn reset_view() -> StopwatchView {
    StopwatchView { length: 0, is_running: false }
}

pub open spec fn seq_sum(ns: Seq<u64>) -> nat
    decreases ns.len(),
{
    if ns.len() == 0 {
        0
    } else {
        seq_sum(ns.drop_last()) + ns.last() as nat
    }
}

/// Counts whole seconds; time only moves forward through `advance`.
pub struct Stopwatch {
    length: u64,
    is_running: bool,
}

impl View for Stopwatch {
    type V = StopwatchView;

    closed spec fn view(&self) -> StopwatchView {
        StopwatchView { length: self.length as nat, is_running: self.is_running }
    }
}

impl Stopwatch {
    pub fn new() -> (r: Stopwatch)
        ensures
            r@ == reset_view(),
    {
        Stopwatch { length: 0, is_running: false }
    }

    /// Seconds counted since the last reset.
    pub fn get_length_as_uint(&self) -> (r: u64)
        ensures
            r as nat == self@.length,
    {
        self.length
    }

    pub fn is_running(&self) -> (r: bool)
        ensures
            r == self@.is_running,
    {
        self.is_running
    }

    /// Adds `num_seconds` whether or not the stopwatch runs.
    pub fn advance(&mut self, num_seconds: u64)
        requires
            old(self)@.length + num_seconds <= u64::MAX,
        ensures
            final(self)@ == old(self)@.advanced(num_seconds as nat),
    {
        self.length = self.length + num_seconds;
    }

    pub fn start(&mut self)
        ensures
            final(self)@ == old(self)@.started(),
    {
        self.is_running = true;
    }

    pub fn stop(&mut self)
        ensures
            final(self)@ == old(self)@.stopped(),
    {
        self.is_running = false;
    }

    pub fn reset(&mut self)
        ensures
            final(self)@ == reset_view(),
    {
        self.is_running = false;
        self.length = 0;
    }
}

/// Advances add up: after any run of advances, the seconds counted are those
/// counted before plus the sum of the amounts, and the running flag is untouched.
/// In particular, since the last reset the count is exactly the sum of the advances.
pub proof fn lemma_elapsed_is_sum_of_advances(s: StopwatchView, ns: Seq<u64>)
    ensures
        s.after_advances(ns).length == s.length + seq_sum(ns),
        s.after_advances(ns).is_running == s.is_running,
        reset_view().started().after_advances(ns).length == seq_sum(ns),
    decreases ns.len(),
{
    if ns.len() > 0 {
        lemma_elapsed_is_sum_of_advances(s, ns.drop_last());
    } else {
    }
    lemma_reset_advances(ns);
}

proof fn lemma_reset_advances(ns: Seq<u64>)
    ensures
        reset_view().started().after_advances(ns).length == seq_sum(ns),
    decreases ns.len(),
{
    if ns.len() > 0 {
        lemma_reset_advances(ns.drop_last());
    }
}

} // verus!
