use crate::classify::{classify_uav, is_classification, unknown_label, ZERO_SCORE};
use crate::subscribers::SubscriberSet;
use crate::window::{keep_last, SignalWindow, WINDOW_SIZE};
use vstd::prelude::*;

verus! {

/// Fewest samples the spectral transform accepts.
pub const MIN_SAMPLES: usize = 2;

/// How often a tick fires, in milliseconds.
pub const DETECTION_INTERVAL_MS: u64 = 500;

/// Samples per second, for the live window and the reference recordings alike.
pub const SAMPLE_RATE: u32 = 62_500;

/// The result of one analysis pass: the similarity score (a single-precision
/// bit pattern), the time it was computed in milliseconds since the epoch,
/// and the best-matching emitter label.
pub struct DetectionInfo {
    score: u32,
    timestamp: u64,
    uav_type: String,
}

impl DetectionInfo {
    pub closed spec fn score_spec(&self) -> u32 {
        self.score
    }

    pub closed spec fn timestamp_spec(&self) -> u64 {
        self.timestamp
    }

    pub closed spec fn label_spec(&self) -> Seq<char> {
        self.uav_type@
    }

    /// The record before any analysis: score `+0.0`, time zero, `"Unknown"`.
    pub fn new() -> (r: Self)
        ensures
            r.score_spec() == ZERO_SCORE,
            r.timestamp_spec() == 0,
            r.label_spec() == unknown_label(),
    {
        proof {
            reveal_strlit("Unknown");
        }
        let r = DetectionInfo { score: ZERO_SCORE, timestamp: 0, uav_type: "Unknown".to_owned() };
        assert(r.uav_type@ =~= unknown_label());
        r
    }

    pub fn from_parts(score: u32, timestamp: u64, uav_type: String) -> (r: Self)
        ensures
            r.score_spec() == score,
            r.timestamp_spec() == timestamp,
            r.label_spec() == uav_type@,
    {
        DetectionInfo { score, timestamp, uav_type }
    }

    /// The record for a live spectrum whose similarity to reference
    /// `names[i]` is `scores[i]`, stamped with `timestamp`.
    pub fn calculate(names: &Vec<String>, scores: &Vec<u32>, timestamp: u64) -> (r: Self)
        requires
            names@.len() == scores@.len(),
        ensures
            is_classification(names@, scores@, r.label_spec(), r.score_spec()),
            r.timestamp_spec() == timestamp,
    {
        let (uav_type, score) = classify_uav(names, scores);
        DetectionInfo { score, timestamp, uav_type }
    }

    pub fn score(&self) -> (r: u32)
        ensures
            r == self.score_spec(),
    {
        self.score
    }

    pub fn timestamp(&self) -> (r: u64)
        ensures
            r == self.timestamp_spec(),
    {
        self.timestamp
    }

    pub fn uav_type(&self) -> (r: &String)
        ensures
            r@ == self.label_spec(),
    {
        &self.uav_type
    }
}

/// What the timer loop does after a tick.
pub enum TickAction {
    /// Nothing: too little data this time.
    Skip,
    /// Send `record` to each of `recipients`.
    Broadcast { record: DetectionInfo, recipients: Vec<u64> },
}

/// The processing state: the signal window and the live subscribers. Every
/// change goes through one owner, one message at a time.
pub struct ProcessingActor {
    signal_window: SignalWindow,
    subscribers: SubscriberSet,
}

impl ProcessingActor {
    pub closed spec fn wf(&self) -> bool {
        self.signal_window.wf() && self.subscribers.wf()
    }

    /// The samples in the window, oldest first.
    pub closed spec fn window(&self) -> Seq<u32> {
        self.signal_window@
    }

    pub closed spec fn capacity(&self) -> nat {
        self.signal_window.capacity()
    }

    pub closed spec fn subscribers(&self) -> Set<u64> {
        self.subscribers@
    }

    /// A processor whose window holds `WINDOW_SIZE` samples.
    pub fn new() -> (p: Self)
        ensures
            p.wf(),
            p.window() == Seq::<u32>::empty(),
            p.capacity() == WINDOW_SIZE,
            p.subscribers() == Set::<u64>::empty(),
    {
        Self::with_window_size(WINDOW_SIZE)
    }

    pub fn with_window_size(window_size: usize) -> (p: Self)
        ensures
            p.wf(),
            p.window() == Seq::<u32>::empty(),
            p.capacity() == window_size,
            p.subscribers() == Set::<u64>::empty(),
    {
        ProcessingActor {
            signal_window: SignalWindow::new(window_size),
            subscribers: SubscriberSet::new(),
        }
    }

    /// The window's contents, without changing them.
    pub fn get_samples(&self) -> (r: Vec<u32>)
        requires
            self.wf(),
        ensures
            r@ == self.window(),
    {
        self.signal_window.drain()
    }

    pub fn clear_samples(&mut self)
        requires
            old(self).wf(),
        ensures
            final(self).wf(),
            final(self).window() == Seq::<u32>::empty(),
            final(self).capacity() == old(self).capacity(),
            final(self).subscribers() == old(self).subscribers(),
    {
        self.signal_window.clear();
    }

    /// Appends a batch of samples, evicting the oldest beyond capacity.
    pub fn add_samples(&mut self, samples: &[u32])
        requires
            old(self).wf(),
        ensures
            final(self).wf(),
            final(self).window() == keep_last(old(self).window() + samples@, old(self).capacity()),
            final(self).capacity() == old(self).capacity(),
            final(self).subscribers() == old(self).subscribers(),
    {
        self.signal_window.add_samples(samples);
    }

    pub fn subscribe(&mut self, handle: u64)
        requires
            old(self).wf(),
        ensures
            final(self).wf(),
            final(self).subscribers() == old(self).subscribers().insert(handle),
            final(self).window() == old(self).window(),
            final(self).capacity() == old(self).capacity(),
    {
        self.subscribers.subscribe(handle);
    }

    pub fn unsubscribe(&mut self, handle: u64)
        requires
            old(self).wf(),
        ensures
            final(self).wf(),
            final(self).subscribers() == old(self).subscribers().remove(handle),
            final(self).window() == old(self).window(),
            final(self).capacity() == old(self).capacity(),
    {
        self.subscribers.unsubscribe(handle);
    }

    pub fn subscriber_count(&self) -> (r: usize)
        requires
            self.wf(),
        ensures
            r == self.subscribers().len(),
    {
        self.subscribers.len()
    }

    /// The samples to analyse at a tick, or `None` when there are fewer than
    /// `MIN_SAMPLES` of them.
    pub fn tick_input(&self) -> (r: Option<Vec<u32>>)
        requires
            self.wf(),
        ensures
            r is None <==> self.window().len() < MIN_SAMPLES,
            r matches Some(s) ==> s@ == self.window(),
    {
        if self.signal_window.len() < MIN_SAMPLES {
            None
        } else {
            Some(self.signal_window.drain())
        }
    }

    /// Ends a tick. Without a record (the analysis was skipped) nothing
    /// changes; with one, it goes to every current subscriber and the window
    /// is cleared.
    pub fn complete_tick(&mut self, record: Option<DetectionInfo>) -> (r: TickAction)
        requires
            old(self).wf(),
        ensures
            final(self).wf(),
            final(self).capacity() == old(self).capacity(),
            final(self).subscribers() == old(self).subscribers(),
            record is None ==> r is Skip && final(self).window() == old(self).window(),
            record is Some ==> final(self).window() == Seq::<u32>::empty(),
            record is Some ==> (r matches TickAction::Broadcast { record: sent, recipients }
                && sent == record->0 && recipients@.no_duplicates() && recipients@.to_set()
                == old(self).subscribers()),
    {
        match record {
            None => TickAction::Skip,
            Some(record) => {
                let recipients = self.subscribers.snapshot();
                self.signal_window.clear();
                TickAction::Broadcast { record, recipients }
            },
        }
    }
}

} // verus!
