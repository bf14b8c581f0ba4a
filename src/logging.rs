//! A fixed-capacity ring buffer that keeps the most recent entries, and the
//! log controller that keeps the most recent logs in it.
use vstd::prelude::*;

verus! {

/// A buffer that can be pushed to without end: once it holds `capacity`
/// entries, each push replaces the oldest one.
#[derive(Debug)]
pub struct RingBuffer<T> {
    buffer: Vec<T>,
    /// Position of the most recently pushed entry.
    curr_index: usize,
    cap: usize,
}

impl<T> View for RingBuffer<T> {
    /// The entries, oldest first.
    type V = Seq<T>;

    closed spec fn view(&self) -> Seq<T> {
        if self.buffer@.len() < self.cap {
            self.buffer@
        } else {
            self.buffer@.subrange(self.curr_index + 1, self.cap as int) + self.buffer@.subrange(0, self.curr_index + 1)
        }
    }
}

/// The entries after pushing `value` onto `s` in a buffer of capacity `cap`.
pub open spec fn pushed<T>(s: Seq<T>, cap: nat, value: T) -> Seq<T> {
    if s.len() < cap {
        s.push(value)
    } else {
        s.drop_first().push(value)
    }
}

impl<T> RingBuffer<T> {
    pub closed spec fn wf(&self) -> bool {
        &&& self.cap >= 1
        &&& self.buffer@.len() <= self.cap
        &&& self.curr_index < self.cap
        &&& self.buffer@.len() < self.cap ==> if self.buffer@.len() == 0 {
            self.curr_index == self.cap - 1
        } else {
            self.curr_index == self.buffer@.len() - 1
        }
    }

    /// The capacity.
    pub closed spec fn spec_capacity(&self) -> nat {
        self.cap as nat
    }

    /// A buffer for at most `capacity` entries; a capacity of 0 is taken as 1.
    pub fn new(capacity: usize) -> (r: RingBuffer<T>)
        ensures
            r.wf(),
            r@ == Seq::<T>::empty(),
            r.spec_capacity() == if capacity > 0 { capacity as nat } else { 1 },
            r.spec_capacity() >= 1,
    {
        let cap = if capacity > 0 { capacity } else { 1 };
        RingBuffer { buffer: Vec::new(), curr_index: cap - 1, cap }
    }

    /// Adds an entry; when the buffer is full the oldest entry goes.
    pub fn push(&mut self, value: T)
        requires
            old(self).wf(),
        ensures
            final(self).wf(),
            final(self).spec_capacity() == old(self).spec_capacity(),
            final(self)@ == pushed(old(self)@, old(self).spec_capacity(), value),
            old(self)@.len() <= old(self).spec_capacity(),
            final(self)@.len() <= final(self).spec_capacity(),
    {
        let ghost old_b = self.buffer@;
        let ghost c = self.curr_index as int;
        let ghost cap = self.cap as int;
        self.curr_index = if self.curr_index + 1 == self.cap { 0 } else { self.curr_index + 1 };
        if self.buffer.len() == self.cap {
            self.buffer.set(self.curr_index, value);
            proof {
                let b = self.buffer@;
                let s = old_b.subrange(c + 1, cap) + old_b.subrange(0, c + 1);
                if c + 1 == cap {
                    assert(s =~= old_b);
                    assert(b.subrange(1, cap) + b.subrange(0, 1) =~= s.drop_first().push(value));
                } else {
                    assert(b.subrange(c + 2, cap) + b.subrange(0, c + 2) =~= s.drop_first().push(value));
                }
            }
        } else {
            self.buffer.push(value);
            proof {
                let b = self.buffer@;
                if b.len() == cap {
                    assert(b.subrange(cap, cap) + b.subrange(0, cap) =~= b);
                }
            }
        }
    }

    /// Number of entries held.
    pub fn len(&self) -> (r: usize)
        requires
            self.wf(),
        ensures
            r == self@.len(),
            r <= self.spec_capacity(),
    {
        self.buffer.len()
    }

    pub fn is_empty(&self) -> (r: bool)
        requires
            self.wf(),
        ensures
            r == (self@.len() == 0),
    {
        self.buffer.len() == 0
    }

    pub fn capacity(&self) -> (r: usize)
        requires
            self.wf(),
        ensures
            r == self.spec_capacity(),
    {
        self.cap
    }

    /// The `i`-th oldest entry.
    pub fn get(&self, i: usize) -> (r: Option<&T>)
        requires
            self.wf(),
        ensures
            r == if i < self@.len() { Some(&self@[i as int]) } else { None },
    {
        let len = self.buffer.len();
        if i >= len {
            return None;
        }
        if len < self.cap {
            Some(&self.buffer[i])
        } else {
            let head = self.cap - (self.curr_index + 1);
            if i < head {
                Some(&self.buffer[self.curr_index + 1 + i])
            } else {
                Some(&self.buffer[i - head])
            }
        }
    }

    /// The entries, newest first.
    pub fn iter(&self) -> (r: Vec<&T>)
        requires
            self.wf(),
        ensures
            r@.len() == self@.len(),
            forall|i: int| 0 <= i < self@.len() ==> *r@[i] == self@[self@.len() - 1 - i],
    {
        let len = self.len();
        let mut out: Vec<&T> = Vec::new();
        let mut i: usize = 0;
        while i < len
            invariant
                self.wf(),
                len == self@.len(),
                i <= len,
                out@.len() == i,
                forall|j: int| 0 <= j < i ==> *out@[j] == self@[len - 1 - j],
            decreases len - i,
        {
            match self.get(len - 1 - i) {
                Some(x) => out.push(x),
                None => {},
            }
            i = i + 1;
        }
        out
    }

    /// The most recent `max_index + 1` entries (all of them when there are
    /// fewer, or when `max_index` is `None`), oldest first.
    pub fn rev_iter(&self, max_index: Option<usize>) -> (r: Vec<&T>)
        requires
            self.wf(),
        ensures
            ({
                let k = match max_index {
                    Some(x) => if x < self@.len() { x + 1 } else { self@.len() as int },
                    None => self@.len() as int,
                };
                &&& r@.len() == k
                &&& forall|i: int| 0 <= i < k ==> *r@[i] == self@[self@.len() - k + i]
            }),
    {
        let len = self.len();
        let k: usize = match max_index {
            Some(x) => if x < len { x + 1 } else { len },
            None => len,
        };
        let start = len - k;
        let mut out: Vec<&T> = Vec::new();
        let mut i: usize = 0;
        while i < k
            invariant
                self.wf(),
                len == self@.len(),
                k <= len,
                start == len - k,
                i <= k,
                out@.len() == i,
                forall|j: int| 0 <= j < i ==> *out@[j] == self@[start + j],
            decreases k - i,
        {
            match self.get(start + i) {
                Some(x) => out.push(x),
                None => {},
            }
            i = i + 1;
        }
        out
    }
}

/// Severity of a log.
#[derive(Debug, Clone, Copy, PartialEq, Eq, Structural)]
pub enum LogType {
    Debug,
    Standard,
    Warning,
    Error,
}

/// Subsystem that a log concerns.
#[derive(Debug, Clone, Copy, PartialEq, Eq, Structural)]
pub enum LogCategory {
    Unknown,
    Other,
    Sensors,
    Valves,
    Sequences,
}

/// One log entry. `time_stamp` is in milliseconds since the Unix epoch.
#[derive(Debug, Clone, PartialEq, Eq)]
pub struct Log {
    pub log_type: LogType,
    pub log_category: LogCategory,
    pub time_stamp: u64,
    pub source: String,
    pub header: String,
    pub contents: String,
}

/// Capacity of a controller's history unless chosen otherwise.
pub const DEFAULT_LOGS_CONTROLLER_CAPACITY: usize = 1024;

/// Keeps the most recent logs of a source and counts every log received.
#[derive(Debug)]
pub struct LogsController {
    log_history: RingBuffer<Log>,
    log_file: String,
    source_name: String,
    logs_received: usize,
}

impl LogsController {
    pub closed spec fn wf(&self) -> bool {
        self.log_history.wf()
    }

    /// The logs held, oldest first.
    pub closed spec fn history(&self) -> Seq<Log> {
        self.log_history@
    }

    pub closed spec fn spec_capacity(&self) -> nat {
        self.log_history.spec_capacity()
    }

    pub closed spec fn spec_count(&self) -> nat {
        self.logs_received as nat
    }

    /// The source that this controller's own logs carry.
    pub closed spec fn source(&self) -> String {
        self.source_name
    }

    pub closed spec fn spec_file(&self) -> Seq<char> {
        self.log_file@
    }

    /// A controller whose history holds `capacity` logs (at least one),
    /// for logs written to `file_path`, with `source_name` as the source of
    /// its own logs.
    pub fn with_capacity(capacity: usize, file_path: String, source_name: String) -> (r: LogsController)
        ensures
            r.wf(),
            r.history() == Seq::<Log>::empty(),
            r.spec_capacity() == if capacity > 0 { capacity as nat } else { 1 },
            r.spec_count() == 0,
            r.source() == source_name,
            r.spec_file() == file_path@,
    {
        LogsController {
            log_history: RingBuffer::new(capacity),
            log_file: file_path,
            source_name,
            logs_received: 0,
        }
    }

    /// A controller with the default history capacity.
    pub fn new(file_path: String, source_name: String) -> (r: LogsController)
        ensures
            r.wf(),
            r.history() == Seq::<Log>::empty(),
            r.spec_capacity() == DEFAULT_LOGS_CONTROLLER_CAPACITY,
            r.spec_count() == 0,
            r.source() == source_name,
            r.spec_file() == file_path@,
    {
        Self::with_capacity(DEFAULT_LOGS_CONTROLLER_CAPACITY, file_path, source_name)
    }

    /// Records a log. The count of logs received stops at its maximum.
    pub fn log(&mut self, log: Log)
        requires
            old(self).wf(),
        ensures
            final(self).wf(),
            final(self).history() == pushed(old(self).history(), old(self).spec_capacity(), log),
            old(self).history().len() <= old(self).spec_capacity(),
            final(self).history().len() <= final(self).spec_capacity(),
            final(self).spec_capacity() == old(self).spec_capacity(),
            final(self).spec_count() == if old(self).spec_count() < usize::MAX {
                old(self).spec_count() + 1
            } else {
                old(self).spec_count()
            },
            final(self).source() == old(self).source(),
            final(self).spec_file() == old(self).spec_file(),
    {
        self.log_history.push(log);
        if self.logs_received < usize::MAX {
            self.logs_received = self.logs_received + 1;
        }
    }

    /// Records a log from `source` made at `time_stamp`.
    pub fn log_now(
        &mut self,
        log_type: LogType,
        log_category: LogCategory,
        time_stamp: u64,
        source: String,
        header: String,
        contents: String,
    )
        requires
            old(self).wf(),
        ensures
            final(self).wf(),
            final(self).history() == pushed(
                old(self).history(),
                old(self).spec_capacity(),
                Log { log_type, log_category, time_stamp, source, header, contents },
            ),
            final(self).spec_capacity() == old(self).spec_capacity(),
            final(self).spec_count() == if old(self).spec_count() < usize::MAX {
                old(self).spec_count() + 1
            } else {
                old(self).spec_count()
            },
            final(self).source() == old(self).source(),
    {
        self.log(Log { log_type, log_category, time_stamp, source, header, contents })
    }

    /// Records a log of this controller's own source made at `time_stamp`.
    pub fn log_here(
        &mut self,
        log_type: LogType,
        log_category: LogCategory,
        time_stamp: u64,
        header: String,
        contents: String,
    )
        requires
            old(self).wf(),
        ensures
            final(self).wf(),
            final(self).history() == pushed(
                old(self).history(),
                old(self).spec_capacity(),
                Log { log_type, log_category, time_stamp, source: old(self).source(), header, contents },
            ),
            final(self).spec_capacity() == old(self).spec_capacity(),
            final(self).spec_count() == if old(self).spec_count() < usize::MAX {
                old(self).spec_count() + 1
            } else {
                old(self).spec_count()
            },
            final(self).source() == old(self).source(),
    {
        let source = self.source_name.clone();
        self.log(Log { log_type, log_category, time_stamp, source, header, contents })
    }

    /// The logs held, newest first.
    pub fn iter(&self) -> (r: Vec<&Log>)
        requires
            self.wf(),
        ensures
            r@.len() == self.history().len(),
            forall|i: int| 0 <= i < self.history().len() ==> *r@[i] == self.history()[self.history().len() - 1 - i],
    {
        self.log_history.iter()
    }

    /// The most recent `max_index + 1` logs (all of them when there are
    /// fewer, or when `max_index` is `None`), oldest first.
    pub fn rev_iter(&self, max_index: Option<usize>) -> (r: Vec<&Log>)
        requires
            self.wf(),
        ensures
            ({
                let h = self.history();
                let k = match max_index {
                    Some(x) => if x < h.len() { x + 1 } else { h.len() as int },
                    None => h.len() as int,
                };
                &&& r@.len() == k
                &&& forall|i: int| 0 <= i < k ==> *r@[i] == h[h.len() - k + i]
            }),
    {
        self.log_history.rev_iter(max_index)
    }

    /// Whether logs arrived since the count was `last_known_log_count`.
    pub fn updated_since(&self, last_known_log_count: usize) -> (r: bool)
        ensures
            r == (last_known_log_count != self.spec_count()),
    {
        last_known_log_count != self.logs_received
    }

    /// Number of logs received.
    pub fn log_count(&self) -> (r: usize)
        ensures
            r == self.spec_count(),
    {
        self.logs_received
    }
}

} // verus!
