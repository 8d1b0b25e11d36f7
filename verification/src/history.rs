//! Tool invocation records and the append-oriented, size-bounded call log.

use vstd::prelude::*;

use crate::bridge;

verus! {

/// Mathematical model of a tool call outcome.
pub ghost enum ToolCallResultV {
    Success(Seq<char>),
    Error(Seq<char>),
}

/// Outcome of a tool execution.  A successful call carries the JSON text of
/// its result value; a failed one carries the error message.
#[derive(Debug)]
pub enum ToolCallResult {
    Success(String),
    Error(String),
}

impl View for ToolCallResult {
    type V = ToolCallResultV;

    open spec fn view(&self) -> ToolCallResultV {
        match self {
            ToolCallResult::Success(v) => ToolCallResultV::Success(v@),
            ToolCallResult::Error(m) => ToolCallResultV::Error(m@),
        }
    }
}

impl Clone for ToolCallResult {
    fn clone(&self) -> (r: Self)
        ensures
            r@ == self@,
    {
        match self {
            ToolCallResult::Success(v) => ToolCallResult::Success(v.clone()),
            ToolCallResult::Error(m) => ToolCallResult::Error(m.clone()),
        }
    }
}

/// Mathematical model of a tool call record.
pub ghost struct ToolCallV {
    pub id: u128,
    pub name: Seq<char>,
    pub tool_name: Seq<char>,
    pub arguments: Seq<char>,
    pub timestamp: i64,
    pub duration_ms: Option<u64>,
    pub result: Option<ToolCallResultV>,
    pub result_string: Option<Seq<char>>,
    pub success: bool,
    pub error: Option<Seq<char>>,
}

/// Record of one tool call execution.
///
/// A record is constructed in a pending shape by [`ToolCall::new`], turned
/// into a completed shape by [`ToolCall::complete`] once the tool returned,
/// and then appended to a [`CallHistory`], after which it is never mutated.
#[derive(Debug)]
pub struct ToolCall {
    /// Unique identifier for this tool call.
    pub id: u128,
    /// Name of the tool that was called.
    pub name: String,
    /// Second copy of the tool name, kept for callers that read it under
    /// this field.
    pub tool_name: String,
    /// JSON text of the arguments passed to the tool.
    pub arguments: String,
    /// When the tool was called, in milliseconds since the Unix epoch.
    pub timestamp: i64,
    /// How long the tool took to execute, in milliseconds.
    pub duration_ms: Option<u64>,
    /// Outcome of the execution, absent while the call is pending.
    pub result: Option<ToolCallResult>,
    /// Rendering of a successful result.
    pub result_string: Option<String>,
    /// Whether the execution succeeded.
    pub success: bool,
    /// Error message of a failed execution.
    pub error: Option<String>,
}

impl View for ToolCall {
    type V = ToolCallV;

    open spec fn view(&self) -> ToolCallV {
        ToolCallV {
            id: self.id,
            name: self.name@,
            tool_name: self.tool_name@,
            arguments: self.arguments@,
            timestamp: self.timestamp,
            duration_ms: self.duration_ms,
            result: match self.result {
                Some(r) => Some(r@),
                None => None,
            },
            result_string: match self.result_string {
                Some(s) => Some(s@),
                None => None,
            },
            success: self.success,
            error: match self.error {
                Some(e) => Some(e@),
                None => None,
            },
        }
    }
}

impl Clone for ToolCall {
    fn clone(&self) -> (r: Self)
        ensures
            r@ == self@,
    {
        ToolCall {
            id: self.id,
            name: self.name.clone(),
            tool_name: self.tool_name.clone(),
            arguments: self.arguments.clone(),
            timestamp: self.timestamp,
            duration_ms: self.duration_ms,
            result: match &self.result {
                Some(r) => Some(r.clone()),
                None => None,
            },
            result_string: match &self.result_string {
                Some(s) => Some(s.clone()),
                None => None,
            },
            success: self.success,
            error: match &self.error {
                Some(e) => Some(e.clone()),
                None => None,
            },
        }
    }
}

impl ToolCall {
    /// Creates a pending record with a fresh random identifier and the
    /// current time.
    pub fn new(name: String, arguments: String) -> (r: Self)
        ensures
            r@.name == name@,
            r@.tool_name == name@,
            r@.arguments == arguments@,
            r@.duration_ms is None,
            r@.result is None,
            r@.result_string is None,
            !r@.success,
            r@.error is None,
    {
        let tool_name = name.clone();
        ToolCall {
            id: bridge::uuid_new_v4(),
            name,
            tool_name,
            arguments,
            timestamp: bridge::now_millis(),
            duration_ms: None,
            result: None,
            result_string: None,
            success: false,
            error: None,
        }
    }

    /// Turns a pending record into a completed one: stores the outcome and
    /// the duration, and derives the success flag, the result rendering and
    /// the error message from the outcome.
    pub fn complete(self, result: ToolCallResult, duration_ms: u64) -> (r: Self)
        ensures
            r@.id == self@.id,
            r@.name == self@.name,
            r@.tool_name == self@.tool_name,
            r@.arguments == self@.arguments,
            r@.timestamp == self@.timestamp,
            r@.duration_ms == Some(duration_ms),
            r@.result == Some(result@),
            match result@ {
                ToolCallResultV::Success(v) => r@.success && r@.result_string == Some(v)
                    && r@.error is None,
                ToolCallResultV::Error(m) => !r@.success && r@.result_string is None && r@.error
                    == Some(m),
            },
    {
        let mut r = self;
        r.duration_ms = Some(duration_ms);
        match result {
            ToolCallResult::Success(value) => {
                let rendered = value.clone();
                r.result = Some(ToolCallResult::Success(value));
                r.success = true;
                r.result_string = Some(rendered);
                r.error = None;
            },
            ToolCallResult::Error(msg) => {
                let kept = msg.clone();
                r.result = Some(ToolCallResult::Error(msg));
                r.success = false;
                r.result_string = None;
                r.error = Some(kept);
            },
        }
        r
    }
}

/// What appending one record to the log yields: the record goes to the end,
/// and when a retention cap is set the oldest records beyond the cap are
/// evicted first.
pub open spec fn spec_append(h: Seq<ToolCallV>, cap: Option<usize>, c: ToolCallV) -> Seq<
    ToolCallV,
> {
    match cap {
        None => h.push(c),
        Some(k) => if h.len() < k {
            h.push(c)
        } else if k == 0 {
            h
        } else {
            h.drop_first().push(c)
        },
    }
}

/// How many of the records report a successful execution.
pub open spec fn spec_success_count(s: Seq<ToolCallV>) -> nat
    decreases s.len(),
{
    if s.len() == 0 {
        0
    } else {
        spec_success_count(s.drop_last()) + if s.last().success {
            1nat
        } else {
            0nat
        }
    }
}

/// Append-oriented log of tool call records.  Total order is append order;
/// with a retention cap set, the oldest records are evicted first.
#[derive(Debug)]
pub struct CallHistory {
    calls: Vec<ToolCall>,
    cap: Option<usize>,
}

impl View for CallHistory {
    type V = Seq<ToolCallV>;

    closed spec fn view(&self) -> Seq<ToolCallV> {
        Seq::new(self.calls@.len(), |i: int| self.calls@[i]@)
    }
}

impl CallHistory {
    /// The configured retention cap, if any.
    pub closed spec fn retention_cap(&self) -> Option<usize> {
        self.cap
    }

    /// The log never holds more records than its retention cap.
    pub closed spec fn wf(&self) -> bool {
        match self.cap {
            Some(k) => self@.len() <= k,
            None => true,
        }
    }

    /// An unbounded log.
    pub fn new() -> (r: Self)
        ensures
            r@ == Seq::<ToolCallV>::empty(),
            r.retention_cap() is None,
            r.wf(),
    {
        CallHistory { calls: Vec::new(), cap: None }
    }

    /// A log that retains at most `cap` records.
    pub fn with_cap(cap: usize) -> (r: Self)
        ensures
            r@ == Seq::<ToolCallV>::empty(),
            r.retention_cap() == Some(cap),
            r.wf(),
    {
        CallHistory { calls: Vec::new(), cap: Some(cap) }
    }

    /// Number of retained records.
    pub fn len(&self) -> (r: usize)
        ensures
            r == self@.len(),
    {
        self.calls.len()
    }

    /// Appends a record, evicting the oldest one when the log is at its cap.
    pub fn append(&mut self, call: ToolCall)
        requires
            old(self).wf(),
        ensures
            final(self)@ == spec_append(old(self)@, old(self).retention_cap(), call@),
            final(self).retention_cap() == old(self).retention_cap(),
            final(self).wf(),
    {
        match self.cap {
            Some(k) => {
                if self.calls.len() >= k {
                    if k == 0 {
                        assert(self@ =~= spec_append(self@, self.cap, call@));
                        return ;
                    }
                    let ghost pre = self@;
                    self.calls.remove(0);
                    assert(self@ =~= pre.drop_first());
                    let ghost mid = self@;
                    self.calls.push(call);
                    assert(self@ =~= mid.push(call@));
                } else {
                    let ghost pre = self@;
                    self.calls.push(call);
                    assert(self@ =~= pre.push(call@));
                }
            },
            None => {
                let ghost pre = self@;
                self.calls.push(call);
                assert(self@ =~= pre.push(call@));
            },
        }
    }

    /// How many retained records report a successful execution.
    pub fn success_count(&self) -> (r: usize)
        ensures
            r == spec_success_count(self@),
    {
        let mut i: usize = 0;
        let mut n: usize = 0;
        while i < self.calls.len()
            invariant
                i <= self@.len(),
                n == spec_success_count(self@.take(i as int)),
                n <= i,
            decreases self@.len() - i,
        {
            proof {
                assert(self@.take(i + 1).drop_last() =~= self@.take(i as int));
                assert(self@.take(i + 1).last() == self@[i as int]);
            }
            if self.calls[i].success {
                n = n + 1;
            }
            i = i + 1;
        }
        proof {
            assert(self@.take(self@.len() as int) =~= self@);
        }
        n
    }

    /// Up to `n` of the most recently appended records, newest first.
    pub fn recent(&self, n: usize) -> (r: Vec<ToolCall>)
        ensures
            r@.len() == vstd::math::min(n as int, self@.len() as int),
            forall|i: int| 0 <= i < r@.len() ==> r@[i]@ == self@[self@.len() - 1 - i],
    {
        let mut r: Vec<ToolCall> = Vec::new();
        let total = self.calls.len();
        let take = if n < total {
            n
        } else {
            total
        };
        let mut i: usize = 0;
        while i < take
            invariant
                take <= total,
                total == self@.len(),
                i <= take,
                r@.len() == i,
                forall|j: int| 0 <= j < i ==> r@[j]@ == self@[self@.len() - 1 - j],
            decreases take - i,
        {
            let c = self.calls[total - 1 - i].clone();
            r.push(c);
            i = i + 1;
        }
        r
    }
}

} // verus!
