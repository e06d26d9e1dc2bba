//! Text delta windows: the chunks of a byte-level diff, and the content
//! that they rebuild when they are applied in the order received.

use vstd::prelude::*;

verus! {

/// Where an instruction takes its bytes from.
#[derive(Clone, Copy, Debug, PartialEq, Eq, Structural)]
pub enum DeltaAction {
    /// From the source view.
    Source,
    /// From the part of the target view that is already written.
    Target,
    /// From the new data that the window carries.
    New,
}

impl DeltaAction {
    pub open spec fn code(self) -> int {
        match self {
            DeltaAction::Source => 0,
            DeltaAction::Target => 1,
            DeltaAction::New => 2,
        }
    }

    pub fn to_code(self) -> (code: i32)
        ensures
            code == self.code(),
    {
        match self {
            DeltaAction::Source => 0,
            DeltaAction::Target => 1,
            DeltaAction::New => 2,
        }
    }

    pub fn from_code(code: i32) -> (action: Option<DeltaAction>)
        ensures
            match action {
                Some(a) => a.code() == code,
                None => code < 0 || code > 2,
            },
    {
        if code == 0 {
            Some(DeltaAction::Source)
        } else if code == 1 {
            Some(DeltaAction::Target)
        } else if code == 2 {
            Some(DeltaAction::New)
        } else {
            None
        }
    }
}

/// One copy or insert instruction of a window.
#[derive(Clone, Copy, Debug, PartialEq, Eq, Structural)]
pub struct DeltaOp {
    pub action: DeltaAction,
    pub offset: u64,
    pub length: u64,
}

/// One chunk of a byte-level diff.
#[derive(Clone, Debug)]
pub struct TextDeltaWindow {
    /// Where the source view starts in the source.
    pub sview_offset: u64,
    pub sview_len: u64,
    /// How many bytes of target the window writes.
    pub tview_len: u64,
    pub ops: Vec<DeltaOp>,
    pub new_data: Vec<u8>,
}

/// A window as plain values.
pub struct WindowView {
    pub sview_offset: nat,
    pub sview_len: nat,
    pub tview_len: nat,
    pub ops: Seq<DeltaOp>,
    pub new_data: Seq<u8>,
}

/// Why a window cannot be applied.
#[derive(Clone, Copy, Debug, PartialEq, Eq, Structural)]
pub enum DeltaError {
    /// The source view reaches past the end of the source.
    SourceViewOutOfRange,
    /// The instruction at this index reads bytes that are not there.
    OpOutOfRange { index: usize },
    /// The instructions wrote another number of bytes than the window
    /// announced.
    TargetLengthMismatch,
}

/// Why a sequence of windows cannot be applied: the index of the first
/// window that failed, and why it failed.
#[derive(Clone, Copy, Debug, PartialEq, Eq, Structural)]
pub struct StreamError {
    pub window: usize,
    pub error: DeltaError,
}

/// `target` with `length` more bytes, each copied from `target` itself,
/// starting at `offset`. The copy may run into the bytes that it has just
/// written, which repeats them.
pub open spec fn copy_within(target: Seq<u8>, offset: int, length: nat) -> Seq<u8>
    decreases length,
{
    if length == 0 {
        target
    } else {
        copy_within(target.push(target[offset]), offset + 1, (length - 1) as nat)
    }
}

/// Whether the instruction reads only bytes that exist, with `written`
/// bytes of target already there.
pub open spec fn op_in_range(op: DeltaOp, sview_len: nat, new_len: nat, written: nat) -> bool {
    match op.action {
        DeltaAction::Source => op.offset + op.length <= sview_len,
        DeltaAction::New => op.offset + op.length <= new_len,
        DeltaAction::Target => op.offset < written,
    }
}

/// The target after the instruction.
pub open spec fn op_result(op: DeltaOp, sview: Seq<u8>, new_data: Seq<u8>, target: Seq<u8>) -> Seq<
    u8,
> {
    match op.action {
        DeltaAction::Source => target + sview.subrange(
            op.offset as int,
            op.offset + op.length,
        ),
        DeltaAction::New => target + new_data.subrange(op.offset as int, op.offset + op.length),
        DeltaAction::Target => copy_within(target, op.offset as int, op.length as nat),
    }
}

/// The target after the first `n` instructions, or the first instruction
/// that is out of range.
pub open spec fn run_ops(ops: Seq<DeltaOp>, sview: Seq<u8>, new_data: Seq<u8>, n: nat) -> Result<
    Seq<u8>,
    DeltaError,
>
    decreases n,
{
    if n == 0 {
        Ok(Seq::empty())
    } else {
        match run_ops(ops, sview, new_data, (n - 1) as nat) {
            Err(e) => Err(e),
            Ok(target) => if op_in_range(ops[n - 1], sview.len(), new_data.len(), target.len()) {
                Ok(op_result(ops[n - 1], sview, new_data, target))
            } else {
                Err(DeltaError::OpOutOfRange { index: (n - 1) as usize })
            },
        }
    }
}

impl WindowView {
    /// What the window writes when it is applied to `source`.
    pub open spec fn output(self, source: Seq<u8>) -> Result<Seq<u8>, DeltaError> {
        if self.sview_offset + self.sview_len > source.len() {
            Err(DeltaError::SourceViewOutOfRange)
        } else {
            let sview = source.subrange(
                self.sview_offset as int,
                (self.sview_offset + self.sview_len) as int,
            );
            match run_ops(self.ops, sview, self.new_data, self.ops.len()) {
                Err(e) => Err(e),
                Ok(target) => if target.len() == self.tview_len {
                    Ok(target)
                } else {
                    Err(DeltaError::TargetLengthMismatch)
                },
            }
        }
    }
}

/// The content that the first `n` windows rebuild from `source` when they
/// are applied in their order: what each writes, one after the other.
pub open spec fn rebuilt(source: Seq<u8>, windows: Seq<WindowView>, n: nat) -> Result<
    Seq<u8>,
    StreamError,
>
    decreases n,
{
    if n == 0 {
        Ok(Seq::empty())
    } else {
        match rebuilt(source, windows, (n - 1) as nat) {
            Err(e) => Err(e),
            Ok(content) => match windows[n - 1].output(source) {
                Ok(chunk) => Ok(content + chunk),
                Err(error) => Err(StreamError { window: (n - 1) as usize, error }),
            },
        }
    }
}

/// Once an instruction is out of range, the instructions after it change
/// nothing.
pub proof fn run_ops_error_stays(
    ops: Seq<DeltaOp>,
    sview: Seq<u8>,
    new_data: Seq<u8>,
    n: nat,
    m: nat,
)
    requires
        n <= m,
        run_ops(ops, sview, new_data, n).is_err(),
    ensures
        run_ops(ops, sview, new_data, m) == run_ops(ops, sview, new_data, n),
    decreases m,
{
    if n < m {
        run_ops_error_stays(ops, sview, new_data, n, (m - 1) as nat);
    }
}

/// Once a window has failed, the windows after it change nothing.
pub proof fn rebuilt_error_stays(source: Seq<u8>, windows: Seq<WindowView>, n: nat, m: nat)
    requires
        n <= m,
        rebuilt(source, windows, n).is_err(),
    ensures
        rebuilt(source, windows, m) == rebuilt(source, windows, n),
    decreases m,
{
    if n < m {
        rebuilt_error_stays(source, windows, n, (m - 1) as nat);
    }
}

/// What the windows rebuild depends on the windows before `n` alone.
pub proof fn rebuilt_reads_prefix(
    source: Seq<u8>,
    windows: Seq<WindowView>,
    others: Seq<WindowView>,
    n: nat,
)
    requires
        n <= windows.len(),
        n <= others.len(),
        forall|i: int| 0 <= i < n ==> windows[i] == others[i],
    ensures
        rebuilt(source, windows, n) == rebuilt(source, others, n),
    decreases n,
{
    if n > 0 {
        rebuilt_reads_prefix(source, windows, others, (n - 1) as nat);
    }
}

/// Windows applied in order rebuild the content piece by piece: one more
/// window adds what it writes, after all that came before it.
pub proof fn rebuilt_in_order(source: Seq<u8>, windows: Seq<WindowView>, next: WindowView)
    ensures
        rebuilt(source, windows.push(next), windows.len() + 1) == (match rebuilt(
            source,
            windows,
            windows.len(),
        ) {
            Err(e) => Err(e),
            Ok(content) => match next.output(source) {
                Ok(chunk) => Ok(content + chunk),
                Err(error) => Err(StreamError { window: windows.len() as usize, error }),
            },
        }),
{
    rebuilt_reads_prefix(source, windows.push(next), windows, windows.len());
}

pub open spec fn windows_view(windows: Seq<TextDeltaWindow>) -> Seq<WindowView> {
    Seq::new(windows.len(), |i: int| windows[i]@)
}

impl View for TextDeltaWindow {
    type V = WindowView;

    open spec fn view(&self) -> WindowView {
        WindowView {
            sview_offset: self.sview_offset as nat,
            sview_len: self.sview_len as nat,
            tview_len: self.tview_len as nat,
            ops: self.ops@,
            new_data: self.new_data@,
        }
    }
}

impl TextDeltaWindow {
    /// A window from its parts.
    pub fn from_parts(
        sview_offset: u64,
        sview_len: u64,
        tview_len: u64,
        ops: Vec<DeltaOp>,
        new_data: Vec<u8>,
    ) -> (window: TextDeltaWindow)
        ensures
            window@ == (WindowView {
                sview_offset: sview_offset as nat,
                sview_len: sview_len as nat,
                tview_len: tview_len as nat,
                ops: ops@,
                new_data: new_data@,
            }),
    {
        TextDeltaWindow { sview_offset, sview_len, tview_len, ops, new_data }
    }

    /// An independent copy that the receiver may keep.
    pub fn dup(&self) -> (copy: TextDeltaWindow)
        ensures
            copy@ == self@,
    {
        let mut ops: Vec<DeltaOp> = Vec::new();
        let mut i: usize = 0;
        while i < self.ops.len()
            invariant
                i <= self.ops.len(),
                ops@ == self.ops@.subrange(0, i as int),
            decreases self.ops.len() - i,
        {
            ops.push(self.ops[i]);
            assert(ops@ =~= self.ops@.subrange(0, i + 1));
            i += 1;
        }
        let mut new_data: Vec<u8> = Vec::new();
        let mut j: usize = 0;
        while j < self.new_data.len()
            invariant
                j <= self.new_data.len(),
                new_data@ == self.new_data@.subrange(0, j as int),
            decreases self.new_data.len() - j,
        {
            new_data.push(self.new_data[j]);
            assert(new_data@ =~= self.new_data@.subrange(0, j + 1));
            j += 1;
        }
        assert(ops@ =~= self.ops@);
        assert(new_data@ =~= self.new_data@);
        TextDeltaWindow {
            sview_offset: self.sview_offset,
            sview_len: self.sview_len,
            tview_len: self.tview_len,
            ops,
            new_data,
        }
    }

    /// Applies the window to `source` and returns what it writes. It fails
    /// where the source view or an instruction reaches past the bytes that
    /// exist, or where the instructions write another number of bytes than
    /// the window announced.
    pub fn apply(&self, source: &Vec<u8>) -> (written: Result<Vec<u8>, DeltaError>)
        ensures
            match self@.output(source@) {
                Ok(target) => written.is_ok() && written.unwrap()@ == target,
                Err(e) => written == Err::<Vec<u8>, DeltaError>(e),
            },
    {
        let source_len: u64 = source.len() as u64;
        if self.sview_offset > source_len || self.sview_len > source_len - self.sview_offset {
            return Err(DeltaError::SourceViewOutOfRange);
        }
        let base: usize = self.sview_offset as usize;
        let ghost sview = source@.subrange(
            self.sview_offset as int,
            self.sview_offset + self.sview_len,
        );
        let new_len: u64 = self.new_data.len() as u64;
        let mut target: Vec<u8> = Vec::new();
        let mut i: usize = 0;
        while i < self.ops.len()
            invariant
                i <= self.ops.len(),
                base == self.sview_offset,
                self.sview_offset + self.sview_len <= source.len(),
                sview == source@.subrange(
                    self.sview_offset as int,
                    self.sview_offset + self.sview_len,
                ),
                new_len == self.new_data.len(),
                run_ops(self.ops@, sview, self.new_data@, i as nat) == Ok::<Seq<u8>, DeltaError>(
                    target@,
                ),
            decreases self.ops.len() - i,
        {
            let op: DeltaOp = self.ops[i];
            let ghost before = target@;
            let written: u64 = target.len() as u64;
            let in_range: bool = match op.action {
                DeltaAction::Source => op.offset <= self.sview_len && op.length <= self.sview_len
                    - op.offset,
                DeltaAction::New => op.offset <= new_len && op.length <= new_len - op.offset,
                DeltaAction::Target => op.offset < written,
            };
            assert(in_range == op_in_range(
                op,
                sview.len(),
                self.new_data@.len(),
                before.len(),
            ));
            if !in_range {
                proof {
                    assert(run_ops(self.ops@, sview, self.new_data@, (i + 1) as nat) == Err::<
                        Seq<u8>,
                        DeltaError,
                    >(DeltaError::OpOutOfRange { index: i }));
                    run_ops_error_stays(
                        self.ops@,
                        sview,
                        self.new_data@,
                        (i + 1) as nat,
                        self.ops@.len(),
                    );
                }
                return Err(DeltaError::OpOutOfRange { index: i });
            }
            let mut k: u64 = 0;
            match op.action {
                DeltaAction::Source => {
                    let start: usize = base + op.offset as usize;
                    while k < op.length
                        invariant
                            k <= op.length,
                            op.offset + op.length <= self.sview_len,
                            base == self.sview_offset,
                            start == base + op.offset,
                            self.sview_offset + self.sview_len <= source.len(),
                            sview == source@.subrange(
                                self.sview_offset as int,
                                self.sview_offset + self.sview_len,
                            ),
                            target@ == before + sview.subrange(op.offset as int, op.offset + k),
                        decreases op.length - k,
                    {
                        target.push(source[start + k as usize]);
                        assert(target@ =~= before + sview.subrange(
                            op.offset as int,
                            op.offset + k + 1,
                        ));
                        k += 1;
                    }
                },
                DeltaAction::New => {
                    let start: usize = op.offset as usize;
                    while k < op.length
                        invariant
                            k <= op.length,
                            op.offset + op.length <= self.new_data.len(),
                            start == op.offset,
                            target@ == before + self.new_data@.subrange(
                                op.offset as int,
                                op.offset + k,
                            ),
                        decreases op.length - k,
                    {
                        target.push(self.new_data[start + k as usize]);
                        assert(target@ =~= before + self.new_data@.subrange(
                            op.offset as int,
                            op.offset + k + 1,
                        ));
                        k += 1;
                    }
                },
                DeltaAction::Target => {
                    let mut from: usize = op.offset as usize;
                    while k < op.length
                        invariant
                            k <= op.length,
                            from < target.len(),
                            copy_within(target@, from as int, (op.length - k) as nat)
                                == copy_within(before, op.offset as int, op.length as nat),
                        decreases op.length - k,
                    {
                        let byte: u8 = target[from];
                        target.push(byte);
                        from += 1;
                        k += 1;
                    }
                },
            }
            assert(target@ == op_result(op, sview, self.new_data@, before));
            i += 1;
        }
        if target.len() as u64 != self.tview_len {
            return Err(DeltaError::TargetLengthMismatch);
        }
        Ok(target)
    }
}

/// Applies the windows to `source` in the order in which they stand and
/// returns the content that they rebuild. It fails at the first window that
/// cannot be applied.
pub fn reconstruct(source: &Vec<u8>, windows: &Vec<TextDeltaWindow>) -> (content: Result<
    Vec<u8>,
    StreamError,
>)
    ensures
        match rebuilt(source@, windows_view(windows@), windows@.len()) {
            Ok(c) => content.is_ok() && content.unwrap()@ == c,
            Err(e) => content == Err::<Vec<u8>, StreamError>(e),
        },
{
    let ghost views = windows_view(windows@);
    let mut content: Vec<u8> = Vec::new();
    let mut i: usize = 0;
    while i < windows.len()
        invariant
            i <= windows.len(),
            views == windows_view(windows@),
            rebuilt(source@, views, i as nat) == Ok::<Seq<u8>, StreamError>(content@),
        decreases windows.len() - i,
    {
        let ghost before = content@;
        match windows[i].apply(source) {
            Err(error) => {
                proof {
                    assert(views[i as int] == windows@[i as int]@);
                    rebuilt_error_stays(source@, views, (i + 1) as nat, windows@.len());
                }
                return Err(StreamError { window: i, error });
            },
            Ok(chunk) => {
                let mut k: usize = 0;
                while k < chunk.len()
                    invariant
                        k <= chunk.len(),
                        content@ == before + chunk@.subrange(0, k as int),
                    decreases chunk.len() - k,
                {
                    content.push(chunk[k]);
                    assert(content@ =~= before + chunk@.subrange(0, k + 1));
                    k += 1;
                }
                proof {
                    assert(views[i as int] == windows@[i as int]@);
                    assert(chunk@.subrange(0, chunk@.len() as int) =~= chunk@);
                }
            },
        }
        i += 1;
    }
    Ok(content)
}

/// Why a rebuilt content was turned down: its checksum is not the one that
/// was announced.
#[derive(Debug)]
pub struct ChecksumMismatch {
    pub expected: String,
    pub actual: String,
}

/// Holds the checksum of a rebuilt content against the one that was
/// announced with the close of the file. Where none was announced, the
/// content passes.
pub fn verify_text_checksum(expected: Option<&str>, actual: &str) -> (verdict: Result<
    (),
    ChecksumMismatch,
>)
    ensures
        match expected {
            None => verdict.is_ok(),
            Some(e) => if e@ == actual@ {
                verdict.is_ok()
            } else {
                verdict.is_err() && verdict.unwrap_err().expected@ == e@
                    && verdict.unwrap_err().actual@ == actual@
            },
        },
{
    match expected {
        None => Ok(()),
        Some(e) => {
            let want: String = e.to_owned();
            let have: String = actual.to_owned();
            if want == have {
                Ok(())
            } else {
                Err(ChecksumMismatch { expected: want, actual: have })
            }
        },
    }
}

} // verus!
