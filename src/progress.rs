use vstd::prelude::*;

verus! {

/// Where a transfer stands; `Completed` and `Failed` are terminal.
#[derive(Debug, Clone)]
pub enum OperationStage {
    Initializing,
    Uploading,
    Downloading,
    Verifying,
    Completed,
    Failed(String),
}

impl OperationStage {
    pub open spec fn is_terminal(&self) -> bool {
        self is Completed || self is Failed
    }
}

/// A progress fraction kept exactly, as `numerator / denominator`.
#[derive(Debug, Clone, Copy, PartialEq, Eq, Structural)]
pub struct Fraction {
    pub numerator: usize,
    pub denominator: usize,
}

impl Fraction {
    /// The fraction lies in `[0, 1]`.
    pub open spec fn in_unit_range(self) -> bool {
        self.denominator > 0 && self.numerator <= self.denominator
    }
}

/// The fraction after `bytes` out of `total` were reported: computed when the
/// total is known and non-zero (a count past the total counts as all of it),
/// otherwise the previous fraction is kept.
pub open spec fn fraction_after(prev: Fraction, bytes: usize, total: Option<usize>) -> Fraction {
    match total {
        Some(t) => if t > 0 {
            Fraction { numerator: if bytes <= t { bytes } else { t }, denominator: t }
        } else {
            prev
        },
        None => prev,
    }
}

/// One event on an operation's progress stream.
#[derive(Debug, Clone)]
pub struct ProgressMessage {
    pub operation_id: String,
    pub progress: Fraction,
    pub bytes_processed: usize,
    pub total_bytes: Option<usize>,
    pub stage: OperationStage,
    pub message: Option<String>,
}

impl ProgressMessage {
    pub open spec fn is_terminal(&self) -> bool {
        self.stage.is_terminal()
    }

    /// A fresh event: nothing processed yet, size unknown, `Initializing`.
    pub fn new(operation_id: String) -> (r: Self)
        ensures
            r.operation_id == operation_id,
            r.progress == (Fraction { numerator: 0, denominator: 1 }),
            r.bytes_processed == 0,
            r.total_bytes is None,
            r.stage is Initializing,
            r.message is None,
    {
        ProgressMessage {
            operation_id,
            progress: Fraction { numerator: 0, denominator: 1 },
            bytes_processed: 0,
            total_bytes: None,
            stage: OperationStage::Initializing,
            message: None,
        }
    }

    /// Sets the byte counts; the fraction follows them only when the total is
    /// known and non-zero, and stays in `[0, 1]`.
    pub fn with_bytes(self, bytes_processed: usize, total_bytes: Option<usize>) -> (r: Self)
        ensures
            r.operation_id == self.operation_id,
            r.bytes_processed == bytes_processed,
            r.total_bytes == total_bytes,
            r.progress == fraction_after(self.progress, bytes_processed, total_bytes),
            self.progress.in_unit_range() ==> r.progress.in_unit_range(),
            r.stage == self.stage,
            r.message == self.message,
    {
        let mut r = self;
        r.bytes_processed = bytes_processed;
        r.total_bytes = total_bytes;
        match total_bytes {
            Some(total) => {
                if total > 0 {
                    let done = if bytes_processed <= total {
                        bytes_processed
                    } else {
                        total
                    };
                    r.progress = Fraction { numerator: done, denominator: total };
                }
            },
            None => {},
        }
        r
    }

    pub fn with_stage(self, stage: OperationStage) -> (r: Self)
        ensures
            r == (ProgressMessage { stage, ..self }),
    {
        let mut r = self;
        r.stage = stage;
        r
    }

    pub fn with_message(self, message: String) -> (r: Self)
        ensures
            r == (ProgressMessage { message: Some(message), ..self }),
    {
        let mut r = self;
        r.message = Some(message);
        r
    }
}

} // verus!
