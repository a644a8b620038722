use vstd::prelude::*;

verus! {

/// The shapes of event data that a codec can carry, as a set of three flags.
#[derive(PartialEq, Eq, Structural, Clone, Copy, Debug)]
pub struct DataType {
    pub log: bool,
    pub metric: bool,
    pub trace: bool,
}

impl DataType {
    pub open spec fn spec_log() -> DataType {
        DataType { log: true, metric: false, trace: false }
    }

    pub open spec fn spec_all() -> DataType {
        DataType { log: true, metric: true, trace: true }
    }

    /// Log events only.
    pub fn log() -> (r: DataType)
        ensures
            r == DataType::spec_log(),
    {
        DataType { log: true, metric: false, trace: false }
    }

    /// Every kind of event.
    pub fn all() -> (r: DataType)
        ensures
            r == DataType::spec_all(),
    {
        DataType { log: true, metric: true, trace: true }
    }
}

} // verus!
