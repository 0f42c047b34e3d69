use vstd::prelude::*;
use crate::observation::Observation;

verus! {

/// The kinds of record store a caller can ask for.
#[derive(Clone, Copy, PartialEq, Eq, Structural, Debug)]
pub enum Type {
    CSVLog,
}

/// A store operation failed against the persistence medium; the detail
/// text says how.
#[derive(Debug, Clone, PartialEq, Eq)]
pub enum StoreError {
    IO(String),
}

/// An append-only store of observations. Appending is the only mutation;
/// reads yield the records in their insertion order.
pub trait Backend {
    /// The observations the store holds, in insertion order.
    spec fn records(&self) -> Seq<Observation>;

    /// Durably append one observation. On success the store holds exactly
    /// the old records followed by the new one; on failure it is unchanged,
    /// so no partial record is ever visible.
    fn record(&mut self, observation: &Observation) -> (r: Result<(), StoreError>)
        ensures
            match r {
                Ok(()) => final (self).records() == old(self).records().push(*observation),
                Err(_) => final (self).records() == old(self).records(),
            },
    ;

    /// Every record the store holds, in insertion order.
    fn all_records(&self) -> (r: Result<Vec<Observation>, StoreError>)
        ensures
            (r matches Ok(v) ==> v@ == self.records()),
    ;
}

/// An in-memory record store: the reference implementation of `Backend`,
/// which never fails.
pub struct MemoryLog {
    items: Vec<Observation>,
}

impl MemoryLog {
    /// An empty in-memory store.
    pub fn new() -> (log: MemoryLog)
        ensures
            log.records() == Seq::<Observation>::empty(),
    {
        MemoryLog { items: Vec::new() }
    }
}

impl Backend for MemoryLog {
    closed spec fn records(&self) -> Seq<Observation> {
        self.items@
    }

    fn record(&mut self, observation: &Observation) -> (r: Result<(), StoreError>)
        ensures
            r is Ok,
    {
        self.items.push(observation.duplicate());
        Ok(())
    }

    fn all_records(&self) -> (r: Result<Vec<Observation>, StoreError>)
        ensures
            r is Ok,
    {
        let mut out: Vec<Observation> = Vec::new();
        let mut i: usize = 0;
        proof {
            assert(self.items@.take(0) =~= Seq::<Observation>::empty());
        }
        while i < self.items.len()
            invariant
                i <= self.items@.len(),
                out@ == self.items@.take(i as int),
            decreases self.items@.len() - i,
        {
            out.push(self.items[i].duplicate());
            proof {
                assert(self.items@.take((i + 1) as int) =~= self.items@.take(i as int).push(
                    self.items@[i as int],
                ));
            }
            i = i + 1;
        }
        proof {
            assert(self.items@.take(self.items@.len() as int) =~= self.items@);
        }
        Ok(out)
    }
}

/// A handle naming the delimited-file record store: it holds the path of
/// the log file. Opening, appending to and reading that file is the
/// surrounding application's work.
pub struct CSVLog {
    pub path: String,
}

impl CSVLog {
    pub fn new(path: String) -> (log: CSVLog)
        ensures
            log.path == path,
    {
        CSVLog { path }
    }
}

} // verus!
