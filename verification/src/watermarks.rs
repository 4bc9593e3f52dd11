//! The lower watermarks of the pipelines.
use vstd::prelude::*;
use crate::error::RpcError;
use crate::strings::same;

verus! {

/// For each pipeline that has been indexed, its lower watermark: the first checkpoint that it
/// still holds data for.
#[derive(Debug)]
pub struct Watermarks {
    entries: Vec<(String, u64)>,
}

impl View for Watermarks {
    type V = Map<Seq<char>, u64>;

    closed spec fn view(&self) -> Map<Seq<char>, u64> {
        Map::new(
            |pipeline: Seq<char>| exists|i: int| self.stands_at(pipeline, i),
            |pipeline: Seq<char>| self.entries@[choose|i: int| self.stands_at(pipeline, i)].1,
        )
    }
}

impl Watermarks {
    spec fn stands_at(&self, pipeline: Seq<char>, i: int) -> bool {
        0 <= i < self.entries@.len() && self.entries@[i].0@ == pipeline
    }

    #[verifier::type_invariant]
    spec fn well_formed(self) -> bool {
        forall|i: int, j: int|
            0 <= i < j < self.entries@.len() ==> (#[trigger] self.entries@[i]).0@ != (
            #[trigger] self.entries@[j]).0@
    }

    /// No pipeline has a watermark yet.
    pub fn new() -> (res: Watermarks)
        ensures
            res@ == Map::<Seq<char>, u64>::empty(),
    {
        let res = Watermarks { entries: Vec::new() };
        assert(res@ =~= Map::<Seq<char>, u64>::empty());
        res
    }

    /// Where the entry of `pipeline` stands.
    fn find(&self, pipeline: &str) -> (res: Option<usize>)
        ensures
            match res {
                Some(i) => self.stands_at(pipeline@, i as int) && self@.contains_key(pipeline@)
                    && self@[pipeline@] == self.entries@[i as int].1,
                None => !self@.contains_key(pipeline@),
            },
    {
        proof {
            use_type_invariant(self);
        }
        let mut i: usize = 0;
        while i < self.entries.len()
            invariant
                self.well_formed(),
                i <= self.entries@.len(),
                forall|j: int| 0 <= j < i ==> !self.stands_at(pipeline@, j),
            decreases self.entries@.len() - i,
        {
            if same(self.entries[i].0.as_str(), pipeline) {
                assert(self.stands_at(pipeline@, i as int));
                return Some(i);
            }
            i = i + 1;
        }
        None
    }

    /// Sets the lower watermark of `pipeline`.
    pub fn set_lo_watermark(&mut self, pipeline: String, checkpoint: u64)
        ensures
            final(self)@ == old(self)@.insert(pipeline@, checkpoint),
    {
        proof {
            use_type_invariant(&*self);
        }
        let found: Option<usize> = self.find(pipeline.as_str());
        let mut entries: Vec<(String, u64)> = Vec::new();
        std::mem::swap(&mut entries, &mut self.entries);
        let ghost before = entries@;
        let ghost name = pipeline@;
        match found {
            Some(i) => {
                entries.set(i, (pipeline, checkpoint));
            },
            None => {
                assert forall|j: int| 0 <= j < before.len() implies before[j].0@ != name by {
                    if before[j].0@ == name {
                        assert(old(self).stands_at(name, j));
                    }
                }
                entries.push((pipeline, checkpoint));
            },
        }
        self.entries = entries;
        proof {
            let at: int = match found {
                Some(i) => i as int,
                None => before.len() as int,
            };
            assert(self.stands_at(name, at));
            assert(at == choose|i: int| self.stands_at(name, i));
            assert forall|p: Seq<char>| p != name implies #[trigger] self@.dom().contains(p) == old(
                self,
            )@.dom().contains(p) && (self@.dom().contains(p) ==> self@[p] == old(self)@[p]) by {
                assert forall|i: int| self.stands_at(p, i) == old(self).stands_at(p, i) by {}
                if self@.dom().contains(p) {
                    let i = choose|i: int| self.stands_at(p, i);
                    assert(old(self).stands_at(p, i));
                } else if old(self)@.dom().contains(p) {
                    let j = choose|j: int| old(self).stands_at(p, j);
                    assert(self.stands_at(p, j));
                }
            }
            assert(self@[name] == checkpoint);
            assert(self@ =~= old(self)@.insert(name, checkpoint));
        }
    }

    /// The first checkpoint that `pipeline` still holds data for.
    pub fn pipeline_lo_watermark(&self, pipeline: &str) -> (res: Result<u64, RpcError>)
        ensures
            match res {
                Ok(checkpoint) => self@.contains_key(pipeline@) && checkpoint == self@[pipeline@],
                Err(RpcError::NoWatermark { pipeline: missing }) => missing@ == pipeline@
                    && !self@.contains_key(pipeline@),
                Err(RpcError::GraphQl(_)) => false,
            },
    {
        match self.find(pipeline) {
            Some(i) => Ok(self.entries[i].1),
            None => Err(RpcError::NoWatermark { pipeline: pipeline.to_string() }),
        }
    }
}

} // verus!
