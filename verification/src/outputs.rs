use vstd::prelude::*;

use crate::output::Output;

verus! {

/// `i` is the first position of an output with the given id.
pub open spec fn is_first_output(s: Seq<Output>, id: u32, i: int) -> bool {
    &&& 0 <= i < s.len()
    &&& s[i].spec_id() == id
    &&& forall|j: int| 0 <= j < i ==> (#[trigger] s[j]).spec_id() != id
}

/// Some output of the list has the given id.
pub open spec fn has_output(s: Seq<Output>, id: u32) -> bool {
    exists|i: int| 0 <= i < s.len() && (#[trigger] s[i]).spec_id() == id
}

/// A list of outputs.
pub struct Outputs {
    outputs: Vec<Output>,
}

impl View for Outputs {
    type V = Seq<Output>;

    closed spec fn view(&self) -> Seq<Output> {
        self.outputs@
    }
}

impl Outputs {
    pub fn new() -> (r: Outputs)
        ensures
            r@ == Seq::<Output>::empty(),
    {
        Outputs { outputs: Vec::new() }
    }

    pub fn len(&self) -> (r: usize)
        ensures
            r == self@.len(),
    {
        self.outputs.len()
    }

    pub fn append(&mut self, output: Output)
        ensures
            final(self)@ == old(self)@.push(output),
    {
        self.outputs.push(output);
    }

    fn position_of(&self, output_id: u32) -> (r: Option<usize>)
        ensures
            match r {
                Some(i) => is_first_output(self@, output_id, i as int),
                None => !has_output(self@, output_id),
            },
    {
        let mut i: usize = 0;
        while i < self.outputs.len()
            invariant
                0 <= i <= self.outputs@.len(),
                forall|j: int| 0 <= j < i ==> (#[trigger] self.outputs@[j]).spec_id() != output_id,
            decreases self.outputs@.len() - i,
        {
            if self.outputs[i].id() == output_id {
                return Some(i);
            }
            i += 1;
        }
        None
    }

    /// Removes the first output with the given id, which must be listed.
    pub fn remove(&mut self, output_id: u32) -> (r: Output)
        requires
            has_output(old(self)@, output_id),
        ensures
            exists|i: int|
                is_first_output(old(self)@, output_id, i) && r == old(self)@[i] && final(self)@
                    == old(self)@.remove(i),
    {
        let index = match self.position_of(output_id) {
            Some(i) => i,
            None => {
                assert(false);
                0
            },
        };
        self.outputs.remove(index)
    }

    /// Moves the first output with the id of `output` to the end of the list.
    pub fn push_back(&mut self, output: &Output)
        requires
            has_output(old(self)@, output.spec_id()),
        ensures
            exists|i: int|
                is_first_output(old(self)@, output.spec_id(), i) && final(self)@ == old(
                    self,
                )@.remove(i).push(old(self)@[i]),
    {
        let removed = self.remove(output.id());
        self.append(removed);
    }

    pub fn index(&self, index: usize) -> (r: &Output)
        requires
            index < self@.len(),
        ensures
            *r == self@[index as int],
    {
        &self.outputs[index]
    }

    /// Gives mutable access to the output at the given position.
    pub fn index_mut(&mut self, index: usize) -> (r: &mut Output)
        requires
            index < old(self)@.len(),
        ensures
            *r == old(self)@[index as int],
            final(self)@ == old(self)@.update(index as int, *final(r)),
    {
        &mut self.outputs[index]
    }

    /// Position of the first output with the id of `output`.
    pub fn find(&self, output: &Output) -> (r: Option<u32>)
        requires
            self@.len() <= u32::MAX,
        ensures
            match r {
                Some(i) => is_first_output(self@, output.spec_id(), i as int),
                None => !has_output(self@, output.spec_id()),
            },
    {
        match self.position_of(output.id()) {
            Some(i) => Some(i as u32),
            None => None,
        }
    }

    /// The first output with the given id.
    pub fn find_by_id(&self, id: u32) -> (r: Option<&Output>)
        ensures
            match r {
                Some(o) => exists|i: int| is_first_output(self@, id, i) && *o == self@[i],
                None => !has_output(self@, id),
            },
    {
        match self.position_of(id) {
            Some(i) => Some(&self.outputs[i]),
            None => None,
        }
    }

    /// The first output marked primary.
    pub fn primary(&self) -> (r: Option<&Output>)
        ensures
            match r {
                Some(o) => exists|i: int|
                    0 <= i < self@.len() && *o == self@[i] && self@[i].spec_primary() && forall|j: int|
                        0 <= j < i ==> !(#[trigger] self@[j]).spec_primary(),
                None => forall|j: int| 0 <= j < self@.len() ==> !(#[trigger] self@[j]).spec_primary(),
            },
    {
        let mut i: usize = 0;
        while i < self.outputs.len()
            invariant
                0 <= i <= self.outputs@.len(),
                forall|j: int| 0 <= j < i ==> !(#[trigger] self.outputs@[j]).spec_primary(),
            decreases self.outputs@.len() - i,
        {
            if self.outputs[i].primary() {
                assert(0 <= i < self@.len() && self@[i as int].spec_primary() && forall|j: int|
                    0 <= j < i ==> !(#[trigger] self@[j]).spec_primary());
                return Some(&self.outputs[i]);
            }
            i += 1;
        }
        None
    }

    /// Gives up the list, returning its outputs.
    pub fn into_vec(self) -> (r: Vec<Output>)
        ensures
            r@ == self@,
    {
        self.outputs
    }
}

impl Default for Outputs {
    fn default() -> (r: Self)
        ensures
            r@ == Seq::<Output>::empty(),
    {
        Outputs::new()
    }
}

/// Moving an output to the end keeps the number of outputs and puts it last.
pub proof fn lemma_push_back_last(s: Seq<Output>, id: u32, i: int)
    requires
        is_first_output(s, id, i),
    ensures
        s.remove(i).push(s[i]).len() == s.len(),
        s.remove(i).push(s[i]).last().spec_id() == id,
{
}

} // verus!
