//! Configuration of a runner: the host operations that scripts may call.
use vstd::prelude::*;

verus! {

/// Collects the host operations to register with the engine, in the order
/// in which they are added. The list is handed over whole when the runner
/// is built and does not change after that.
pub struct Builder<Op> {
    ops: Vec<Op>,
}

impl<Op> View for Builder<Op> {
    type V = Seq<Op>;

    /// The operations added so far, in order.
    closed spec fn view(&self) -> Seq<Op> {
        self.ops@
    }
}

impl<Op> Builder<Op> {
    /// A builder with no operations.
    pub fn new() -> (r: Self)
        ensures
            r@ == Seq::<Op>::empty(),
    {
        Builder { ops: Vec::new() }
    }

    /// Adds an operation after those already added.
    pub fn add_op(self, op: Op) -> (r: Self)
        ensures
            r@ == self@.push(op),
    {
        let mut ops = self.ops;
        ops.push(op);
        Builder { ops }
    }

    /// Hands over the operations, in the order in which they were added.
    pub fn into_ops(self) -> (r: Vec<Op>)
        ensures
            r@ == self@,
    {
        self.ops
    }
}

impl<Op> Default for Builder<Op> {
    fn default() -> (r: Self)
        ensures
            r@ == Seq::<Op>::empty(),
    {
        Builder::new()
    }
}

} // verus!
