//! Kernels: how they are named, what they are given, and the description of
//! one kernel launch that a driver hands to the queue.

use vstd::prelude::*;
use crate::context::{Buffer, Event};
use crate::element::ElementType;

verus! {

/// The operations for which the program holds a kernel per element type.
#[derive(Clone, Copy, Debug, PartialEq, Eq, Structural)]
pub enum Operation {
    CopyTo,
    Add,
    Sub,
    Multiply,
    Transpose,
    Dot,
    Max,
    Min,
    Dmax,
    Dmin,
    Mse,
    Dmse,
}

impl Operation {
    /// The operation's part of a kernel name.
    pub open spec fn spec_name(self) -> Seq<char> {
        match self {
            Operation::CopyTo => "copy_to"@,
            Operation::Add => "add"@,
            Operation::Sub => "sub"@,
            Operation::Multiply => "multiply"@,
            Operation::Transpose => "transpose"@,
            Operation::Dot => "dot"@,
            Operation::Max => "max"@,
            Operation::Min => "min"@,
            Operation::Dmax => "dmax"@,
            Operation::Dmin => "dmin"@,
            Operation::Mse => "mse"@,
            Operation::Dmse => "dmse"@,
        }
    }

    /// The number of matrices that the operation reads: one or two.
    pub open spec fn spec_inputs(self) -> nat {
        match self {
            Operation::CopyTo | Operation::Transpose | Operation::Max | Operation::Min
            | Operation::Dmax | Operation::Dmin => 1,
            Operation::Add | Operation::Sub | Operation::Multiply | Operation::Dot
            | Operation::Mse | Operation::Dmse => 2,
        }
    }

    /// The number of matrices that the operation reads: one or two.
    pub fn inputs(self) -> (count: usize)
        ensures
            count == self.spec_inputs(),
    {
        match self {
            Operation::CopyTo | Operation::Transpose | Operation::Max | Operation::Min
            | Operation::Dmax | Operation::Dmin => 1,
            Operation::Add | Operation::Sub | Operation::Multiply | Operation::Dot
            | Operation::Mse | Operation::Dmse => 2,
        }
    }

    /// The operation's part of a kernel name.
    pub fn name(self) -> (text: &'static str)
        ensures
            text@ == self.spec_name(),
    {
        match self {
            Operation::CopyTo => "copy_to",
            Operation::Add => "add",
            Operation::Sub => "sub",
            Operation::Multiply => "multiply",
            Operation::Transpose => "transpose",
            Operation::Dot => "dot",
            Operation::Max => "max",
            Operation::Min => "min",
            Operation::Dmax => "dmax",
            Operation::Dmin => "dmin",
            Operation::Mse => "mse",
            Operation::Dmse => "dmse",
        }
    }
}

/// The name of the kernel for an operation on an element type: `vector_`,
/// the operation, `_`, the element type.
pub open spec fn spec_kernel_name(operation: Operation, element: ElementType) -> Seq<char> {
    "vector_"@ + operation.spec_name() + "_"@ + element.spec_name()
}

/// The name under which the program holds the kernel for `operation` on
/// elements of type `element`.
pub fn kernel_name(operation: Operation, element: ElementType) -> (text: String)
    ensures
        text@ == spec_kernel_name(operation, element),
{
    String::from_str("vector_").concat(operation.name()).concat("_").concat(element.name())
}

/// One argument of a kernel.
#[derive(Debug, PartialEq)]
pub enum KernelArg<T> {
    /// A buffer in device memory.
    Buffer(Buffer),
    /// A value of the element type.
    Scalar(T),
    /// A row or column count.
    Size(usize),
}

/// The index space a kernel runs over.
#[derive(Clone, Copy, Debug, PartialEq, Eq, Structural)]
pub enum WorkSize {
    /// One work item per index below the bound.
    Linear(usize),
    /// One work item per pair of indices below the two bounds.
    Grid(usize, usize),
}

/// The completion tokens among `producers`, in their order. A matrix that
/// nothing has written yet contributes none.
pub open spec fn awaited(producers: Seq<Option<Event>>) -> Seq<Event>
    decreases producers.len(),
{
    if producers.len() == 0 {
        Seq::empty()
    } else {
        let before = awaited(producers.drop_last());
        match producers.last() {
            Some(event) => before.push(event),
            None => before,
        }
    }
}

/// A kernel waits for the producer of every input that has one, and for
/// nothing else.
pub proof fn lemma_awaited_holds_the_producers(producers: Seq<Option<Event>>)
    ensures
        forall|event: Event|
            awaited(producers).contains(event) <==> producers.contains(Some(event)),
        awaited(producers).len() <= producers.len(),
    decreases producers.len(),
{
    if producers.len() > 0 {
        let front = producers.drop_last();
        let last = producers.last();
        let all = awaited(producers);
        lemma_awaited_holds_the_producers(front);
        assert forall|event: Event| all.contains(event) <==> producers.contains(
            Some(event),
        ) by {
            if all.contains(event) {
                let i = choose|i: int| 0 <= i < all.len() && all[i] == event;
                if i < awaited(front).len() {
                    assert(awaited(front)[i] == event);
                    assert(awaited(front).contains(event));
                    assert(front.contains(Some(event)));
                    let j = choose|j: int| 0 <= j < front.len() && front[j] == Some(event);
                    assert(producers[j] == Some(event));
                } else {
                    assert(last == Some(event));
                    assert(producers[producers.len() - 1] == Some(event));
                }
                assert(producers.contains(Some(event)));
            }
            if producers.contains(Some(event)) {
                let j = choose|j: int| 0 <= j < producers.len() && producers[j] == Some(event);
                if j < front.len() {
                    assert(front[j] == Some(event));
                    assert(front.contains(Some(event)));
                    assert(awaited(front).contains(event));
                    let i = choose|i: int|
                        0 <= i < awaited(front).len() && awaited(front)[i] == event;
                    assert(all[i] == event);
                } else {
                    assert(last == Some(event));
                    assert(all == awaited(front).push(event));
                    assert(all[awaited(front).len() as int] == event);
                }
                assert(all.contains(event));
            }
        }
    }
}

/// A kernel with one input waits for that input's producer, if it has one,
/// and for nothing else.
pub proof fn lemma_awaited_one(producer: Option<Event>)
    ensures
        awaited(seq![producer]) == match producer {
            Some(event) => seq![event],
            None => Seq::<Event>::empty(),
        },
{
    reveal_with_fuel(awaited, 2);
    assert(seq![producer].drop_last() =~= Seq::<Option<Event>>::empty());
    assert(awaited(seq![producer]) =~= match producer {
        Some(event) => seq![event],
        None => Seq::<Event>::empty(),
    });
}

/// A kernel with two inputs waits for the producers that the two have, the
/// first input's first.
pub proof fn lemma_awaited_two(first: Option<Event>, second: Option<Event>)
    ensures
        awaited(seq![first, second]) == match (first, second) {
            (Some(one), Some(two)) => seq![one, two],
            (Some(one), None) => seq![one],
            (None, Some(two)) => seq![two],
            (None, None) => Seq::<Event>::empty(),
        },
{
    lemma_awaited_one(first);
    assert(seq![first, second].drop_last() =~= seq![first]);
    assert(awaited(seq![first, second]) =~= match (first, second) {
        (Some(one), Some(two)) => seq![one, two],
        (Some(one), None) => seq![one],
        (None, Some(two)) => seq![two],
        (None, None) => Seq::<Event>::empty(),
    });
}

/// Collects the wait list of a kernel from the producers of its inputs.
pub fn wait_list(producers: &Vec<Option<Event>>) -> (wait: Vec<Event>)
    ensures
        wait@ == awaited(producers@),
{
    let mut wait: Vec<Event> = Vec::new();
    let mut i: usize = 0;
    while i < producers.len()
        invariant
            i <= producers.len(),
            wait@ == awaited(producers@.take(i as int)),
        decreases producers.len() - i,
    {
        proof {
            assert(producers@.take(i + 1).drop_last() == producers@.take(i as int));
        }
        match producers[i] {
            Some(event) => wait.push(event),
            None => {},
        }
        i += 1;
    }
    proof {
        assert(producers@.take(i as int) == producers@);
    }
    wait
}

/// One kernel launch, ready for the queue: which kernel, with which arguments
/// in which order, after which completion tokens, over which index space.
#[derive(Debug, PartialEq)]
pub struct Dispatch<T> {
    pub operation: Operation,
    pub element: ElementType,
    /// The name under which the program holds the kernel.
    pub kernel: String,
    pub args: Vec<KernelArg<T>>,
    pub wait: Vec<Event>,
    pub work: WorkSize,
    /// The size of a work group. It is always left to the device.
    pub local: Option<WorkSize>,
}

impl<T> Dispatch<T> {
    /// The buffer that the kernel writes: the argument after the inputs,
    /// which are buffers too.
    pub open spec fn writes(self) -> Option<Buffer> {
        let args = self.args@;
        let inputs = self.operation.spec_inputs() as int;
        if args.len() > inputs && args[0] is Buffer && args[inputs - 1] is Buffer
            && args[inputs] is Buffer {
            Some(args[inputs]->Buffer_0)
        } else {
            None
        }
    }

    /// The buffers that the kernel reads: the arguments before the output.
    pub open spec fn reads(self) -> Seq<Buffer> {
        if self.writes() is None {
            Seq::empty()
        } else {
            Seq::new(self.operation.spec_inputs(), |i: int| self.args@[i]->Buffer_0)
        }
    }

    /// The buffer that the kernel writes, if the arguments are those of the
    /// operation.
    pub fn output(&self) -> (buffer: Option<Buffer>)
        ensures
            buffer == self.writes(),
    {
        let inputs = self.operation.inputs();
        if self.args.len() <= inputs {
            return None;
        }
        let mut i: usize = 0;
        while i < inputs
            invariant
                i <= inputs < self.args.len(),
                inputs == self.operation.spec_inputs(),
                forall|j: int| 0 <= j < i ==> self.args@[j] is Buffer,
            decreases inputs - i,
        {
            match &self.args[i] {
                KernelArg::Buffer(_) => {},
                _ => {
                    return None;
                },
            }
            i += 1;
        }
        match &self.args[inputs] {
            KernelArg::Buffer(buffer) => Some(*buffer),
            _ => None,
        }
    }

    /// This dispatch launches the kernel of `operation` for `element` with
    /// exactly `args`, waits for exactly the tokens among `producers`, and
    /// runs over `work` in work groups of the device's choice.
    pub open spec fn launches(
        self,
        operation: Operation,
        element: ElementType,
        args: Seq<KernelArg<T>>,
        producers: Seq<Option<Event>>,
        work: WorkSize,
    ) -> bool {
        &&& self.operation == operation
        &&& self.element == element
        &&& self.kernel@ == spec_kernel_name(operation, element)
        &&& self.args@ == args
        &&& self.wait@ == awaited(producers)
        &&& self.work == work
        &&& self.local is None
    }

    /// Describes the launch of the kernel of `operation` for `element` on
    /// `args`, to run over `work` once the producers of its inputs have
    /// completed.
    pub fn new(
        operation: Operation,
        element: ElementType,
        args: Vec<KernelArg<T>>,
        producers: &Vec<Option<Event>>,
        work: WorkSize,
    ) -> (dispatch: Dispatch<T>)
        ensures
            dispatch.launches(operation, element, args@, producers@, work),
    {
        Dispatch {
            operation,
            element,
            kernel: kernel_name(operation, element),
            args,
            wait: wait_list(producers),
            work,
            local: None,
        }
    }
}

} // verus!
