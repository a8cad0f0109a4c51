use crate::address::ContentAddress;
use crate::error::ErrorKind;
use crate::items::reversed;
use crate::model::{ModelDescriptor, TensorDescriptor};
use vstd::prelude::*;

verus! {

/// Every slot has a portable description.
pub open spec fn all_portable<T>(slots: Seq<Option<T>>) -> bool {
    forall|i: int| 0 <= i < slots.len() ==> (#[trigger] slots[i]).is_some()
}

/// The descriptions of the slots, in their order.
pub open spec fn descriptions<T>(slots: Seq<Option<T>>) -> Seq<T> {
    Seq::new(slots.len(), |i: int| slots[i].unwrap())
}

/// The descriptions of all slots in their order, or `None` if one is missing.
pub fn gather<T>(slots: Vec<Option<T>>) -> (r: Option<Vec<T>>)
    ensures
        r.is_some() == all_portable(slots@),
        r.is_some() ==> r.unwrap()@ == descriptions(slots@),
{
    let n: usize = slots.len();
    let mut rest = reversed(slots);
    let mut out: Vec<T> = Vec::new();
    let mut i: usize = 0;
    while i < n
        invariant
            n == slots@.len(),
            i <= n,
            rest@ == slots@.reverse().take(n - i),
            out@.len() == i,
            forall|j: int| 0 <= j < i ==> (#[trigger] slots@[j]).is_some(),
            forall|j: int| 0 <= j < i ==> out@[j] == descriptions(slots@)[j],
        decreases n - i,
    {
        let slot = rest.pop().unwrap();
        assert(slot == slots@[i as int]);
        match slot {
            Some(description) => {
                out.push(description);
            },
            None => {
                return None;
            },
        }
        i += 1;
    }
    assert(out@ =~= descriptions(slots@));
    Some(out)
}

/// What describing a model gives, from the portable descriptions of its
/// session's inputs and outputs, where a slot without one is `None`.
pub open spec fn described(
    address: ContentAddress,
    inputs: Seq<Option<TensorDescriptor>>,
    outputs: Seq<Option<TensorDescriptor>>,
) -> Result<(ContentAddress, Seq<TensorDescriptor>, Seq<TensorDescriptor>), ErrorKind> {
    if all_portable(inputs) && all_portable(outputs) {
        Ok((address, descriptions(inputs), descriptions(outputs)))
    } else {
        Err(ErrorKind::DescriptorConversion)
    }
}

/// Builds the descriptor of the model at `address` from its session's
/// inputs and outputs, keeping their order. One slot without a portable
/// description fails the whole.
pub fn describe(
    address: &ContentAddress,
    inputs: Vec<Option<TensorDescriptor>>,
    outputs: Vec<Option<TensorDescriptor>>,
) -> (r: Result<ModelDescriptor, ErrorKind>)
    ensures
        match described(*address, inputs@, outputs@) {
            Ok(parts) => r.is_ok() && r.unwrap().address == parts.0 && r.unwrap().inputs@
                == parts.1 && r.unwrap().outputs@ == parts.2,
            Err(kind) => r == Err::<ModelDescriptor, ErrorKind>(kind),
        },
{
    let inputs = match gather(inputs) {
        Some(inputs) => inputs,
        None => {
            return Err(ErrorKind::DescriptorConversion);
        },
    };
    let outputs = match gather(outputs) {
        Some(outputs) => outputs,
        None => {
            return Err(ErrorKind::DescriptorConversion);
        },
    };
    Ok(ModelDescriptor { address: *address, inputs, outputs })
}

} // verus!
