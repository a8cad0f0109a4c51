use crate::error::ErrorKind;
use crate::items::reversed;
use crate::model::{ModelDescriptor, Tensor, TensorDescriptor};
use vstd::prelude::*;

verus! {

/// The payloads `raw`, each under the name of the output at its position.
pub open spec fn named<D>(outputs: Seq<TensorDescriptor>, raw: Seq<D>) -> Seq<Tensor<D>> {
    Seq::new(raw.len(), |i: int| Tensor { name: outputs[i].name, data: raw[i] })
}

/// What an inference returns for what the engine's run gave: `None` stands
/// for a run that failed.
pub open spec fn inferred<D>(model: ModelDescriptor, run: Option<Vec<D>>) -> Result<
    Seq<Tensor<D>>,
    ErrorKind,
> {
    match run {
        None => Err(ErrorKind::EngineRun),
        Some(raw) => if raw@.len() == model.outputs@.len() {
            Ok(named(model.outputs@, raw@))
        } else {
            Err(ErrorKind::ShapeCountMismatch)
        },
    }
}

/// Pairs the engine's raw outputs with the model's declared outputs by
/// position. The two must agree in number: nothing is cut short.
pub fn name_outputs<D>(outputs: &Vec<TensorDescriptor>, raw: Vec<D>) -> (r: Result<
    Vec<Tensor<D>>,
    ErrorKind,
>)
    ensures
        raw@.len() == outputs@.len() ==> r.is_ok() && r.unwrap()@ == named(outputs@, raw@),
        raw@.len() != outputs@.len() ==> r == Err::<Vec<Tensor<D>>, ErrorKind>(
            ErrorKind::ShapeCountMismatch,
        ),
{
    if raw.len() != outputs.len() {
        return Err(ErrorKind::ShapeCountMismatch);
    }
    let n: usize = outputs.len();
    let mut rest = reversed(raw);
    let mut out: Vec<Tensor<D>> = Vec::new();
    let mut i: usize = 0;
    while i < n
        invariant
            n == outputs@.len(),
            n == raw@.len(),
            i <= n,
            rest@ == raw@.reverse().take(n - i),
            out@.len() == i,
            forall|j: int| 0 <= j < i ==> out@[j] == named(outputs@, raw@)[j],
        decreases n - i,
    {
        let data = rest.pop().unwrap();
        let name = outputs[i].name.clone();
        out.push(Tensor { name, data });
        i += 1;
    }
    assert(out@ =~= named(outputs@, raw@));
    Ok(out)
}

/// Ends an inference: names the outputs of a run that succeeded, and
/// reports a run that failed.
pub fn finish_inference<D>(model: &ModelDescriptor, run: Option<Vec<D>>) -> (r: Result<
    Vec<Tensor<D>>,
    ErrorKind,
>)
    ensures
        match inferred(*model, run) {
            Ok(tensors) => r.is_ok() && r.unwrap()@ == tensors,
            Err(kind) => r == Err::<Vec<Tensor<D>>, ErrorKind>(kind),
        },
{
    match run {
        None => Err(ErrorKind::EngineRun),
        Some(raw) => name_outputs(&model.outputs, raw),
    }
}

} // verus!
