use crate::address::ContentAddress;
use vstd::prelude::*;

verus! {

/// The element types a portable tensor slot can have.
#[derive(Clone, Copy, Debug, PartialEq, Eq, Structural, Hash)]
pub enum ElementType {
    U8,
    I8,
    U16,
    I16,
    U32,
    I32,
    U64,
    I64,
    F32,
    F64,
}

/// One declared input or output of a model: its name, the type of its
/// elements, and its shape, where a dimension of any size is `None`.
#[derive(Clone, Debug, PartialEq, Eq)]
pub struct TensorDescriptor {
    pub name: String,
    pub element: ElementType,
    pub dimensions: Vec<Option<u32>>,
}

/// A model as callers see it: its address and its inputs and outputs, in the
/// order in which its session declares them.
#[derive(Clone, Debug, PartialEq, Eq)]
pub struct ModelDescriptor {
    pub address: ContentAddress,
    pub inputs: Vec<TensorDescriptor>,
    pub outputs: Vec<TensorDescriptor>,
}

/// A named payload. The payload's representation is the engine's affair.
#[derive(Clone, Debug, PartialEq, Eq)]
pub struct Tensor<D> {
    pub name: String,
    pub data: D,
}

} // verus!
