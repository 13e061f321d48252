//! Selection of the numerical kernels the orchestrator talks to: each
//! kernel kind maps to the name under which the external runtime loads it.

use vstd::prelude::*;

verus! {

/// Available power-flow kernels.
#[derive(Clone, Copy, PartialEq, Eq, Structural, Debug)]
pub enum KernelType {
    Pandapower,
    PyPSA,
    GridCal,
}

/// Available AI kernels.
#[derive(Clone, Copy, PartialEq, Eq, Structural, Debug)]
pub enum AIKernelType {
    PyTorch,
    TensorFlow,
    OpenAIGym,
}

/// The name under which a power-flow kernel is loaded.
pub open spec fn spec_power_kernel_name(t: KernelType) -> Seq<char> {
    match t {
        KernelType::Pandapower => "pandapower"@,
        KernelType::PyPSA => "pypsa"@,
        KernelType::GridCal => "gridcal"@,
    }
}

/// The name under which an AI kernel is loaded.
pub open spec fn spec_ai_kernel_name(t: AIKernelType) -> Seq<char> {
    match t {
        AIKernelType::PyTorch => "pytorch"@,
        AIKernelType::TensorFlow => "tensorflow"@,
        AIKernelType::OpenAIGym => "gym"@,
    }
}

/// Chooses kernels by kind.
pub struct KernelFactory;

impl KernelFactory {
    /// The load name of a power-flow kernel; every kind has one.
    pub fn create_power_kernel(kernel_type: KernelType) -> (r: Result<String, String>)
        ensures
            r matches Ok(s) && s@ == spec_power_kernel_name(kernel_type),
    {
        match kernel_type {
            KernelType::Pandapower => Ok(String::from_str("pandapower")),
            KernelType::PyPSA => Ok(String::from_str("pypsa")),
            KernelType::GridCal => Ok(String::from_str("gridcal")),
        }
    }

    /// The load name of an AI kernel; every kind has one.
    pub fn create_ai_kernel(kernel_type: AIKernelType) -> (r: Result<String, String>)
        ensures
            r matches Ok(s) && s@ == spec_ai_kernel_name(kernel_type),
    {
        match kernel_type {
            AIKernelType::PyTorch => Ok(String::from_str("pytorch")),
            AIKernelType::TensorFlow => Ok(String::from_str("tensorflow")),
            AIKernelType::OpenAIGym => Ok(String::from_str("gym")),
        }
    }
}

} // verus!
