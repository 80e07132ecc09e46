//! Machine-level configuration of a microVM: vCPU count, memory size, SMT,
//! CPU template and dirty-page tracking, with a verified update/validation
//! transition that only ever yields configurations satisfying their invariant.
pub mod cpu_template;
pub mod machine_config;

pub use cpu_template::{CpuTemplateType, CustomCpuTemplate, RegisterModifier, StaticCpuTemplate};
pub use machine_config::{
    MachineConfig, MachineConfigUpdate, VmConfig, VmConfigError, DEFAULT_MEM_SIZE_MIB,
    MAX_SUPPORTED_VCPUS,
};
