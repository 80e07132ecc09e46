//! Machine configuration of a microVM: the stored configuration, the two
//! shapes exchanged with API callers, and the validated update transition.
use vstd::prelude::*;

use crate::cpu_template::{
    clone_template, static_projection, template_model, CpuTemplateModel, CpuTemplateType,
    CustomCpuTemplate, StaticCpuTemplate,
};

verus! {

/// The default memory size of the VM, in MiB.
pub const DEFAULT_MEM_SIZE_MIB: usize = 128;

/// Upper bound on the number of vCPUs of a microVM, which targets small
/// workloads only.
pub const MAX_SUPPORTED_VCPUS: u8 = 32;

/// Errors associated with configuring the microVM.
#[derive(Clone, Copy, Debug, PartialEq, Eq, Structural)]
pub enum VmConfigError {
    /// The memory size (MiB) is smaller than the previously set balloon device target size.
    IncompatibleBalloonSize,
    /// The memory size (MiB) is invalid.
    InvalidMemorySize,
    /// The number of vCPUs must be greater than 0, at most the supported
    /// maximum, and 1 or an even number if SMT is enabled.
    InvalidVcpuCount,
    /// Could not get the configuration of the previously installed balloon device to validate the memory size.
    InvalidVmState,
    /// Enabling simultaneous multithreading is not supported on this architecture.
    SmtNotSupported,
}

/// Full machine configuration as exchanged with API callers (PUT form). Its
/// template can only be a static one.
#[derive(Clone, Copy, Debug, PartialEq, Eq, Structural)]
pub struct MachineConfig {
    /// Number of vcpu to start.
    pub vcpu_count: u8,
    /// The memory size in MiB.
    pub mem_size_mib: usize,
    /// Enables or disabled SMT.
    pub smt: bool,
    /// A CPU template that it is used to filter the CPU features exposed to the guest.
    pub cpu_template: Option<StaticCpuTemplate>,
    /// Enables or disables dirty page tracking. Enabling allows incremental snapshots.
    pub track_dirty_pages: bool,
}

/// Partial update of the machine configuration (PATCH form). A field that is
/// `Some(value)` requests an update of that field; `None` keeps it.
#[derive(Clone, Copy, Debug, Default, PartialEq, Eq, Structural)]
pub struct MachineConfigUpdate {
    /// Number of vcpu to start.
    pub vcpu_count: Option<u8>,
    /// The memory size in MiB.
    pub mem_size_mib: Option<usize>,
    /// Enables or disabled SMT.
    pub smt: Option<bool>,
    /// A CPU template that it is used to filter the CPU features exposed to the guest.
    pub cpu_template: Option<StaticCpuTemplate>,
    /// Enables or disables dirty page tracking. Enabling allows incremental snapshots.
    pub track_dirty_pages: Option<bool>,
}

/// Configuration of the microVM, as stored.
#[derive(Debug, PartialEq, Eq)]
pub struct VmConfig {
    /// Number of vcpu to start.
    pub vcpu_count: u8,
    /// The memory size in MiB.
    pub mem_size_mib: usize,
    /// Enables or disabled SMT.
    pub smt: bool,
    /// A CPU template that it is used to filter the CPU features exposed to the guest.
    pub cpu_template: Option<CpuTemplateType>,
    /// Enables or disables dirty page tracking. Enabling allows incremental snapshots.
    pub track_dirty_pages: bool,
}

/// Mathematical model of a stored configuration.
pub struct VmConfigModel {
    pub vcpu_count: nat,
    pub mem_size_mib: nat,
    pub smt: bool,
    pub cpu_template: Option<CpuTemplateModel>,
    pub track_dirty_pages: bool,
}

impl View for VmConfig {
    type V = VmConfigModel;

    open spec fn view(&self) -> VmConfigModel {
        VmConfigModel {
            vcpu_count: self.vcpu_count as nat,
            mem_size_mib: self.mem_size_mib as nat,
            smt: self.smt,
            cpu_template: template_model(self.cpu_template),
            track_dirty_pages: self.track_dirty_pages,
        }
    }
}

impl Clone for VmConfig {
    fn clone(&self) -> (r: Self)
        ensures
            r@ == self@,
    {
        VmConfig {
            vcpu_count: self.vcpu_count,
            mem_size_mib: self.mem_size_mib,
            smt: self.smt,
            cpu_template: clone_template(&self.cpu_template),
            track_dirty_pages: self.track_dirty_pages,
        }
    }
}

/// A vCPU count is acceptable when it lies in `1..=MAX_SUPPORTED_VCPUS` and,
/// with SMT enabled, is 1 or even.
pub open spec fn vcpu_count_ok(vcpu_count: nat, smt: bool) -> bool {
    &&& 1 <= vcpu_count <= MAX_SUPPORTED_VCPUS
    &&& smt ==> (vcpu_count == 1 || vcpu_count % 2 == 0)
}

/// The template stored after an update that requests `requested`: absent keeps
/// `current`, `NoTemplate` clears it, any other name becomes a static template.
pub open spec fn resolve_template(
    current: Option<CpuTemplateModel>,
    requested: Option<StaticCpuTemplate>,
) -> Option<CpuTemplateModel> {
    match requested {
        None => current,
        Some(StaticCpuTemplate::NoTemplate) => None,
        Some(s) => Some(CpuTemplateModel::Static(s)),
    }
}

impl VmConfigModel {
    /// The invariant of a stored configuration on a host that does or does not
    /// support SMT.
    pub open spec fn is_valid(self, smt_supported: bool) -> bool {
        &&& vcpu_count_ok(self.vcpu_count, self.smt)
        &&& self.mem_size_mib >= 1
        &&& self.smt ==> smt_supported
    }
}

impl MachineConfigUpdate {
    /// The vCPU count that results from applying this update to `cfg`.
    pub open spec fn vcpu_count_for(self, cfg: VmConfigModel) -> nat {
        match self.vcpu_count {
            Some(v) => v as nat,
            None => cfg.vcpu_count,
        }
    }

    /// The memory size that results from applying this update to `cfg`.
    pub open spec fn mem_size_mib_for(self, cfg: VmConfigModel) -> nat {
        match self.mem_size_mib {
            Some(m) => m as nat,
            None => cfg.mem_size_mib,
        }
    }

    /// The configuration that results from applying this update to `cfg`,
    /// before validation.
    pub open spec fn merged_into(self, cfg: VmConfigModel) -> VmConfigModel {
        VmConfigModel {
            vcpu_count: self.vcpu_count_for(cfg),
            mem_size_mib: self.mem_size_mib_for(cfg),
            smt: self.smt.unwrap_or(cfg.smt),
            cpu_template: resolve_template(cfg.cpu_template, self.cpu_template),
            track_dirty_pages: self.track_dirty_pages.unwrap_or(cfg.track_dirty_pages),
        }
    }

    /// Why applying this update to `cfg` is rejected, if it is: the checks run
    /// in order SMT support, vCPU range, SMT parity, memory size, and the
    /// first that fails decides.
    pub open spec fn rejection(self, cfg: VmConfigModel, smt_supported: bool) -> Option<
        VmConfigError,
    > {
        let m = self.merged_into(cfg);
        if m.smt && !smt_supported {
            Some(VmConfigError::SmtNotSupported)
        } else if !vcpu_count_ok(m.vcpu_count, m.smt) {
            Some(VmConfigError::InvalidVcpuCount)
        } else if m.mem_size_mib == 0 {
            Some(VmConfigError::InvalidMemorySize)
        } else {
            None
        }
    }

    /// True iff no field requests an update.
    pub open spec fn is_empty_spec(self) -> bool {
        &&& self.vcpu_count is None
        &&& self.mem_size_mib is None
        &&& self.smt is None
        &&& self.cpu_template is None
        &&& self.track_dirty_pages is None
    }

    /// Checks if the update request contains any data.
    /// Returns `true` if all fields are `None`, which means that there is
    /// nothing to be updated.
    pub fn is_empty(&self) -> (r: bool)
        ensures
            r == self.is_empty_spec(),
    {
        self.vcpu_count.is_none() && self.mem_size_mib.is_none() && self.smt.is_none()
            && self.cpu_template.is_none() && self.track_dirty_pages.is_none()
    }
}

impl VmConfig {
    /// Sets the cpu template field to `CpuTemplateType::Custom(cpu_template)`;
    /// every other field is kept.
    pub fn set_custom_cpu_template(&mut self, cpu_template: CustomCpuTemplate)
        ensures
            final(self)@ == (VmConfigModel {
                cpu_template: Some(CpuTemplateModel::Custom(cpu_template@)),
                ..old(self)@
            }),
    {
        self.cpu_template = Some(CpuTemplateType::Custom(cpu_template));
    }

    /// Computes the configuration that results from applying `update` to this
    /// one, on a host that does (`smt_supported`) or does not support SMT.
    /// Mapping for the cpu template:
    /// absent -> the current template,
    /// `StaticCpuTemplate::NoTemplate` -> no template,
    /// any other name -> `CpuTemplateType::Static(name)`.
    /// Fails, leaving `self` untouched, when the merged configuration would not
    /// be valid.
    pub fn update(&self, update: &MachineConfigUpdate, smt_supported: bool) -> (r: Result<
        VmConfig,
        VmConfigError,
    >)
        ensures
            r is Ok <==> update.rejection(self@, smt_supported) is None,
            r matches Ok(cfg) ==> cfg@ == update.merged_into(self@),
            r matches Err(e) ==> update.rejection(self@, smt_supported) == Some(e),
            r matches Ok(cfg) ==> cfg@.is_valid(smt_supported),
    {
        let vcpu_count = update.vcpu_count.unwrap_or(self.vcpu_count);

        let smt = update.smt.unwrap_or(self.smt);

        if smt && !smt_supported {
            return Err(VmConfigError::SmtNotSupported);
        }

        if vcpu_count == 0 || vcpu_count > MAX_SUPPORTED_VCPUS {
            return Err(VmConfigError::InvalidVcpuCount);
        }

        // If SMT is enabled or is to be enabled in this call
        // only allow vcpu count to be 1 or even.
        if smt && vcpu_count > 1 && vcpu_count % 2 == 1 {
            return Err(VmConfigError::InvalidVcpuCount);
        }

        let mem_size_mib = update.mem_size_mib.unwrap_or(self.mem_size_mib);

        if mem_size_mib == 0 {
            return Err(VmConfigError::InvalidMemorySize);
        }

        let cpu_template = match update.cpu_template {
            None => clone_template(&self.cpu_template),
            Some(StaticCpuTemplate::NoTemplate) => None,
            Some(other) => Some(CpuTemplateType::Static(other)),
        };

        proof {
            assert(vcpu_count_ok(vcpu_count as nat, smt));
        }
        Ok(VmConfig {
            vcpu_count,
            mem_size_mib,
            smt,
            cpu_template,
            track_dirty_pages: update.track_dirty_pages.unwrap_or(self.track_dirty_pages),
        })
    }
}

/// The configuration a microVM starts with: one vCPU, 128 MiB, no SMT, no
/// template, no dirty-page tracking.
pub open spec fn default_config() -> VmConfigModel {
    VmConfigModel {
        vcpu_count: 1,
        mem_size_mib: DEFAULT_MEM_SIZE_MIB as nat,
        smt: false,
        cpu_template: None,
        track_dirty_pages: false,
    }
}

impl Default for VmConfig {
    fn default() -> (r: Self)
        ensures
            r@ == default_config(),
    {
        Self {
            vcpu_count: 1,
            mem_size_mib: DEFAULT_MEM_SIZE_MIB,
            smt: false,
            cpu_template: None,
            track_dirty_pages: false,
        }
    }
}

/// The full external view of a stored configuration: each field is copied,
/// and the template is projected onto the static templates.
pub open spec fn full_view(cfg: VmConfigModel) -> MachineConfig {
    MachineConfig {
        vcpu_count: cfg.vcpu_count as u8,
        mem_size_mib: cfg.mem_size_mib as usize,
        smt: cfg.smt,
        cpu_template: match cfg.cpu_template {
            Some(t) => Some(static_projection(t)),
            None => None,
        },
        track_dirty_pages: cfg.track_dirty_pages,
    }
}

impl<'a> From<&'a VmConfig> for MachineConfig {
    fn from(value: &'a VmConfig) -> (r: Self)
        ensures
            r == full_view(value@),
    {
        Self {
            vcpu_count: value.vcpu_count,
            mem_size_mib: value.mem_size_mib,
            smt: value.smt,
            cpu_template: match &value.cpu_template {
                Some(template) => Some(template.to_static()),
                None => None,
            },
            track_dirty_pages: value.track_dirty_pages,
        }
    }
}

impl<'a> vstd::std_specs::convert::FromSpecImpl<&'a VmConfig> for MachineConfig {
    open spec fn obeys_from_spec() -> bool {
        true
    }

    open spec fn from_spec(v: &'a VmConfig) -> MachineConfig {
        full_view(v@)
    }
}

impl Default for MachineConfig {
    fn default() -> (r: Self)
        ensures
            r == full_view(default_config()),
    {
        Self::from(&VmConfig::default())
    }
}

/// The update that re-specifies every field of `cfg` as itself; no template
/// is requested as `NoTemplate`.
pub open spec fn patch_view(cfg: MachineConfig) -> MachineConfigUpdate {
    MachineConfigUpdate {
        vcpu_count: Some(cfg.vcpu_count),
        mem_size_mib: Some(cfg.mem_size_mib),
        smt: Some(cfg.smt),
        cpu_template: Some(cfg.cpu_template.unwrap_or(StaticCpuTemplate::NoTemplate)),
        track_dirty_pages: Some(cfg.track_dirty_pages),
    }
}

impl From<MachineConfig> for MachineConfigUpdate {
    fn from(cfg: MachineConfig) -> (r: Self)
        ensures
            r == patch_view(cfg),
    {
        MachineConfigUpdate {
            vcpu_count: Some(cfg.vcpu_count),
            mem_size_mib: Some(cfg.mem_size_mib),
            smt: Some(cfg.smt),
            cpu_template: Some(cfg.cpu_template.unwrap_or(StaticCpuTemplate::NoTemplate)),
            track_dirty_pages: Some(cfg.track_dirty_pages),
        }
    }
}

impl vstd::std_specs::convert::FromSpecImpl<MachineConfig> for MachineConfigUpdate {
    open spec fn obeys_from_spec() -> bool {
        true
    }

    open spec fn from_spec(v: MachineConfig) -> MachineConfigUpdate {
        patch_view(v)
    }
}

/// An update that requests nothing leaves a valid configuration as it is.
pub proof fn lemma_empty_update_keeps_config(
    cfg: VmConfig,
    update: MachineConfigUpdate,
    smt_supported: bool,
)
    requires
        cfg@.is_valid(smt_supported),
        update.is_empty_spec(),
    ensures
        update.rejection(cfg@, smt_supported) is None,
        update.merged_into(cfg@) == cfg@,
{
}

/// Whatever the update, an accepted one yields a configuration that satisfies
/// the invariant.
pub proof fn lemma_update_preserves_validity(
    cfg: VmConfig,
    update: MachineConfigUpdate,
    smt_supported: bool,
)
    requires
        cfg@.is_valid(smt_supported),
    ensures
        update.rejection(cfg@, smt_supported) is None ==> update.merged_into(cfg@).is_valid(
            smt_supported,
        ),
{
}

/// Applying the patch view of a valid configuration to any configuration
/// yields that configuration back, provided its template has a static name
/// other than `NoTemplate` or is absent: a custom template cannot be named in
/// an update, and a stored `Static(NoTemplate)` comes back as no template.
pub proof fn lemma_patch_view_round_trip(cfg: VmConfig, other: VmConfig, smt_supported: bool)
    requires
        cfg@.is_valid(smt_supported),
        !(cfg@.cpu_template matches Some(CpuTemplateModel::Custom(_))),
        cfg@.cpu_template != Some(CpuTemplateModel::Static(StaticCpuTemplate::NoTemplate)),
    ensures
        patch_view(full_view(cfg@)).rejection(other@, smt_supported) is None,
        patch_view(full_view(cfg@)).merged_into(other@) == cfg@,
{
}

/// On a host without SMT support, every update whose resulting SMT flag is
/// set fails with `SmtNotSupported`, whatever the vCPU count.
pub proof fn lemma_smt_rejected_without_support(cfg: VmConfig, update: MachineConfigUpdate)
    requires
        update.merged_into(cfg@).smt,
    ensures
        update.rejection(cfg@, false) == Some(VmConfigError::SmtNotSupported),
{
}

} // verus!
