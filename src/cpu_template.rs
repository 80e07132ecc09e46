//! CPU templates: the named static templates, user-supplied custom templates,
//! and the tagged variant that a configuration stores.
use vstd::prelude::*;

verus! {

/// A named, predefined set of CPU feature masks.
#[derive(Clone, Copy, Debug, Default, PartialEq, Eq, Structural)]
pub enum StaticCpuTemplate {
    /// Intel C3 template.
    C3,
    /// Intel T2 template.
    T2,
    /// Intel T2S template.
    T2S,
    /// Intel T2CL template.
    T2CL,
    /// AMD T2A template.
    T2A,
    /// Neoverse V1 template presented as a Neoverse N1.
    V1N1,
    /// No template.
    #[default]
    NoTemplate,
}

/// One register override of a custom template: the bits selected by `filter`
/// in the register at `addr` are set to the matching bits of `value`.
#[derive(Clone, Copy, Debug, PartialEq, Eq, Structural)]
pub struct RegisterModifier {
    /// Address or identifier of the register.
    pub addr: u64,
    /// Mask of the bits that this modifier sets.
    pub filter: u64,
    /// Values of the masked bits.
    pub value: u64,
}

/// A user-supplied, fully specified set of CPU feature masks.
#[derive(Debug, PartialEq, Eq)]
pub struct CustomCpuTemplate {
    /// Register overrides, applied in order.
    pub reg_modifiers: Vec<RegisterModifier>,
}

impl View for CustomCpuTemplate {
    type V = Seq<RegisterModifier>;

    open spec fn view(&self) -> Seq<RegisterModifier> {
        self.reg_modifiers@
    }
}

impl Clone for CustomCpuTemplate {
    fn clone(&self) -> (r: Self)
        ensures
            r@ == self@,
    {
        let mut reg_modifiers: Vec<RegisterModifier> = Vec::new();
        let mut i: usize = 0;
        while i < self.reg_modifiers.len()
            invariant
                i <= self@.len(),
                reg_modifiers@ == self@.subrange(0, i as int),
            decreases self@.len() - i,
        {
            reg_modifiers.push(self.reg_modifiers[i]);
            i = i + 1;
        }
        assert(self@.subrange(0, self@.len() as int) =~= self@);
        CustomCpuTemplate { reg_modifiers }
    }
}

/// Mathematical model of a stored template.
pub enum CpuTemplateModel {
    Static(StaticCpuTemplate),
    Custom(Seq<RegisterModifier>),
}

/// The template a configuration stores: either a named static one or a
/// custom one.
#[derive(Debug, PartialEq, Eq)]
pub enum CpuTemplateType {
    /// A user-supplied template.
    Custom(CustomCpuTemplate),
    /// A named predefined template.
    Static(StaticCpuTemplate),
}

impl View for CpuTemplateType {
    type V = CpuTemplateModel;

    open spec fn view(&self) -> CpuTemplateModel {
        match self {
            CpuTemplateType::Custom(c) => CpuTemplateModel::Custom(c@),
            CpuTemplateType::Static(s) => CpuTemplateModel::Static(*s),
        }
    }
}

impl Clone for CpuTemplateType {
    fn clone(&self) -> (r: Self)
        ensures
            r@ == self@,
    {
        match self {
            CpuTemplateType::Custom(c) => CpuTemplateType::Custom(c.clone()),
            CpuTemplateType::Static(s) => CpuTemplateType::Static(*s),
        }
    }
}

/// The static template that stands for `t` where only a static one can be
/// expressed: a custom template has no name and projects to no template.
pub open spec fn static_projection(t: CpuTemplateModel) -> StaticCpuTemplate {
    match t {
        CpuTemplateModel::Static(s) => s,
        CpuTemplateModel::Custom(_) => StaticCpuTemplate::NoTemplate,
    }
}

impl CpuTemplateType {
    /// Projects this template onto the static templates; a custom template
    /// becomes `StaticCpuTemplate::NoTemplate`.
    pub fn to_static(&self) -> (r: StaticCpuTemplate)
        ensures
            r == static_projection(self@),
    {
        match self {
            CpuTemplateType::Custom(_) => StaticCpuTemplate::NoTemplate,
            CpuTemplateType::Static(s) => *s,
        }
    }
}

/// Model of an optional stored template.
pub open spec fn template_model(t: Option<CpuTemplateType>) -> Option<CpuTemplateModel> {
    match t {
        Some(x) => Some(x@),
        None => None,
    }
}

/// Copies an optional stored template, keeping its model.
pub fn clone_template(t: &Option<CpuTemplateType>) -> (r: Option<CpuTemplateType>)
    ensures
        template_model(r) == template_model(*t),
{
    match t {
        Some(x) => Some(x.clone()),
        None => None,
    }
}

} // verus!
