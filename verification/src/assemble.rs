//! Turning export descriptors into registration steps.
//!
//! Each descriptor either fails one of the structural checks — a method must
//! take its receiver, a legacy-form method must take an explicit base, and
//! the optional count must fit the signature — or becomes one binding step
//! naming the registration name, the calling-convention mode, the role of
//! each parameter, and the deprecation notices to emit.

use vstd::prelude::*;

use crate::analyze::{expose_model, impl_gdnative_expose};
use crate::ast::{
    dv, lemma_dv_subrange, ClassMethodExport, ExportError, ExportMethod, ItemImpl, ReturnKind,
    SpecClassMethodExport, SpecExportError, SpecExportMethod, SpecItemImpl,
};
use crate::rpc::RpcMode;

verus! {

/// How the generated thunk binds one parameter.
#[derive(Clone, Copy, PartialEq, Eq, Debug, Structural)]
pub enum ArgRole {
    /// The base/owner parameter, bound specially at position 1.
    Base,
    /// A parameter the caller must pass.
    Required,
    /// A trailing parameter the caller may omit.
    Optional,
}

impl DeepView for ArgRole {
    type V = ArgRole;

    open spec fn deep_view(&self) -> ArgRole {
        *self
    }
}

/// One step of the registration routine: either a synthesized error standing
/// where the failing method's binding would be, or one binding.
#[derive(Debug)]
pub enum RegisterStep {
    /// The method failed a structural check; the error takes its place so
    /// sibling registrations still proceed.
    Failed(ExportError),
    /// One method bound into the class builder.
    Binding {
        /// The descriptor the binding was assembled from.
        method: ExportMethod,
        /// The registration name: the override if one was set, else the
        /// method's own identifier.
        name: String,
        /// The calling-convention mode, `Disabled` unless set.
        rpc: RpcMode,
        /// The role of each parameter, in declaration order.
        roles: Vec<ArgRole>,
        /// A deprecation notice is owed because the legacy marker form was
        /// used.
        warn_legacy: bool,
        /// A deprecation notice is owed because the method returns a
        /// reference without acknowledging it.
        warn_ref_return: bool,
    },
}

pub enum SpecRegisterStep {
    Failed(SpecExportError),
    Binding {
        method: SpecExportMethod,
        name: Seq<char>,
        rpc: RpcMode,
        roles: Seq<ArgRole>,
        warn_legacy: bool,
        warn_ref_return: bool,
    },
}

impl DeepView for RegisterStep {
    type V = SpecRegisterStep;

    open spec fn deep_view(&self) -> SpecRegisterStep {
        match self {
            RegisterStep::Failed(e) => SpecRegisterStep::Failed(e.deep_view()),
            RegisterStep::Binding { method, name, rpc, roles, warn_legacy, warn_ref_return } => {
                SpecRegisterStep::Binding {
                    method: method.deep_view(),
                    name: name@,
                    rpc: *rpc,
                    roles: roles.deep_view(),
                    warn_legacy: *warn_legacy,
                    warn_ref_return: *warn_ref_return,
                }
            },
        }
    }
}

/// The optional-parameter count a descriptor carries, zero when none.
pub open spec fn opt_count(em: SpecExportMethod) -> int {
    match em.optional_args {
        Some(c) => c as int,
        None => 0,
    }
}

/// The role of the parameter at position `i` of a binding.
pub open spec fn role_at(em: SpecExportMethod, i: int) -> ArgRole {
    if em.exist_base_arg && i == 1 {
        ArgRole::Base
    } else if i < em.sig.inputs.len() - opt_count(em) {
        ArgRole::Required
    } else {
        ArgRole::Optional
    }
}

/// The registration step one descriptor assembles to. The structural checks
/// run in order: missing receiver, then legacy form without base, then the
/// optional-count ceiling; the first failure names the step.
pub open spec fn assemble_model(em: SpecExportMethod) -> SpecRegisterStep {
    let n = em.sig.inputs.len() as int;
    if n == 0 {
        SpecRegisterStep::Failed(SpecExportError::MissingSelfParam)
    } else if em.export_args.is_old_syntax && !em.exist_base_arg {
        SpecRegisterStep::Failed(SpecExportError::LegacyMissingBase)
    } else if em.optional_args is Some && opt_count(em) > (if n >= 2 {
        n - 2
    } else {
        0
    }) {
        SpecRegisterStep::Failed(
            SpecExportError::TooManyOptional {
                max: (if n >= 2 {
                    n - 2
                } else {
                    0
                }) as usize,
                got: em.optional_args->Some_0,
            },
        )
    } else {
        SpecRegisterStep::Binding {
            method: em,
            name: match em.export_args.name_override {
                Some(s) => s,
                None => em.sig.ident,
            },
            rpc: match em.export_args.rpc_mode {
                Some(r) => r,
                None => RpcMode::Disabled,
            },
            roles: Seq::new(em.sig.inputs.len(), |i: int| role_at(em, i)),
            warn_legacy: em.export_args.is_old_syntax,
            warn_ref_return: em.sig.output == ReturnKind::Reference
                && !em.export_args.is_deref_return,
        }
    }
}

/// Assembles one export descriptor into its registration step.
#[verifier::loop_isolation(false)]
pub fn assemble_method(em: ExportMethod) -> (r: RegisterStep)
    ensures
        r.deep_view() == assemble_model(em.deep_view()),
{
    let ghost emv: SpecExportMethod = em.deep_view();
    let arg_count: usize = em.sig.inputs.len();
    proof {
        assert(arg_count as int == emv.sig.inputs.len());
    }
    if arg_count == 0 {
        return RegisterStep::Failed(ExportError::MissingSelfParam);
    }
    if em.export_args.is_old_syntax && !em.exist_base_arg {
        return RegisterStep::Failed(ExportError::LegacyMissingBase);
    }
    let max_optional: usize = if arg_count >= 2 {
        arg_count - 2
    } else {
        0
    };
    let opt: usize = match em.optional_args {
        Some(c) => {
            if c > max_optional {
                return RegisterStep::Failed(
                    ExportError::TooManyOptional { max: max_optional, got: c },
                );
            }
            c
        },
        None => 0,
    };
    proof {
        assert(opt as int == opt_count(emv));
    }
    let name: String = match &em.export_args.name_override {
        Some(s) => s.clone(),
        None => em.sig.ident.clone(),
    };
    let rpc: RpcMode = match em.export_args.rpc_mode {
        Some(r) => r,
        None => RpcMode::Disabled,
    };
    let warn_legacy = em.export_args.is_old_syntax;
    let warn_ref_return = matches!(em.sig.output, ReturnKind::Reference)
        && !em.export_args.is_deref_return;
    let mut roles: Vec<ArgRole> = Vec::new();
    let mut i: usize = 0;
    proof {
        assert(roles.deep_view() =~= Seq::new(0, |k: int| role_at(emv, k)));
    }
    while i < arg_count
        invariant
            0 <= i <= arg_count,
            roles.deep_view() == Seq::new(i as nat, |k: int| role_at(emv, k)),
        decreases arg_count - i,
    {
        let ghost pre = roles.deep_view();
        let role = if em.exist_base_arg && i == 1 {
            ArgRole::Base
        } else if i < arg_count - opt {
            ArgRole::Required
        } else {
            ArgRole::Optional
        };
        roles.push(role);
        proof {
            assert(role == role_at(emv, i as int));
            assert(roles.deep_view() =~= pre.push(role));
            assert(roles.deep_view() =~= Seq::new((i + 1) as nat, |k: int| role_at(emv, k)));
        }
        i = i + 1;
    }
    let r = RegisterStep::Binding { method: em, name, rpc, roles, warn_legacy, warn_ref_return };
    proof {
        assert(r.deep_view() == assemble_model(emv));
    }
    r
}

/// The registration steps of the first `n` descriptors, in order.
pub open spec fn steps_model(ems: Seq<SpecExportMethod>, n: int) -> Seq<SpecRegisterStep>
    decreases n,
{
    if n <= 0 {
        Seq::empty()
    } else {
        steps_model(ems, n - 1).push(assemble_model(ems[n - 1]))
    }
}

/// The result of transforming one implementation block: the cleaned block,
/// the target type's name, and the registration routine as ordered steps.
#[derive(Debug)]
pub struct DeriveOutput {
    pub impl_block: ItemImpl,
    pub class_ty: String,
    pub steps: Vec<RegisterStep>,
}

/// The whole transformation of one implementation block. The cleaned block
/// comes from the per-method analysis; each error-free marked method yields
/// one registration step, in declaration order, and each descriptor failing
/// a structural check yields an error step in its place.
#[verifier::loop_isolation(false)]
pub fn derive_methods(item_impl: ItemImpl) -> (r: DeriveOutput)
    ensures
        ({
            let (block, export) = expose_model(item_impl.deep_view());
            &&& r.impl_block.deep_view() == block
            &&& r.class_ty@ == export.class_ty
            &&& r.steps.deep_view() == steps_model(export.methods, export.methods.len() as int)
        }),
{
    let ghost imv: SpecItemImpl = item_impl.deep_view();
    let (impl_block, export) = impl_gdnative_expose(item_impl);
    let ClassMethodExport { class_ty, methods } = export;
    let ghost ems: Seq<SpecExportMethod> = methods.deep_view();
    let ghost n: int = ems.len() as int;
    let mut methods = methods;
    let total: usize = methods.len();
    proof {
        assert(total as int == n);
    }
    let mut steps: Vec<RegisterStep> = Vec::new();
    let mut i: usize = 0;
    proof {
        assert(methods.deep_view() =~= ems.subrange(0, n));
        assert(steps.deep_view() =~= steps_model(ems, 0));
    }
    while methods.len() > 0
        invariant
            0 <= i,
            i + methods.len() == n,
            methods.deep_view() == ems.subrange(i as int, n),
            steps.deep_view() == steps_model(ems, i as int),
        decreases methods.len(),
    {
        let ghost pre_seq: Seq<ExportMethod> = methods@;
        let em = methods.remove(0);
        proof {
            assert(dv(pre_seq) == ems.subrange(i as int, n));
            assert(em.deep_view() == dv(pre_seq)[0]);
            assert(em.deep_view() == ems[i as int]);
            assert(methods@ =~= pre_seq.subrange(1, pre_seq.len() as int));
            lemma_dv_subrange(pre_seq, 1, pre_seq.len() as int);
            assert(methods.deep_view() =~= ems.subrange(i as int + 1, n));
        }
        let ghost pre_steps = steps.deep_view();
        let step = assemble_method(em);
        steps.push(step);
        proof {
            assert(steps.deep_view() =~= pre_steps.push(assemble_model(ems[i as int])));
        }
        i = i + 1;
    }
    proof {
        assert(i as int == n);
    }
    DeriveOutput { impl_block, class_ty, steps }
}

} // verus!
