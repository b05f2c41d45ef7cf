//! The laws the transformation obeys, stated over the functional model that
//! every executable function is proved equal to.

use vstd::prelude::*;

use crate::analyze::{
    analyze_method_model, attr_fold, attr_is_marker, expose_exports, item_outcome_exports,
    marker_step, meta_fold, meta_step, method_has_marker, param_is_base, param_is_opt, param_step,
    params_fold,
};
use crate::assemble::{assemble_model, SpecRegisterStep};
use crate::ast::{
    SpecAttrArgs, SpecAttribute, SpecExportArgs, SpecExportError, SpecExportMethod, SpecImplItem,
    SpecLitValue, SpecMetaItem, SpecMethod, SpecParam,
};
use crate::rpc::RpcMode;

verus! {

/// A scan over annotations of which none is a marker finds nothing and
/// raises nothing.
pub proof fn lemma_fold_no_marker(attrs: Seq<SpecAttribute>, n: int)
    requires
        0 <= n <= attrs.len(),
        forall|i: int| 0 <= i < n ==> !attr_is_marker(#[trigger] attrs[i]),
    ensures
        attr_fold(attrs, n) == (None::<SpecExportArgs>, Seq::<SpecExportError>::empty()),
    decreases n,
{
    if n > 0 {
        lemma_fold_no_marker(attrs, n - 1);
    }
}

/// A scan that has passed a marker has a configuration established.
pub proof fn lemma_fold_marker_some(attrs: Seq<SpecAttribute>, n: int)
    requires
        0 <= n <= attrs.len(),
        exists|i: int| 0 <= i < n && attr_is_marker(#[trigger] attrs[i]),
    ensures
        attr_fold(attrs, n).0 is Some,
    decreases n,
{
    if attr_is_marker(attrs[n - 1]) {
    } else {
        lemma_fold_marker_some(attrs, n - 1);
    }
}

/// A method with no export marker passes through the analysis untouched:
/// the cleaned method is the input itself, no error is raised, and no
/// export descriptor is produced.
pub proof fn lemma_unmarked_method_is_identity(m: SpecMethod)
    requires
        !method_has_marker(m),
    ensures
        analyze_method_model(m).cleaned == m,
        analyze_method_model(m).diags == Seq::<SpecExportError>::empty(),
        analyze_method_model(m).export is None,
{
    assert(forall|i: int| 0 <= i < m.attrs.len() ==> !attr_is_marker(#[trigger] m.attrs[i]));
    lemma_fold_no_marker(m.attrs, m.attrs.len() as int);
}

/// A marked method whose analysis raised no error yields exactly one export
/// descriptor.
pub proof fn lemma_marked_valid_one_descriptor(m: SpecMethod)
    requires
        method_has_marker(m),
        analyze_method_model(m).diags.len() == 0,
    ensures
        analyze_method_model(m).export is Some,
        item_outcome_exports(SpecImplItem::MethodItem(m)) == seq![
            analyze_method_model(m).export->Some_0,
        ],
{
    lemma_fold_marker_some(m.attrs, m.attrs.len() as int);
}

/// The fold reads only the items before its bound: two blocks agreeing
/// there fold alike.
proof fn lemma_exports_prefix_agree(s1: Seq<SpecImplItem>, s2: Seq<SpecImplItem>, n: int)
    requires
        0 <= n <= s1.len(),
        n <= s2.len(),
        forall|i: int| 0 <= i < n ==> s1[i] == s2[i],
    ensures
        expose_exports(s1, n) == expose_exports(s2, n),
    decreases n,
{
    if n > 0 {
        lemma_exports_prefix_agree(s1, s2, n - 1);
    }
}

/// Export descriptors come in declaration order: the descriptors of a block
/// split exactly as the block's items do, so a method's descriptor stands
/// after those of every earlier method and before those of every later one.
pub proof fn lemma_exports_in_declaration_order(a: Seq<SpecImplItem>, b: Seq<SpecImplItem>)
    ensures
        expose_exports(a + b, (a + b).len() as int) == expose_exports(a, a.len() as int)
            + expose_exports(b, b.len() as int),
    decreases b.len(),
{
    if b.len() == 0 {
        assert(a + b =~= a);
        assert(expose_exports(b, 0) =~= Seq::<SpecExportMethod>::empty());
        assert(expose_exports(a, a.len() as int) + expose_exports(b, 0) =~= expose_exports(
            a,
            a.len() as int,
        ));
    } else {
        let b0 = b.drop_last();
        lemma_exports_in_declaration_order(a, b0);
        assert((a + b)[(a + b).len() - 1] == b[b.len() - 1]);
        lemma_exports_prefix_agree(a + b0, a + b, (a + b0).len() as int);
        lemma_exports_prefix_agree(b0, b, b0.len() as int);
        assert(expose_exports(a + b, (a + b).len() as int) == expose_exports(
            a + b,
            (a + b).len() - 1,
        ) + item_outcome_exports(b[b.len() - 1]));
        assert(expose_exports(b, b.len() as int) == expose_exports(b, b.len() - 1)
            + item_outcome_exports(b[b.len() - 1]));
    }
}

/// An error somewhere in a marker's argument list survives to the end of
/// the list's fold.
proof fn lemma_meta_fold_keeps(
    ea: SpecExportArgs,
    legacy: bool,
    items: Seq<SpecMetaItem>,
    n: int,
    m: int,
    e: SpecExportError,
)
    requires
        0 <= m <= n <= items.len(),
        meta_fold(ea, legacy, items, m).1.contains(e),
    ensures
        meta_fold(ea, legacy, items, n).1.contains(e),
    decreases n,
{
    if n > m {
        lemma_meta_fold_keeps(ea, legacy, items, n - 1, m, e);
        let pre = meta_fold(ea, legacy, items, n - 1);
        let k = choose|k: int| 0 <= k < pre.1.len() && pre.1[k] == e;
        assert(meta_fold(ea, legacy, items, n).1[k] == e);
    }
}

/// An `rpc` value outside the seven recognized tokens raises its error in
/// the fold of the argument list it stands in.
proof fn lemma_meta_fold_bad_rpc(
    ea: SpecExportArgs,
    legacy: bool,
    items: Seq<SpecMetaItem>,
    n: int,
    j: int,
    v: Seq<char>,
)
    requires
        0 <= j < n <= items.len(),
        items[j] == SpecMetaItem::KeyValue("rpc"@, SpecLitValue::Str(v)),
        RpcMode::spec_parse(v) is None,
    ensures
        meta_fold(ea, legacy, items, n).1.contains(SpecExportError::RpcUnexpectedValue(v)),
    decreases n,
{
    let e = SpecExportError::RpcUnexpectedValue(v);
    if j == n - 1 {
        let pre = meta_fold(ea, legacy, items, n - 1);
        let st = meta_step(pre.0, legacy, items[n - 1]);
        assert(st.1 == seq![e]);
        assert(meta_fold(ea, legacy, items, n).1[pre.1.len() as int] == e);
    } else {
        lemma_meta_fold_bad_rpc(ea, legacy, items, n - 1, j, v);
        let pre = meta_fold(ea, legacy, items, n - 1);
        let k = choose|k: int| 0 <= k < pre.1.len() && pre.1[k] == e;
        assert(meta_fold(ea, legacy, items, n).1[k] == e);
    }
}

/// An error already raised by the annotation scan survives every later
/// annotation.
proof fn lemma_attr_fold_keeps(attrs: Seq<SpecAttribute>, n: int, m: int, e: SpecExportError)
    requires
        0 <= m <= n <= attrs.len(),
        attr_fold(attrs, m).1.contains(e),
    ensures
        attr_fold(attrs, n).1.contains(e),
    decreases n,
{
    if n > m {
        lemma_attr_fold_keeps(attrs, n - 1, m, e);
        let pre = attr_fold(attrs, n - 1);
        let k = choose|k: int| 0 <= k < pre.1.len() && pre.1[k] == e;
        if attr_is_marker(attrs[n - 1]) {
            assert(attr_fold(attrs, n).1[k] == e);
        }
    }
}

/// A marker whose argument list carries an unrecognized `rpc` token raises
/// the token's error in the whole annotation scan.
proof fn lemma_attr_fold_bad_rpc(attrs: Seq<SpecAttribute>, n: int, i: int, j: int, v: Seq<char>)
    requires
        0 <= i < n <= attrs.len(),
        attr_is_marker(attrs[i]),
        attrs[i].args matches SpecAttrArgs::ArgList(items) && 0 <= j < items.len()
            && items[j] == SpecMetaItem::KeyValue("rpc"@, SpecLitValue::Str(v)),
        RpcMode::spec_parse(v) is None,
    ensures
        attr_fold(attrs, n).1.contains(SpecExportError::RpcUnexpectedValue(v)),
    decreases n,
{
    let e = SpecExportError::RpcUnexpectedValue(v);
    if i == n - 1 {
        let st = attr_fold(attrs, n - 1);
        let items = attrs[i].args->ArgList_0;
        let legacy = crate::analyze::marker_is_legacy(attrs[i]);
        let ea0 = match st.0 {
            None => crate::analyze::fresh_args(legacy),
            Some(ea) => ea,
        };
        lemma_meta_fold_bad_rpc(ea0, legacy, items, items.len() as int, j, v);
        let applied = meta_fold(ea0, legacy, items, items.len() as int);
        let k = choose|k: int| 0 <= k < applied.1.len() && applied.1[k] == e;
        assert(attr_fold(attrs, n).1[st.1.len() + k] == e);
    } else {
        lemma_attr_fold_bad_rpc(attrs, n - 1, i, j, v);
        lemma_attr_fold_keeps(attrs, n, n - 1, e);
    }
}

/// A method whose marker carries an `rpc` value outside the seven
/// recognized tokens fails with the token's error and yields no export
/// descriptor.
pub proof fn lemma_bad_rpc_token_rejected(m: SpecMethod, i: int, j: int, v: Seq<char>)
    requires
        0 <= i < m.attrs.len(),
        attr_is_marker(m.attrs[i]),
        m.attrs[i].args matches SpecAttrArgs::ArgList(items) && 0 <= j < items.len()
            && items[j] == SpecMetaItem::KeyValue("rpc"@, SpecLitValue::Str(v)),
        RpcMode::spec_parse(v) is None,
    ensures
        analyze_method_model(m).diags.contains(SpecExportError::RpcUnexpectedValue(v)),
        analyze_method_model(m).export is None,
{
    let n = m.attrs.len() as int;
    assert(method_has_marker(m));
    lemma_fold_marker_some(m.attrs, n);
    lemma_attr_fold_bad_rpc(m.attrs, n, i, j, v);
    let e = SpecExportError::RpcUnexpectedValue(v);
    let af = attr_fold(m.attrs, n);
    let k = choose|k: int| 0 <= k < af.1.len() && af.1[k] == e;
    assert(analyze_method_model(m).diags[k] == e);
}

/// The optional count of the parameter scan never drops.
proof fn lemma_params_fold_monotone(ps: Seq<SpecParam>, legacy: bool, n: int, m: int)
    requires
        0 <= m <= n <= ps.len(),
    ensures
        params_fold(ps, legacy, n).0 >= params_fold(ps, legacy, m).0,
    decreases n,
{
    if n > m {
        lemma_params_fold_monotone(ps, legacy, n - 1, m);
    }
}

/// An error already raised by the parameter scan survives every later
/// parameter.
proof fn lemma_params_fold_keeps(
    ps: Seq<SpecParam>,
    legacy: bool,
    n: int,
    m: int,
    e: SpecExportError,
)
    requires
        0 <= m <= n <= ps.len(),
        params_fold(ps, legacy, m).2.contains(e),
    ensures
        params_fold(ps, legacy, n).2.contains(e),
    decreases n,
{
    if n > m {
        lemma_params_fold_keeps(ps, legacy, n - 1, m, e);
        let pre = params_fold(ps, legacy, n - 1);
        let k = choose|k: int| 0 <= k < pre.2.len() && pre.2[k] == e;
        assert(params_fold(ps, legacy, n).2[k] == e);
    }
}

/// A required parameter standing after an optional one raises the
/// contiguity error in the parameter scan.
proof fn lemma_params_fold_contiguity(ps: Seq<SpecParam>, legacy: bool, i: int, j: int)
    requires
        2 <= i < j < ps.len(),
        param_is_opt(ps[i]),
        !param_is_opt(ps[j]),
    ensures
        params_fold(ps, legacy, ps.len() as int).2.contains(
            SpecExportError::RequiredAfterOptional,
        ),
{
    crate::analyze::lemma_params_fold_count(ps, legacy, i);
    assert(params_fold(ps, legacy, i + 1).0 >= 1) by {
        assert(params_fold(ps, legacy, i + 1) == param_step(
            params_fold(ps, legacy, i),
            ps[i],
            legacy,
            i,
        ));
    }
    lemma_params_fold_monotone(ps, legacy, j, i + 1);
    let pre = params_fold(ps, legacy, j);
    assert(pre.0 >= 1);
    let st = param_step(pre, ps[j], legacy, j);
    assert(params_fold(ps, legacy, j + 1).2.contains(SpecExportError::RequiredAfterOptional)) by {
        assert(params_fold(ps, legacy, j + 1).2[pre.2.len() as int]
            == SpecExportError::RequiredAfterOptional);
    }
    lemma_params_fold_keeps(ps, legacy, ps.len() as int, j + 1, SpecExportError::RequiredAfterOptional);
}

/// A marked method with a required parameter after an optional one fails
/// with the contiguity error and yields no export descriptor.
pub proof fn lemma_contiguity_rejected(m: SpecMethod, i: int, j: int)
    requires
        method_has_marker(m),
        2 <= i < j < m.sig.inputs.len(),
        param_is_opt(m.sig.inputs[i]),
        !param_is_opt(m.sig.inputs[j]),
    ensures
        analyze_method_model(m).diags.contains(SpecExportError::RequiredAfterOptional),
        analyze_method_model(m).export is None,
{
    lemma_fold_marker_some(m.attrs, m.attrs.len() as int);
    let ea = attr_fold(m.attrs, m.attrs.len() as int).0->Some_0;
    lemma_params_fold_contiguity(m.sig.inputs, ea.is_old_syntax, i, j);
    let af1 = attr_fold(m.attrs, m.attrs.len() as int).1;
    let pf2 = params_fold(m.sig.inputs, ea.is_old_syntax, m.sig.inputs.len() as int).2;
    let e = SpecExportError::RequiredAfterOptional;
    let k = choose|k: int| 0 <= k < pf2.len() && pf2[k] == e;
    assert(analyze_method_model(m).diags[af1.len() + k] == e);
}

/// A base parameter at a position other than 1 raises the positional error
/// in the parameter scan.
proof fn lemma_params_fold_base_position(ps: Seq<SpecParam>, legacy: bool, j: int)
    requires
        0 <= j < ps.len(),
        j != 1,
        param_is_base(ps[j], legacy, j),
    ensures
        params_fold(ps, legacy, ps.len() as int).2.contains(SpecExportError::BaseNotSecond),
{
    let pre = params_fold(ps, legacy, j);
    assert(params_fold(ps, legacy, j + 1).2.contains(SpecExportError::BaseNotSecond)) by {
        let st2 = params_fold(ps, legacy, j + 1).2;
        assert(st2[st2.len() - 1] == SpecExportError::BaseNotSecond);
    }
    lemma_params_fold_keeps(ps, legacy, ps.len() as int, j + 1, SpecExportError::BaseNotSecond);
}

/// A marked method whose base parameter stands anywhere but position 1
/// fails with the positional error and yields no export descriptor.
pub proof fn lemma_base_position_rejected(m: SpecMethod, j: int)
    requires
        method_has_marker(m),
        0 <= j < m.sig.inputs.len(),
        j != 1,
        ({
            let ea = attr_fold(m.attrs, m.attrs.len() as int).0->Some_0;
            param_is_base(m.sig.inputs[j], ea.is_old_syntax, j)
        }),
    ensures
        analyze_method_model(m).diags.contains(SpecExportError::BaseNotSecond),
        analyze_method_model(m).export is None,
{
    lemma_fold_marker_some(m.attrs, m.attrs.len() as int);
    let ea = attr_fold(m.attrs, m.attrs.len() as int).0->Some_0;
    lemma_params_fold_base_position(m.sig.inputs, ea.is_old_syntax, j);
    let af1 = attr_fold(m.attrs, m.attrs.len() as int).1;
    let pf2 = params_fold(m.sig.inputs, ea.is_old_syntax, m.sig.inputs.len() as int).2;
    let e = SpecExportError::BaseNotSecond;
    let k = choose|k: int| 0 <= k < pf2.len() && pf2[k] == e;
    assert(analyze_method_model(m).diags[af1.len() + k] == e);
}

/// A descriptor that asks for more optional parameters than the signature
/// leaves room for — every parameter but the receiver and the base slot —
/// assembles to a failure naming that maximum.
pub proof fn lemma_optional_ceiling(em: SpecExportMethod)
    requires
        em.sig.inputs.len() >= 2,
        !(em.export_args.is_old_syntax && !em.exist_base_arg),
        em.optional_args matches Some(c) && c > em.sig.inputs.len() - 2,
    ensures
        assemble_model(em) == SpecRegisterStep::Failed(
            SpecExportError::TooManyOptional {
                max: (em.sig.inputs.len() - 2) as usize,
                got: em.optional_args->Some_0,
            },
        ),
{
}

/// A legacy-form descriptor without an explicit base parameter assembles to
/// its failure before the optional-count ceiling is even considered.
pub proof fn lemma_legacy_without_base(em: SpecExportMethod)
    requires
        em.sig.inputs.len() > 0,
        em.export_args.is_old_syntax,
        !em.exist_base_arg,
    ensures
        assemble_model(em) == SpecRegisterStep::Failed(SpecExportError::LegacyMissingBase),
{
}

/// A successful binding registers under the override name when one was set,
/// and under the method's own identifier otherwise.
pub proof fn lemma_name_override_round_trip(em: SpecExportMethod)
    requires
        assemble_model(em) is Binding,
    ensures
        em.export_args.name_override matches Some(s) ==> assemble_model(em)->name == s,
        em.export_args.name_override is None ==> assemble_model(em)->name == em.sig.ident,
{
}

} // verus!
