//! The per-method export analysis: marker extraction, argument parsing,
//! parameter validation and normalization, and the block-level pass that
//! turns one implementation block into a cleaned block plus export
//! descriptors.
//!
//! Every executable function here is proved equal, through `deep_view`, to a
//! functional model (`attr_fold`, `params_fold`, `analyze_method_model`,
//! `expose_model`). The model is the reference for the laws in `laws`.

use vstd::prelude::*;

use crate::ast::{
    dv, lemma_dv_subrange, AttrArgs, AttrStyle,
    Attribute, ExportArgs, ExportError, ExportMethod, ImplItem, ItemImpl, LitValue, Method,
    MetaItem, Param, ParamPat, Signature, SpecAttrArgs, SpecAttribute, SpecExportArgs,
    SpecExportError, SpecExportMethod, SpecImplItem, SpecItemImpl, SpecLitValue, SpecMetaItem,
    SpecMethod, SpecParam, SpecParamPat, SpecSignature, ClassMethodExport, GenericCounts,
    SpecClassMethodExport,
};
use crate::rpc::{string_is, RpcMode};

verus! {

/// An annotation is an export marker when it stands outside the item and its
/// path ends in one of the two recognized names: the legacy form `export` or
/// the current form `method`.
pub open spec fn attr_is_marker(a: SpecAttribute) -> bool {
    a.style == AttrStyle::Outer && (a.path_last == "export"@ || a.path_last == "method"@)
}

/// Which of the two marker forms an annotation uses.
pub open spec fn marker_is_legacy(a: SpecAttribute) -> bool {
    a.path_last == "export"@
}

/// A method carries a marker somewhere in its annotation list.
pub open spec fn method_has_marker(m: SpecMethod) -> bool {
    exists|i: int| 0 <= i < m.attrs.len() && attr_is_marker(#[trigger] m.attrs[i])
}

/// The configuration a marker starts from: everything unset, the form
/// recorded from the marker that introduced it.
pub open spec fn fresh_args(legacy: bool) -> SpecExportArgs {
    SpecExportArgs {
        is_old_syntax: legacy,
        rpc_mode: None,
        name_override: None,
        is_deref_return: false,
    }
}

/// How one argument-list item changes the configuration, and the errors it
/// raises. `legacy` is the form of the marker the item stands in, used only
/// to word the unknown-option error.
pub open spec fn meta_step(ea: SpecExportArgs, legacy: bool, item: SpecMetaItem) -> (
    SpecExportArgs,
    Seq<SpecExportError>,
) {
    match item {
        SpecMetaItem::BareLit(_) => (ea, seq![SpecExportError::LiteralItem]),
        SpecMetaItem::NestedList => (ea, seq![SpecExportError::ListItem]),
        SpecMetaItem::Flag(key) => if key == "rpc"@ {
            (ea, seq![SpecExportError::RpcRequiresString])
        } else if key == "name"@ {
            (ea, seq![SpecExportError::NameRequiresString])
        } else if key == "deref_return"@ {
            if ea.is_deref_return {
                (ea, seq![SpecExportError::DerefReturnSetTwice])
            } else {
                (SpecExportArgs { is_deref_return: true, ..ea }, Seq::empty())
            }
        } else {
            (ea, seq![SpecExportError::UnknownOption { legacy, option: key }])
        },
        SpecMetaItem::KeyValue(key, value) => if key == "rpc"@ {
            match value {
                SpecLitValue::Str(v) => match RpcMode::spec_parse(v) {
                    Some(mode) => if ea.rpc_mode is Some {
                        (
                            SpecExportArgs { rpc_mode: Some(mode), ..ea },
                            seq![SpecExportError::RpcSetTwice],
                        )
                    } else {
                        (SpecExportArgs { rpc_mode: Some(mode), ..ea }, Seq::empty())
                    },
                    None => (ea, seq![SpecExportError::RpcUnexpectedValue(v)]),
                },
                SpecLitValue::NonStr => (ea, seq![SpecExportError::RpcExpectedString]),
            }
        } else if key == "name"@ {
            match value {
                SpecLitValue::Str(v) => if ea.name_override is Some {
                    (
                        SpecExportArgs { name_override: Some(v), ..ea },
                        seq![SpecExportError::NameSetTwice],
                    )
                } else {
                    (SpecExportArgs { name_override: Some(v), ..ea }, Seq::empty())
                },
                SpecLitValue::NonStr => (ea, seq![SpecExportError::NameExpectedString]),
            }
        } else if key == "deref_return"@ {
            (ea, seq![SpecExportError::DerefReturnTakesNoValue])
        } else {
            (ea, seq![SpecExportError::UnknownOption { legacy, option: key }])
        },
    }
}

/// The configuration and errors after the first `n` items of one marker's
/// argument list.
pub open spec fn meta_fold(
    ea: SpecExportArgs,
    legacy: bool,
    items: Seq<SpecMetaItem>,
    n: int,
) -> (SpecExportArgs, Seq<SpecExportError>)
    decreases n,
{
    if n <= 0 {
        (ea, Seq::empty())
    } else {
        let pre = meta_fold(ea, legacy, items, n - 1);
        let st = meta_step(pre.0, legacy, items[n - 1]);
        (st.0, pre.1 + st.1)
    }
}

/// What one marker's parsed arguments do to the configuration.
pub open spec fn apply_args_model(args: SpecAttrArgs, legacy: bool, ea: SpecExportArgs) -> (
    SpecExportArgs,
    Seq<SpecExportError>,
) {
    match args {
        SpecAttrArgs::ParseFailed(msg) => (ea, seq![SpecExportError::AttrParseFailed(msg)]),
        SpecAttrArgs::NameValueForm => (ea, seq![SpecExportError::NameValueSyntax]),
        SpecAttrArgs::Bare => (ea, Seq::empty()),
        SpecAttrArgs::ArgList(items) => meta_fold(ea, legacy, items, items.len() as int),
    }
}

/// How one annotation changes the running state of the scan. A non-marker
/// annotation changes nothing; the first marker establishes the form, and
/// every marker's arguments are applied in order.
pub open spec fn marker_step(
    st: (Option<SpecExportArgs>, Seq<SpecExportError>),
    a: SpecAttribute,
) -> (Option<SpecExportArgs>, Seq<SpecExportError>) {
    if attr_is_marker(a) {
        let legacy = marker_is_legacy(a);
        let ea0 = match st.0 {
            None => fresh_args(legacy),
            Some(ea) => ea,
        };
        let applied = apply_args_model(a.args, legacy, ea0);
        (Some(applied.0), st.1 + applied.1)
    } else {
        st
    }
}

/// The configuration and errors after the first `n` annotations.
pub open spec fn attr_fold(attrs: Seq<SpecAttribute>, n: int) -> (
    Option<SpecExportArgs>,
    Seq<SpecExportError>,
)
    decreases n,
{
    if n <= 0 {
        (None, Seq::empty())
    } else {
        marker_step(attr_fold(attrs, n - 1), attrs[n - 1])
    }
}

/// The annotations that remain on the cleaned method: everything that is not
/// an export marker, in order.
pub open spec fn kept_fold(attrs: Seq<SpecAttribute>, n: int) -> Seq<SpecAttribute>
    decreases n,
{
    if n <= 0 {
        Seq::empty()
    } else {
        let pre = kept_fold(attrs, n - 1);
        if attr_is_marker(attrs[n - 1]) {
            pre
        } else {
            pre.push(attrs[n - 1])
        }
    }
}

/// A scan that found no marker leaves the annotations untouched, raises no
/// error and establishes no configuration.
pub proof fn lemma_no_marker_scan(attrs: Seq<SpecAttribute>, n: int)
    requires
        0 <= n <= attrs.len(),
        attr_fold(attrs, n).0 is None,
    ensures
        kept_fold(attrs, n) == attrs.subrange(0, n),
        attr_fold(attrs, n).1 == Seq::<SpecExportError>::empty(),
        forall|i: int| 0 <= i < n ==> !attr_is_marker(#[trigger] attrs[i]),
    decreases n,
{
    if n > 0 {
        // A marker always leaves the state established, so the last
        // annotation cannot be one.
        assert(!attr_is_marker(attrs[n - 1]));
        lemma_no_marker_scan(attrs, n - 1);
        assert(kept_fold(attrs, n) =~= attrs.subrange(0, n));
    } else {
        assert(kept_fold(attrs, n) =~= attrs.subrange(0, n));
    }
}

/// Tests whether an annotation is an export marker.
pub fn is_marker(a: &Attribute) -> (r: bool)
    ensures
        r == attr_is_marker(a.deep_view()),
{
    match a.style {
        AttrStyle::Outer => string_is(&a.path_last, "export") || string_is(&a.path_last, "method"),
        AttrStyle::Inner => false,
    }
}

/// Applies one marker's argument list to the configuration, collecting the
/// errors it raises.
#[verifier::loop_isolation(false)]
pub fn apply_marker_args(args: AttrArgs, legacy: bool, ea: ExportArgs) -> (r: (
    ExportArgs,
    Vec<ExportError>,
))
    ensures
        ({
            let model = apply_args_model(args.deep_view(), legacy, ea.deep_view());
            r.0.deep_view() == model.0 && r.1.deep_view() == model.1
        }),
{
    let mut out = ea;
    let mut errs: Vec<ExportError> = Vec::new();
    match args {
        AttrArgs::ParseFailed(msg) => {
            errs.push(ExportError::AttrParseFailed(msg));
            proof {
                assert(errs.deep_view() =~= seq![SpecExportError::AttrParseFailed(msg@)]);
            }
            (out, errs)
        },
        AttrArgs::NameValueForm => {
            errs.push(ExportError::NameValueSyntax);
            proof {
                assert(errs.deep_view() =~= seq![SpecExportError::NameValueSyntax]);
            }
            (out, errs)
        },
        AttrArgs::Bare => {
            proof {
                assert(errs.deep_view() =~= Seq::<SpecExportError>::empty());
            }
            (out, errs)
        },
        AttrArgs::ArgList(items) => {
            let ghost all: Seq<SpecMetaItem> = items.deep_view();
            let ghost ea_in: SpecExportArgs = out.deep_view();
            let mut items = items;
            let ghost n: int = all.len() as int;
            let total: usize = items.len();
            proof {
                assert(total as int == n);
            }
            let mut j: usize = 0;
            proof {
                assert(items.deep_view() =~= all.subrange(0, n));
                assert(errs.deep_view() =~= meta_fold(ea_in, legacy, all, 0).1);
            }
            while items.len() > 0
                invariant
                    0 <= j,
                    j + items.len() == n,
                    items.deep_view() == all.subrange(j as int, n),
                    out.deep_view() == meta_fold(ea_in, legacy, all, j as int).0,
                    errs.deep_view() == meta_fold(ea_in, legacy, all, j as int).1,
                decreases items.len(),
            {
                let ghost pre_seq: Seq<MetaItem> = items@;
                let it = items.remove(0);
                proof {
                    assert(dv(pre_seq) == all.subrange(j as int, n));
                    assert(it.deep_view() == dv(pre_seq)[0]);
                    assert(it.deep_view() == all[j as int]);
                    assert(items@ =~= pre_seq.subrange(1, pre_seq.len() as int));
                    lemma_dv_subrange(pre_seq, 1, pre_seq.len() as int);
                    assert(items.deep_view() == dv(pre_seq).subrange(1, pre_seq.len() as int));
                    assert(items.deep_view() =~= all.subrange(j as int + 1, n));
                }
                let ghost pre_ea: SpecExportArgs = out.deep_view();
                let ghost pre_errs: Seq<SpecExportError> = errs.deep_view();
                let ghost step = meta_step(pre_ea, legacy, all[j as int]);
                match it {
                    MetaItem::BareLit(_) => {
                        errs.push(ExportError::LiteralItem);
                    },
                    MetaItem::NestedList => {
                        errs.push(ExportError::ListItem);
                    },
                    MetaItem::Flag(key) => {
                        if string_is(&key, "rpc") {
                            errs.push(ExportError::RpcRequiresString);
                        } else if string_is(&key, "name") {
                            errs.push(ExportError::NameRequiresString);
                        } else if string_is(&key, "deref_return") {
                            if out.is_deref_return {
                                errs.push(ExportError::DerefReturnSetTwice);
                            } else {
                                out.is_deref_return = true;
                            }
                        } else {
                            errs.push(ExportError::UnknownOption { legacy, option: key });
                        }
                    },
                    MetaItem::KeyValue(key, value) => {
                        if string_is(&key, "rpc") {
                            match value {
                                LitValue::Str(v) => {
                                    match RpcMode::parse(v.as_str()) {
                                        Some(mode) => {
                                            if out.rpc_mode.is_some() {
                                                out.rpc_mode = Some(mode);
                                                errs.push(ExportError::RpcSetTwice);
                                            } else {
                                                out.rpc_mode = Some(mode);
                                            }
                                        },
                                        None => {
                                            errs.push(ExportError::RpcUnexpectedValue(v));
                                        },
                                    }
                                },
                                LitValue::NonStr => {
                                    errs.push(ExportError::RpcExpectedString);
                                },
                            }
                        } else if string_is(&key, "name") {
                            match value {
                                LitValue::Str(v) => {
                                    if out.name_override.is_some() {
                                        out.name_override = Some(v);
                                        errs.push(ExportError::NameSetTwice);
                                    } else {
                                        out.name_override = Some(v);
                                    }
                                },
                                LitValue::NonStr => {
                                    errs.push(ExportError::NameExpectedString);
                                },
                            }
                        } else if string_is(&key, "deref_return") {
                            errs.push(ExportError::DerefReturnTakesNoValue);
                        } else {
                            errs.push(ExportError::UnknownOption { legacy, option: key });
                        }
                    },
                }
                proof {
                    assert(out.deep_view() == step.0);
                    assert(errs.deep_view() =~= pre_errs + step.1);
                    assert(meta_fold(ea_in, legacy, all, j as int + 1).0 == step.0);
                    assert(meta_fold(ea_in, legacy, all, j as int + 1).1 == pre_errs + step.1);
                }
                j = j + 1;
            }
            proof {
                assert(j as int == n);
            }
            (out, errs)
        },
    }
}

/// The per-parameter annotation identifiers, whichever kind the parameter is.
pub open spec fn param_marks(p: SpecParam) -> Seq<Seq<char>> {
    match p {
        SpecParam::Receiver { marks } => marks,
        SpecParam::Typed { marks, .. } => marks,
    }
}

/// A mark with the given identifier stands on the parameter.
pub open spec fn has_mark(marks: Seq<Seq<char>>, name: Seq<char>) -> bool {
    exists|k: int| 0 <= k < marks.len() && #[trigger] marks[k] == name
}

pub open spec fn param_is_opt(p: SpecParam) -> bool {
    has_mark(param_marks(p), "opt"@)
}

/// A parameter is the base parameter when it carries the `base` mark, or
/// implicitly at position 1 under the legacy marker form.
pub open spec fn param_is_base(p: SpecParam, legacy: bool, n: int) -> bool {
    has_mark(param_marks(p), "base"@) || (legacy && n == 1)
}

/// The marks that remain after the analyzer consumes `opt` and `base`.
pub open spec fn mark_filter(marks: Seq<Seq<char>>, n: int) -> Seq<Seq<char>>
    decreases n,
{
    if n <= 0 {
        Seq::empty()
    } else {
        let pre = mark_filter(marks, n - 1);
        if marks[n - 1] == "opt"@ || marks[n - 1] == "base"@ {
            pre
        } else {
            pre.push(marks[n - 1])
        }
    }
}

/// The parameter as it stands in the cleaned block: marks consumed, pattern
/// untouched.
pub open spec fn strip_param(p: SpecParam) -> SpecParam {
    match p {
        SpecParam::Receiver { marks } => SpecParam::Receiver {
            marks: mark_filter(marks, marks.len() as int),
        },
        SpecParam::Typed { marks, pat } => SpecParam::Typed {
            marks: mark_filter(marks, marks.len() as int),
            pat,
        },
    }
}

/// The pattern as it stands in the export signature: wildcards renamed to a
/// deterministic synthetic name carrying the position, local mutability
/// dropped.
pub open spec fn scrub_pat(pat: SpecParamPat, idx: usize) -> SpecParamPat {
    match pat {
        SpecParamPat::Wild => SpecParamPat::Synthetic { index: idx },
        SpecParamPat::Named { by_ref, mutable, ident } => SpecParamPat::Named {
            by_ref,
            mutable: false,
            ident,
        },
        other => other,
    }
}

/// The parameter as it stands in the export signature.
pub open spec fn scrub_param(p: SpecParam, idx: usize) -> SpecParam {
    match p {
        SpecParam::Receiver { marks } => SpecParam::Receiver {
            marks: mark_filter(marks, marks.len() as int),
        },
        SpecParam::Typed { marks, pat } => SpecParam::Typed {
            marks: mark_filter(marks, marks.len() as int),
            pat: scrub_pat(pat, idx),
        },
    }
}

/// How the parameter at position `n` changes the scan state: the count of
/// optional parameters seen, whether a base parameter exists, and the errors
/// raised so far.
pub open spec fn param_step(
    st: (int, bool, Seq<SpecExportError>),
    p: SpecParam,
    legacy: bool,
    n: int,
) -> (int, bool, Seq<SpecExportError>) {
    let is_opt = param_is_opt(p);
    let is_base = param_is_base(p, legacy, n);
    let st1 = if is_opt {
        if n < 2 {
            (st.0, st.1, st.2.push(SpecExportError::OptionalSelfOrBase))
        } else {
            (st.0 + 1, st.1, st.2)
        }
    } else {
        if st.0 > 0 {
            (st.0, st.1, st.2.push(SpecExportError::RequiredAfterOptional))
        } else {
            st
        }
    };
    if is_base {
        if n != 1 {
            (st1.0, true, st1.2.push(SpecExportError::BaseNotSecond))
        } else {
            (st1.0, true, st1.2)
        }
    } else {
        st1
    }
}

/// The scan state after the first `n` parameters.
pub open spec fn params_fold(ps: Seq<SpecParam>, legacy: bool, n: int) -> (
    int,
    bool,
    Seq<SpecExportError>,
)
    decreases n,
{
    if n <= 0 {
        (0, false, Seq::empty())
    } else {
        param_step(params_fold(ps, legacy, n - 1), ps[n - 1], legacy, n - 1)
    }
}

/// The optional-parameter count never exceeds the number of parameters
/// scanned.
pub proof fn lemma_params_fold_count(ps: Seq<SpecParam>, legacy: bool, n: int)
    requires
        n >= 0,
    ensures
        0 <= params_fold(ps, legacy, n).0 <= n,
    decreases n,
{
    if n > 0 {
        lemma_params_fold_count(ps, legacy, n - 1);
    }
}

/// Splits a parameter's marks: the filtered rest twice over (once for the
/// cleaned block, once for the export signature) and whether `opt` and
/// `base` were among them.
#[verifier::loop_isolation(false)]
fn split_marks(marks: Vec<String>) -> (r: (Vec<String>, Vec<String>, bool, bool))
    ensures
        ({
            let all = marks.deep_view();
            &&& r.0.deep_view() == mark_filter(all, all.len() as int)
            &&& r.1.deep_view() == mark_filter(all, all.len() as int)
            &&& r.2 == has_mark(all, "opt"@)
            &&& r.3 == has_mark(all, "base"@)
        }),
{
    proof {
        reveal_strlit("opt");
        reveal_strlit("base");
    }
    let ghost all: Seq<Seq<char>> = marks.deep_view();
    let mut marks = marks;
    let ghost n: int = all.len() as int;
    let total: usize = marks.len();
    proof {
        assert(total as int == n);
    }
    let mut kept: Vec<String> = Vec::new();
    let mut kept_copy: Vec<String> = Vec::new();
    let mut saw_opt = false;
    let mut saw_base = false;
    let mut j: usize = 0;
    proof {
        assert(marks.deep_view() =~= all.subrange(0, n));
        assert(kept.deep_view() =~= mark_filter(all, 0));
        assert(kept_copy.deep_view() =~= mark_filter(all, 0));
    }
    while marks.len() > 0
        invariant
            0 <= j,
            j + marks.len() == n,
            marks.deep_view() == all.subrange(j as int, n),
            kept.deep_view() == mark_filter(all, j as int),
            kept_copy.deep_view() == mark_filter(all, j as int),
            saw_opt == exists|k: int| 0 <= k < j && #[trigger] all[k] == "opt"@,
            saw_base == exists|k: int| 0 <= k < j && #[trigger] all[k] == "base"@,
        decreases marks.len(),
    {
        let ghost pre_seq: Seq<String> = marks@;
        let m = marks.remove(0);
        proof {
            assert(dv(pre_seq) == all.subrange(j as int, n));
            assert(m@ == dv(pre_seq)[0]);
            assert(m@ == all[j as int]);
            assert(marks@ =~= pre_seq.subrange(1, pre_seq.len() as int));
            lemma_dv_subrange(pre_seq, 1, pre_seq.len() as int);
            assert(marks.deep_view() =~= all.subrange(j as int + 1, n));
        }
        if string_is(&m, "opt") {
            saw_opt = true;
        } else if string_is(&m, "base") {
            saw_base = true;
        } else {
            let m_copy = m.clone();
            kept.push(m);
            kept_copy.push(m_copy);
            proof {
                assert(kept.deep_view() =~= mark_filter(all, j as int + 1));
                assert(kept_copy.deep_view() =~= mark_filter(all, j as int + 1));
            }
        }
        j = j + 1;
    }
    proof {
        assert(j as int == n);
    }
    (kept, kept_copy, saw_opt, saw_base)
}

/// The export-signature form of one pattern: the position's synthetic name
/// for a wildcard, mutability dropped from a plain binding.
fn scrub_pat_at(pat: &ParamPat, idx: usize) -> (r: ParamPat)
    ensures
        r.deep_view() == scrub_pat(pat.deep_view(), idx),
{
    match pat {
        ParamPat::Wild => ParamPat::Synthetic { index: idx },
        ParamPat::Named { by_ref, mutable: _, ident } => ParamPat::Named {
            by_ref: *by_ref,
            mutable: false,
            ident: ident.clone(),
        },
        ParamPat::Synthetic { index } => ParamPat::Synthetic { index: *index },
        ParamPat::Complex => ParamPat::Complex,
    }
}

/// Scans the declared parameters in order: consumes `opt` and `base` marks,
/// validates their positions, and produces both the cleaned parameters and
/// their export-signature form.
#[verifier::loop_isolation(false)]
pub fn scan_params(inputs: Vec<Param>, legacy: bool) -> (r: (
    Vec<Param>,
    Vec<Param>,
    usize,
    bool,
    Vec<ExportError>,
))
    ensures
        ({
            let all = inputs.deep_view();
            let n = all.len() as int;
            let fold = params_fold(all, legacy, n);
            &&& r.0.deep_view() == Seq::new(all.len(), |i: int| strip_param(all[i]))
            &&& r.1.deep_view() == Seq::new(all.len(), |i: int| scrub_param(all[i], i as usize))
            &&& r.2 as int == fold.0
            &&& r.3 == fold.1
            &&& r.4.deep_view() == fold.2
        }),
{
    let ghost all: Seq<SpecParam> = inputs.deep_view();
    let mut inputs = inputs;
    let ghost n: int = all.len() as int;
    let total: usize = inputs.len();
    proof {
        assert(total as int == n);
    }
    let mut stripped: Vec<Param> = Vec::new();
    let mut scrubbed: Vec<Param> = Vec::new();
    let mut cnt: usize = 0;
    let mut base: bool = false;
    let mut errs: Vec<ExportError> = Vec::new();
    let mut i: usize = 0;
    proof {
        assert(inputs.deep_view() =~= all.subrange(0, n));
        assert(stripped.deep_view() =~= Seq::new(0, |k: int| strip_param(all[k])));
        assert(scrubbed.deep_view() =~= Seq::new(0, |k: int| scrub_param(all[k], k as usize)));
        assert(errs.deep_view() =~= params_fold(all, legacy, 0).2);
    }
    while inputs.len() > 0
        invariant
            0 <= i,
            i + inputs.len() == n,
            inputs.deep_view() == all.subrange(i as int, n),
            stripped.deep_view() == Seq::new(i as nat, |k: int| strip_param(all[k])),
            scrubbed.deep_view() == Seq::new(i as nat, |k: int| scrub_param(all[k], k as usize)),
            cnt as int == params_fold(all, legacy, i as int).0,
            base == params_fold(all, legacy, i as int).1,
            errs.deep_view() == params_fold(all, legacy, i as int).2,
        decreases inputs.len(),
    {
        let ghost pre_seq: Seq<Param> = inputs@;
        let p = inputs.remove(0);
        proof {
            assert(dv(pre_seq) == all.subrange(i as int, n));
            assert(p.deep_view() == dv(pre_seq)[0]);
            assert(p.deep_view() == all[i as int]);
            assert(inputs@ =~= pre_seq.subrange(1, pre_seq.len() as int));
            lemma_dv_subrange(pre_seq, 1, pre_seq.len() as int);
            assert(inputs.deep_view() =~= all.subrange(i as int + 1, n));
            lemma_params_fold_count(all, legacy, i as int);
        }
        let ghost pre_fold = params_fold(all, legacy, i as int);
        let ghost step = param_step(pre_fold, all[i as int], legacy, i as int);
        let (is_opt, is_base_mark, stripped_p, scrubbed_p) = match p {
            Param::Receiver { marks } => {
                let (kept, kept_copy, saw_opt, saw_base) = split_marks(marks);
                (
                    saw_opt,
                    saw_base,
                    Param::Receiver { marks: kept },
                    Param::Receiver { marks: kept_copy },
                )
            },
            Param::Typed { marks, pat } => {
                let (kept, kept_copy, saw_opt, saw_base) = split_marks(marks);
                let new_pat = scrub_pat_at(&pat, i);
                (
                    saw_opt,
                    saw_base,
                    Param::Typed { marks: kept, pat },
                    Param::Typed { marks: kept_copy, pat: new_pat },
                )
            },
        };
        proof {
            assert(stripped_p.deep_view() == strip_param(all[i as int]));
            assert(scrubbed_p.deep_view() == scrub_param(all[i as int], i));
            assert(is_opt == param_is_opt(all[i as int]));
        }
        let is_base = is_base_mark || (legacy && i == 1);
        proof {
            assert(is_base == param_is_base(all[i as int], legacy, i as int));
        }
        if is_opt {
            if i < 2 {
                errs.push(ExportError::OptionalSelfOrBase);
            } else {
                cnt = cnt + 1;
            }
        } else {
            if cnt > 0 {
                errs.push(ExportError::RequiredAfterOptional);
            }
        }
        if is_base {
            base = true;
            if i != 1 {
                errs.push(ExportError::BaseNotSecond);
            }
        }
        let ghost pre_stripped = stripped.deep_view();
        let ghost pre_scrubbed = scrubbed.deep_view();
        stripped.push(stripped_p);
        scrubbed.push(scrubbed_p);
        proof {
            assert(cnt as int == step.0);
            assert(base == step.1);
            assert(errs.deep_view() =~= step.2);
            assert(stripped.deep_view() =~= pre_stripped.push(strip_param(all[i as int])));
            assert(stripped.deep_view() =~= Seq::new(
                (i + 1) as nat,
                |k: int| strip_param(all[k]),
            ));
            assert(scrubbed.deep_view() =~= pre_scrubbed.push(scrub_param(all[i as int], i)));
            assert(scrubbed.deep_view() =~= Seq::new(
                (i + 1) as nat,
                |k: int| scrub_param(all[k], k as usize),
            ));
        }
        i = i + 1;
    }
    proof {
        assert(i as int == n);
    }
    (stripped, scrubbed, cnt, base, errs)
}

/// The errors a signature's generic parameters raise: only the first
/// offending kind is reported, type parameters before lifetimes before
/// const parameters.
pub open spec fn generics_diags(g: GenericCounts) -> Seq<SpecExportError> {
    if g.type_params > 0 {
        seq![SpecExportError::TypeParamsNotAllowed]
    } else if g.lifetimes > 0 {
        seq![SpecExportError::LifetimesNotAllowed]
    } else if g.const_params > 0 {
        seq![SpecExportError::ConstParamsNotAllowed]
    } else {
        Seq::empty()
    }
}

fn check_generics(g: &GenericCounts) -> (r: Vec<ExportError>)
    ensures
        r.deep_view() == generics_diags(*g),
{
    let mut r: Vec<ExportError> = Vec::new();
    if g.type_params > 0 {
        r.push(ExportError::TypeParamsNotAllowed);
        proof {
            assert(r.deep_view() =~= generics_diags(*g));
        }
    } else if g.lifetimes > 0 {
        r.push(ExportError::LifetimesNotAllowed);
        proof {
            assert(r.deep_view() =~= generics_diags(*g));
        }
    } else if g.const_params > 0 {
        r.push(ExportError::ConstParamsNotAllowed);
        proof {
            assert(r.deep_view() =~= generics_diags(*g));
        }
    } else {
        proof {
            assert(r.deep_view() =~= generics_diags(*g));
        }
    }
    r
}

/// What the analysis of one method produces: the method as it stands in the
/// cleaned block, the errors it raised, and its export descriptor when it
/// raised none.
#[derive(Debug)]
pub struct MethodOutcome {
    pub cleaned: Method,
    pub diags: Vec<ExportError>,
    pub export: Option<ExportMethod>,
}

pub struct SpecMethodOutcome {
    pub cleaned: SpecMethod,
    pub diags: Seq<SpecExportError>,
    pub export: Option<SpecExportMethod>,
}

impl DeepView for MethodOutcome {
    type V = SpecMethodOutcome;

    open spec fn deep_view(&self) -> SpecMethodOutcome {
        SpecMethodOutcome {
            cleaned: self.cleaned.deep_view(),
            diags: self.diags.deep_view(),
            export: self.export.deep_view(),
        }
    }
}

/// The whole per-method analysis. A method without a marker is left
/// untouched and excluded from export. A marked method has its marker and
/// per-parameter marks consumed, its parameter shape and generics validated,
/// and is exported exactly when no error was raised; a failing method keeps
/// its cleaned form but yields errors in place of a descriptor.
pub open spec fn analyze_method_model(m: SpecMethod) -> SpecMethodOutcome {
    let af = attr_fold(m.attrs, m.attrs.len() as int);
    match af.0 {
        None => SpecMethodOutcome { cleaned: m, diags: Seq::empty(), export: None },
        Some(ea) => {
            let pf = params_fold(m.sig.inputs, ea.is_old_syntax, m.sig.inputs.len() as int);
            let diags = af.1 + pf.2 + generics_diags(m.sig.generics);
            let cleaned = SpecMethod {
                attrs: kept_fold(m.attrs, m.attrs.len() as int),
                sig: SpecSignature {
                    inputs: Seq::new(m.sig.inputs.len(), |i: int| strip_param(m.sig.inputs[i])),
                    ..m.sig
                },
            };
            let export = if diags.len() == 0 {
                Some(
                    SpecExportMethod {
                        sig: SpecSignature {
                            ident: m.sig.ident,
                            is_unsafe: false,
                            generics: m.sig.generics,
                            inputs: Seq::new(
                                m.sig.inputs.len(),
                                |i: int| scrub_param(m.sig.inputs[i], i as usize),
                            ),
                            output: m.sig.output,
                        },
                        export_args: ea,
                        optional_args: if pf.0 == 0 {
                            None
                        } else {
                            Some(pf.0 as usize)
                        },
                        exist_base_arg: pf.1,
                    },
                )
            } else {
                None
            };
            SpecMethodOutcome { cleaned, diags, export }
        },
    }
}

/// Analyzes one member function.
#[verifier::loop_isolation(false)]
pub fn analyze_method(m: Method) -> (r: MethodOutcome)
    ensures
        r.deep_view() == analyze_method_model(m.deep_view()),
{
    let ghost mv: SpecMethod = m.deep_view();
    let Method { attrs, sig } = m;
    let ghost all_attrs: Seq<SpecAttribute> = attrs.deep_view();
    let ghost na: int = all_attrs.len() as int;
    let mut attrs = attrs;
    let total_attrs: usize = attrs.len();
    proof {
        assert(total_attrs as int == na);
    }
    let mut kept: Vec<Attribute> = Vec::new();
    let mut ea_opt: Option<ExportArgs> = None;
    let mut diags: Vec<ExportError> = Vec::new();
    let mut j: usize = 0;
    proof {
        assert(attrs.deep_view() =~= all_attrs.subrange(0, na));
        assert(kept.deep_view() =~= kept_fold(all_attrs, 0));
        assert(diags.deep_view() =~= attr_fold(all_attrs, 0).1);
    }
    while attrs.len() > 0
        invariant
            0 <= j,
            j + attrs.len() == na,
            attrs.deep_view() == all_attrs.subrange(j as int, na),
            kept.deep_view() == kept_fold(all_attrs, j as int),
            ea_opt.deep_view() == attr_fold(all_attrs, j as int).0,
            diags.deep_view() == attr_fold(all_attrs, j as int).1,
        decreases attrs.len(),
    {
        let ghost pre_seq: Seq<Attribute> = attrs@;
        let a = attrs.remove(0);
        proof {
            assert(dv(pre_seq) == all_attrs.subrange(j as int, na));
            assert(a.deep_view() == dv(pre_seq)[0]);
            assert(a.deep_view() == all_attrs[j as int]);
            assert(attrs@ =~= pre_seq.subrange(1, pre_seq.len() as int));
            lemma_dv_subrange(pre_seq, 1, pre_seq.len() as int);
            assert(attrs.deep_view() =~= all_attrs.subrange(j as int + 1, na));
        }
        let ghost av: SpecAttribute = a.deep_view();
        let ghost pre_state = (attr_fold(all_attrs, j as int).0, attr_fold(all_attrs, j as int).1);
        if is_marker(&a) {
            let legacy_cur = string_is(&a.path_last, "export");
            proof {
                assert(legacy_cur == marker_is_legacy(av));
            }
            let ea0 = match ea_opt {
                None => ExportArgs {
                    is_old_syntax: legacy_cur,
                    rpc_mode: None,
                    name_override: None,
                    is_deref_return: false,
                },
                Some(e) => e,
            };
            proof {
                assert(ea0.deep_view() == match pre_state.0 {
                    None => fresh_args(marker_is_legacy(av)),
                    Some(ea) => ea,
                });
            }
            let Attribute { args, .. } = a;
            let (ea1, mut new_errs) = apply_marker_args(args, legacy_cur, ea0);
            ea_opt = Some(ea1);
            let ghost pre_diags = diags.deep_view();
            let ghost new_dv = new_errs.deep_view();
            diags.append(&mut new_errs);
            proof {
                assert(diags.deep_view() =~= pre_diags + new_dv);
                assert(ea_opt.deep_view() == attr_fold(all_attrs, j as int + 1).0);
                assert(diags.deep_view() == attr_fold(all_attrs, j as int + 1).1);
                assert(kept.deep_view() == kept_fold(all_attrs, j as int + 1));
            }
        } else {
            let ghost pre_kept = kept.deep_view();
            kept.push(a);
            proof {
                assert(kept.deep_view() =~= pre_kept.push(av));
                assert(kept.deep_view() == kept_fold(all_attrs, j as int + 1));
                assert(ea_opt.deep_view() == attr_fold(all_attrs, j as int + 1).0);
                assert(diags.deep_view() == attr_fold(all_attrs, j as int + 1).1);
            }
        }
        j = j + 1;
    }
    proof {
        assert(j as int == na);
        assert(all_attrs.subrange(0, na) =~= all_attrs);
    }
    match ea_opt {
        None => {
            proof {
                lemma_no_marker_scan(all_attrs, na);
            }
            let cleaned = Method { attrs: kept, sig };
            proof {
                assert(cleaned.deep_view().attrs =~= mv.attrs);
                assert(cleaned.deep_view() == mv);
                assert(diags.deep_view() =~= Seq::<SpecExportError>::empty());
            }
            MethodOutcome { cleaned, diags, export: None }
        },
        Some(ea) => {
            let ghost eav: SpecExportArgs = ea.deep_view();
            let ghost sv: SpecSignature = sig.deep_view();
            let Signature { ident, is_unsafe, generics, inputs, output } = sig;
            let ghost all_ps: Seq<SpecParam> = inputs.deep_view();
            let legacy = ea.is_old_syntax;
            let (stripped, scrubbed, cnt, base, mut p_errs) = scan_params(inputs, legacy);
            let ghost pf = params_fold(all_ps, legacy, all_ps.len() as int);
            let mut g_errs = check_generics(&generics);
            let ghost pre_diags = diags.deep_view();
            let ghost p_dv = p_errs.deep_view();
            let ghost g_dv = g_errs.deep_view();
            diags.append(&mut p_errs);
            diags.append(&mut g_errs);
            proof {
                assert(diags.deep_view() =~= pre_diags + p_dv + g_dv);
            }
            let ident_copy = ident.clone();
            let cleaned = Method {
                attrs: kept,
                sig: Signature { ident, is_unsafe, generics, inputs: stripped, output },
            };
            proof {
                assert(cleaned.deep_view().sig =~= SpecSignature {
                    inputs: Seq::new(all_ps.len(), |i: int| strip_param(all_ps[i])),
                    ..sv
                });
            }
            let export: Option<ExportMethod> = if diags.len() == 0 {
                let optional_args: Option<usize> = if cnt == 0 {
                    None
                } else {
                    Some(cnt)
                };
                Some(
                    ExportMethod {
                        sig: Signature {
                            ident: ident_copy,
                            is_unsafe: false,
                            generics,
                            inputs: scrubbed,
                            output,
                        },
                        export_args: ea,
                        optional_args,
                        exist_base_arg: base,
                    },
                )
            } else {
                None
            };
            let r = MethodOutcome { cleaned, diags, export };
            proof {
                let model = analyze_method_model(mv);
                assert(r.deep_view().cleaned == model.cleaned);
                assert(r.deep_view().diags == model.diags);
                assert(r.deep_view().export == model.export);
            }
            r
        },
    }
}

/// What one item of the block contributes to the cleaned block: a method's
/// errors, in order, then the method itself; anything else unchanged.
pub open spec fn item_outcome_items(it: SpecImplItem) -> Seq<SpecImplItem> {
    match it {
        SpecImplItem::MethodItem(m) => {
            let oc = analyze_method_model(m);
            Seq::new(oc.diags.len(), |i: int| SpecImplItem::ErrorItem(oc.diags[i])).push(
                SpecImplItem::MethodItem(oc.cleaned),
            )
        },
        other => seq![other],
    }
}

/// What one item contributes to the export list: one descriptor for a
/// marked, error-free method, nothing otherwise.
pub open spec fn item_outcome_exports(it: SpecImplItem) -> Seq<SpecExportMethod> {
    match it {
        SpecImplItem::MethodItem(m) => match analyze_method_model(m).export {
            Some(em) => seq![em],
            None => Seq::empty(),
        },
        _ => Seq::empty(),
    }
}

/// The cleaned items of the first `n` input items, in order.
pub open spec fn expose_items(items: Seq<SpecImplItem>, n: int) -> Seq<SpecImplItem>
    decreases n,
{
    if n <= 0 {
        Seq::empty()
    } else {
        expose_items(items, n - 1) + item_outcome_items(items[n - 1])
    }
}

/// The export descriptors of the first `n` input items, in declaration
/// order.
pub open spec fn expose_exports(items: Seq<SpecImplItem>, n: int) -> Seq<SpecExportMethod>
    decreases n,
{
    if n <= 0 {
        Seq::empty()
    } else {
        expose_exports(items, n - 1) + item_outcome_exports(items[n - 1])
    }
}

/// The whole block-level transformation: the cleaned block and the export
/// descriptors, both in declaration order.
pub open spec fn expose_model(im: SpecItemImpl) -> (SpecItemImpl, SpecClassMethodExport) {
    (
        SpecItemImpl { self_ty: im.self_ty, items: expose_items(im.items, im.items.len() as int) },
        SpecClassMethodExport {
            class_ty: im.self_ty,
            methods: expose_exports(im.items, im.items.len() as int),
        },
    )
}

/// Extracts the export descriptors from an implementation block and cleans
/// it: markers and consumed parameter marks are removed, every validation
/// error is emitted beside the method that raised it, and a failing method
/// contributes errors in place of a descriptor while its siblings are
/// processed undisturbed.
#[verifier::loop_isolation(false)]
pub fn impl_gdnative_expose(ast: ItemImpl) -> (r: (ItemImpl, ClassMethodExport))
    ensures
        r.0.deep_view() == expose_model(ast.deep_view()).0,
        r.1.deep_view() == expose_model(ast.deep_view()).1,
{
    let ghost imv: SpecItemImpl = ast.deep_view();
    let ItemImpl { self_ty, items } = ast;
    let ghost all: Seq<SpecImplItem> = items.deep_view();
    let ghost n: int = all.len() as int;
    let mut items = items;
    let total: usize = items.len();
    proof {
        assert(total as int == n);
    }
    let mut out_items: Vec<ImplItem> = Vec::new();
    let mut exports: Vec<ExportMethod> = Vec::new();
    let mut idx: usize = 0;
    proof {
        assert(items.deep_view() =~= all.subrange(0, n));
        assert(out_items.deep_view() =~= expose_items(all, 0));
        assert(exports.deep_view() =~= expose_exports(all, 0));
    }
    while items.len() > 0
        invariant
            0 <= idx,
            idx + items.len() == n,
            items.deep_view() == all.subrange(idx as int, n),
            out_items.deep_view() == expose_items(all, idx as int),
            exports.deep_view() == expose_exports(all, idx as int),
        decreases items.len(),
    {
        let ghost pre_seq: Seq<ImplItem> = items@;
        let it = items.remove(0);
        proof {
            assert(dv(pre_seq) == all.subrange(idx as int, n));
            assert(it.deep_view() == dv(pre_seq)[0]);
            assert(it.deep_view() == all[idx as int]);
            assert(items@ =~= pre_seq.subrange(1, pre_seq.len() as int));
            lemma_dv_subrange(pre_seq, 1, pre_seq.len() as int);
            assert(items.deep_view() =~= all.subrange(idx as int + 1, n));
        }
        match it {
            ImplItem::MethodItem(m) => {
                let ghost m_model = analyze_method_model(m.deep_view());
                let oc = analyze_method(m);
                let MethodOutcome { cleaned, diags, export } = oc;
                let ghost d_all: Seq<SpecExportError> = diags.deep_view();
                let ghost nd: int = d_all.len() as int;
                let mut diags = diags;
                let total_d: usize = diags.len();
                proof {
                    assert(total_d as int == nd);
                }
                let mut d: usize = 0;
                proof {
                    assert(diags.deep_view() =~= d_all.subrange(0, nd));
                    assert(out_items.deep_view() =~= expose_items(all, idx as int) + Seq::new(
                        0,
                        |k: int| SpecImplItem::ErrorItem(d_all[k]),
                    ));
                }
                while diags.len() > 0
                    invariant
                        0 <= d,
                        d + diags.len() == nd,
                        diags.deep_view() == d_all.subrange(d as int, nd),
                        out_items.deep_view() == expose_items(all, idx as int) + Seq::new(
                            d as nat,
                            |k: int| SpecImplItem::ErrorItem(d_all[k]),
                        ),
                    decreases diags.len(),
                {
                    let ghost pre_d: Seq<ExportError> = diags@;
                    let e = diags.remove(0);
                    let ghost pre_out = out_items.deep_view();
                    out_items.push(ImplItem::ErrorItem(e));
                    proof {
                        assert(dv(pre_d) == d_all.subrange(d as int, nd));
                        assert(e.deep_view() == dv(pre_d)[0]);
                        assert(e.deep_view() == d_all[d as int]);
                        assert(diags@ =~= pre_d.subrange(1, pre_d.len() as int));
                        lemma_dv_subrange(pre_d, 1, pre_d.len() as int);
                        assert(diags.deep_view() =~= d_all.subrange(d as int + 1, nd));
                        assert(out_items.deep_view() =~= pre_out.push(
                            SpecImplItem::ErrorItem(d_all[d as int]),
                        ));
                        assert(out_items.deep_view() =~= expose_items(all, idx as int) + Seq::new(
                            (d + 1) as nat,
                            |k: int| SpecImplItem::ErrorItem(d_all[k]),
                        ));
                    }
                    d = d + 1;
                }
                let ghost pre_out = out_items.deep_view();
                out_items.push(ImplItem::MethodItem(cleaned));
                proof {
                    assert(d as int == nd);
                    assert(d_all == m_model.diags);
                    assert(out_items.deep_view() =~= pre_out.push(
                        SpecImplItem::MethodItem(m_model.cleaned),
                    ));
                    assert(item_outcome_items(all[idx as int]) =~= Seq::new(
                        m_model.diags.len(),
                        |k: int| SpecImplItem::ErrorItem(m_model.diags[k]),
                    ).push(SpecImplItem::MethodItem(m_model.cleaned)));
                    assert(out_items.deep_view() =~= expose_items(all, idx as int + 1));
                }
                match export {
                    Some(em) => {
                        let ghost pre_ex = exports.deep_view();
                        exports.push(em);
                        proof {
                            assert(exports.deep_view() =~= pre_ex + item_outcome_exports(
                                all[idx as int],
                            ));
                            assert(exports.deep_view() =~= expose_exports(all, idx as int + 1));
                        }
                    },
                    None => {
                        proof {
                            assert(item_outcome_exports(all[idx as int]) =~= Seq::<
                                SpecExportMethod,
                            >::empty());
                            assert(exports.deep_view() =~= expose_exports(all, idx as int + 1));
                        }
                    },
                }
            },
            other => {
                let ghost pre_out = out_items.deep_view();
                out_items.push(other);
                proof {
                    assert(out_items.deep_view() =~= pre_out.push(all[idx as int]));
                    assert(item_outcome_items(all[idx as int]) =~= seq![all[idx as int]]);
                    assert(out_items.deep_view() =~= expose_items(all, idx as int + 1));
                    assert(item_outcome_exports(all[idx as int]) =~= Seq::<
                        SpecExportMethod,
                    >::empty());
                    assert(exports.deep_view() =~= expose_exports(all, idx as int + 1));
                }
            },
        }
        idx = idx + 1;
    }
    proof {
        assert(idx as int == n);
    }
    let class_ty = self_ty.clone();
    let block = ItemImpl { self_ty, items: out_items };
    let export = ClassMethodExport { class_ty, methods: exports };
    proof {
        assert(block.deep_view() == expose_model(imv).0);
        assert(export.deep_view() == expose_model(imv).1);
    }
    (block, export)
}

} // verus!
