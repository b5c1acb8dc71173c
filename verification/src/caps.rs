//! The capability relay.
//!
//! An interface may declare auxiliary capabilities beyond its own methods.
//! A fixed, closed catalog maps each recognized capability to a template of
//! boundary methods: a pure marker is bound directly on the proxy type, a
//! capability with methods has the capability's type parameter substituted
//! into the templates, is re-verified, and is then bridged exactly like a
//! declared method.  An unrecognized capability is passed through without
//! forwarding.

use vstd::prelude::*;

use crate::decl::{
    consumer_stub_v, generate_producer, generate_proxy_impl, producer_def_v, Diagnostic,
    MethodOutcome, MethodOutcomeV, SuperImpl, SuperImplV,
};
use crate::sig::{
    sig_dv, vsig_dv, Signature, SignatureV, VerifiedSignature, VerifiedSignatureV,
};
use crate::sym::{symbol_chars, Symbol, SymbolView};
use crate::ty::{
    append_seg_label, gargs_dv, lemma_gargs_dv, lemma_segs_dv, lemma_seq_ty_dv, seg_dv, seg_label,
    seq_ty_dv, subst_param, subst_param_seq, subst_param_ty, type_dv, GenArg, GenArgV, PathArgs,
    PathArgsV, PathSegV, PathSegment, Type, TypePath, TypePathV, TypeV,
};
use vstd::string::StringExecFns;

verus! {

/// One catalog entry: the capability's name, its arity, whether binding it
/// on the proxy needs an unsafety marker, and its boundary method templates.
pub struct SuperTraitInfo {
    pub is_unsafe: bool,
    pub name: String,
    pub generics: usize,
    pub functions: Vec<Signature>,
}

/// The mathematical twin of [`SuperTraitInfo`].
pub struct SuperTraitInfoV {
    pub is_unsafe: bool,
    pub name: Seq<char>,
    pub generics: usize,
    pub functions: Seq<SignatureV>,
}

/// Projects a list of raw signatures.
pub open spec fn sigs_dv(ss: Seq<Signature>) -> Seq<SignatureV>
    decreases ss,
{
    if ss.len() == 0 {
        Seq::empty()
    } else {
        sigs_dv(ss.drop_last()).push(sig_dv(ss.last()))
    }
}

/// The projection of a signature list projects element-wise.
pub proof fn lemma_sigs_dv(ss: Seq<Signature>)
    ensures
        sigs_dv(ss).len() == ss.len(),
        forall|i: int| 0 <= i < ss.len() ==> sigs_dv(ss)[i] == sig_dv(ss[i]),
    decreases ss,
{
    if ss.len() > 0 {
        lemma_sigs_dv(ss.drop_last());
    }
}

/// Projects one catalog entry onto its twin.
pub open spec fn info_dv(e: SuperTraitInfo) -> SuperTraitInfoV {
    SuperTraitInfoV {
        is_unsafe: e.is_unsafe,
        name: e.name@,
        generics: e.generics,
        functions: sigs_dv(e.functions@),
    }
}

/// The one-segment plain path with the given identifier.
pub open spec fn path1_v(ident: Seq<char>) -> TypeV {
    TypeV::Path(
        TypePathV {
            leading_colon: false,
            qself: None,
            segments: seq![PathSegV { ident: ident, arguments: PathArgsV::Plain }],
        },
    )
}

/// The literal self-placeholder.
pub open spec fn self_type_v() -> TypeV {
    path1_v("Self"@)
}

/// A reference to the given type, without a lifetime.
pub open spec fn ref_v(is_mut: bool, elem: TypeV) -> TypeV {
    TypeV::Reference { lifetime: None, is_mut, elem: Box::new(elem) }
}

/// The formatter parameter of the debug-format capability.
pub open spec fn formatter_type_v() -> TypeV {
    TypeV::Path(
        TypePathV {
            leading_colon: true,
            qself: None,
            segments: seq![
                PathSegV { ident: "core"@, arguments: PathArgsV::Plain },
                PathSegV { ident: "fmt"@, arguments: PathArgsV::Plain },
                PathSegV {
                    ident: "Formatter"@,
                    arguments: PathArgsV::AngleBracketed(seq![GenArgV::Other("'_"@)]),
                },
            ],
        },
    )
}

/// The result type of the debug-format capability.
pub open spec fn fmt_result_type_v() -> TypeV {
    TypeV::Path(
        TypePathV {
            leading_colon: true,
            qself: None,
            segments: seq![
                PathSegV { ident: "core"@, arguments: PathArgsV::Plain },
                PathSegV { ident: "fmt"@, arguments: PathArgsV::Plain },
                PathSegV { ident: "Result"@, arguments: PathArgsV::Plain },
            ],
        },
    )
}

/// A raw template signature: never const, suspendable, unsafe or variadic.
pub open spec fn template_sig_v(ident: Seq<char>, inputs: Seq<TypeV>, output: Option<TypeV>) -> SignatureV {
    SignatureV {
        is_const: false,
        is_async: false,
        is_unsafe: false,
        abi: None,
        generics_n: 0,
        has_where_clause: false,
        is_variadic: false,
        ident: ident,
        inputs: inputs,
        output: output,
    }
}

/// A catalog entry with no boundary methods.
pub open spec fn marker_entry_v(name: Seq<char>, is_unsafe: bool) -> SuperTraitInfoV {
    SuperTraitInfoV { is_unsafe, name, generics: 0, functions: Seq::empty() }
}

/// The debug-format capability: `fmt(&self, f: &mut Formatter) -> Result`.
pub open spec fn debug_entry_v() -> SuperTraitInfoV {
    SuperTraitInfoV {
        is_unsafe: false,
        name: "Debug"@,
        generics: 0,
        functions: seq![
            template_sig_v(
                "fmt"@,
                seq![ref_v(false, self_type_v()), ref_v(true, formatter_type_v())],
                Some(fmt_result_type_v()),
            ),
        ],
    }
}

/// The clone capability: `clone(&self) -> Self`.
pub open spec fn clone_entry_v() -> SuperTraitInfoV {
    SuperTraitInfoV {
        is_unsafe: false,
        name: "Clone"@,
        generics: 0,
        functions: seq![
            template_sig_v(
                "clone"@,
                seq![ref_v(false, self_type_v())],
                Some(self_type_v()),
            ),
        ],
    }
}

/// The default-construct capability: `default() -> Self`.
pub open spec fn default_entry_v() -> SuperTraitInfoV {
    SuperTraitInfoV {
        is_unsafe: false,
        name: "Default"@,
        generics: 0,
        functions: seq![template_sig_v("default"@, Seq::empty(), Some(self_type_v()))],
    }
}

/// The reference-conversion capability: `as_ref(&self) -> &T`.
pub open spec fn as_ref_entry_v() -> SuperTraitInfoV {
    SuperTraitInfoV {
        is_unsafe: false,
        name: "AsRef"@,
        generics: 1,
        functions: seq![
            template_sig_v(
                "as_ref"@,
                seq![ref_v(false, self_type_v())],
                Some(ref_v(false, TypeV::Param(0))),
            ),
        ],
    }
}

/// The mutable-reference-conversion capability: `as_mut(&mut self) -> &mut T`.
pub open spec fn as_mut_entry_v() -> SuperTraitInfoV {
    SuperTraitInfoV {
        is_unsafe: false,
        name: "AsMut"@,
        generics: 1,
        functions: seq![
            template_sig_v(
                "as_mut"@,
                seq![ref_v(true, self_type_v())],
                Some(ref_v(true, TypeV::Param(0))),
            ),
        ],
    }
}

/// The fixed, closed catalog of relayed capabilities.
pub open spec fn catalog() -> Seq<SuperTraitInfoV> {
    seq![
        marker_entry_v("Send"@, true),
        marker_entry_v("Sync"@, true),
        marker_entry_v("Sized"@, false),
        marker_entry_v("Unpin"@, false),
        marker_entry_v("Copy"@, false),
        debug_entry_v(),
        clone_entry_v(),
        default_entry_v(),
        as_ref_entry_v(),
        as_mut_entry_v(),
    ]
}

/// Projects a list of catalog entries.
pub open spec fn infos_dv(es: Seq<SuperTraitInfo>) -> Seq<SuperTraitInfoV>
    decreases es,
{
    if es.len() == 0 {
        Seq::empty()
    } else {
        infos_dv(es.drop_last()).push(info_dv(es.last()))
    }
}

/// The projection of an entry list projects element-wise.
pub proof fn lemma_infos_dv(es: Seq<SuperTraitInfo>)
    ensures
        infos_dv(es).len() == es.len(),
        forall|i: int| 0 <= i < es.len() ==> infos_dv(es)[i] == info_dv(es[i]),
    decreases es,
{
    if es.len() > 0 {
        lemma_infos_dv(es.drop_last());
    }
}

/// Builds the one-segment plain path with the given identifier.
fn path1(ident: &str) -> (t: Type)
    ensures
        type_dv(t) == path1_v(ident@),
{
    let t = Type::Path(
        TypePath {
            leading_colon: false,
            qself: None,
            segments: vec![PathSegment { ident: ident.to_owned(), arguments: PathArgs::Plain }],
        },
    );
    proof {
        let ghost tv = t;
        let pv = match tv {
            Type::Path(p) => p,
            _ => vstd::pervasive::arbitrary(),
        };
        lemma_segs_dv(pv.segments@);
        assert(crate::ty::segs_dv(pv.segments@) =~= seq![
            PathSegV { ident: ident@, arguments: PathArgsV::Plain },
        ]);
        assert(crate::ty::path_dv(pv) == TypePathV {
            leading_colon: false,
            qself: None,
            segments: seq![PathSegV { ident: ident@, arguments: PathArgsV::Plain }],
        });
        assert(type_dv(t) == path1_v(ident@));
    }
    t
}

/// Builds the literal self-placeholder.
fn self_ty() -> (t: Type)
    ensures
        type_dv(t) == self_type_v(),
{
    path1("Self")
}

/// Builds a reference to the given type, without a lifetime.
fn ref_ty(is_mut: bool, elem: Type) -> (t: Type)
    ensures
        type_dv(t) == ref_v(is_mut, type_dv(elem)),
{
    Type::Reference { lifetime: None, is_mut, elem: Box::new(elem) }
}

/// Builds the formatter parameter of the debug-format capability.
fn formatter_ty() -> (t: Type)
    ensures
        type_dv(t) == formatter_type_v(),
{
    let t = Type::Path(
        TypePath {
            leading_colon: true,
            qself: None,
            segments: vec![
                PathSegment { ident: "core".to_owned(), arguments: PathArgs::Plain },
                PathSegment { ident: "fmt".to_owned(), arguments: PathArgs::Plain },
                PathSegment {
                    ident: "Formatter".to_owned(),
                    arguments: PathArgs::AngleBracketed(
                        vec![GenArg::Other("'_".to_owned())],
                    ),
                },
            ],
        },
    );
    proof {
        let ghost tv = t;
        let pv = match tv {
            Type::Path(p) => p,
            _ => vstd::pervasive::arbitrary(),
        };
        lemma_segs_dv(pv.segments@);
        let ghost ga = match pv.segments@[2].arguments {
            PathArgs::AngleBracketed(gs) => gs,
            _ => vstd::pervasive::arbitrary(),
        };
        lemma_gargs_dv(ga@);
        assert(gargs_dv(ga@) =~= seq![GenArgV::Other("'_"@)]);
        assert(crate::ty::seg_dv(pv.segments@[2]) == PathSegV {
            ident: "Formatter"@,
            arguments: PathArgsV::AngleBracketed(seq![GenArgV::Other("'_"@)]),
        });
        assert(crate::ty::segs_dv(pv.segments@) =~= seq![
            PathSegV { ident: "core"@, arguments: PathArgsV::Plain },
            PathSegV { ident: "fmt"@, arguments: PathArgsV::Plain },
            PathSegV {
                ident: "Formatter"@,
                arguments: PathArgsV::AngleBracketed(seq![GenArgV::Other("'_"@)]),
            },
        ]);
        assert(crate::ty::path_dv(pv) == TypePathV {
            leading_colon: true,
            qself: None,
            segments: seq![
                PathSegV { ident: "core"@, arguments: PathArgsV::Plain },
                PathSegV { ident: "fmt"@, arguments: PathArgsV::Plain },
                PathSegV {
                    ident: "Formatter"@,
                    arguments: PathArgsV::AngleBracketed(seq![GenArgV::Other("'_"@)]),
                },
            ],
        });
        assert(type_dv(t) == formatter_type_v());
    }
    t
}

/// Builds the result type of the debug-format capability.
fn fmt_result_ty() -> (t: Type)
    ensures
        type_dv(t) == fmt_result_type_v(),
{
    let t = Type::Path(
        TypePath {
            leading_colon: true,
            qself: None,
            segments: vec![
                PathSegment { ident: "core".to_owned(), arguments: PathArgs::Plain },
                PathSegment { ident: "fmt".to_owned(), arguments: PathArgs::Plain },
                PathSegment { ident: "Result".to_owned(), arguments: PathArgs::Plain },
            ],
        },
    );
    proof {
        let ghost tv = t;
        let pv = match tv {
            Type::Path(p) => p,
            _ => vstd::pervasive::arbitrary(),
        };
        lemma_segs_dv(pv.segments@);
        assert(crate::ty::segs_dv(pv.segments@) =~= seq![
            PathSegV { ident: "core"@, arguments: PathArgsV::Plain },
            PathSegV { ident: "fmt"@, arguments: PathArgsV::Plain },
            PathSegV { ident: "Result"@, arguments: PathArgsV::Plain },
        ]);
        assert(crate::ty::path_dv(pv) == TypePathV {
            leading_colon: true,
            qself: None,
            segments: seq![
                PathSegV { ident: "core"@, arguments: PathArgsV::Plain },
                PathSegV { ident: "fmt"@, arguments: PathArgsV::Plain },
                PathSegV { ident: "Result"@, arguments: PathArgsV::Plain },
            ],
        });
        assert(type_dv(t) == fmt_result_type_v());
    }
    t
}

/// Builds a raw template signature.
fn template_sig(ident: &str, inputs: Vec<Type>, output: Option<Type>) -> (s: Signature)
    ensures
        sig_dv(s) == template_sig_v(
            ident@,
            seq_ty_dv(inputs@),
            crate::decl::opt_plain_ty_dv(output),
        ),
{
    Signature {
        is_const: false,
        is_async: false,
        is_unsafe: false,
        abi: None,
        generics_n: 0,
        has_where_clause: false,
        is_variadic: false,
        ident: ident.to_owned(),
        inputs,
        output,
    }
}

/// Builds a catalog entry with no boundary methods.
fn marker_entry(name: &str, is_unsafe: bool) -> (e: SuperTraitInfo)
    ensures
        info_dv(e) == marker_entry_v(name@, is_unsafe),
{
    let e = SuperTraitInfo { is_unsafe, name: name.to_owned(), generics: 0, functions: Vec::new() };
    proof {
        assert(sigs_dv(e.functions@) =~= Seq::<SignatureV>::empty());
    }
    e
}

/// Builds a catalog entry with one boundary method template.
fn method_entry(name: &str, generics: usize, f: Signature) -> (e: SuperTraitInfo)
    ensures
        info_dv(e) == (SuperTraitInfoV {
            is_unsafe: false,
            name: name@,
            generics: generics,
            functions: seq![sig_dv(f)],
        }),
{
    let ghost fv = sig_dv(f);
    let e = SuperTraitInfo {
        is_unsafe: false,
        name: name.to_owned(),
        generics,
        functions: vec![f],
    };
    proof {
        lemma_sigs_dv(e.functions@);
        assert(sigs_dv(e.functions@) =~= seq![fv]);
    }
    e
}

/// Builds the fixed catalog, entry for entry.
pub fn build_catalog() -> (v: Vec<SuperTraitInfo>)
    ensures
        infos_dv(v@) == catalog(),
{
    let mut out: Vec<SuperTraitInfo> = Vec::new();
    out.push(marker_entry("Send", true));
    out.push(marker_entry("Sync", true));
    out.push(marker_entry("Sized", false));
    out.push(marker_entry("Unpin", false));
    out.push(marker_entry("Copy", false));
    let mut fmt_ins: Vec<Type> = Vec::new();
    fmt_ins.push(ref_ty(false, self_ty()));
    fmt_ins.push(ref_ty(true, formatter_ty()));
    proof {
        lemma_seq_ty_dv(fmt_ins@);
        assert(seq_ty_dv(fmt_ins@) =~= seq![
            ref_v(false, self_type_v()),
            ref_v(true, formatter_type_v()),
        ]);
    }
    let fmt_f = template_sig("fmt", fmt_ins, Some(fmt_result_ty()));
    out.push(method_entry("Debug", 0, fmt_f));
    let mut clone_ins: Vec<Type> = Vec::new();
    clone_ins.push(ref_ty(false, self_ty()));
    proof {
        lemma_seq_ty_dv(clone_ins@);
        assert(seq_ty_dv(clone_ins@) =~= seq![ref_v(false, self_type_v())]);
    }
    let clone_f = template_sig("clone", clone_ins, Some(self_ty()));
    out.push(method_entry("Clone", 0, clone_f));
    let default_ins: Vec<Type> = Vec::new();
    proof {
        assert(seq_ty_dv(default_ins@) =~= Seq::<TypeV>::empty());
    }
    let default_f = template_sig("default", default_ins, Some(self_ty()));
    out.push(method_entry("Default", 0, default_f));
    let mut as_ref_ins: Vec<Type> = Vec::new();
    as_ref_ins.push(ref_ty(false, self_ty()));
    proof {
        lemma_seq_ty_dv(as_ref_ins@);
        assert(seq_ty_dv(as_ref_ins@) =~= seq![ref_v(false, self_type_v())]);
    }
    let as_ref_f = template_sig("as_ref", as_ref_ins, Some(ref_ty(false, Type::Param(0))));
    out.push(method_entry("AsRef", 1, as_ref_f));
    let mut as_mut_ins: Vec<Type> = Vec::new();
    as_mut_ins.push(ref_ty(true, self_ty()));
    proof {
        lemma_seq_ty_dv(as_mut_ins@);
        assert(seq_ty_dv(as_mut_ins@) =~= seq![ref_v(true, self_type_v())]);
    }
    let as_mut_f = template_sig("as_mut", as_mut_ins, Some(ref_ty(true, Type::Param(0))));
    out.push(method_entry("AsMut", 1, as_mut_f));
    proof {
        lemma_infos_dv(out@);
        assert(infos_dv(out@) =~= catalog());
    }
    out
}

/// Substitution of the capability's type arguments through a template
/// signature.
pub open spec fn subst_sig_v(s: SignatureV, args: Seq<TypeV>) -> SignatureV {
    SignatureV {
        inputs: subst_param_seq(s.inputs, args),
        output: match s.output {
            Some(t) => Some(subst_param(t, args)),
            None => None,
        },
        ..s
    }
}

/// Substitutes the capability's type arguments through a template.
fn subst_signature(tmpl: &Signature, args: &Vec<Type>) -> (r: Signature)
    ensures
        sig_dv(r) == subst_sig_v(sig_dv(*tmpl), seq_ty_dv(args@)),
{
    proof {
        lemma_seq_ty_dv(tmpl.inputs@);
    }
    let mut inputs: Vec<Type> = Vec::new();
    let mut i: usize = 0;
    while i < tmpl.inputs.len()
        invariant
            i <= tmpl.inputs@.len(),
            inputs@.len() == i,
            seq_ty_dv(tmpl.inputs@).len() == tmpl.inputs@.len(),
            forall|j: int|
                0 <= j < tmpl.inputs@.len() ==> seq_ty_dv(tmpl.inputs@)[j] == type_dv(
                    tmpl.inputs@[j],
                ),
            forall|j: int|
                0 <= j < i ==> type_dv(inputs@[j]) == subst_param(
                    seq_ty_dv(tmpl.inputs@)[j],
                    seq_ty_dv(args@),
                ),
        decreases tmpl.inputs@.len() - i,
    {
        inputs.push(subst_param_ty(&tmpl.inputs[i], args));
        i = i + 1;
    }
    proof {
        lemma_seq_ty_dv(inputs@);
        crate::ty::lemma_subst_param_seq(seq_ty_dv(tmpl.inputs@), seq_ty_dv(args@));
        assert(seq_ty_dv(inputs@) =~= subst_param_seq(seq_ty_dv(tmpl.inputs@), seq_ty_dv(args@)));
    }
    let output: Option<Type> = match &tmpl.output {
        Some(t) => Some(subst_param_ty(t, args)),
        None => None,
    };
    Signature {
        is_const: tmpl.is_const,
        is_async: tmpl.is_async,
        is_unsafe: tmpl.is_unsafe,
        abi: crate::ty::copy_opt_string(&tmpl.abi),
        generics_n: tmpl.generics_n,
        has_where_clause: tmpl.has_where_clause,
        is_variadic: tmpl.is_variadic,
        ident: tmpl.ident.clone(),
        inputs,
        output,
    }
}

/// The capability's type arguments, as the types to substitute: a type
/// argument itself, any other argument as its carried text.
pub open spec fn args_to_types_v(gs: Seq<GenArgV>) -> Seq<TypeV> {
    Seq::new(
        gs.len(),
        |i: int|
            match gs[i] {
                GenArgV::Ty(t) => t,
                GenArgV::Other(s) => TypeV::Opaque(s),
            },
    )
}

/// The substitution arguments carried by a capability path.
pub open spec fn seg_args_v(a: PathArgsV) -> Seq<TypeV> {
    match a {
        PathArgsV::AngleBracketed(gs) => args_to_types_v(gs),
        _ => Seq::empty(),
    }
}

/// Extracts the substitution arguments of a capability path.
fn seg_type_args(a: &PathArgs) -> (r: Vec<Type>)
    ensures
        seq_ty_dv(r@) == seg_args_v(crate::ty::args_dv(*a)),
{
    match a {
        PathArgs::AngleBracketed(gs) => {
            proof {
                assert(*a == PathArgs::AngleBracketed(*gs));
                lemma_gargs_dv(gs@);
            }
            let mut out: Vec<Type> = Vec::new();
            let mut i: usize = 0;
            while i < gs.len()
                invariant
                    *a == PathArgs::AngleBracketed(*gs),
                    i <= gs@.len(),
                    out@.len() == i,
                    gargs_dv(gs@).len() == gs@.len(),
                    forall|j: int| 0 <= j < gs@.len() ==> gargs_dv(gs@)[j] == crate::ty::garg_dv(
                        gs@[j],
                    ),
                    forall|j: int|
                        0 <= j < i ==> type_dv(out@[j]) == args_to_types_v(gargs_dv(gs@))[j],
                decreases gs@.len() - i,
            {
                let t = match &gs[i] {
                    GenArg::Ty(t) => crate::ty::copy_type(t),
                    GenArg::Other(o) => Type::Opaque(o.clone()),
                };
                out.push(t);
                i = i + 1;
            }
            proof {
                lemma_seq_ty_dv(out@);
                assert(seq_ty_dv(out@) =~= args_to_types_v(gargs_dv(gs@)));
            }
            out
        },
        _ => {
            let out: Vec<Type> = Vec::new();
            proof {
                assert(seq_ty_dv(out@) =~= Seq::<TypeV>::empty());
            }
            out
        },
    }
}

/// Whether a capability path's arity fits a catalog entry's.
pub open spec fn arity_ok(a: PathArgsV, n: usize) -> bool {
    match a {
        PathArgsV::Plain => n == 0,
        PathArgsV::AngleBracketed(gs) => gs.len() == n,
        PathArgsV::Parenthesized { .. } => false,
    }
}

/// Whether a catalog entry answers a capability path.
pub open spec fn cap_matches(e: SuperTraitInfoV, seg: PathSegV) -> bool {
    e.name == seg.ident && arity_ok(seg.arguments, e.generics)
}

/// The first catalog entry answering the path, if any.
pub open spec fn find_cap(es: Seq<SuperTraitInfoV>, seg: PathSegV) -> Option<SuperTraitInfoV>
    decreases es,
{
    if es.len() == 0 {
        None
    } else if cap_matches(es[0], seg) {
        Some(es[0])
    } else {
        find_cap(es.drop_first(), seg)
    }
}

/// The first matching entry is the lookup's answer.
proof fn lemma_find_cap_hit(es: Seq<SuperTraitInfoV>, seg: PathSegV, i: int)
    requires
        0 <= i < es.len(),
        cap_matches(es[i], seg),
        forall|j: int| 0 <= j < i ==> !cap_matches(es[j], seg),
    ensures
        find_cap(es, seg) == Some(es[i]),
    decreases es,
{
    if i > 0 {
        assert forall|j: int| 0 <= j < i - 1 implies !cap_matches(es.drop_first()[j], seg) by {
            assert(es.drop_first()[j] == es[j + 1]);
        }
        assert(es.drop_first()[i - 1] == es[i]);
        lemma_find_cap_hit(es.drop_first(), seg, i - 1);
    }
}

/// With no matching entry the lookup answers nothing.
proof fn lemma_find_cap_miss(es: Seq<SuperTraitInfoV>, seg: PathSegV)
    requires
        forall|j: int| 0 <= j < es.len() ==> !cap_matches(es[j], seg),
    ensures
        find_cap(es, seg) is None,
    decreases es,
{
    if es.len() > 0 {
        assert forall|j: int| 0 <= j < es.drop_first().len() implies !cap_matches(
            es.drop_first()[j],
            seg,
        ) by {
            assert(es.drop_first()[j] == es[j + 1]);
        }
        lemma_find_cap_miss(es.drop_first(), seg);
    }
}

/// A capability-qualified member name: the capability's label, a path
/// separator, the method name.
pub open spec fn cap_member_name(seg: PathSegV, m: Seq<char>) -> Seq<char> {
    seg_label(seg) + seq![':', ':'] + m
}

/// What one relayed template becomes: substituted, re-verified, and then
/// bridged under the capability-qualified symbol — or a localized
/// diagnostic where the substituted signature no longer verifies.
pub open spec fn cap_outcome_v(
    crate_path: Seq<char>,
    proxy_ident: Seq<char>,
    base: SymbolView,
    seg: PathSegV,
    tmpl: SignatureV,
    args: Seq<TypeV>,
) -> MethodOutcomeV {
    let s = subst_sig_v(tmpl, args);
    match crate::sig::verify_sig(s) {
        Err(e) => MethodOutcomeV::Rejected(Diagnostic::BadSignature(e)),
        Ok(v) => {
            let sym = symbol_chars(SymbolView { name: cap_member_name(seg, v.ident), ..base });
            MethodOutcomeV::Bridged(
                consumer_stub_v(proxy_ident, sym, v),
                producer_def_v(crate_path, Some(seg), sym, v),
            )
        },
    }
}

/// The relayed members of one recognized capability.
pub open spec fn relay_members_v(
    crate_path: Seq<char>,
    proxy_ident: Seq<char>,
    base: SymbolView,
    seg: PathSegV,
    tmpls: Seq<SignatureV>,
    args: Seq<TypeV>,
) -> Seq<MethodOutcomeV> {
    Seq::new(tmpls.len(), |i: int| cap_outcome_v(crate_path, proxy_ident, base, seg, tmpls[i], args))
}

/// What the relay makes of one capability path: nothing where the catalog
/// does not recognize it, otherwise the marker or the bridged members.
pub open spec fn generate_impl_v(
    crate_path: Seq<char>,
    proxy_ident: Seq<char>,
    base: SymbolView,
    seg: PathSegV,
) -> Option<SuperImplV> {
    match find_cap(catalog(), seg) {
        None => None,
        Some(e) => Some(
            SuperImplV {
                is_unsafe: e.is_unsafe,
                path: seg,
                members: relay_members_v(
                    crate_path,
                    proxy_ident,
                    base,
                    seg,
                    e.functions,
                    seg_args_v(seg.arguments),
                ),
            },
        ),
    }
}

/// Relays one declared capability: looks it up in the catalog, substitutes
/// its type arguments into the templates, re-verifies each, and bridges the
/// survivors under capability-qualified symbols.
pub fn generate_impl(crate_path: &str, path: &PathSegment, proxy_ident: &str, sym: &Symbol) -> (r:
    Option<SuperImpl>)
    ensures
        match r {
            Some(si) => generate_impl_v(crate_path@, proxy_ident@, sym@, seg_dv(*path)) == Some(
                crate::decl::super_impl_dv(si),
            ),
            None => generate_impl_v(crate_path@, proxy_ident@, sym@, seg_dv(*path)) is None,
        },
{
    let cat = build_catalog();
    proof {
        lemma_infos_dv(cat@);
    }
    let mut i: usize = 0;
    while i < cat.len()
        invariant
            i <= cat@.len(),
            infos_dv(cat@) == catalog(),
            infos_dv(cat@).len() == cat@.len(),
            forall|j: int| 0 <= j < cat@.len() ==> infos_dv(cat@)[j] == info_dv(cat@[j]),
            forall|j: int| 0 <= j < i ==> !cap_matches(catalog()[j], seg_dv(*path)),
        decreases cat@.len() - i,
    {
        let entry = &cat[i];
        let name_hit = crate::ty::str_eq(entry.name.as_str(), path.ident.as_str());
        let arity_hit = match &path.arguments {
            PathArgs::Plain => entry.generics == 0,
            PathArgs::AngleBracketed(gs) => {
                proof {
                    lemma_gargs_dv(gs@);
                }
                gs.len() == entry.generics
            },
            PathArgs::Parenthesized { .. } => false,
        };
        if name_hit && arity_hit {
            proof {
                assert(cap_matches(catalog()[i as int], seg_dv(*path)));
                lemma_find_cap_hit(catalog(), seg_dv(*path), i as int);
            }
            let args = seg_type_args(&path.arguments);
            proof {
                lemma_sigs_dv(entry.functions@);
            }
            let mut members: Vec<MethodOutcome> = Vec::new();
            let mut k: usize = 0;
            while k < entry.functions.len()
                invariant
                    k <= entry.functions@.len(),
                    members@.len() == k,
                    sigs_dv(entry.functions@).len() == entry.functions@.len(),
                    forall|j: int|
                        0 <= j < entry.functions@.len() ==> sigs_dv(entry.functions@)[j] == sig_dv(
                            entry.functions@[j],
                        ),
                    seq_ty_dv(args@) == seg_args_v(crate::ty::args_dv(path.arguments)),
                    forall|j: int|
                        0 <= j < k ==> crate::decl::outcome_dv(members@[j]) == cap_outcome_v(
                            crate_path@,
                            proxy_ident@,
                            sym@,
                            seg_dv(*path),
                            sigs_dv(entry.functions@)[j],
                            seq_ty_dv(args@),
                        ),
                decreases entry.functions@.len() - k,
            {
                let s = subst_signature(&entry.functions[k], &args);
                match VerifiedSignature::try_new(&s) {
                    Err(e) => {
                        members.push(MethodOutcome::Rejected(Diagnostic::BadSignature(e)));
                    },
                    Ok(vs) => {
                        let mut mname = String::new();
                        append_seg_label(&mut mname, path);
                        mname.append("::");
                        mname.append(vs.ident.as_str());
                        proof {
                            reveal_strlit("::");
                            assert("::"@ =~= seq![':', ':']);
                            assert(mname@ == cap_member_name(seg_dv(*path), vsig_dv(vs).ident));
                        }
                        let export = sym.with_name(mname.as_str()).render();
                        let stub = generate_proxy_impl(proxy_ident, export.as_str(), &vs);
                        let prod = generate_producer(
                            crate_path,
                            Some(path),
                            export.as_str(),
                            &vs,
                        );
                        members.push(MethodOutcome::Bridged(stub, prod));
                    },
                }
                k = k + 1;
                proof {
                    crate::decl::lemma_outcomes_dv(members@);
                }
            }
            let si = SuperImpl {
                is_unsafe: entry.is_unsafe,
                path: crate::ty::copy_seg(path),
                members,
            };
            proof {
                crate::decl::lemma_outcomes_dv(si.members@);
                assert(crate::decl::outcomes_dv(si.members@) =~= relay_members_v(
                    crate_path@,
                    proxy_ident@,
                    sym@,
                    seg_dv(*path),
                    sigs_dv(entry.functions@),
                    seq_ty_dv(args@),
                ));
            }
            return Some(si);
        }
        proof {
            assert(!cap_matches(catalog()[i as int], seg_dv(*path)));
        }
        i = i + 1;
    }
    proof {
        lemma_find_cap_miss(catalog(), seg_dv(*path));
    }
    None
}


} // verus!
