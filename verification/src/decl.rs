//! The interface-side expansion: boundary forwarding generation.
//!
//! For every accepted method the generator derives one boundary symbol and
//! emits two coupled artifacts: the consumer stub, a method on the proxy
//! type that imports the symbol and forwards to it, and the producer
//! definition, a function exported under the identical symbol that calls the
//! real implementation.  A rejected method becomes a localized diagnostic;
//! its siblings are still bridged.
//!
//! By-value self positions are supported in every parameter position and in
//! the return position: both sides pass such a value through the erased
//! two-word representation, and a by-value result is repacked into it
//! before the producer returns.

use vstd::prelude::*;

use crate::sig::{
    arg_names_no_self_v, arg_names_v, arg_types_v, maybe_self_dv, ret_type_v, vsig_dv, ArgName,
    MaybeSelfV, Signature, SignatureV, SigError, VerifiedSignature, VerifiedSignatureV,
};
use crate::ty::{
    copy_opt_string, copy_seg, seg_dv, seq_ty_dv, type_dv, PathArgs, PathArgsV, PathSegV,
    PathSegment, SelfKindV, Type, TypePath, TypePathV, TypeV,
};

verus! {

/// The projection of an optional plain type.
pub open spec fn opt_plain_ty_dv(o: Option<Type>) -> Option<TypeV> {
    match o {
        Some(t) => Some(type_dv(t)),
        None => None,
    }
}

/// The one-segment path type of the proxy.
pub open spec fn proxy_type(proxy_ident: Seq<char>) -> TypeV {
    TypeV::Path(
        TypePathV {
            leading_colon: false,
            qself: None,
            segments: seq![PathSegV { ident: proxy_ident, arguments: PathArgsV::Plain }],
        },
    )
}

/// The path type of the erased representation inside the support crate.
pub open spec fn repr_type(crate_path: Seq<char>) -> TypeV {
    TypeV::Path(
        TypePathV {
            leading_colon: false,
            qself: None,
            segments: seq![
                PathSegV { ident: crate_path, arguments: PathArgsV::Plain },
                PathSegV { ident: "Repr"@, arguments: PathArgsV::Plain },
            ],
        },
    )
}

/// A consumer stub: a method on the proxy type whose body imports the
/// derived symbol and forwards the arguments to it unchanged.
pub struct ConsumerStub {
    pub is_unsafe: bool,
    pub abi: Option<String>,
    pub ident: String,
    pub import_symbol: String,
    pub arg_names: Vec<ArgName>,
    pub arg_types: Vec<Type>,
    pub output: Option<Type>,
}

/// The mathematical twin of [`ConsumerStub`].
pub struct ConsumerStubV {
    pub is_unsafe: bool,
    pub abi: Option<Seq<char>>,
    pub ident: Seq<char>,
    pub import_symbol: Seq<char>,
    pub arg_names: Seq<ArgName>,
    pub arg_types: Seq<TypeV>,
    pub output: Option<TypeV>,
}

/// Projects a consumer stub onto its twin.
pub open spec fn stub_dv(s: ConsumerStub) -> ConsumerStubV {
    ConsumerStubV {
        is_unsafe: s.is_unsafe,
        abi: crate::ty::opt_str_dv(s.abi),
        ident: s.ident@,
        import_symbol: s.import_symbol@,
        arg_names: s.arg_names@,
        arg_types: seq_ty_dv(s.arg_types@),
        output: opt_plain_ty_dv(s.output),
    }
}

/// What the consumer stub for an accepted method is: the proxy type stands
/// in for every self-placeholder, the first parameter alone may keep the
/// receiver name, and the body forwards through the derived symbol.
pub open spec fn consumer_stub_v(
    proxy_ident: Seq<char>,
    export: Seq<char>,
    v: VerifiedSignatureV,
) -> ConsumerStubV {
    ConsumerStubV {
        is_unsafe: v.is_unsafe,
        abi: v.abi,
        ident: v.ident,
        import_symbol: export,
        arg_names: arg_names_v(v.inputs),
        arg_types: arg_types_v(v.inputs, proxy_type(proxy_ident)),
        output: ret_type_v(v.output, proxy_type(proxy_ident)),
    }
}

/// A producer definition: a function exported under the derived symbol that
/// reconstructs the concrete value and calls the real method.
pub struct ProducerDef {
    pub export_symbol: String,
    pub ident: String,
    /// The trait the call is dispatched through; the bridged trait itself
    /// where absent, a relayed capability otherwise.
    pub for_trait: Option<PathSegment>,
    pub arg_names: Vec<ArgName>,
    pub arg_types: Vec<Type>,
    pub output: Option<Type>,
    /// Whether a self-by-value result is repacked into the erased
    /// representation before returning.
    pub repack_result: bool,
}

/// The mathematical twin of [`ProducerDef`].
pub struct ProducerDefV {
    pub export_symbol: Seq<char>,
    pub ident: Seq<char>,
    pub for_trait: Option<PathSegV>,
    pub arg_names: Seq<ArgName>,
    pub arg_types: Seq<TypeV>,
    pub output: Option<TypeV>,
    pub repack_result: bool,
}

/// Projects a producer definition onto its twin.
pub open spec fn producer_dv(p: ProducerDef) -> ProducerDefV {
    ProducerDefV {
        export_symbol: p.export_symbol@,
        ident: p.ident@,
        for_trait: match p.for_trait {
            Some(s) => Some(seg_dv(s)),
            None => None,
        },
        arg_names: p.arg_names@,
        arg_types: seq_ty_dv(p.arg_types@),
        output: opt_plain_ty_dv(p.output),
        repack_result: p.repack_result,
    }
}

/// Whether the method returns the self-placeholder by value.
pub open spec fn ret_self_value(v: VerifiedSignatureV) -> bool {
    v.output matches Some(MaybeSelfV::Self_(SelfKindV::Value))
}

/// What the producer definition for an accepted method is: purely
/// positional parameter names, the implementation stand-in for every
/// self-placeholder, and a repacked result where the method returns the
/// placeholder by value.
pub open spec fn producer_def_v(
    crate_path: Seq<char>,
    trait_path: Option<PathSegV>,
    export: Seq<char>,
    v: VerifiedSignatureV,
) -> ProducerDefV {
    ProducerDefV {
        export_symbol: export,
        ident: v.ident,
        for_trait: trait_path,
        arg_names: arg_names_no_self_v(v.inputs),
        arg_types: arg_types_v(v.inputs, TypeV::Hole),
        output: if ret_self_value(v) {
            Some(repr_type(crate_path))
        } else {
            ret_type_v(v.output, TypeV::Hole)
        },
        repack_result: ret_self_value(v),
    }
}

/// A localized structural diagnostic: the offending item is replaced by it
/// and generation continues for the sibling items.
#[derive(Clone, Copy, PartialEq, Eq, Structural, Debug)]
pub enum Diagnostic {
    /// An interface body may only contain methods.
    NotAMethod,
    /// The normalizer rejected the method's signature.
    BadSignature(SigError),
}

/// What one declared item became: a bridged pair of boundary artifacts, or
/// a diagnostic.
pub enum MethodOutcome {
    Bridged(ConsumerStub, ProducerDef),
    Rejected(Diagnostic),
}

/// The mathematical twin of [`MethodOutcome`].
pub enum MethodOutcomeV {
    Bridged(ConsumerStubV, ProducerDefV),
    Rejected(Diagnostic),
}

/// Projects one outcome onto its twin.
pub open spec fn outcome_dv(m: MethodOutcome) -> MethodOutcomeV {
    match m {
        MethodOutcome::Bridged(s, p) => MethodOutcomeV::Bridged(stub_dv(s), producer_dv(p)),
        MethodOutcome::Rejected(d) => MethodOutcomeV::Rejected(d),
    }
}

/// Projects a list of outcomes.
pub open spec fn outcomes_dv(ms: Seq<MethodOutcome>) -> Seq<MethodOutcomeV>
    decreases ms,
{
    if ms.len() == 0 {
        Seq::empty()
    } else {
        outcomes_dv(ms.drop_last()).push(outcome_dv(ms.last()))
    }
}

/// The projection of an outcome list projects element-wise.
pub proof fn lemma_outcomes_dv(ms: Seq<MethodOutcome>)
    ensures
        outcomes_dv(ms).len() == ms.len(),
        forall|i: int| 0 <= i < ms.len() ==> outcomes_dv(ms)[i] == outcome_dv(ms[i]),
    decreases ms,
{
    if ms.len() > 0 {
        lemma_outcomes_dv(ms.drop_last());
    }
}

/// The relayed bridge for one recognized auxiliary capability: a marker
/// alone, or the capability's methods forwarded like ordinary methods.
pub struct SuperImpl {
    pub is_unsafe: bool,
    pub path: PathSegment,
    pub members: Vec<MethodOutcome>,
}

/// The mathematical twin of [`SuperImpl`].
pub struct SuperImplV {
    pub is_unsafe: bool,
    pub path: PathSegV,
    pub members: Seq<MethodOutcomeV>,
}

/// Projects a relayed capability onto its twin.
pub open spec fn super_impl_dv(s: SuperImpl) -> SuperImplV {
    SuperImplV { is_unsafe: s.is_unsafe, path: seg_dv(s.path), members: outcomes_dv(s.members@) }
}

/// Builds the consumer stub for one accepted method.
pub fn generate_proxy_impl(proxy_ident: &str, export_name: &str, sig: &VerifiedSignature) -> (s:
    ConsumerStub)
    ensures
        stub_dv(s) == consumer_stub_v(proxy_ident@, export_name@, vsig_dv(*sig)),
{
    let proxy_ty = Type::Path(
        TypePath {
            leading_colon: false,
            qself: None,
            segments: vec![
                PathSegment { ident: proxy_ident.to_owned(), arguments: PathArgs::Plain },
            ],
        },
    );
    proof {
        let ghost pt = proxy_ty;
        let pv = match pt {
            Type::Path(p) => p,
            _ => vstd::pervasive::arbitrary(),
        };
        assert(proxy_ty == Type::Path(pv));
        crate::ty::lemma_segs_dv(pv.segments@);
        assert(crate::ty::segs_dv(pv.segments@) =~= seq![
            PathSegV { ident: proxy_ident@, arguments: PathArgsV::Plain },
        ]);
        assert(crate::ty::path_dv(pv) == TypePathV {
            leading_colon: false,
            qself: None,
            segments: seq![PathSegV { ident: proxy_ident@, arguments: PathArgsV::Plain }],
        });
        assert(type_dv(proxy_ty) == proxy_type(proxy_ident@));
    }
    let arg_names = sig.arg_names();
    let arg_types = sig.arg_types(&proxy_ty);
    let output = sig.return_type(&proxy_ty);
    ConsumerStub {
        is_unsafe: sig.is_unsafe,
        abi: copy_opt_string(&sig.abi),
        ident: sig.ident.clone(),
        import_symbol: export_name.to_owned(),
        arg_names,
        arg_types,
        output,
    }
}

/// Builds the producer definition for one accepted method.
pub fn generate_producer(
    crate_path: &str,
    trait_path: Option<&PathSegment>,
    export_name: &str,
    sig: &VerifiedSignature,
) -> (p: ProducerDef)
    ensures
        producer_dv(p) == producer_def_v(
            crate_path@,
            match trait_path {
                Some(s) => Some(seg_dv(*s)),
                None => None,
            },
            export_name@,
            vsig_dv(*sig),
        ),
{
    let repack = sig.is_return_self_value();
    let output: Option<Type> = if repack {
        let repr_ty = Type::Path(
            TypePath {
                leading_colon: false,
                qself: None,
                segments: vec![
                    PathSegment { ident: crate_path.to_owned(), arguments: PathArgs::Plain },
                    PathSegment { ident: "Repr".to_owned(), arguments: PathArgs::Plain },
                ],
            },
        );
        proof {
            let ghost rt = repr_ty;
            let pv = match rt {
                Type::Path(p) => p,
                _ => vstd::pervasive::arbitrary(),
            };
            assert(repr_ty == Type::Path(pv));
            crate::ty::lemma_segs_dv(pv.segments@);
            assert(crate::ty::segs_dv(pv.segments@) =~= seq![
                PathSegV { ident: crate_path@, arguments: PathArgsV::Plain },
                PathSegV { ident: "Repr"@, arguments: PathArgsV::Plain },
            ]);
            assert(crate::ty::path_dv(pv) == TypePathV {
                leading_colon: false,
                qself: None,
                segments: seq![
                    PathSegV { ident: crate_path@, arguments: PathArgsV::Plain },
                    PathSegV { ident: "Repr"@, arguments: PathArgsV::Plain },
                ],
            });
            assert(type_dv(repr_ty) == repr_type(crate_path@));
        }
        Some(repr_ty)
    } else {
        sig.return_type(&Type::Hole)
    };
    let arg_names = sig.arg_names_no_self();
    let arg_types = sig.arg_types(&Type::Hole);
    let for_trait: Option<PathSegment> = match trait_path {
        Some(s) => Some(copy_seg(s)),
        None => None,
    };
    ProducerDef {
        export_symbol: export_name.to_owned(),
        ident: sig.ident.clone(),
        for_trait,
        arg_names,
        arg_types,
        output,
        repack_result: repack,
    }
}

/// Projects a list of carried attribute texts.
pub open spec fn strs_dv(ss: Seq<String>) -> Seq<Seq<char>>
    decreases ss,
{
    if ss.len() == 0 {
        Seq::empty()
    } else {
        strs_dv(ss.drop_last()).push(ss.last()@)
    }
}

/// The projection of a text list projects element-wise.
pub proof fn lemma_strs_dv(ss: Seq<String>)
    ensures
        strs_dv(ss).len() == ss.len(),
        forall|i: int| 0 <= i < ss.len() ==> strs_dv(ss)[i] == ss[i]@,
    decreases ss,
{
    if ss.len() > 0 {
        lemma_strs_dv(ss.drop_last());
    }
}

/// Copies a list of carried texts.
fn copy_strs(ss: &Vec<String>) -> (r: Vec<String>)
    ensures
        strs_dv(r@) == strs_dv(ss@),
{
    let mut out: Vec<String> = Vec::new();
    let mut i: usize = 0;
    while i < ss.len()
        invariant
            i <= ss@.len(),
            out@.len() == i,
            forall|j: int| 0 <= j < i ==> out@[j]@ == ss@[j]@,
        decreases ss@.len() - i,
    {
        out.push(ss[i].clone());
        i = i + 1;
    }
    proof {
        lemma_strs_dv(out@);
        lemma_strs_dv(ss@);
        assert(strs_dv(out@) =~= strs_dv(ss@));
    }
    out
}

/// The proxy type named by the annotation: its carried attributes, its
/// visibility and its name.
pub struct Proxy {
    pub attrs: Vec<String>,
    pub vis: String,
    pub ident: String,
}

/// The mathematical twin of [`Proxy`].
pub struct ProxyV {
    pub attrs: Seq<Seq<char>>,
    pub vis: Seq<char>,
    pub ident: Seq<char>,
}

/// Projects the proxy declaration onto its twin.
pub open spec fn proxy_dv(p: Proxy) -> ProxyV {
    ProxyV { attrs: strs_dv(p.attrs@), vis: p.vis@, ident: p.ident@ }
}

/// The emitted proxy struct: a transparent wrapper around the erased
/// representation of the support crate, already holding the eligibility
/// marker.
pub struct ProxyStructDef {
    pub attrs: Vec<String>,
    pub vis: String,
    pub ident: String,
    pub crate_path: String,
}

/// The mathematical twin of [`ProxyStructDef`].
pub struct ProxyStructDefV {
    pub attrs: Seq<Seq<char>>,
    pub vis: Seq<char>,
    pub ident: Seq<char>,
    pub crate_path: Seq<char>,
}

/// Projects the emitted proxy struct onto its twin.
pub open spec fn proxy_def_dv(p: ProxyStructDef) -> ProxyStructDefV {
    ProxyStructDefV {
        attrs: strs_dv(p.attrs@),
        vis: p.vis@,
        ident: p.ident@,
        crate_path: p.crate_path@,
    }
}

/// What the emitted proxy struct is: the declared attributes, visibility
/// and name, wrapping the given support crate's representation.
pub open spec fn proxy_def_v(p: ProxyV, crate_path: Seq<char>) -> ProxyStructDefV {
    ProxyStructDefV { attrs: p.attrs, vis: p.vis, ident: p.ident, crate_path: crate_path }
}

impl Proxy {
    /// Emits the proxy struct definition.
    pub fn expand(&self, crate_path: &str) -> (r: ProxyStructDef)
        ensures
            proxy_def_dv(r) == proxy_def_v(proxy_dv(*self), crate_path@),
    {
        ProxyStructDef {
            attrs: copy_strs(&self.attrs),
            vis: self.vis.clone(),
            ident: self.ident.clone(),
            crate_path: crate_path.to_owned(),
        }
    }
}

/// The annotation arguments on an interface declaration: the support
/// crate's path and the proxy to emit.
pub struct DeclArgs {
    pub crate_path: String,
    pub proxy: Proxy,
}

/// The annotation arguments on an implementation: the support crate's path.
pub struct ImplArgs {
    pub crate_path: String,
}

/// One item of the declared interface body: a method signature, or anything
/// else, carried as text.
pub enum TraitItem {
    Method(Signature),
    Other(String),
}

/// The mathematical twin of [`TraitItem`].
pub enum TraitItemV {
    Method(SignatureV),
    Other(Seq<char>),
}

/// Projects one interface item.
pub open spec fn item_dv(t: TraitItem) -> TraitItemV {
    match t {
        TraitItem::Method(s) => TraitItemV::Method(crate::sig::sig_dv(s)),
        TraitItem::Other(s) => TraitItemV::Other(s@),
    }
}

/// Projects the interface items.
pub open spec fn items_dv(ts: Seq<TraitItem>) -> Seq<TraitItemV>
    decreases ts,
{
    if ts.len() == 0 {
        Seq::empty()
    } else {
        items_dv(ts.drop_last()).push(item_dv(ts.last()))
    }
}

/// The projection of an item list projects element-wise.
pub proof fn lemma_items_dv(ts: Seq<TraitItem>)
    ensures
        items_dv(ts).len() == ts.len(),
        forall|i: int| 0 <= i < ts.len() ==> items_dv(ts)[i] == item_dv(ts[i]),
    decreases ts,
{
    if ts.len() > 0 {
        lemma_items_dv(ts.drop_last());
    }
}

/// One declared supertrait bound, with the shape facts that decide whether
/// the capability relay may consider it.
pub struct SuperBound {
    pub is_trait: bool,
    pub is_plain_modifier: bool,
    pub has_lifetimes: bool,
    pub leading_colon: bool,
    pub segments: Vec<PathSegment>,
}

/// The mathematical twin of [`SuperBound`].
pub struct SuperBoundV {
    pub is_trait: bool,
    pub is_plain_modifier: bool,
    pub has_lifetimes: bool,
    pub leading_colon: bool,
    pub segments: Seq<PathSegV>,
}

/// Projects one supertrait bound.
pub open spec fn bound_dv(b: SuperBound) -> SuperBoundV {
    SuperBoundV {
        is_trait: b.is_trait,
        is_plain_modifier: b.is_plain_modifier,
        has_lifetimes: b.has_lifetimes,
        leading_colon: b.leading_colon,
        segments: crate::ty::segs_dv(b.segments@),
    }
}

/// Projects the supertrait bounds.
pub open spec fn bounds_dv(bs: Seq<SuperBound>) -> Seq<SuperBoundV>
    decreases bs,
{
    if bs.len() == 0 {
        Seq::empty()
    } else {
        bounds_dv(bs.drop_last()).push(bound_dv(bs.last()))
    }
}

/// The projection of a bound list projects element-wise.
pub proof fn lemma_bounds_dv(bs: Seq<SuperBound>)
    ensures
        bounds_dv(bs).len() == bs.len(),
        forall|i: int| 0 <= i < bs.len() ==> bounds_dv(bs)[i] == bound_dv(bs[i]),
    decreases bs,
{
    if bs.len() > 0 {
        lemma_bounds_dv(bs.drop_last());
    }
}

/// The declared interface, as the front end hands it over.
pub struct TraitDecl {
    pub is_unsafe: bool,
    pub ident: String,
    pub generics_n: usize,
    pub supertraits: Vec<SuperBound>,
    pub items: Vec<TraitItem>,
}

/// The mathematical twin of [`TraitDecl`].
pub struct TraitDeclV {
    pub is_unsafe: bool,
    pub ident: Seq<char>,
    pub generics_n: usize,
    pub supertraits: Seq<SuperBoundV>,
    pub items: Seq<TraitItemV>,
}

/// Projects the declared interface.
pub open spec fn trait_decl_dv(t: TraitDecl) -> TraitDeclV {
    TraitDeclV {
        is_unsafe: t.is_unsafe,
        ident: t.ident@,
        generics_n: t.generics_n,
        supertraits: bounds_dv(t.supertraits@),
        items: items_dv(t.items@),
    }
}

/// The rejections that abort the whole interface expansion.
#[derive(Clone, Copy, PartialEq, Eq, Structural, Debug)]
pub enum DeclError {
    /// A bridged interface may not have generic parameters.
    TraitGenerics,
}

/// Projects a list of relayed capabilities.
pub open spec fn super_impls_dv(ss: Seq<SuperImpl>) -> Seq<SuperImplV>
    decreases ss,
{
    if ss.len() == 0 {
        Seq::empty()
    } else {
        super_impls_dv(ss.drop_last()).push(super_impl_dv(ss.last()))
    }
}

/// The projection of a capability list projects element-wise.
pub proof fn lemma_super_impls_dv(ss: Seq<SuperImpl>)
    ensures
        super_impls_dv(ss).len() == ss.len(),
        forall|i: int| 0 <= i < ss.len() ==> super_impls_dv(ss)[i] == super_impl_dv(ss[i]),
    decreases ss,
{
    if ss.len() > 0 {
        lemma_super_impls_dv(ss.drop_last());
    }
}

/// The whole interface-side expansion: the proxy struct, one outcome per
/// declared item, one relayed bridge per recognized capability, and the two
/// lifecycle symbols every bridge carries.
pub struct Expansion {
    pub proxy: ProxyStructDef,
    pub methods: Vec<MethodOutcome>,
    pub supers: Vec<SuperImpl>,
    pub drop_symbol: String,
    pub typeid_symbol: String,
}

/// The mathematical twin of [`Expansion`].
pub struct ExpansionV {
    pub proxy: ProxyStructDefV,
    pub methods: Seq<MethodOutcomeV>,
    pub supers: Seq<SuperImplV>,
    pub drop_symbol: Seq<char>,
    pub typeid_symbol: Seq<char>,
}

/// Projects the expansion onto its twin.
pub open spec fn expansion_dv(e: Expansion) -> ExpansionV {
    ExpansionV {
        proxy: proxy_def_dv(e.proxy),
        methods: outcomes_dv(e.methods@),
        supers: super_impls_dv(e.supers@),
        drop_symbol: e.drop_symbol@,
        typeid_symbol: e.typeid_symbol@,
    }
}

/// The derived symbol of one member of the bridge.
pub open spec fn member_symbol(base: crate::sym::SymbolView, m: Seq<char>) -> Seq<char> {
    crate::sym::symbol_chars(crate::sym::SymbolView { name: m, ..base })
}

/// Distinct members of one bridge never share a symbol: in particular the
/// destructor and type-identity thunks are aliased by no method, so a
/// consumer resolving the destructor symbol can only reach the destructor.
pub proof fn lemma_member_symbols_injective(
    base: crate::sym::SymbolView,
    m1: Seq<char>,
    m2: Seq<char>,
)
    requires
        crate::sym::sym_wf(crate::sym::SymbolView { name: m1, ..base }),
        crate::sym::sym_wf(crate::sym::SymbolView { name: m2, ..base }),
        m1 != m2,
    ensures
        member_symbol(base, m1) != member_symbol(base, m2),
{
    crate::sym::lemma_symbol_uniqueness(
        crate::sym::SymbolView { name: m1, ..base },
        crate::sym::SymbolView { name: m2, ..base },
    );
}

/// What one declared item becomes: a non-method is replaced by a
/// diagnostic; a method is normalized, and either bridged under its derived
/// symbol or replaced by the normalizer's diagnostic.
pub open spec fn method_outcome_of(
    crate_path: Seq<char>,
    proxy_ident: Seq<char>,
    base: crate::sym::SymbolView,
    item: TraitItemV,
) -> MethodOutcomeV {
    match item {
        TraitItemV::Other(_) => MethodOutcomeV::Rejected(Diagnostic::NotAMethod),
        TraitItemV::Method(s) => match crate::sig::verify_sig(s) {
            Err(e) => MethodOutcomeV::Rejected(Diagnostic::BadSignature(e)),
            Ok(v) => MethodOutcomeV::Bridged(
                consumer_stub_v(proxy_ident, member_symbol(base, v.ident), v),
                producer_def_v(crate_path, None, member_symbol(base, v.ident), v),
            ),
        },
    }
}

/// The outcomes of all declared items, in declaration order.
pub open spec fn methods_of(
    crate_path: Seq<char>,
    proxy_ident: Seq<char>,
    base: crate::sym::SymbolView,
    items: Seq<TraitItemV>,
) -> Seq<MethodOutcomeV> {
    Seq::new(items.len(), |i: int| method_outcome_of(crate_path, proxy_ident, base, items[i]))
}

/// Whether a supertrait bound may be considered by the capability relay: a
/// plain trait bound, without bound lifetimes, of exactly one unqualified
/// segment.
pub open spec fn eligible_bound(b: SuperBoundV) -> bool {
    b.is_trait && b.is_plain_modifier && !b.has_lifetimes && !b.leading_colon && b.segments.len()
        == 1
}

/// What one supertrait bound contributes: one relayed bridge where the
/// bound is eligible and the catalog recognizes it, nothing otherwise.
pub open spec fn bound_contrib(
    crate_path: Seq<char>,
    proxy_ident: Seq<char>,
    base: crate::sym::SymbolView,
    b: SuperBoundV,
) -> Seq<SuperImplV> {
    if eligible_bound(b) {
        match crate::caps::generate_impl_v(crate_path, proxy_ident, base, b.segments[0]) {
            Some(si) => seq![si],
            None => Seq::empty(),
        }
    } else {
        Seq::empty()
    }
}

/// The relayed bridges of all supertrait bounds, in declaration order.
pub open spec fn relay_bounds(
    crate_path: Seq<char>,
    proxy_ident: Seq<char>,
    base: crate::sym::SymbolView,
    bs: Seq<SuperBoundV>,
) -> Seq<SuperImplV>
    decreases bs,
{
    if bs.len() == 0 {
        Seq::empty()
    } else {
        relay_bounds(crate_path, proxy_ident, base, bs.drop_last()) + bound_contrib(
            crate_path,
            proxy_ident,
            base,
            bs.last(),
        )
    }
}

/// The whole expansion of a generics-free interface declaration.
pub open spec fn expand_v(
    crate_path: Seq<char>,
    proxy: ProxyV,
    input: TraitDeclV,
    base: crate::sym::SymbolView,
) -> ExpansionV {
    ExpansionV {
        proxy: proxy_def_v(proxy, crate_path),
        methods: methods_of(crate_path, proxy.ident, base, input.items),
        supers: relay_bounds(crate_path, proxy.ident, base, input.supertraits),
        drop_symbol: member_symbol(base, "drop"@),
        typeid_symbol: member_symbol(base, "typeid"@),
    }
}

/// Expands one interface declaration into its full bridge: rejects a
/// generic interface outright; otherwise derives the site's symbols, turns
/// every item into a bridged pair or a localized diagnostic, relays the
/// recognized capabilities, and attaches the destructor and type-identity
/// symbols.
/// Turns every declared item into its outcome, in declaration order.
fn bridge_items(crate_path: &str, proxy_ident: &str, sym: &crate::sym::Symbol, items: &Vec<TraitItem>) -> (r: Vec<MethodOutcome>)
    ensures
        outcomes_dv(r@) == methods_of(crate_path@, proxy_ident@, sym@, items_dv(items@)),
{
    proof {
        lemma_items_dv(items@);
    }
    let mut methods: Vec<MethodOutcome> = Vec::new();
    let mut i: usize = 0;
    while i < items.len()
        invariant
            i <= items@.len(),
            methods@.len() == i,
            items_dv(items@).len() == items@.len(),
            forall|j: int| 0 <= j < items@.len() ==> items_dv(items@)[j] == item_dv(items@[j]),
            forall|j: int|
                0 <= j < i ==> outcome_dv(methods@[j]) == method_outcome_of(
                    crate_path@,
                    proxy_ident@,
                    sym@,
                    items_dv(items@)[j],
                ),
        decreases items@.len() - i,
    {
        match &items[i] {
            TraitItem::Other(_) => {
                methods.push(MethodOutcome::Rejected(Diagnostic::NotAMethod));
            },
            TraitItem::Method(s) => {
                match VerifiedSignature::try_new(s) {
                    Err(e) => {
                        methods.push(MethodOutcome::Rejected(Diagnostic::BadSignature(e)));
                    },
                    Ok(vs) => {
                        let export = sym.with_name(vs.ident.as_str()).render();
                        let stub = generate_proxy_impl(proxy_ident, export.as_str(), &vs);
                        let prod = generate_producer(crate_path, None, export.as_str(), &vs);
                        methods.push(MethodOutcome::Bridged(stub, prod));
                    },
                }
            },
        }
        i = i + 1;
        proof {
            lemma_outcomes_dv(methods@);
        }
    }
    proof {
        lemma_outcomes_dv(methods@);
        assert(outcomes_dv(methods@) =~= methods_of(
            crate_path@,
            proxy_ident@,
            sym@,
            items_dv(items@),
        ));
    }
    methods
}

/// Relays the eligible, recognized supertrait bounds, in declaration order.
fn relay_supertraits(
    crate_path: &str,
    proxy_ident: &str,
    sym: &crate::sym::Symbol,
    bounds: &Vec<SuperBound>,
) -> (r: Vec<SuperImpl>)
    ensures
        super_impls_dv(r@) == relay_bounds(crate_path@, proxy_ident@, sym@, bounds_dv(bounds@)),
{
    proof {
        lemma_bounds_dv(bounds@);
    }
    let mut supers: Vec<SuperImpl> = Vec::new();
    let mut i2: usize = 0;
    while i2 < bounds.len()
        invariant
            i2 <= bounds@.len(),
            bounds_dv(bounds@).len() == bounds@.len(),
            forall|j: int| 0 <= j < bounds@.len() ==> bounds_dv(bounds@)[j] == bound_dv(bounds@[j]),
            super_impls_dv(supers@) == relay_bounds(
                crate_path@,
                proxy_ident@,
                sym@,
                bounds_dv(bounds@).take(i2 as int),
            ),
        decreases bounds@.len() - i2,
    {
        let b = &bounds[i2];
        let ghost bv = bound_dv(*b);
        let ghost prev = supers@;
        proof {
            crate::ty::lemma_segs_dv(b.segments@);
        }
        if b.is_trait && b.is_plain_modifier && !b.has_lifetimes && !b.leading_colon
            && b.segments.len() == 1 {
            proof {
                assert(eligible_bound(bv));
                assert(bv.segments[0] == crate::ty::seg_dv(b.segments@[0]));
            }
            match crate::caps::generate_impl(crate_path, &b.segments[0], proxy_ident, sym) {
                Some(si) => {
                    let ghost siv = super_impl_dv(si);
                    supers.push(si);
                    proof {
                        assert(bound_contrib(crate_path@, proxy_ident@, sym@, bv) =~= seq![siv]);
                    }
                },
                None => {
                    proof {
                        assert(bound_contrib(crate_path@, proxy_ident@, sym@, bv)
                            =~= Seq::<SuperImplV>::empty());
                    }
                },
            }
        } else {
            proof {
                assert(!eligible_bound(bv));
                assert(bound_contrib(crate_path@, proxy_ident@, sym@, bv)
                    =~= Seq::<SuperImplV>::empty());
            }
        }
        i2 = i2 + 1;
        proof {
            lemma_super_impls_dv(prev);
            lemma_super_impls_dv(supers@);
            let bs = bounds_dv(bounds@);
            assert(bs.take(i2 as int).drop_last() =~= bs.take(i2 - 1 as int));
            assert(bs.take(i2 as int).last() == bv);
            assert(super_impls_dv(supers@) =~= relay_bounds(
                crate_path@,
                proxy_ident@,
                sym@,
                bs.take(i2 as int),
            ));
        }
    }
    proof {
        assert(bounds_dv(bounds@).take(bounds@.len() as int) =~= bounds_dv(bounds@));
    }
    supers
}

/// Expands one interface declaration into its full bridge: rejects a
/// generic interface outright; otherwise derives the site's symbols, turns
/// every item into a bridged pair or a localized diagnostic, relays the
/// recognized capabilities, and attaches the destructor and type-identity
/// symbols.
pub fn expand(
    args: &DeclArgs,
    input: &TraitDecl,
    identity: &crate::sym::ModuleIdentity,
    call_site: &str,
) -> (r: Result<Expansion, DeclError>)
    ensures
        match r {
            Ok(e) => input.generics_n == 0 && expansion_dv(e) == expand_v(
                args.crate_path@,
                proxy_dv(args.proxy),
                trait_decl_dv(*input),
                crate::sym::base_symbol(input.ident@, *identity, call_site@),
            ),
            Err(err) => err == DeclError::TraitGenerics && input.generics_n > 0,
        },
{
    if input.generics_n > 0 {
        return Err(DeclError::TraitGenerics);
    }
    let sym = crate::sym::Symbol::new(input.ident.clone(), identity, call_site);
    let proxy = args.proxy.expand(args.crate_path.as_str());
    let methods = bridge_items(
        args.crate_path.as_str(),
        args.proxy.ident.as_str(),
        &sym,
        &input.items,
    );
    let supers = relay_supertraits(
        args.crate_path.as_str(),
        args.proxy.ident.as_str(),
        &sym,
        &input.supertraits,
    );
    let drop_symbol = sym.with_name("drop").render();
    let typeid_symbol = sym.with_name("typeid").render();
    Ok(Expansion { proxy, methods, supers, drop_symbol, typeid_symbol })
}

} // verus!
