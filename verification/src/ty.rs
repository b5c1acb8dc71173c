//! The model of type shapes the generator inspects.
//!
//! A bridged method signature may mention the implementing type itself (the
//! self-placeholder) only in three recognized shapes: by value, behind a raw
//! pointer, or behind a reference.  The generator must find every occurrence
//! of the placeholder — however deeply nested — so that unsupported shapes
//! are rejected rather than silently miscompiled, and must substitute a
//! concrete type for the recognized shapes when it emits the two halves of a
//! bridge.
//!
//! Each executable shape (`Type` and its parts) has a mathematical twin
//! (`TypeV` and its parts); the `..._dv` functions project the executable
//! values onto the twins, and every contract in the generator speaks of the
//! twins.

use vstd::prelude::*;
use vstd::string::StrSliceExecFns;

verus! {

/// A path segment: an identifier with its optional argument list.
pub struct PathSegment {
    pub ident: String,
    pub arguments: PathArgs,
}

/// The arguments of one path segment.
pub enum PathArgs {
    /// No argument list.
    Plain,
    /// Angle-bracketed arguments, `Seg<A, B>`.
    AngleBracketed(Vec<GenArg>),
    /// Parenthesized arguments, `Seg(A, B) -> C`.
    Parenthesized { inputs: Vec<Type>, output: Option<Box<Type>> },
}

/// One angle-bracketed argument.  Only type arguments can hide a
/// self-placeholder; lifetimes and const arguments are carried verbatim.
pub enum GenArg {
    Ty(Type),
    Other(String),
}

/// A path type: optional qualified self type, optional leading separator,
/// and the segments.
pub struct TypePath {
    pub leading_colon: bool,
    pub qself: Option<Box<Type>>,
    pub segments: Vec<PathSegment>,
}

/// The shapes of types the generator distinguishes.  Anything whose inside
/// the generator never inspects is carried as `Opaque` text.
pub enum Type {
    Path(TypePath),
    Ptr { is_mut: bool, elem: Box<Type> },
    Reference { lifetime: Option<String>, is_mut: bool, elem: Box<Type> },
    Tuple(Vec<Type>),
    Slice(Box<Type>),
    Array(Box<Type>),
    BareFn { inputs: Vec<Type>, output: Option<Box<Type>> },
    Paren(Box<Type>),
    Group(Box<Type>),
    /// The producer-side stand-in for the implementation type bound later.
    Hole,
    /// A capability template parameter, substituted before emission.
    Param(usize),
    Opaque(String),
}

/// The mathematical twin of [`PathSegment`].
pub struct PathSegV {
    pub ident: Seq<char>,
    pub arguments: PathArgsV,
}

/// The mathematical twin of [`PathArgs`].
pub enum PathArgsV {
    Plain,
    AngleBracketed(Seq<GenArgV>),
    Parenthesized { inputs: Seq<TypeV>, output: Option<Box<TypeV>> },
}

/// The mathematical twin of [`GenArg`].
pub enum GenArgV {
    Ty(TypeV),
    Other(Seq<char>),
}

/// The mathematical twin of [`TypePath`].
pub struct TypePathV {
    pub leading_colon: bool,
    pub qself: Option<Box<TypeV>>,
    pub segments: Seq<PathSegV>,
}

/// The mathematical twin of [`Type`].
pub enum TypeV {
    Path(TypePathV),
    Ptr { is_mut: bool, elem: Box<TypeV> },
    Reference { lifetime: Option<Seq<char>>, is_mut: bool, elem: Box<TypeV> },
    Tuple(Seq<TypeV>),
    Slice(Box<TypeV>),
    Array(Box<TypeV>),
    BareFn { inputs: Seq<TypeV>, output: Option<Box<TypeV>> },
    Paren(Box<TypeV>),
    Group(Box<TypeV>),
    Hole,
    Param(usize),
    Opaque(Seq<char>),
}

/// The view of an optional lifetime or other string.
pub open spec fn opt_str_dv(o: Option<String>) -> Option<Seq<char>> {
    match o {
        Some(s) => Some(s@),
        None => None,
    }
}

/// Projects a type onto its twin.
pub open spec fn type_dv(t: Type) -> TypeV
    decreases t,
{
    match t {
        Type::Path(p) => TypeV::Path(path_dv(p)),
        Type::Ptr { is_mut, elem } => TypeV::Ptr { is_mut, elem: Box::new(type_dv(*elem)) },
        Type::Reference { lifetime, is_mut, elem } => TypeV::Reference {
            lifetime: opt_str_dv(lifetime),
            is_mut,
            elem: Box::new(type_dv(*elem)),
        },
        Type::Tuple(elems) => TypeV::Tuple(seq_ty_dv(elems@)),
        Type::Slice(elem) => TypeV::Slice(Box::new(type_dv(*elem))),
        Type::Array(elem) => TypeV::Array(Box::new(type_dv(*elem))),
        Type::BareFn { inputs, output } => TypeV::BareFn {
            inputs: seq_ty_dv(inputs@),
            output: opt_ty_dv(output),
        },
        Type::Paren(elem) => TypeV::Paren(Box::new(type_dv(*elem))),
        Type::Group(elem) => TypeV::Group(Box::new(type_dv(*elem))),
        Type::Hole => TypeV::Hole,
        Type::Param(i) => TypeV::Param(i),
        Type::Opaque(s) => TypeV::Opaque(s@),
    }
}

/// Projects a list of types element by element.
pub open spec fn seq_ty_dv(ts: Seq<Type>) -> Seq<TypeV>
    decreases ts,
{
    if ts.len() == 0 {
        Seq::empty()
    } else {
        seq_ty_dv(ts.drop_last()).push(type_dv(ts.last()))
    }
}

/// Projects an optional boxed type.
pub open spec fn opt_ty_dv(o: Option<Box<Type>>) -> Option<Box<TypeV>>
    decreases o,
{
    match o {
        Some(t) => Some(Box::new(type_dv(*t))),
        None => None,
    }
}

/// Projects a path.
pub open spec fn path_dv(p: TypePath) -> TypePathV
    decreases p,
{
    TypePathV {
        leading_colon: p.leading_colon,
        qself: opt_ty_dv(p.qself),
        segments: segs_dv(p.segments@),
    }
}

/// Projects the segments of a path.
pub open spec fn segs_dv(ss: Seq<PathSegment>) -> Seq<PathSegV>
    decreases ss,
{
    if ss.len() == 0 {
        Seq::empty()
    } else {
        segs_dv(ss.drop_last()).push(seg_dv(ss.last()))
    }
}

/// Projects one path segment.
pub open spec fn seg_dv(s: PathSegment) -> PathSegV
    decreases s,
{
    PathSegV { ident: s.ident@, arguments: args_dv(s.arguments) }
}

/// Projects a segment's arguments.
pub open spec fn args_dv(a: PathArgs) -> PathArgsV
    decreases a,
{
    match a {
        PathArgs::Plain => PathArgsV::Plain,
        PathArgs::AngleBracketed(gs) => PathArgsV::AngleBracketed(gargs_dv(gs@)),
        PathArgs::Parenthesized { inputs, output } => PathArgsV::Parenthesized {
            inputs: seq_ty_dv(inputs@),
            output: opt_ty_dv(output),
        },
    }
}

/// Projects a list of angle-bracketed arguments.
pub open spec fn gargs_dv(gs: Seq<GenArg>) -> Seq<GenArgV>
    decreases gs,
{
    if gs.len() == 0 {
        Seq::empty()
    } else {
        gargs_dv(gs.drop_last()).push(garg_dv(gs.last()))
    }
}

/// Projects one angle-bracketed argument.
pub open spec fn garg_dv(g: GenArg) -> GenArgV
    decreases g,
{
    match g {
        GenArg::Ty(t) => GenArgV::Ty(type_dv(t)),
        GenArg::Other(s) => GenArgV::Other(s@),
    }
}

/// The projection of a list has the same length and projects element-wise.
pub proof fn lemma_seq_ty_dv(ts: Seq<Type>)
    ensures
        seq_ty_dv(ts).len() == ts.len(),
        forall|i: int| 0 <= i < ts.len() ==> seq_ty_dv(ts)[i] == type_dv(ts[i]),
    decreases ts,
{
    if ts.len() > 0 {
        lemma_seq_ty_dv(ts.drop_last());
    }
}

/// The projection of a segment list has the same length and projects
/// element-wise.
pub proof fn lemma_segs_dv(ss: Seq<PathSegment>)
    ensures
        segs_dv(ss).len() == ss.len(),
        forall|i: int| 0 <= i < ss.len() ==> segs_dv(ss)[i] == seg_dv(ss[i]),
    decreases ss,
{
    if ss.len() > 0 {
        lemma_segs_dv(ss.drop_last());
    }
}

/// The projection of an argument list has the same length and projects
/// element-wise.
pub proof fn lemma_gargs_dv(gs: Seq<GenArg>)
    ensures
        gargs_dv(gs).len() == gs.len(),
        forall|i: int| 0 <= i < gs.len() ==> gargs_dv(gs)[i] == garg_dv(gs[i]),
    decreases gs,
{
    if gs.len() > 0 {
        lemma_gargs_dv(gs.drop_last());
    }
}

/// The literal self-placeholder: a plain, unqualified, one-segment path
/// spelled `Self` with no arguments.
pub open spec fn is_self_path(t: TypeV) -> bool {
    match t {
        TypeV::Path(p) => !p.leading_colon && p.qself is None && p.segments.len() == 1
            && p.segments[0].ident == "Self"@ && p.segments[0].arguments is Plain,
        _ => false,
    }
}

/// Whether a self-placeholder occurs anywhere inside the type.
pub open spec fn contains_self(t: TypeV) -> bool
    decreases t,
{
    match t {
        TypeV::Path(p) => path_contains_self(p),
        TypeV::Ptr { elem, .. } => contains_self(*elem),
        TypeV::Reference { elem, .. } => contains_self(*elem),
        TypeV::Tuple(elems) => seq_contains_self(elems),
        TypeV::Slice(elem) => contains_self(*elem),
        TypeV::Array(elem) => contains_self(*elem),
        TypeV::BareFn { inputs, output } => seq_contains_self(inputs) || opt_contains_self(output),
        TypeV::Paren(elem) => contains_self(*elem),
        TypeV::Group(elem) => contains_self(*elem),
        TypeV::Hole => false,
        TypeV::Param(_) => false,
        TypeV::Opaque(_) => false,
    }
}

/// Whether a self-placeholder occurs in any element of the sequence.
pub open spec fn seq_contains_self(ts: Seq<TypeV>) -> bool
    decreases ts,
{
    if ts.len() == 0 {
        false
    } else {
        contains_self(ts[0]) || seq_contains_self(ts.drop_first())
    }
}

/// Whether a self-placeholder occurs in an optional boxed type.
pub open spec fn opt_contains_self(o: Option<Box<TypeV>>) -> bool
    decreases o,
{
    match o {
        Some(t) => contains_self(*t),
        None => false,
    }
}

/// Whether a self-placeholder occurs in the path: in its qualified self
/// type, as a segment spelled `Self`, or inside a segment's arguments.
pub open spec fn path_contains_self(p: TypePathV) -> bool
    decreases p,
{
    opt_contains_self(p.qself) || segs_contain_self(p.segments)
}

/// Whether a self-placeholder occurs in any path segment.
pub open spec fn segs_contain_self(ss: Seq<PathSegV>) -> bool
    decreases ss,
{
    if ss.len() == 0 {
        false
    } else {
        seg_contains_self(ss[0]) || segs_contain_self(ss.drop_first())
    }
}

/// Whether one path segment is, or mentions, the self-placeholder.
pub open spec fn seg_contains_self(s: PathSegV) -> bool
    decreases s,
{
    s.ident == "Self"@ || args_contain_self(s.arguments)
}

/// Whether a self-placeholder occurs in a segment's arguments.
pub open spec fn args_contain_self(a: PathArgsV) -> bool
    decreases a,
{
    match a {
        PathArgsV::Plain => false,
        PathArgsV::AngleBracketed(gs) => gargs_contain_self(gs),
        PathArgsV::Parenthesized { inputs, output } => seq_contains_self(inputs)
            || opt_contains_self(output),
    }
}

/// Whether a self-placeholder occurs in any angle-bracketed argument.
pub open spec fn gargs_contain_self(gs: Seq<GenArgV>) -> bool
    decreases gs,
{
    if gs.len() == 0 {
        false
    } else {
        garg_contains_self(gs[0]) || gargs_contain_self(gs.drop_first())
    }
}

/// Whether one angle-bracketed argument hides a self-placeholder.
pub open spec fn garg_contains_self(g: GenArgV) -> bool
    decreases g,
{
    match g {
        GenArgV::Ty(t) => contains_self(t),
        GenArgV::Other(_) => false,
    }
}

/// The sequence search is the disjunction over its elements.
pub proof fn lemma_seq_contains_self(ts: Seq<TypeV>)
    ensures
        seq_contains_self(ts) <==> exists|i: int| 0 <= i < ts.len() && contains_self(ts[i]),
    decreases ts,
{
    if ts.len() > 0 {
        lemma_seq_contains_self(ts.drop_first());
        if exists|i: int| 0 <= i < ts.len() && contains_self(ts[i]) {
            let i = choose|i: int| 0 <= i < ts.len() && contains_self(ts[i]);
            if i > 0 {
                assert(ts.drop_first()[i - 1] == ts[i]);
            }
        }
        assert forall|i: int| 0 <= i < ts.drop_first().len() implies ts.drop_first()[i] == ts[i
            + 1] by {}
    }
}

/// The segment search is the disjunction over the segments.
pub proof fn lemma_segs_contain_self(ss: Seq<PathSegV>)
    ensures
        segs_contain_self(ss) <==> exists|i: int| 0 <= i < ss.len() && seg_contains_self(ss[i]),
    decreases ss,
{
    if ss.len() > 0 {
        lemma_segs_contain_self(ss.drop_first());
        if exists|i: int| 0 <= i < ss.len() && seg_contains_self(ss[i]) {
            let i = choose|i: int| 0 <= i < ss.len() && seg_contains_self(ss[i]);
            if i > 0 {
                assert(ss.drop_first()[i - 1] == ss[i]);
            }
        }
        assert forall|i: int| 0 <= i < ss.drop_first().len() implies ss.drop_first()[i] == ss[i
            + 1] by {}
    }
}

/// The argument search is the disjunction over the arguments.
pub proof fn lemma_gargs_contain_self(gs: Seq<GenArgV>)
    ensures
        gargs_contain_self(gs) <==> exists|i: int| 0 <= i < gs.len() && garg_contains_self(gs[i]),
    decreases gs,
{
    if gs.len() > 0 {
        lemma_gargs_contain_self(gs.drop_first());
        if exists|i: int| 0 <= i < gs.len() && garg_contains_self(gs[i]) {
            let i = choose|i: int| 0 <= i < gs.len() && garg_contains_self(gs[i]);
            if i > 0 {
                assert(gs.drop_first()[i - 1] == gs[i]);
            }
        }
        assert forall|i: int| 0 <= i < gs.drop_first().len() implies gs.drop_first()[i] == gs[i
            + 1] by {}
    }
}

/// The three recognized shapes of a self-placeholder occurrence.
pub enum SelfKind {
    /// `Self` by value.
    Value,
    /// `*const Self` or `*mut Self`.
    Ptr { is_mut: bool },
    /// `&Self`, `&mut Self`, optionally with a lifetime.
    Ref { lifetime: Option<String>, is_mut: bool },
}

/// The mathematical twin of [`SelfKind`].
pub enum SelfKindV {
    Value,
    Ptr { is_mut: bool },
    Ref { lifetime: Option<Seq<char>>, is_mut: bool },
}

/// Projects a recognized shape onto its twin.
pub open spec fn self_kind_dv(k: SelfKind) -> SelfKindV {
    match k {
        SelfKind::Value => SelfKindV::Value,
        SelfKind::Ptr { is_mut } => SelfKindV::Ptr { is_mut },
        SelfKind::Ref { lifetime, is_mut } => SelfKindV::Ref {
            lifetime: opt_str_dv(lifetime),
            is_mut,
        },
    }
}

/// The shape of the whole type as a self-placeholder, if it has one of the
/// three recognized shapes.
pub open spec fn self_kind_of(t: TypeV) -> Option<SelfKindV> {
    if is_self_path(t) {
        Some(SelfKindV::Value)
    } else {
        match t {
            TypeV::Ptr { is_mut, elem } => if is_self_path(*elem) {
                Some(SelfKindV::Ptr { is_mut })
            } else {
                None
            },
            TypeV::Reference { lifetime, is_mut, elem } => if is_self_path(*elem) {
                Some(SelfKindV::Ref { lifetime, is_mut })
            } else {
                None
            },
            _ => None,
        }
    }
}

/// Rebuilds the recognized shape around a substituted element: by value the
/// element itself, otherwise the element behind the same pointer or
/// reference form.
pub open spec fn self_kind_apply(k: SelfKindV, elem: TypeV) -> TypeV {
    match k {
        SelfKindV::Value => elem,
        SelfKindV::Ptr { is_mut } => TypeV::Ptr { is_mut, elem: Box::new(elem) },
        SelfKindV::Ref { lifetime, is_mut } => TypeV::Reference {
            lifetime,
            is_mut,
            elem: Box::new(elem),
        },
    }
}

/// A recognized shape always contains the placeholder it abstracts.
pub proof fn lemma_self_kind_contains(t: TypeV)
    requires
        self_kind_of(t) is Some,
    ensures
        contains_self(t),
    decreases t,
{
    match t {
        TypeV::Path(p) => {
            assert(is_self_path(t));
            assert(seg_contains_self(p.segments[0]));
            assert(segs_contain_self(p.segments));
            assert(path_contains_self(p));
            assert(contains_self(t) == path_contains_self(p));
        }
        TypeV::Ptr { elem, .. } => {
            if !is_self_path(t) {
                lemma_self_kind_contains(*elem);
            }
        }
        TypeV::Reference { elem, .. } => {
            if !is_self_path(t) {
                lemma_self_kind_contains(*elem);
            }
        }
        _ => {}
    }
}

/// Character-by-character string equality, stated over the views.
pub fn str_eq(a: &str, b: &str) -> (r: bool)
    ensures
        r == (a@ == b@),
{
    let na = a.unicode_len();
    let nb = b.unicode_len();
    if na != nb {
        proof {
            assert(a@.len() != b@.len());
        }
        return false;
    }
    let mut i: usize = 0;
    while i < na
        invariant
            i <= na,
            na == a@.len(),
            na == b@.len(),
            forall|j: int| 0 <= j < i ==> a@[j] == b@[j],
        decreases na - i,
    {
        if a.get_char(i) != b.get_char(i) {
            return false;
        }
        i = i + 1;
    }
    proof {
        assert(a@ =~= b@);
    }
    true
}

/// Copies an optional string.
pub fn copy_opt_string(o: &Option<String>) -> (r: Option<String>)
    ensures
        r == *o,
{
    match o {
        Some(s) => Some(s.clone()),
        None => None,
    }
}

/// Self-placeholder inspection, as the generator calls it on a type.
pub trait TypeExt {
    /// The occurrence check the exec search must implement.
    spec fn spec_contains_self(&self) -> bool;

    /// The shape recognition the exec search must implement.
    spec fn spec_self_kind(&self) -> Option<SelfKindV>;

    /// Whether a self-placeholder occurs anywhere inside.
    fn contains_self(&self) -> (r: bool)
        ensures
            r == self.spec_contains_self(),
    ;

    /// The recognized shape of the whole type, if any.
    fn self_kind(&self) -> (r: Option<SelfKind>)
        ensures
            match r {
                Some(k) => self.spec_self_kind() == Some(self_kind_dv(k)),
                None => self.spec_self_kind() is None,
            },
    ;
}

impl TypeExt for Type {
    open spec fn spec_contains_self(&self) -> bool {
        contains_self(type_dv(*self))
    }

    open spec fn spec_self_kind(&self) -> Option<SelfKindV> {
        self_kind_of(type_dv(*self))
    }

    fn contains_self(&self) -> (r: bool) {
        contains_self_ty(self)
    }

    fn self_kind(&self) -> (r: Option<SelfKind>) {
        if is_self_path_x(self) {
            Some(SelfKind::Value)
        } else {
            match self {
                Type::Ptr { is_mut, elem } => {
                    if is_self_path_x(elem) {
                        Some(SelfKind::Ptr { is_mut: *is_mut })
                    } else {
                        None
                    }
                },
                Type::Reference { lifetime, is_mut, elem } => {
                    if is_self_path_x(elem) {
                        Some(
                            SelfKind::Ref {
                                lifetime: copy_opt_string(lifetime),
                                is_mut: *is_mut,
                            },
                        )
                    } else {
                        None
                    }
                },
                _ => None,
            }
        }
    }
}

/// Whether the type is the literal self-placeholder path.
fn is_self_path_x(t: &Type) -> (r: bool)
    ensures
        r == is_self_path(type_dv(*t)),
{
    match t {
        Type::Path(p) => {
            proof {
                assert(*t == Type::Path(*p));
                assert(type_dv(*t) == TypeV::Path(path_dv(*p)));
                lemma_segs_dv(p.segments@);
            }
            if p.leading_colon {
                return false;
            }
            if p.qself.is_some() {
                return false;
            }
            if p.segments.len() != 1 {
                return false;
            }
            let seg = &p.segments[0];
            match &seg.arguments {
                PathArgs::Plain => str_eq(seg.ident.as_str(), "Self"),
                _ => false,
            }
        },
        _ => false,
    }
}

/// The exec search for a self-placeholder inside a type.
fn contains_self_ty(t: &Type) -> (r: bool)
    ensures
        r == contains_self(type_dv(*t)),
    decreases *t,
{
    match t {
        Type::Path(p) => contains_self_path(p),
        Type::Ptr { elem, .. } => contains_self_ty(elem),
        Type::Reference { elem, .. } => contains_self_ty(elem),
        Type::Tuple(elems) => contains_self_vec(elems),
        Type::Slice(elem) => contains_self_ty(elem),
        Type::Array(elem) => contains_self_ty(elem),
        Type::BareFn { inputs, output } => contains_self_vec(inputs) || contains_self_opt(output),
        Type::Paren(elem) => contains_self_ty(elem),
        Type::Group(elem) => contains_self_ty(elem),
        Type::Hole => false,
        Type::Param(_) => false,
        Type::Opaque(_) => false,
    }
}

/// The exec search over a list of types.
fn contains_self_vec(ts: &Vec<Type>) -> (r: bool)
    ensures
        r == seq_contains_self(seq_ty_dv(ts@)),
    decreases ts@,
{
    proof {
        lemma_seq_ty_dv(ts@);
    }
    let mut i: usize = 0;
    while i < ts.len()
        invariant
            i <= ts@.len(),
            seq_ty_dv(ts@).len() == ts@.len(),
            forall|j: int| 0 <= j < ts@.len() ==> seq_ty_dv(ts@)[j] == type_dv(ts@[j]),
            forall|j: int| 0 <= j < i ==> !contains_self(seq_ty_dv(ts@)[j]),
        decreases ts@.len() - i,
    {
        if contains_self_ty(&ts[i]) {
            proof {
                assert(contains_self(seq_ty_dv(ts@)[i as int]));
                lemma_seq_contains_self(seq_ty_dv(ts@));
            }
            return true;
        }
        i = i + 1;
    }
    proof {
        lemma_seq_contains_self(seq_ty_dv(ts@));
    }
    false
}

/// The exec search in an optional boxed type.
fn contains_self_opt(o: &Option<Box<Type>>) -> (r: bool)
    ensures
        r == opt_contains_self(opt_ty_dv(*o)),
    decreases *o,
{
    match o {
        Some(t) => contains_self_ty(t),
        None => false,
    }
}

/// The exec search inside a path.
#[verifier::rlimit(50)]
fn contains_self_path(p: &TypePath) -> (r: bool)
    ensures
        r == path_contains_self(path_dv(*p)),
    decreases *p,
{
    proof {
        lemma_segs_dv(p.segments@);
    }
    if contains_self_opt(&p.qself) {
        return true;
    }
    let mut i: usize = 0;
    while i < p.segments.len()
        invariant
            i <= p.segments@.len(),
            segs_dv(p.segments@).len() == p.segments@.len(),
            forall|j: int| 0 <= j < p.segments@.len() ==> segs_dv(p.segments@)[j] == seg_dv(
                p.segments@[j],
            ),
            forall|j: int| 0 <= j < i ==> !seg_contains_self(segs_dv(p.segments@)[j]),
        decreases p.segments@.len() - i,
    {
        if contains_self_seg(&p.segments[i]) {
            proof {
                assert(seg_contains_self(segs_dv(p.segments@)[i as int]));
                lemma_segs_contain_self(segs_dv(p.segments@));
            }
            return true;
        }
        i = i + 1;
    }
    proof {
        lemma_segs_contain_self(segs_dv(p.segments@));
    }
    false
}

/// The exec search in one path segment.
fn contains_self_seg(s: &PathSegment) -> (r: bool)
    ensures
        r == seg_contains_self(seg_dv(*s)),
    decreases *s,
{
    if str_eq(s.ident.as_str(), "Self") {
        return true;
    }
    contains_self_args(&s.arguments)
}

/// The exec search in a segment's arguments.
#[verifier::rlimit(50)]
fn contains_self_args(a: &PathArgs) -> (r: bool)
    ensures
        r == args_contain_self(args_dv(*a)),
    decreases *a,
{
    match a {
        PathArgs::Plain => false,
        PathArgs::AngleBracketed(gs) => {
            proof {
                assert(*a == PathArgs::AngleBracketed(*gs));
                lemma_gargs_dv(gs@);
            }
            let mut i: usize = 0;
            while i < gs.len()
                invariant
                    *a == PathArgs::AngleBracketed(*gs),
                    i <= gs@.len(),
                    gargs_dv(gs@).len() == gs@.len(),
                    forall|j: int| 0 <= j < gs@.len() ==> gargs_dv(gs@)[j] == garg_dv(gs@[j]),
                    forall|j: int| 0 <= j < i ==> !garg_contains_self(gargs_dv(gs@)[j]),
                decreases gs@.len() - i,
            {
                proof {
                    assert(decreases_to!(*a => a->AngleBracketed_0));
                    assert(a->AngleBracketed_0 == *gs);
                    assert(decreases_to!(*gs => gs@));
                    assert(decreases_to!(gs@ => gs@[i as int]));
                    assert(decreases_to!(*a => gs@[i as int]));
                }
                if contains_self_garg(&gs[i]) {
                    proof {
                        assert(garg_contains_self(gargs_dv(gs@)[i as int]));
                        lemma_gargs_contain_self(gargs_dv(gs@));
                    }
                    return true;
                }
                i = i + 1;
            }
            proof {
                lemma_gargs_contain_self(gargs_dv(gs@));
            }
            false
        },
        PathArgs::Parenthesized { inputs, output } => contains_self_vec(inputs)
            || contains_self_opt(output),
    }
}

/// The exec search in one angle-bracketed argument.
fn contains_self_garg(g: &GenArg) -> (r: bool)
    ensures
        r == garg_contains_self(garg_dv(*g)),
    decreases *g,
{
    match g {
        GenArg::Ty(t) => contains_self_ty(t),
        GenArg::Other(_) => false,
    }
}

impl SelfKind {
    /// Substitutes a concrete type for the placeholder under this shape:
    /// the type itself by value, or behind the same pointer or reference.
    pub fn into_type_for(&self, elem: Type) -> (r: Type)
        ensures
            type_dv(r) == self_kind_apply(self_kind_dv(*self), type_dv(elem)),
    {
        match self {
            SelfKind::Value => elem,
            SelfKind::Ptr { is_mut } => Type::Ptr { is_mut: *is_mut, elem: Box::new(elem) },
            SelfKind::Ref { lifetime, is_mut } => Type::Reference {
                lifetime: copy_opt_string(lifetime),
                is_mut: *is_mut,
                elem: Box::new(elem),
            },
        }
    }

    /// Copies the shape tag itself.
    pub fn duplicate(&self) -> (r: SelfKind)
        ensures
            r == *self,
    {
        match self {
            SelfKind::Value => SelfKind::Value,
            SelfKind::Ptr { is_mut } => SelfKind::Ptr { is_mut: *is_mut },
            SelfKind::Ref { lifetime, is_mut } => SelfKind::Ref {
                lifetime: copy_opt_string(lifetime),
                is_mut: *is_mut,
            },
        }
    }
}

/// Substitutes the capability template parameters: `Param(i)` becomes the
/// i-th argument; everything else is rebuilt unchanged.
pub open spec fn subst_param(t: TypeV, args: Seq<TypeV>) -> TypeV
    decreases t,
{
    match t {
        TypeV::Path(p) => TypeV::Path(subst_param_path(p, args)),
        TypeV::Ptr { is_mut, elem } => TypeV::Ptr {
            is_mut,
            elem: Box::new(subst_param(*elem, args)),
        },
        TypeV::Reference { lifetime, is_mut, elem } => TypeV::Reference {
            lifetime,
            is_mut,
            elem: Box::new(subst_param(*elem, args)),
        },
        TypeV::Tuple(elems) => TypeV::Tuple(subst_param_seq(elems, args)),
        TypeV::Slice(elem) => TypeV::Slice(Box::new(subst_param(*elem, args))),
        TypeV::Array(elem) => TypeV::Array(Box::new(subst_param(*elem, args))),
        TypeV::BareFn { inputs, output } => TypeV::BareFn {
            inputs: subst_param_seq(inputs, args),
            output: subst_param_opt(output, args),
        },
        TypeV::Paren(elem) => TypeV::Paren(Box::new(subst_param(*elem, args))),
        TypeV::Group(elem) => TypeV::Group(Box::new(subst_param(*elem, args))),
        TypeV::Hole => TypeV::Hole,
        TypeV::Param(i) => if i < args.len() {
            args[i as int]
        } else {
            TypeV::Param(i)
        },
        TypeV::Opaque(s) => TypeV::Opaque(s),
    }
}

/// Substitution over a list of types.
pub open spec fn subst_param_seq(ts: Seq<TypeV>, args: Seq<TypeV>) -> Seq<TypeV>
    decreases ts,
{
    if ts.len() == 0 {
        Seq::empty()
    } else {
        subst_param_seq(ts.drop_last(), args).push(subst_param(ts.last(), args))
    }
}

/// Substitution in an optional boxed type.
pub open spec fn subst_param_opt(o: Option<Box<TypeV>>, args: Seq<TypeV>) -> Option<Box<TypeV>>
    decreases o,
{
    match o {
        Some(t) => Some(Box::new(subst_param(*t, args))),
        None => None,
    }
}

/// Substitution inside a path.
pub open spec fn subst_param_path(p: TypePathV, args: Seq<TypeV>) -> TypePathV
    decreases p,
{
    TypePathV {
        leading_colon: p.leading_colon,
        qself: subst_param_opt(p.qself, args),
        segments: subst_param_segs(p.segments, args),
    }
}

/// Substitution over path segments.
pub open spec fn subst_param_segs(ss: Seq<PathSegV>, args: Seq<TypeV>) -> Seq<PathSegV>
    decreases ss,
{
    if ss.len() == 0 {
        Seq::empty()
    } else {
        subst_param_segs(ss.drop_last(), args).push(subst_param_seg(ss.last(), args))
    }
}

/// Substitution in one path segment.
pub open spec fn subst_param_seg(s: PathSegV, args: Seq<TypeV>) -> PathSegV
    decreases s,
{
    PathSegV { ident: s.ident, arguments: subst_param_args(s.arguments, args) }
}

/// Substitution in a segment's arguments.
pub open spec fn subst_param_args(a: PathArgsV, args: Seq<TypeV>) -> PathArgsV
    decreases a,
{
    match a {
        PathArgsV::Plain => PathArgsV::Plain,
        PathArgsV::AngleBracketed(gs) => PathArgsV::AngleBracketed(subst_param_gargs(gs, args)),
        PathArgsV::Parenthesized { inputs, output } => PathArgsV::Parenthesized {
            inputs: subst_param_seq(inputs, args),
            output: subst_param_opt(output, args),
        },
    }
}

/// Substitution over angle-bracketed arguments.
pub open spec fn subst_param_gargs(gs: Seq<GenArgV>, args: Seq<TypeV>) -> Seq<GenArgV>
    decreases gs,
{
    if gs.len() == 0 {
        Seq::empty()
    } else {
        subst_param_gargs(gs.drop_last(), args).push(subst_param_garg(gs.last(), args))
    }
}

/// Substitution in one angle-bracketed argument.
pub open spec fn subst_param_garg(g: GenArgV, args: Seq<TypeV>) -> GenArgV
    decreases g,
{
    match g {
        GenArgV::Ty(t) => GenArgV::Ty(subst_param(t, args)),
        GenArgV::Other(s) => GenArgV::Other(s),
    }
}

/// Substitution over a list projects element-wise.
pub proof fn lemma_subst_param_seq(ts: Seq<TypeV>, args: Seq<TypeV>)
    ensures
        subst_param_seq(ts, args).len() == ts.len(),
        forall|i: int|
            0 <= i < ts.len() ==> subst_param_seq(ts, args)[i] == subst_param(ts[i], args),
    decreases ts,
{
    if ts.len() > 0 {
        lemma_subst_param_seq(ts.drop_last(), args);
    }
}

/// Substitution over segments projects element-wise.
pub proof fn lemma_subst_param_segs(ss: Seq<PathSegV>, args: Seq<TypeV>)
    ensures
        subst_param_segs(ss, args).len() == ss.len(),
        forall|i: int|
            0 <= i < ss.len() ==> subst_param_segs(ss, args)[i] == subst_param_seg(ss[i], args),
    decreases ss,
{
    if ss.len() > 0 {
        lemma_subst_param_segs(ss.drop_last(), args);
    }
}

/// Substitution over angle-bracketed arguments projects element-wise.
pub proof fn lemma_subst_param_gargs(gs: Seq<GenArgV>, args: Seq<TypeV>)
    ensures
        subst_param_gargs(gs, args).len() == gs.len(),
        forall|i: int|
            0 <= i < gs.len() ==> subst_param_gargs(gs, args)[i] == subst_param_garg(gs[i], args),
    decreases gs,
{
    if gs.len() > 0 {
        lemma_subst_param_gargs(gs.drop_last(), args);
    }
}

/// Copies a type; the copy projects onto the same twin.
pub fn copy_type(t: &Type) -> (r: Type)
    ensures
        type_dv(r) == type_dv(*t),
    decreases *t,
{
    match t {
        Type::Path(p) => Type::Path(copy_path(p)),
        Type::Ptr { is_mut, elem } => Type::Ptr {
            is_mut: *is_mut,
            elem: Box::new(copy_type(elem)),
        },
        Type::Reference { lifetime, is_mut, elem } => Type::Reference {
            lifetime: copy_opt_string(lifetime),
            is_mut: *is_mut,
            elem: Box::new(copy_type(elem)),
        },
        Type::Tuple(elems) => Type::Tuple(copy_ty_vec(elems)),
        Type::Slice(elem) => Type::Slice(Box::new(copy_type(elem))),
        Type::Array(elem) => Type::Array(Box::new(copy_type(elem))),
        Type::BareFn { inputs, output } => Type::BareFn {
            inputs: copy_ty_vec(inputs),
            output: copy_opt_ty(output),
        },
        Type::Paren(elem) => Type::Paren(Box::new(copy_type(elem))),
        Type::Group(elem) => Type::Group(Box::new(copy_type(elem))),
        Type::Hole => Type::Hole,
        Type::Param(i) => Type::Param(*i),
        Type::Opaque(s) => Type::Opaque(s.clone()),
    }
}

/// Copies a list of types.
fn copy_ty_vec(ts: &Vec<Type>) -> (r: Vec<Type>)
    ensures
        seq_ty_dv(r@) == seq_ty_dv(ts@),
    decreases ts@,
{
    let mut out: Vec<Type> = Vec::new();
    let mut i: usize = 0;
    while i < ts.len()
        invariant
            i <= ts@.len(),
            out@.len() == i,
            forall|j: int| 0 <= j < i ==> type_dv(out@[j]) == type_dv(ts@[j]),
        decreases ts@.len() - i,
    {
        out.push(copy_type(&ts[i]));
        i = i + 1;
    }
    proof {
        lemma_seq_ty_dv(out@);
        lemma_seq_ty_dv(ts@);
        assert(seq_ty_dv(out@) =~= seq_ty_dv(ts@));
    }
    out
}

/// Copies an optional boxed type.
fn copy_opt_ty(o: &Option<Box<Type>>) -> (r: Option<Box<Type>>)
    ensures
        opt_ty_dv(r) == opt_ty_dv(*o),
    decreases *o,
{
    match o {
        Some(t) => Some(Box::new(copy_type(t))),
        None => None,
    }
}

/// Copies a path.
fn copy_path(p: &TypePath) -> (r: TypePath)
    ensures
        path_dv(r) == path_dv(*p),
    decreases *p,
{
    let segments = copy_segs(&p.segments);
    TypePath { leading_colon: p.leading_colon, qself: copy_opt_ty(&p.qself), segments }
}

/// Copies path segments.
pub fn copy_segs(ss: &Vec<PathSegment>) -> (r: Vec<PathSegment>)
    ensures
        segs_dv(r@) == segs_dv(ss@),
    decreases ss@,
{
    let mut out: Vec<PathSegment> = Vec::new();
    let mut i: usize = 0;
    while i < ss.len()
        invariant
            i <= ss@.len(),
            out@.len() == i,
            forall|j: int| 0 <= j < i ==> seg_dv(out@[j]) == seg_dv(ss@[j]),
        decreases ss@.len() - i,
    {
        out.push(copy_seg(&ss[i]));
        i = i + 1;
    }
    proof {
        lemma_segs_dv(out@);
        lemma_segs_dv(ss@);
        assert(segs_dv(out@) =~= segs_dv(ss@));
    }
    out
}

/// Copies one path segment.
pub fn copy_seg(s: &PathSegment) -> (r: PathSegment)
    ensures
        seg_dv(r) == seg_dv(*s),
    decreases *s,
{
    PathSegment { ident: s.ident.clone(), arguments: copy_args(&s.arguments) }
}

/// Copies a segment's arguments.
fn copy_args(a: &PathArgs) -> (r: PathArgs)
    ensures
        args_dv(r) == args_dv(*a),
    decreases *a,
{
    match a {
        PathArgs::Plain => PathArgs::Plain,
        PathArgs::AngleBracketed(gs) => {
            proof {
                assert(*a == PathArgs::AngleBracketed(*gs));
            }
            let mut out: Vec<GenArg> = Vec::new();
            let mut i: usize = 0;
            while i < gs.len()
                invariant
                    *a == PathArgs::AngleBracketed(*gs),
                    i <= gs@.len(),
                    out@.len() == i,
                    forall|j: int| 0 <= j < i ==> garg_dv(out@[j]) == garg_dv(gs@[j]),
                decreases gs@.len() - i,
            {
                proof {
                    assert(decreases_to!(*a => a->AngleBracketed_0));
                    assert(a->AngleBracketed_0 == *gs);
                    assert(decreases_to!(*gs => gs@));
                    assert(decreases_to!(gs@ => gs@[i as int]));
                    assert(decreases_to!(*a => gs@[i as int]));
                }
                out.push(copy_garg(&gs[i]));
                i = i + 1;
            }
            proof {
                lemma_gargs_dv(out@);
                lemma_gargs_dv(gs@);
                assert(gargs_dv(out@) =~= gargs_dv(gs@));
            }
            PathArgs::AngleBracketed(out)
        },
        PathArgs::Parenthesized { inputs, output } => PathArgs::Parenthesized {
            inputs: copy_ty_vec(inputs),
            output: copy_opt_ty(output),
        },
    }
}

/// Copies one angle-bracketed argument.
fn copy_garg(g: &GenArg) -> (r: GenArg)
    ensures
        garg_dv(r) == garg_dv(*g),
    decreases *g,
{
    match g {
        GenArg::Ty(t) => GenArg::Ty(copy_type(t)),
        GenArg::Other(s) => GenArg::Other(s.clone()),
    }
}

/// Substitutes the capability template parameters in a type.
pub fn subst_param_ty(t: &Type, args: &Vec<Type>) -> (r: Type)
    ensures
        type_dv(r) == subst_param(type_dv(*t), seq_ty_dv(args@)),
    decreases *t,
{
    proof {
        lemma_seq_ty_dv(args@);
    }
    match t {
        Type::Path(p) => Type::Path(subst_param_path_x(p, args)),
        Type::Ptr { is_mut, elem } => Type::Ptr {
            is_mut: *is_mut,
            elem: Box::new(subst_param_ty(elem, args)),
        },
        Type::Reference { lifetime, is_mut, elem } => Type::Reference {
            lifetime: copy_opt_string(lifetime),
            is_mut: *is_mut,
            elem: Box::new(subst_param_ty(elem, args)),
        },
        Type::Tuple(elems) => Type::Tuple(subst_param_vec(elems, args)),
        Type::Slice(elem) => Type::Slice(Box::new(subst_param_ty(elem, args))),
        Type::Array(elem) => Type::Array(Box::new(subst_param_ty(elem, args))),
        Type::BareFn { inputs, output } => Type::BareFn {
            inputs: subst_param_vec(inputs, args),
            output: subst_param_opt_x(output, args),
        },
        Type::Paren(elem) => Type::Paren(Box::new(subst_param_ty(elem, args))),
        Type::Group(elem) => Type::Group(Box::new(subst_param_ty(elem, args))),
        Type::Hole => Type::Hole,
        Type::Param(i) => {
            if *i < args.len() {
                copy_type(&args[*i])
            } else {
                Type::Param(*i)
            }
        },
        Type::Opaque(s) => Type::Opaque(s.clone()),
    }
}

/// Substitutes in a list of types.
fn subst_param_vec(ts: &Vec<Type>, args: &Vec<Type>) -> (r: Vec<Type>)
    ensures
        seq_ty_dv(r@) == subst_param_seq(seq_ty_dv(ts@), seq_ty_dv(args@)),
    decreases ts@,
{
    let mut out: Vec<Type> = Vec::new();
    let mut i: usize = 0;
    while i < ts.len()
        invariant
            i <= ts@.len(),
            out@.len() == i,
            forall|j: int|
                0 <= j < i ==> type_dv(out@[j]) == subst_param(
                    type_dv(ts@[j]),
                    seq_ty_dv(args@),
                ),
        decreases ts@.len() - i,
    {
        out.push(subst_param_ty(&ts[i], args));
        i = i + 1;
    }
    proof {
        lemma_seq_ty_dv(out@);
        lemma_seq_ty_dv(ts@);
        lemma_subst_param_seq(seq_ty_dv(ts@), seq_ty_dv(args@));
        assert(seq_ty_dv(out@) =~= subst_param_seq(seq_ty_dv(ts@), seq_ty_dv(args@)));
    }
    out
}

/// Substitutes in an optional boxed type.
fn subst_param_opt_x(o: &Option<Box<Type>>, args: &Vec<Type>) -> (r: Option<Box<Type>>)
    ensures
        opt_ty_dv(r) == subst_param_opt(opt_ty_dv(*o), seq_ty_dv(args@)),
    decreases *o,
{
    match o {
        Some(t) => Some(Box::new(subst_param_ty(t, args))),
        None => None,
    }
}

/// Substitutes inside a path.
fn subst_param_path_x(p: &TypePath, args: &Vec<Type>) -> (r: TypePath)
    ensures
        path_dv(r) == subst_param_path(path_dv(*p), seq_ty_dv(args@)),
    decreases *p,
{
    let qself = subst_param_opt_x(&p.qself, args);
    let mut out: Vec<PathSegment> = Vec::new();
    let mut i: usize = 0;
    while i < p.segments.len()
        invariant
            i <= p.segments@.len(),
            out@.len() == i,
            forall|j: int|
                0 <= j < i ==> seg_dv(out@[j]) == subst_param_seg(
                    seg_dv(p.segments@[j]),
                    seq_ty_dv(args@),
                ),
        decreases p.segments@.len() - i,
    {
        out.push(subst_param_seg_x(&p.segments[i], args));
        i = i + 1;
    }
    proof {
        lemma_segs_dv(out@);
        lemma_segs_dv(p.segments@);
        lemma_subst_param_segs(segs_dv(p.segments@), seq_ty_dv(args@));
        assert(segs_dv(out@) =~= subst_param_segs(segs_dv(p.segments@), seq_ty_dv(args@)));
    }
    TypePath { leading_colon: p.leading_colon, qself, segments: out }
}

/// Substitutes in one path segment.
fn subst_param_seg_x(s: &PathSegment, args: &Vec<Type>) -> (r: PathSegment)
    ensures
        seg_dv(r) == subst_param_seg(seg_dv(*s), seq_ty_dv(args@)),
    decreases *s,
{
    PathSegment { ident: s.ident.clone(), arguments: subst_param_args_x(&s.arguments, args) }
}

/// Substitutes in a segment's arguments.
fn subst_param_args_x(a: &PathArgs, args: &Vec<Type>) -> (r: PathArgs)
    ensures
        args_dv(r) == subst_param_args(args_dv(*a), seq_ty_dv(args@)),
    decreases *a,
{
    match a {
        PathArgs::Plain => PathArgs::Plain,
        PathArgs::AngleBracketed(gs) => {
            proof {
                assert(*a == PathArgs::AngleBracketed(*gs));
            }
            let mut out: Vec<GenArg> = Vec::new();
            let mut i: usize = 0;
            while i < gs.len()
                invariant
                    *a == PathArgs::AngleBracketed(*gs),
                    i <= gs@.len(),
                    out@.len() == i,
                    forall|j: int|
                        0 <= j < i ==> garg_dv(out@[j]) == subst_param_garg(
                            garg_dv(gs@[j]),
                            seq_ty_dv(args@),
                        ),
                decreases gs@.len() - i,
            {
                proof {
                    assert(decreases_to!(*a => a->AngleBracketed_0));
                    assert(a->AngleBracketed_0 == *gs);
                    assert(decreases_to!(*gs => gs@));
                    assert(decreases_to!(gs@ => gs@[i as int]));
                    assert(decreases_to!(*a => gs@[i as int]));
                }
                out.push(subst_param_garg_x(&gs[i], args));
                i = i + 1;
            }
            proof {
                lemma_gargs_dv(out@);
                lemma_gargs_dv(gs@);
                lemma_subst_param_gargs(gargs_dv(gs@), seq_ty_dv(args@));
                assert(gargs_dv(out@) =~= subst_param_gargs(gargs_dv(gs@), seq_ty_dv(args@)));
            }
            PathArgs::AngleBracketed(out)
        },
        PathArgs::Parenthesized { inputs, output } => PathArgs::Parenthesized {
            inputs: subst_param_vec(inputs, args),
            output: subst_param_opt_x(output, args),
        },
    }
}

/// Substitutes in one angle-bracketed argument.
fn subst_param_garg_x(g: &GenArg, args: &Vec<Type>) -> (r: GenArg)
    ensures
        garg_dv(r) == subst_param_garg(garg_dv(*g), seq_ty_dv(args@)),
    decreases *g,
{
    match g {
        GenArg::Ty(t) => GenArg::Ty(subst_param_ty(t, args)),
        GenArg::Other(s) => GenArg::Other(s.clone()),
    }
}

/// The decimal rendering of a number, most significant digit first.
pub open spec fn dec_chars(n: nat) -> Seq<char>
    decreases n,
{
    if n < 10 {
        seq![crate::sym::hex_digit(n as u64)]
    } else {
        dec_chars(n / 10) + seq![crate::sym::hex_digit((n % 10) as u64)]
    }
}

/// The compact textual label of a type, used to qualify the member names of
/// relayed capabilities inside derived symbols.
pub open spec fn type_label(t: TypeV) -> Seq<char>
    decreases t,
{
    match t {
        TypeV::Path(p) => path_label(p),
        TypeV::Ptr { is_mut, elem } => (if is_mut {
            seq!['*', 'm', 'u', 't', ' ']
        } else {
            seq!['*', 'c', 'o', 'n', 's', 't', ' ']
        }) + type_label(*elem),
        TypeV::Reference { lifetime, is_mut, elem } => seq!['&'] + (match lifetime {
            Some(lt) => lt + seq![' '],
            None => Seq::empty(),
        }) + (if is_mut {
            seq!['m', 'u', 't', ' ']
        } else {
            Seq::empty()
        }) + type_label(*elem),
        TypeV::Tuple(elems) => seq!['('] + seq_label(elems) + seq![')'],
        TypeV::Slice(elem) => seq!['['] + type_label(*elem) + seq![']'],
        TypeV::Array(elem) => seq!['['] + type_label(*elem) + seq![';', ' ', '_', ']'],
        TypeV::BareFn { inputs, output } => seq!['f', 'n', '('] + seq_label(inputs) + seq![')']
            + (match output {
            Some(o) => seq![' ', '-', '>', ' '] + type_label(*o),
            None => Seq::empty(),
        }),
        TypeV::Paren(elem) => seq!['('] + type_label(*elem) + seq![')'],
        TypeV::Group(elem) => type_label(*elem),
        TypeV::Hole => seq!['$', 'i', 'm', 'p', 'l'],
        TypeV::Param(i) => seq!['$'] + dec_chars(i as nat),
        TypeV::Opaque(s) => s,
    }
}

/// The comma-joined labels of a list of types.
pub open spec fn seq_label(ts: Seq<TypeV>) -> Seq<char>
    decreases ts,
{
    if ts.len() == 0 {
        Seq::empty()
    } else if ts.len() == 1 {
        type_label(ts.last())
    } else {
        seq_label(ts.drop_last()) + seq![','] + type_label(ts.last())
    }
}

/// The label of a path: leading separator, qualified self type, then the
/// `::`-joined segments.
pub open spec fn path_label(p: TypePathV) -> Seq<char>
    decreases p,
{
    (if p.leading_colon {
        seq![':', ':']
    } else {
        Seq::empty()
    }) + (match p.qself {
        Some(q) => seq!['<'] + type_label(*q) + seq!['>', ':', ':'],
        None => Seq::empty(),
    }) + segs_label(p.segments)
}

/// The `::`-joined labels of path segments.
pub open spec fn segs_label(ss: Seq<PathSegV>) -> Seq<char>
    decreases ss,
{
    if ss.len() == 0 {
        Seq::empty()
    } else if ss.len() == 1 {
        seg_label(ss.last())
    } else {
        segs_label(ss.drop_last()) + seq![':', ':'] + seg_label(ss.last())
    }
}

/// The label of one path segment.
pub open spec fn seg_label(s: PathSegV) -> Seq<char>
    decreases s,
{
    s.ident + args_label(s.arguments)
}

/// The label of a segment's arguments.
pub open spec fn args_label(a: PathArgsV) -> Seq<char>
    decreases a,
{
    match a {
        PathArgsV::Plain => Seq::empty(),
        PathArgsV::AngleBracketed(gs) => seq!['<'] + gargs_label(gs) + seq!['>'],
        PathArgsV::Parenthesized { inputs, output } => seq!['('] + seq_label(inputs) + seq![')']
            + (match output {
            Some(o) => seq![' ', '-', '>', ' '] + type_label(*o),
            None => Seq::empty(),
        }),
    }
}

/// The comma-joined labels of angle-bracketed arguments.
pub open spec fn gargs_label(gs: Seq<GenArgV>) -> Seq<char>
    decreases gs,
{
    if gs.len() == 0 {
        Seq::empty()
    } else if gs.len() == 1 {
        garg_label(gs.last())
    } else {
        gargs_label(gs.drop_last()) + seq![','] + garg_label(gs.last())
    }
}

/// The label of one angle-bracketed argument.
pub open spec fn garg_label(g: GenArgV) -> Seq<char>
    decreases g,
{
    match g {
        GenArgV::Ty(t) => type_label(t),
        GenArgV::Other(s) => s,
    }
}

/// Appends the decimal rendering of a number.
pub fn append_dec(out: &mut String, n: usize)
    ensures
        final(out)@ == old(out)@ + dec_chars(n as nat),
    decreases n,
{
    if n < 10 {
        out.append(crate::sym::hex_digit_str((n % 16) as u64));
        proof {
            assert(n % 16 == n);
            assert((n % 16) as u64 == n as u64);
            assert((n as u64) < 10);
        }
    } else {
        append_dec(out, n / 10);
        proof {
            assert(((n % 10) as u64) < 16);
        }
        out.append(crate::sym::hex_digit_str((n % 10) as u64));
        proof {
            assert((n % 10) as u64 == ((n as nat) % 10) as u64);
        }
    }
}

/// Appends the label of a type.
pub fn append_type_label(out: &mut String, t: &Type)
    ensures
        final(out)@ == old(out)@ + type_label(type_dv(*t)),
    decreases *t,
{
    match t {
        Type::Path(p) => {
            proof {
                assert(*t == Type::Path(*p));
            }
            append_path_label(out, p);
        },
        Type::Ptr { is_mut, elem } => {
            if *is_mut {
                out.append("*mut ");
            } else {
                out.append("*const ");
            }
            proof {
                reveal_strlit("*mut ");
                reveal_strlit("*const ");
                assert("*mut "@ =~= seq!['*', 'm', 'u', 't', ' ']);
                assert("*const "@ =~= seq!['*', 'c', 'o', 'n', 's', 't', ' ']);
            }
            append_type_label(out, elem);
        },
        Type::Reference { lifetime, is_mut, elem } => {
            out.append("&");
            proof {
                reveal_strlit("&");
                reveal_strlit(" ");
                reveal_strlit("mut ");
                assert("&"@ =~= seq!['&']);
                assert(" "@ =~= seq![' ']);
                assert("mut "@ =~= seq!['m', 'u', 't', ' ']);
            }
            match lifetime {
                Some(lt) => {
                    out.append(lt.as_str());
                    out.append(" ");
                },
                None => {},
            }
            if *is_mut {
                out.append("mut ");
            }
            append_type_label(out, elem);
            proof {
                assert(out@ =~= old(out)@ + type_label(type_dv(*t)));
            }
        },
        Type::Tuple(elems) => {
            out.append("(");
            append_seq_label(out, elems);
            out.append(")");
            proof {
                reveal_strlit("(");
                reveal_strlit(")");
                assert("("@ =~= seq!['(']);
                assert(")"@ =~= seq![')']);
            }
        },
        Type::Slice(elem) => {
            out.append("[");
            append_type_label(out, elem);
            out.append("]");
            proof {
                reveal_strlit("[");
                reveal_strlit("]");
                assert("["@ =~= seq!['[']);
                assert("]"@ =~= seq![']']);
            }
        },
        Type::Array(elem) => {
            out.append("[");
            append_type_label(out, elem);
            out.append("; _]");
            proof {
                reveal_strlit("[");
                reveal_strlit("; _]");
                assert("["@ =~= seq!['[']);
                assert("; _]"@ =~= seq![';', ' ', '_', ']']);
            }
        },
        Type::BareFn { inputs, output } => {
            proof {
                assert(*t == Type::BareFn { inputs: *inputs, output: *output });
            }
            out.append("fn(");
            append_seq_label(out, inputs);
            out.append(")");
            proof {
                reveal_strlit("fn(");
                reveal_strlit(")");
                reveal_strlit(" -> ");
                assert("fn("@ =~= seq!['f', 'n', '(']);
                assert(")"@ =~= seq![')']);
                assert(" -> "@ =~= seq![' ', '-', '>', ' ']);
            }
            match output {
                Some(ob) => {
                    out.append(" -> ");
                    append_type_label(out, ob);
                    proof {
                        assert(opt_ty_dv(*output) == Some(Box::new(type_dv(**ob))));
                        assert((match opt_ty_dv(*output) {
                            Some(bx) => seq![' ', '-', '>', ' '] + type_label(*bx),
                            None => Seq::<char>::empty(),
                        }) == seq![' ', '-', '>', ' '] + type_label(type_dv(**ob)));
                    }
                },
                None => {},
            }
            proof {
                assert(out@ =~= old(out)@ + type_label(type_dv(*t)));
            }
        },
        Type::Paren(elem) => {
            out.append("(");
            append_type_label(out, elem);
            out.append(")");
            proof {
                reveal_strlit("(");
                reveal_strlit(")");
                assert("("@ =~= seq!['(']);
                assert(")"@ =~= seq![')']);
            }
        },
        Type::Group(elem) => {
            append_type_label(out, elem);
        },
        Type::Hole => {
            out.append("$impl");
            proof {
                reveal_strlit("$impl");
                assert("$impl"@ =~= seq!['$', 'i', 'm', 'p', 'l']);
            }
        },
        Type::Param(i) => {
            out.append("$");
            proof {
                reveal_strlit("$");
                assert("$"@ =~= seq!['$']);
            }
            append_dec(out, *i);
        },
        Type::Opaque(s) => {
            out.append(s.as_str());
        },
    }
    proof {
        assert(out@ =~= old(out)@ + type_label(type_dv(*t)));
    }
}

/// Appends the comma-joined labels of a list of types.
pub fn append_seq_label(out: &mut String, ts: &Vec<Type>)
    ensures
        final(out)@ == old(out)@ + seq_label(seq_ty_dv(ts@)),
    decreases ts@,
{
    proof {
        lemma_seq_ty_dv(ts@);
        reveal_strlit(",");
        assert(","@ =~= seq![',']);
    }
    let mut i: usize = 0;
    while i < ts.len()
        invariant
            i <= ts@.len(),
            seq_ty_dv(ts@).len() == ts@.len(),
            forall|j: int| 0 <= j < ts@.len() ==> seq_ty_dv(ts@)[j] == type_dv(ts@[j]),
            ","@ == seq![','],
            out@ == old(out)@ + seq_label(seq_ty_dv(ts@).take(i as int)),
        decreases ts@.len() - i,
    {
        if i > 0 {
            out.append(",");
        }
        append_type_label(out, &ts[i]);
        i = i + 1;
        proof {
            let m = seq_ty_dv(ts@);
            assert(m.take(i as int).drop_last() =~= m.take(i - 1 as int));
            assert(m.take(i as int).last() == m[i - 1 as int]);
        }
    }
    proof {
        assert(seq_ty_dv(ts@).take(ts@.len() as int) =~= seq_ty_dv(ts@));
    }
}

/// Appends the label of a path.
pub fn append_path_label(out: &mut String, p: &TypePath)
    ensures
        final(out)@ == old(out)@ + path_label(path_dv(*p)),
    decreases *p,
{
    proof {
        lemma_segs_dv(p.segments@);
        reveal_strlit("::");
        reveal_strlit("<");
        reveal_strlit(">::");
        assert("::"@ =~= seq![':', ':']);
        assert("<"@ =~= seq!['<']);
        assert(">::"@ =~= seq!['>', ':', ':']);
    }
    if p.leading_colon {
        out.append("::");
    }
    match &p.qself {
        Some(q) => {
            out.append("<");
            append_type_label(out, q);
            out.append(">::");
        },
        None => {},
    }
    let ghost mid = out@;
    let mut i: usize = 0;
    while i < p.segments.len()
        invariant
            i <= p.segments@.len(),
            segs_dv(p.segments@).len() == p.segments@.len(),
            forall|j: int| 0 <= j < p.segments@.len() ==> segs_dv(p.segments@)[j] == seg_dv(
                p.segments@[j],
            ),
            "::"@ == seq![':', ':'],
            out@ == mid + segs_label(segs_dv(p.segments@).take(i as int)),
        decreases p.segments@.len() - i,
    {
        if i > 0 {
            out.append("::");
        }
        append_seg_label(out, &p.segments[i]);
        i = i + 1;
        proof {
            let m = segs_dv(p.segments@);
            assert(m.take(i as int).drop_last() =~= m.take(i - 1 as int));
            assert(m.take(i as int).last() == m[i - 1 as int]);
        }
    }
    proof {
        assert(segs_dv(p.segments@).take(p.segments@.len() as int) =~= segs_dv(p.segments@));
        assert(out@ =~= old(out)@ + path_label(path_dv(*p)));
    }
}

/// Appends the label of one path segment.
pub fn append_seg_label(out: &mut String, s: &PathSegment)
    ensures
        final(out)@ == old(out)@ + seg_label(seg_dv(*s)),
    decreases *s,
{
    out.append(s.ident.as_str());
    match &s.arguments {
        PathArgs::Plain => {},
        PathArgs::AngleBracketed(gs) => {
            proof {
                assert(s.arguments == PathArgs::AngleBracketed(*gs));
                lemma_gargs_dv(gs@);
                reveal_strlit("<");
                reveal_strlit(">");
                reveal_strlit(",");
                assert("<"@ =~= seq!['<']);
                assert(">"@ =~= seq!['>']);
                assert(","@ =~= seq![',']);
            }
            out.append("<");
            let ghost mid = out@;
            let mut i: usize = 0;
            while i < gs.len()
                invariant
                    s.arguments == PathArgs::AngleBracketed(*gs),
                    i <= gs@.len(),
                    gargs_dv(gs@).len() == gs@.len(),
                    forall|j: int| 0 <= j < gs@.len() ==> gargs_dv(gs@)[j] == garg_dv(gs@[j]),
                    ","@ == seq![','],
                    out@ == mid + gargs_label(gargs_dv(gs@).take(i as int)),
                decreases gs@.len() - i,
            {
                proof {
                    assert(decreases_to!(*s => s.arguments));
                    assert(decreases_to!(s.arguments => s.arguments->AngleBracketed_0));
                    assert(s.arguments->AngleBracketed_0 == *gs);
                    assert(decreases_to!(*gs => gs@));
                    assert(decreases_to!(gs@ => gs@[i as int]));
                    assert(decreases_to!(*s => gs@[i as int]));
                }
                if i > 0 {
                    out.append(",");
                }
                append_garg_label(out, &gs[i]);
                i = i + 1;
                proof {
                    let m = gargs_dv(gs@);
                    assert(m.take(i as int).drop_last() =~= m.take(i - 1 as int));
                    assert(m.take(i as int).last() == m[i - 1 as int]);
                }
            }
            out.append(">");
            proof {
                assert(gargs_dv(gs@).take(gs@.len() as int) =~= gargs_dv(gs@));
            }
        },
        PathArgs::Parenthesized { inputs, output } => {
            proof {
                reveal_strlit("(");
                reveal_strlit(")");
                reveal_strlit(" -> ");
                assert("("@ =~= seq!['(']);
                assert(")"@ =~= seq![')']);
                assert(" -> "@ =~= seq![' ', '-', '>', ' ']);
            }
            out.append("(");
            append_seq_label(out, inputs);
            out.append(")");
            match output {
                Some(o) => {
                    out.append(" -> ");
                    append_type_label(out, o);
                },
                None => {},
            }
        },
    }
    proof {
        assert(out@ =~= old(out)@ + seg_label(seg_dv(*s)));
    }
}

/// Appends the label of one angle-bracketed argument.
pub fn append_garg_label(out: &mut String, g: &GenArg)
    ensures
        final(out)@ == old(out)@ + garg_label(garg_dv(*g)),
    decreases *g,
{
    match g {
        GenArg::Ty(t) => append_type_label(out, t),
        GenArg::Other(s) => out.append(s.as_str()),
    }
}

} // verus!
