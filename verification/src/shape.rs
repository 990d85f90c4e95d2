//! Model of a field's declared type, and the syntactic classifier that
//! recognizes the wrapper types the engine treats specially.
//!
//! The classification is by the final path-segment name alone — a
//! syntactic best-effort check, not type resolution.

use vstd::prelude::*;
use crate::text::str_eq;

verus! {

/// The declared type of a field, as far as the engine reads it: a path
/// type with its generic arguments, or opaque source text for anything
/// else (references, tuples, trait objects).
#[derive(Debug, PartialEq, Eq)]
pub enum TypeShape {
    /// A path type, e.g. `std::collections::HashMap<String, u32>`:
    /// its path segments and its generic type arguments.
    Path { segments: Vec<String>, args: Vec<TypeShape> },
    /// Any other type, kept as its source text, e.g. `&'a str`.
    Verbatim(String),
}

/// The mathematical view of a [`TypeShape`].
pub enum TypeShapeView {
    Path { segments: Seq<Seq<char>>, args: Seq<TypeShapeView> },
    Verbatim(Seq<char>),
}

/// The view of a sequence of strings, element by element.
pub open spec fn strings_view(ss: Seq<String>) -> Seq<Seq<char>> {
    Seq::new(ss.len(), |i: int| ss[i]@)
}

/// The view of a type shape.
pub open spec fn type_shape_view(t: TypeShape) -> TypeShapeView
    decreases t,
{
    match t {
        TypeShape::Path { segments, args: _ } => TypeShapeView::Path {
            segments: strings_view(segments@),
            args: shapes_view(t->Path_args@),
        },
        TypeShape::Verbatim(s) => TypeShapeView::Verbatim(s@),
    }
}

/// The view of a sequence of type shapes, element by element.
pub open spec fn shapes_view(ts: Seq<TypeShape>) -> Seq<TypeShapeView>
    decreases ts,
{
    if ts.len() == 0 {
        Seq::<TypeShapeView>::empty()
    } else {
        seq![type_shape_view(ts[0])] + shapes_view(ts.drop_first())
    }
}

/// A shape sequence and its view have the same length.
pub broadcast proof fn lemma_shapes_view_len(ts: Seq<TypeShape>)
    ensures
        (#[trigger] shapes_view(ts)).len() == ts.len(),
    decreases ts,
{
    if ts.len() > 0 {
        lemma_shapes_view_len(ts.drop_first());
    }
}

/// The view of a shape sequence is the view of its shapes, position by
/// position.
pub broadcast proof fn lemma_shapes_view_index(ts: Seq<TypeShape>, i: int)
    requires
        0 <= i < ts.len(),
    ensures
        #[trigger] shapes_view(ts)[i] == type_shape_view(ts[i]),
    decreases ts,
{
    lemma_shapes_view_len(ts);
    if i > 0 {
        lemma_shapes_view_index(ts.drop_first(), i - 1);
    }
}

impl View for TypeShape {
    type V = TypeShapeView;

    open spec fn view(&self) -> TypeShapeView {
        type_shape_view(*self)
    }
}

/// The wrapper types the engine recognizes.
#[derive(Clone, Copy, PartialEq, Eq, Structural, Debug)]
pub enum ContainerKind {
    OptionTag,
    ResultTag,
    BoxTag,
    RcTag,
    ArcTag,
    VecTag,
    StringTag,
}

/// The path-segment name of a recognized wrapper type.
pub open spec fn spec_tag_name(k: ContainerKind) -> Seq<char> {
    match k {
        ContainerKind::OptionTag => "Option"@,
        ContainerKind::ResultTag => "Result"@,
        ContainerKind::BoxTag => "Box"@,
        ContainerKind::RcTag => "Rc"@,
        ContainerKind::ArcTag => "Arc"@,
        ContainerKind::VecTag => "Vec"@,
        ContainerKind::StringTag => "String"@,
    }
}

/// Whether a type's outermost constructor is the given wrapper, judged
/// by its final path-segment name alone.
pub open spec fn spec_is_container_of(k: ContainerKind, t: TypeShapeView) -> bool {
    match t {
        TypeShapeView::Path { segments, args: _ } => segments.len() > 0 && segments.last()
            == spec_tag_name(k),
        TypeShapeView::Verbatim(_) => false,
    }
}

/// Whether a type's first generic argument exists and is the only one.
pub open spec fn spec_inner_type_argument(t: TypeShapeView) -> Option<TypeShapeView> {
    match t {
        TypeShapeView::Path { segments: _, args } => if args.len() == 1 {
            Some(args[0])
        } else {
            None
        },
        TypeShapeView::Verbatim(_) => None,
    }
}

/// Whether a type's outermost named constructor matches the given
/// wrapper tag, as [`spec_is_container_of`] describes.
pub fn is_container_of(k: ContainerKind, t: &TypeShape) -> (r: bool)
    ensures
        r == spec_is_container_of(k, t@),
{
    match t {
        TypeShape::Path { segments, args: _ } => {
            if segments.len() == 0 {
                return false;
            }
            let last = &segments[segments.len() - 1];
            let name: &str = match k {
                ContainerKind::OptionTag => "Option",
                ContainerKind::ResultTag => "Result",
                ContainerKind::BoxTag => "Box",
                ContainerKind::RcTag => "Rc",
                ContainerKind::ArcTag => "Arc",
                ContainerKind::VecTag => "Vec",
                ContainerKind::StringTag => "String",
            };
            str_eq(last.as_str(), name)
        }
        TypeShape::Verbatim(_) => false,
    }
}

/// The single generic type argument of a one-argument wrapper type;
/// nothing for a non-generic or multi-argument type.
pub fn inner_type_argument(t: &TypeShape) -> (r: Option<&TypeShape>)
    ensures
        match r {
            Some(inner) => spec_inner_type_argument(t@) == Some(inner@),
            None => spec_inner_type_argument(t@) is None,
        },
{
    match t {
        TypeShape::Path { segments: _, args } => {
            proof {
                lemma_shapes_view_len(args@);
                if args@.len() == 1 {
                    lemma_shapes_view_index(args@, 0);
                }
            }
            if args.len() == 1 {
                Some(&args[0])
            } else {
                None
            }
        }
        TypeShape::Verbatim(_) => None,
    }
}

/// The source text of a path's segments, joined by `::`.
pub open spec fn spec_segments_text(ss: Seq<Seq<char>>) -> Seq<char>
    decreases ss,
{
    if ss.len() == 0 {
        Seq::<char>::empty()
    } else if ss.len() == 1 {
        ss[0]
    } else {
        ss[0] + "::"@ + spec_segments_text(ss.drop_first())
    }
}

/// The source text of a list of generic arguments, joined by `, `.
pub open spec fn spec_args_text(args: Seq<TypeShapeView>) -> Seq<char>
    decreases args,
{
    if args.len() == 0 {
        Seq::<char>::empty()
    } else if args.len() == 1 {
        spec_type_text(args[0])
    } else {
        spec_type_text(args[0]) + ", "@ + spec_args_text(args.drop_first())
    }
}

/// The source text of a type: its path joined by `::`, with its generic
/// arguments in angle brackets when there are any; opaque types render
/// as their kept text.
pub open spec fn spec_type_text(t: TypeShapeView) -> Seq<char>
    decreases t,
{
    match t {
        TypeShapeView::Path { segments, args } => if args.len() == 0 {
            spec_segments_text(segments)
        } else {
            spec_segments_text(segments) + "<"@ + spec_args_text(args) + ">"@
        },
        TypeShapeView::Verbatim(s) => s,
    }
}

/// Appends the source text of a type to `out`.
#[verifier::loop_isolation(false)]
pub fn render_type_into(t: &TypeShape, out: &mut String)
    ensures
        final(out)@ == old(out)@ + spec_type_text(t@),
    decreases t,
{
    broadcast use lemma_shapes_view_len, lemma_shapes_view_index;

    match t {
        TypeShape::Path { segments, args } => {
            let ghost segs = strings_view(segments@);
            let nseg = segments.len();
            let mut i: usize = 0;
            proof {
                assert(segs.skip(0) =~= segs);
            }
            while i < nseg
                invariant
                    nseg == segments.len(),
                    i <= nseg,
                    segs == strings_view(segments@),
                    segs.len() == nseg,
                    old(out)@ + spec_segments_text(segs) == out@ + spec_segments_text(
                        segs.skip(i as int),
                    ),
                decreases nseg - i,
            {
                proof {
                    assert(segs.skip(i as int)[0] == segs[i as int]);
                    if i + 1 < nseg {
                        assert(segs.skip(i as int).drop_first() =~= segs.skip(i as int + 1));
                    }
                }
                let ghost prev = out@;
                out.append(segments[i].as_str());
                if i + 1 < nseg {
                    out.append("::");
                }
                proof {
                    assert(prev + spec_segments_text(segs.skip(i as int)) =~= out@
                        + spec_segments_text(segs.skip(i as int + 1)));
                }
                i = i + 1;
            }
            proof {
                assert(segs.skip(nseg as int) =~= Seq::<Seq<char>>::empty());
            }
            if args.len() > 0 {
                out.append("<");
                let ghost shapes = shapes_view(args@);
                let nargs = args.len();
                let mut j: usize = 0;
                proof {
                    assert(shapes.skip(0) =~= shapes);
                }
                while j < nargs
                    invariant
                        nargs == args.len(),
                        j <= nargs,
                        nargs > 0,
                        shapes == shapes_view(args@),
                        shapes.len() == nargs,
                        old(out)@ + spec_segments_text(segs) + "<"@ + spec_args_text(shapes)
                            == out@ + spec_args_text(shapes.skip(j as int)),
                    decreases nargs - j,
                {
                    proof {
                        lemma_shapes_view_index(args@, j as int);
                        assert(shapes.skip(j as int)[0] == shapes[j as int]);
                        if j + 1 < nargs {
                            assert(shapes.skip(j as int).drop_first() =~= shapes.skip(
                                j as int + 1,
                            ));
                        }
                        assert(decreases_to!(*t => args@));
                        assert(decreases_to!(*t => args@[j as int]));
                    }
                    let ghost prev = out@;
                    render_type_into(&args[j], out);
                    if j + 1 < nargs {
                        out.append(", ");
                    }
                    proof {
                        assert(prev + spec_args_text(shapes.skip(j as int)) =~= out@
                            + spec_args_text(shapes.skip(j as int + 1)));
                    }
                    j = j + 1;
                }
                proof {
                    assert(shapes.skip(nargs as int) =~= Seq::<TypeShapeView>::empty());
                }
                out.append(">");
                proof {
                    assert(out@ =~= old(out)@ + spec_type_text(t@));
                }
            } else {
                proof {
                    assert(out@ =~= old(out)@ + spec_type_text(t@));
                }
            }
        }
        TypeShape::Verbatim(s) => {
            out.append(s.as_str());
        }
    }
}

/// A structurally equal copy of a type shape.
#[verifier::loop_isolation(false)]
pub fn copy_type_shape(t: &TypeShape) -> (r: TypeShape)
    ensures
        r@ == t@,
    decreases t,
{
    broadcast use lemma_shapes_view_len, lemma_shapes_view_index;

    match t {
        TypeShape::Path { segments, args } => {
            let mut segs: Vec<String> = Vec::new();
            let nseg = segments.len();
            let mut i: usize = 0;
            while i < nseg
                invariant
                    i <= nseg,
                    segs@.len() == i,
                    forall|k: int| 0 <= k < i ==> segs@[k]@ == segments@[k]@,
                decreases nseg - i,
            {
                segs.push(segments[i].clone());
                i = i + 1;
            }
            let mut cargs: Vec<TypeShape> = Vec::new();
            let nargs = args.len();
            let mut j: usize = 0;
            while j < nargs
                invariant
                    j <= nargs,
                    cargs@.len() == j,
                    forall|k: int| 0 <= k < j ==> cargs@[k]@ == args@[k]@,
                decreases nargs - j,
            {
                proof {
                    assert(decreases_to!(*t => args@));
                    assert(decreases_to!(*t => args@[j as int]));
                }
                let c = copy_type_shape(&args[j]);
                cargs.push(c);
                j = j + 1;
            }
            let r = TypeShape::Path { segments: segs, args: cargs };
            proof {
                assert(strings_view(segs@) =~= strings_view(segments@));
                lemma_shapes_view_eq(cargs@, args@);
            }
            r
        }
        TypeShape::Verbatim(s) => TypeShape::Verbatim(s.clone()),
    }
}

/// Two shape sequences whose elements have equal views have equal
/// views.
pub proof fn lemma_shapes_view_eq(a: Seq<TypeShape>, b: Seq<TypeShape>)
    requires
        a.len() == b.len(),
        forall|k: int| 0 <= k < a.len() ==> type_shape_view(a[k]) == type_shape_view(b[k]),
    ensures
        shapes_view(a) == shapes_view(b),
    decreases a,
{
    if a.len() > 0 {
        lemma_shapes_view_eq(a.drop_first(), b.drop_first());
        assert(shapes_view(a) =~= shapes_view(b));
    } else {
        assert(shapes_view(a) =~= shapes_view(b));
    }
}

/// The source text of a type, as a fresh string.
pub fn render_type(t: &TypeShape) -> (r: String)
    ensures
        r@ == spec_type_text(t@),
{
    let mut out = String::new();
    render_type_into(t, &mut out);
    out
}

} // verus!
