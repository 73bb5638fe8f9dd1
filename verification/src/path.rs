//! Paths as they are written in source, and how they are rendered back to
//! text: `<T as Trait>::module::Item::<Args>`.
//!
//! The types and generic arguments inside a path are held as text that is
//! rendered already; what is decided here is how the pieces are put together.

use vstd::prelude::*;
use vstd::string::StringExecFns;

verus! {

/// One segment of a path expression: a name, and generic arguments
/// introduced by `::`.
#[derive(Clone, Debug)]
pub struct PathExprSegment {
    pub name: String,
    pub generics_opt: Option<String>,
}

/// The generic arguments of a segment of a path type, and whether `::`
/// is written before them.
#[derive(Clone, Debug)]
pub struct SegmentGenerics {
    pub double_colon: bool,
    pub args: String,
}

/// One segment of a path type.
#[derive(Clone, Debug)]
pub struct PathTypeSegment {
    pub name: String,
    pub generics_opt: Option<SegmentGenerics>,
}

/// The qualified root of a path: a type, taken as a trait.
#[derive(Debug)]
pub struct QualifiedPathRoot {
    pub ty: String,
    pub as_trait: Box<PathType>,
}

/// A path in type position. `root_opt` is `None` for a relative path,
/// `Some(None)` for one that starts with `::`, and `Some(Some(..))` for
/// one that starts at a qualified root.
#[derive(Debug)]
pub struct PathType {
    pub root_opt: Option<Option<QualifiedPathRoot>>,
    pub prefix: PathTypeSegment,
    pub suffix: Vec<PathTypeSegment>,
}

/// A path in expression position.
#[derive(Debug)]
pub struct PathExpr {
    pub root_opt: Option<Option<QualifiedPathRoot>>,
    pub prefix: PathExprSegment,
    pub suffix: Vec<PathExprSegment>,
}

impl PathExprSegment {
    /// The segment as text: the name, then `::` and the generic arguments
    /// if there are any.
    pub open spec fn rendered(&self) -> Seq<char> {
        self.name@ + match self.generics_opt {
            Some(args) => "::"@ + args@,
            None => Seq::empty(),
        }
    }

    /// Appends the segment to `formatted_code`.
    pub fn format(&self, formatted_code: &mut String)
        ensures
            final(formatted_code)@ == old(formatted_code)@ + self.rendered(),
    {
        formatted_code.append(self.name.as_str());
        if let Some(args) = &self.generics_opt {
            formatted_code.append("::");
            formatted_code.append(args.as_str());
        }
        assert(formatted_code@ =~= old(formatted_code)@ + self.rendered());
    }
}

impl PathTypeSegment {
    /// The segment as text: the name, then the generic arguments if there
    /// are any, after `::` where the source has it.
    pub open spec fn rendered(&self) -> Seq<char> {
        self.name@ + match self.generics_opt {
            Some(generics) => (if generics.double_colon {
                "::"@
            } else {
                Seq::empty()
            }) + generics.args@,
            None => Seq::empty(),
        }
    }

    /// Appends the segment to `formatted_code`.
    pub fn format(&self, formatted_code: &mut String)
        ensures
            final(formatted_code)@ == old(formatted_code)@ + self.rendered(),
    {
        formatted_code.append(self.name.as_str());
        if let Some(generics) = &self.generics_opt {
            if generics.double_colon {
                formatted_code.append("::");
            }
            formatted_code.append(generics.args.as_str());
        }
        assert(formatted_code@ =~= old(formatted_code)@ + self.rendered());
    }
}

/// The first `n` of `segments` as text, each after a `::`.
pub open spec fn rendered_expr_suffix(segments: Seq<PathExprSegment>, n: int) -> Seq<char>
    decreases n,
{
    if n <= 0 || n > segments.len() {
        Seq::empty()
    } else {
        rendered_expr_suffix(segments, n - 1) + "::"@ + segments[n - 1].rendered()
    }
}

/// The first `n` of `segments` as text, each after a `::`.
pub open spec fn rendered_type_suffix(segments: Seq<PathTypeSegment>, n: int) -> Seq<char>
    decreases n,
{
    if n <= 0 || n > segments.len() {
        Seq::empty()
    } else {
        rendered_type_suffix(segments, n - 1) + "::"@ + segments[n - 1].rendered()
    }
}

impl QualifiedPathRoot {
    /// The root as text: the type, ` as `, and the trait.
    pub open spec fn rendered(&self) -> Seq<char>
        decreases self,
    {
        self.ty@ + " as "@ + self.as_trait.rendered()
    }

    /// Appends the root to `formatted_code`.
    pub fn format(&self, formatted_code: &mut String)
        ensures
            final(formatted_code)@ == old(formatted_code)@ + self.rendered(),
        decreases self,
    {
        formatted_code.append(self.ty.as_str());
        formatted_code.append(" as ");
        self.as_trait.format(formatted_code);
        assert(formatted_code@ =~= old(formatted_code)@ + self.rendered());
    }
}

/// How a path starts: with nothing, with `::`, or with a qualified root
/// in angle brackets and `::`.
pub open spec fn rendered_root(root_opt: Option<Option<QualifiedPathRoot>>) -> Seq<char>
    decreases root_opt,
{
    match root_opt {
        None => Seq::empty(),
        Some(None) => "::"@,
        Some(Some(root)) => "<"@ + root.rendered() + ">"@ + "::"@,
    }
}

/// Appends the start of a path to `formatted_code`.
fn format_root(root_opt: &Option<Option<QualifiedPathRoot>>, formatted_code: &mut String)
    ensures
        final(formatted_code)@ == old(formatted_code)@ + rendered_root(*root_opt),
    decreases root_opt,
{
    if let Some(qualified_path_root) = root_opt {
        if let Some(root) = qualified_path_root {
            formatted_code.append("<");
            root.format(formatted_code);
            formatted_code.append(">");
        }
        formatted_code.append("::");
    }
    assert(formatted_code@ =~= old(formatted_code)@ + rendered_root(*root_opt));
}

impl PathType {
    /// The path as text: its start, its first segment, and each further
    /// segment after a `::`.
    pub open spec fn rendered(&self) -> Seq<char>
        decreases self,
    {
        rendered_root(self.root_opt) + self.prefix.rendered() + rendered_type_suffix(
            self.suffix@,
            self.suffix@.len() as int,
        )
    }

    /// Appends the path to `formatted_code`.
    pub fn format(&self, formatted_code: &mut String)
        ensures
            final(formatted_code)@ == old(formatted_code)@ + self.rendered(),
        decreases self,
    {
        format_root(&self.root_opt, formatted_code);
        self.prefix.format(formatted_code);
        let ghost base = formatted_code@;
        let mut i: usize = 0;
        while i < self.suffix.len()
            invariant
                i <= self.suffix@.len(),
                formatted_code@ == base + rendered_type_suffix(self.suffix@, i as int),
            decreases self.suffix@.len() - i,
        {
            formatted_code.append("::");
            self.suffix[i].format(formatted_code);
            assert(formatted_code@ =~= base + rendered_type_suffix(self.suffix@, i + 1));
            i += 1;
        }
        assert(formatted_code@ =~= old(formatted_code)@ + self.rendered());
    }
}

impl PathExpr {
    /// The path as text: its start, its first segment, and each further
    /// segment after a `::`.
    pub open spec fn rendered(&self) -> Seq<char> {
        rendered_root(self.root_opt) + self.prefix.rendered() + rendered_expr_suffix(
            self.suffix@,
            self.suffix@.len() as int,
        )
    }

    /// Appends the path to `formatted_code`.
    pub fn format(&self, formatted_code: &mut String)
        ensures
            final(formatted_code)@ == old(formatted_code)@ + self.rendered(),
    {
        format_root(&self.root_opt, formatted_code);
        self.prefix.format(formatted_code);
        let ghost base = formatted_code@;
        let mut i: usize = 0;
        while i < self.suffix.len()
            invariant
                i <= self.suffix@.len(),
                formatted_code@ == base + rendered_expr_suffix(self.suffix@, i as int),
            decreases self.suffix@.len() - i,
        {
            formatted_code.append("::");
            self.suffix[i].format(formatted_code);
            assert(formatted_code@ =~= base + rendered_expr_suffix(self.suffix@, i + 1));
            i += 1;
        }
        assert(formatted_code@ =~= old(formatted_code)@ + self.rendered());
    }
}

} // verus!
