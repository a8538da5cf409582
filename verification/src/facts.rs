//! The semantic fact model: a closed, tagged set of fact variants describing
//! everything the parser can report about a source range, together with the
//! mathematical view each variant is specified by.
//!
//! Construction is the parser's business; the model itself performs no
//! validation.  Facts own their payloads once built, except for the
//! documentation handle carried by macro-use facts, which is shared.

use std::rc::Rc;

use vstd::prelude::*;

use crate::location::Location;
use crate::location::SourceRange;

verus! {

broadcast use vstd::std_specs::vec::group_vec_axioms;

/// A single name, as it appeared in source text.
pub type Ident = String;

/// One step of a dotted type path: how the next identifier was joined to
/// the previous one.
#[derive(Clone, Copy, PartialEq, Eq, Structural, Debug)]
pub enum PathOp {
    Slash,
    Dot,
    Colon,
}

/// A dotted type path: each identifier together with the operator that
/// introduced it.
pub type TypePath = Vec<(PathOp, Ident)>;

/// The declared type of a variable: its flags and its type path.
#[derive(PartialEq, Eq, Debug)]
pub struct VarType {
    pub is_static: bool,
    pub is_const: bool,
    pub is_tmp: bool,
    pub type_path: Vec<Ident>,
}

/// Documentation comments collected for a macro definition, shared by every
/// fact that refers to the definition.
#[derive(Clone, PartialEq, Eq, Debug)]
pub struct DocCollection {
    pub elems: Vec<String>,
}

/// The view of a sequence of identifiers: each identifier as its character
/// sequence.
pub open spec fn idents_view(v: Seq<Ident>) -> Seq<Seq<char>> {
    v.map_values(|s: Ident| s@)
}

/// The view of a type path: each step's operator with its identifier's
/// character sequence.
pub open spec fn type_path_view(v: Seq<(PathOp, Ident)>) -> Seq<(PathOp, Seq<char>)> {
    v.map_values(|p: (PathOp, Ident)| (p.0, p.1@))
}

/// The mathematical view of a [`VarType`].
pub struct VarTypeView {
    pub is_static: bool,
    pub is_const: bool,
    pub is_tmp: bool,
    pub type_path: Seq<Seq<char>>,
}

impl View for VarType {
    type V = VarTypeView;

    open spec fn view(&self) -> VarTypeView {
        VarTypeView {
            is_static: self.is_static,
            is_const: self.is_const,
            is_tmp: self.is_tmp,
            type_path: idents_view(self.type_path@),
        }
    }
}

impl View for DocCollection {
    type V = Seq<Seq<char>>;

    open spec fn view(&self) -> Seq<Seq<char>> {
        idents_view(self.elems@)
    }
}

/// One semantic fact the parser can attach to a source range.
///
/// The variant set is closed: consumers branch on the tag exhaustively and
/// rely on no variant being added or removed behind their back.
#[derive(PartialEq, Debug)]
pub enum Annotation {
    // contextual information
    TreeBlock(Vec<Ident>),
    TreePath(bool, Vec<Ident>),
    TypePath(TypePath),
    Variable(Vec<Ident>),
    ProcHeader(Vec<Ident>, usize),
    ProcBody(Vec<Ident>, usize),
    LocalVarScope(VarType, Ident),
    // local information about a specific token
    UnscopedCall(Ident),
    UnscopedVar(Ident),
    ScopedCall(Vec<Ident>, Ident),
    ScopedVar(Vec<Ident>, Ident),
    ParentCall,
    ReturnVal,
    /// Where in an enclosing tree path or type path this identifier stands.
    InSequence(usize),
    // a macro is called here, which is defined at this location
    MacroDefinition(Ident),
    MacroUse { name: String, definition_location: Location, docs: Option<Rc<DocCollection>> },
    Include(String),
    Resource(String),
    // error annotations, mostly for autocompletion
    /// A dot was followed by something that is not an identifier.
    ScopedMissingIdent(Vec<Ident>),
    IncompleteTypePath(TypePath, PathOp),
    IncompleteTreePath(bool, Vec<Ident>),
    /// The owning path is empty for an unscoped call.
    ProcArguments(Vec<Ident>, String, usize),
    /// Where in the call's arguments this argument stands.
    ProcArgument(usize),
    /// The raw form: a return expression spans this sub-range.
    ReturnOperation(SourceRange),
    /// The resolved form: every fact found within the return expression's
    /// sub-range, in the store's native order.
    ReturnStatement { returned_value: Vec<Annotation> },
}

/// The mathematical view of an [`Annotation`]: the same tagged shape over
/// sequences instead of vectors and strings.
pub enum AnnotationView {
    TreeBlock(Seq<Seq<char>>),
    TreePath(bool, Seq<Seq<char>>),
    TypePath(Seq<(PathOp, Seq<char>)>),
    Variable(Seq<Seq<char>>),
    ProcHeader(Seq<Seq<char>>, int),
    ProcBody(Seq<Seq<char>>, int),
    LocalVarScope(VarTypeView, Seq<char>),
    UnscopedCall(Seq<char>),
    UnscopedVar(Seq<char>),
    ScopedCall(Seq<Seq<char>>, Seq<char>),
    ScopedVar(Seq<Seq<char>>, Seq<char>),
    ParentCall,
    ReturnVal,
    InSequence(int),
    MacroDefinition(Seq<char>),
    MacroUse { name: Seq<char>, definition_location: Location, docs: Option<Seq<Seq<char>>> },
    Include(Seq<char>),
    Resource(Seq<char>),
    ScopedMissingIdent(Seq<Seq<char>>),
    IncompleteTypePath(Seq<(PathOp, Seq<char>)>, PathOp),
    IncompleteTreePath(bool, Seq<Seq<char>>),
    ProcArguments(Seq<Seq<char>>, Seq<char>, int),
    ProcArgument(int),
    ReturnOperation(SourceRange),
    ReturnStatement(Seq<AnnotationView>),
}

impl View for Annotation {
    type V = AnnotationView;

    open spec fn view(&self) -> AnnotationView
        decreases self,
    {
        match self {
            Annotation::TreeBlock(path) => AnnotationView::TreeBlock(idents_view(path@)),
            Annotation::TreePath(absolute, path) => AnnotationView::TreePath(
                *absolute,
                idents_view(path@),
            ),
            Annotation::TypePath(path) => AnnotationView::TypePath(type_path_view(path@)),
            Annotation::Variable(path) => AnnotationView::Variable(idents_view(path@)),
            Annotation::ProcHeader(path, idx) => AnnotationView::ProcHeader(
                idents_view(path@),
                *idx as int,
            ),
            Annotation::ProcBody(path, idx) => AnnotationView::ProcBody(
                idents_view(path@),
                *idx as int,
            ),
            Annotation::LocalVarScope(var_type, name) => AnnotationView::LocalVarScope(
                var_type@,
                name@,
            ),
            Annotation::UnscopedCall(name) => AnnotationView::UnscopedCall(name@),
            Annotation::UnscopedVar(name) => AnnotationView::UnscopedVar(name@),
            Annotation::ScopedCall(path, name) => AnnotationView::ScopedCall(
                idents_view(path@),
                name@,
            ),
            Annotation::ScopedVar(path, name) => AnnotationView::ScopedVar(
                idents_view(path@),
                name@,
            ),
            Annotation::ParentCall => AnnotationView::ParentCall,
            Annotation::ReturnVal => AnnotationView::ReturnVal,
            Annotation::InSequence(idx) => AnnotationView::InSequence(*idx as int),
            Annotation::MacroDefinition(name) => AnnotationView::MacroDefinition(name@),
            Annotation::MacroUse { name, definition_location, docs } => AnnotationView::MacroUse {
                name: name@,
                definition_location: *definition_location,
                docs: match docs {
                    Some(handle) => Some(handle@),
                    None => None,
                },
            },
            Annotation::Include(path) => AnnotationView::Include(path@),
            Annotation::Resource(path) => AnnotationView::Resource(path@),
            Annotation::ScopedMissingIdent(path) => AnnotationView::ScopedMissingIdent(
                idents_view(path@),
            ),
            Annotation::IncompleteTypePath(path, op) => AnnotationView::IncompleteTypePath(
                type_path_view(path@),
                *op,
            ),
            Annotation::IncompleteTreePath(absolute, path) => AnnotationView::IncompleteTreePath(
                *absolute,
                idents_view(path@),
            ),
            Annotation::ProcArguments(path, raw, idx) => AnnotationView::ProcArguments(
                idents_view(path@),
                raw@,
                *idx as int,
            ),
            Annotation::ProcArgument(idx) => AnnotationView::ProcArgument(*idx as int),
            Annotation::ReturnOperation(place) => AnnotationView::ReturnOperation(*place),
            Annotation::ReturnStatement { returned_value } => AnnotationView::ReturnStatement(
                Seq::new(
                    returned_value@.len(),
                    |i: int|
                        if 0 <= i < returned_value@.len() {
                            returned_value@[i]@
                        } else {
                            AnnotationView::ParentCall
                        },
                ),
            ),
        }
    }
}

/// Copies a sequence of identifiers; the copy reads the same.
fn clone_idents(v: &Vec<Ident>) -> (r: Vec<Ident>)
    ensures
        r@ == v@,
{
    let mut r: Vec<Ident> = Vec::new();
    let mut i: usize = 0;
    while i < v.len()
        invariant
            i <= v@.len(),
            r@ == v@.take(i as int),
        decreases v@.len() - i,
    {
        r.push(v[i].clone());
        i = i + 1;
        proof {
            assert(v@.take(i as int) =~= v@.take(i as int - 1).push(v@[i as int - 1]));
        }
    }
    proof {
        assert(v@.take(v@.len() as int) =~= v@);
    }
    r
}

/// Copies a type path; the copy reads the same.
fn clone_type_path(v: &TypePath) -> (r: TypePath)
    ensures
        r@ == v@,
{
    let mut r: TypePath = Vec::new();
    let mut i: usize = 0;
    while i < v.len()
        invariant
            i <= v@.len(),
            r@ == v@.take(i as int),
        decreases v@.len() - i,
    {
        let step = &v[i];
        r.push((step.0, step.1.clone()));
        i = i + 1;
        proof {
            assert(v@.take(i as int) =~= v@.take(i as int - 1).push(v@[i as int - 1]));
        }
    }
    proof {
        assert(v@.take(v@.len() as int) =~= v@);
    }
    r
}

impl Clone for VarType {
    /// The copy has the same view.
    fn clone(&self) -> (r: Self)
        ensures
            r@ == self@,
    {
        VarType {
            is_static: self.is_static,
            is_const: self.is_const,
            is_tmp: self.is_tmp,
            type_path: clone_idents(&self.type_path),
        }
    }
}

/// Relies on `Rc::clone`: the returned handle points to the same shared
/// allocation as the argument, so as a value it is the same collection.
#[verifier::external_body]
fn clone_doc_handle(handle: &Rc<DocCollection>) -> (r: Rc<DocCollection>)
    ensures
        r == *handle,
{
    Rc::clone(handle)
}

impl Clone for Annotation {
    /// The copy has the same view.  Payloads are copied except for a shared
    /// documentation handle, which the copy shares.
    fn clone(&self) -> (r: Self)
        ensures
            r@ == self@,
        decreases self,
    {
        match self {
            Annotation::TreeBlock(path) => Annotation::TreeBlock(clone_idents(path)),
            Annotation::TreePath(absolute, path) => Annotation::TreePath(
                *absolute,
                clone_idents(path),
            ),
            Annotation::TypePath(path) => Annotation::TypePath(clone_type_path(path)),
            Annotation::Variable(path) => Annotation::Variable(clone_idents(path)),
            Annotation::ProcHeader(path, idx) => Annotation::ProcHeader(clone_idents(path), *idx),
            Annotation::ProcBody(path, idx) => Annotation::ProcBody(clone_idents(path), *idx),
            Annotation::LocalVarScope(var_type, name) => Annotation::LocalVarScope(
                var_type.clone(),
                name.clone(),
            ),
            Annotation::UnscopedCall(name) => Annotation::UnscopedCall(name.clone()),
            Annotation::UnscopedVar(name) => Annotation::UnscopedVar(name.clone()),
            Annotation::ScopedCall(path, name) => Annotation::ScopedCall(
                clone_idents(path),
                name.clone(),
            ),
            Annotation::ScopedVar(path, name) => Annotation::ScopedVar(
                clone_idents(path),
                name.clone(),
            ),
            Annotation::ParentCall => Annotation::ParentCall,
            Annotation::ReturnVal => Annotation::ReturnVal,
            Annotation::InSequence(idx) => Annotation::InSequence(*idx),
            Annotation::MacroDefinition(name) => Annotation::MacroDefinition(name.clone()),
            Annotation::MacroUse { name, definition_location, docs } => Annotation::MacroUse {
                name: name.clone(),
                definition_location: *definition_location,
                docs: match docs {
                    Some(handle) => Some(clone_doc_handle(handle)),
                    None => None,
                },
            },
            Annotation::Include(path) => Annotation::Include(path.clone()),
            Annotation::Resource(path) => Annotation::Resource(path.clone()),
            Annotation::ScopedMissingIdent(path) => Annotation::ScopedMissingIdent(
                clone_idents(path),
            ),
            Annotation::IncompleteTypePath(path, op) => Annotation::IncompleteTypePath(
                clone_type_path(path),
                *op,
            ),
            Annotation::IncompleteTreePath(absolute, path) => Annotation::IncompleteTreePath(
                *absolute,
                clone_idents(path),
            ),
            Annotation::ProcArguments(path, raw, idx) => Annotation::ProcArguments(
                clone_idents(path),
                raw.clone(),
                *idx,
            ),
            Annotation::ProcArgument(idx) => Annotation::ProcArgument(*idx),
            Annotation::ReturnOperation(place) => Annotation::ReturnOperation(*place),
            Annotation::ReturnStatement { returned_value } => {
                let facts = clone_facts(returned_value);
                let ghost copies = facts@;
                let r = Annotation::ReturnStatement { returned_value: facts };
                proof {
                    reveal_with_fuel(<Annotation as View>::view, 2);
                    let ghost original = Annotation::ReturnStatement {
                        returned_value: *returned_value,
                    };
                    assert(*self == original);
                    let lhs = r@->ReturnStatement_0;
                    let rhs = original@->ReturnStatement_0;
                    assert forall|k: int| 0 <= k < lhs.len() implies lhs[k] == rhs[k] by {
                        assert(copies[k]@ == returned_value@[k]@);
                    }
                    assert(lhs =~= rhs);
                }
                r
            },
        }
    }
}

/// Copies a sequence of facts; each copy has the view of its original.
fn clone_facts(v: &Vec<Annotation>) -> (r: Vec<Annotation>)
    ensures
        r@.len() == v@.len(),
        forall|k: int| 0 <= k < v@.len() ==> (#[trigger] r@[k])@ == v@[k]@,
    decreases *v,
{
    let mut facts: Vec<Annotation> = Vec::new();
    let mut i: usize = 0;
    while i < v.len()
        invariant
            i <= v@.len(),
            facts@.len() == i,
            forall|k: int| 0 <= k < i ==> (#[trigger] facts@[k])@ == v@[k]@,
        decreases v@.len() - i,
    {
        facts.push(v[i].clone());
        i = i + 1;
    }
    facts
}

} // verus!
