use vstd::prelude::*;

use crate::text::texts;

verus! {

/// The content of a module's stub, in source order, and what has to be imported for it.
pub struct ModuleStub {
    pub items: Vec<StubItem>,
    /// Whether `Incomplete` occurs.
    pub uses_incomplete: bool,
    /// Whether `Self` occurs.
    pub uses_self: bool,
    /// Whether `ClassVar[...]` occurs.
    pub uses_classvar: bool,
    /// Whether `Callable[...]` occurs.
    pub uses_callable: bool,
    /// Whether `Overload[...]` occurs.
    pub uses_overload: bool,
}

/// An item of a stub.
pub enum StubItem {
    Import(StubImport),
    Function(StubFunction),
    Class(StubClass),
    Variable(StubVariable),
    TypeAlias(StubTypeAlias),
}

/// An import, as it is written.
pub struct StubImport {
    pub text: String,
}

/// A function or method.
pub struct StubFunction {
    pub name: String,
    pub is_async: bool,
    pub type_params: Option<String>,
    pub decorators: Vec<String>,
    pub params: Vec<StubParam>,
    pub return_type: Option<String>,
    pub docstring: Option<String>,
}

/// A parameter, or one of the marks `*` and `/` between parameters.
pub struct StubParam {
    pub prefix: &'static str,
    pub name: String,
    pub annotation: Option<String>,
    pub default: Option<String>,
}

/// A class.
pub struct StubClass {
    pub name: String,
    pub type_params: Option<String>,
    pub bases: String,
    pub decorators: Vec<String>,
    pub body: Vec<StubItem>,
    pub docstring: Option<String>,
}

/// A variable or attribute.
pub struct StubVariable {
    pub name: String,
    pub annotation: Option<String>,
    pub value: Option<String>,
}

/// A type alias, as it is written: `type Vector = list[float]`.
pub struct StubTypeAlias {
    pub text: String,
}

/// Which names and docstrings are taken into a stub.
#[derive(Clone, Copy, Debug, PartialEq, Eq, Structural)]
pub struct ExtractConfig {
    pub include_private: bool,
    pub include_docstrings: bool,
}

/// The text of an optional text.
pub open spec fn opt_text(s: Option<String>) -> Option<Seq<char>> {
    match s {
        Some(s) => Some(s@),
        None => None,
    }
}

/// A parameter as plain text.
pub struct ParamView {
    pub prefix: Seq<char>,
    pub name: Seq<char>,
    pub annotation: Option<Seq<char>>,
    pub default: Option<Seq<char>>,
}

/// A function as plain text.
pub struct FunctionView {
    pub name: Seq<char>,
    pub is_async: bool,
    pub type_params: Option<Seq<char>>,
    pub decorators: Seq<Seq<char>>,
    pub params: Seq<ParamView>,
    pub return_type: Option<Seq<char>>,
    pub docstring: Option<Seq<char>>,
}

/// A class as plain text.
pub struct ClassStubView {
    pub name: Seq<char>,
    pub type_params: Option<Seq<char>>,
    pub bases: Seq<char>,
    pub decorators: Seq<Seq<char>>,
    pub body: Seq<ItemView>,
    pub docstring: Option<Seq<char>>,
}

/// A variable as plain text.
pub struct VariableView {
    pub name: Seq<char>,
    pub annotation: Option<Seq<char>>,
    pub value: Option<Seq<char>>,
}

/// An item as plain text.
pub enum ItemView {
    Import(Seq<char>),
    Function(FunctionView),
    Class(ClassStubView),
    Variable(VariableView),
    TypeAlias(Seq<char>),
}

impl View for StubParam {
    type V = ParamView;

    open spec fn view(&self) -> ParamView {
        ParamView {
            prefix: self.prefix@,
            name: self.name@,
            annotation: opt_text(self.annotation),
            default: opt_text(self.default),
        }
    }
}

pub open spec fn param_views(params: Seq<StubParam>) -> Seq<ParamView> {
    params.map_values(|p: StubParam| p@)
}

impl View for StubFunction {
    type V = FunctionView;

    open spec fn view(&self) -> FunctionView {
        FunctionView {
            name: self.name@,
            is_async: self.is_async,
            type_params: opt_text(self.type_params),
            decorators: texts(self.decorators@),
            params: param_views(self.params@),
            return_type: opt_text(self.return_type),
            docstring: opt_text(self.docstring),
        }
    }
}

impl View for StubVariable {
    type V = VariableView;

    open spec fn view(&self) -> VariableView {
        VariableView {
            name: self.name@,
            annotation: opt_text(self.annotation),
            value: opt_text(self.value),
        }
    }
}

/// A class as plain text.
pub open spec fn class_view(cls: StubClass) -> ClassStubView
    decreases cls,
{
    ClassStubView {
        name: cls.name@,
        type_params: opt_text(cls.type_params),
        bases: cls.bases@,
        decorators: texts(cls.decorators@),
        body: item_views(cls.body@),
        docstring: opt_text(cls.docstring),
    }
}

/// An item as plain text.
pub open spec fn item_view(item: StubItem) -> ItemView
    decreases item,
{
    match item {
        StubItem::Import(i) => ItemView::Import(i.text@),
        StubItem::Function(f) => ItemView::Function(f@),
        StubItem::Class(c) => ItemView::Class(class_view(c)),
        StubItem::Variable(v) => ItemView::Variable(v@),
        StubItem::TypeAlias(t) => ItemView::TypeAlias(t.text@),
    }
}

/// Items as plain text.
pub open spec fn item_views(items: Seq<StubItem>) -> Seq<ItemView>
    decreases items,
{
    if items.len() == 0 {
        Seq::empty()
    } else {
        item_views(items.drop_last()).push(item_view(items.last()))
    }
}

/// Each item keeps its place.
pub proof fn lemma_item_views(items: Seq<StubItem>)
    ensures
        item_views(items).len() == items.len(),
        forall|i: int|
            0 <= i < items.len() ==> #[trigger] item_views(items)[i] == item_view(items[i]),
    decreases items.len(),
{
    if items.len() > 0 {
        lemma_item_views(items.drop_last());
        assert forall|i: int| 0 <= i < items.len() implies #[trigger] item_views(items)[i]
            == item_view(items[i]) by {
            if i < items.len() - 1 {
                assert(item_views(items)[i] == item_views(items.drop_last())[i]);
            }
        }
    }
}

/// Items behind items.
pub proof fn lemma_item_views_concat(a: Seq<StubItem>, b: Seq<StubItem>)
    ensures
        item_views(a + b) == item_views(a) + item_views(b),
    decreases b.len(),
{
    if b.len() == 0 {
        assert(a + b =~= a);
        assert(item_views(a) + item_views(b) =~= item_views(a));
    } else {
        lemma_item_views_concat(a, b.drop_last());
        assert((a + b).drop_last() =~= a + b.drop_last());
        assert((a + b).last() == b.last());
        assert(item_views(a) + item_views(b.drop_last()).push(item_view(b.last())) =~= (item_views(
            a,
        ) + item_views(b.drop_last())).push(item_view(b.last())));
    }
}

} // verus!
