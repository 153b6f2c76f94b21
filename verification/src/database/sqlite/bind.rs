//! The values that go with a statement: each one bound to a named parameter.

use vstd::prelude::*;

verus! {

/// A value that is bound to a parameter of a statement.
#[derive(Debug, Clone)]
pub enum SqlValue {
    Integer(i64),
    Text(String),
}

/// What a [`SqlValue`] says.
pub enum SqlValueView {
    Integer(i64),
    Text(Seq<char>),
}

impl View for SqlValue {
    type V = SqlValueView;

    open spec fn view(&self) -> SqlValueView {
        match self {
            SqlValue::Integer(number) => SqlValueView::Integer(*number),
            SqlValue::Text(text) => SqlValueView::Text(text@),
        }
    }
}

/// A named parameter of a statement and the value bound to it.
#[derive(Debug, Clone)]
pub struct Binding {
    /// The name as the statement text has it, colon included.
    pub name: String,
    pub value: SqlValue,
}

/// What a [`Binding`] says.
pub struct BindingView {
    pub name: Seq<char>,
    pub value: SqlValueView,
}

impl View for Binding {
    type V = BindingView;

    open spec fn view(&self) -> BindingView {
        BindingView { name: self.name@, value: self.value@ }
    }
}

/// What the bindings of a list say, in order.
pub open spec fn bindings_of(list: Seq<Binding>) -> Seq<BindingView> {
    Seq::new(list.len(), |i: int| list[i]@)
}

/// The names of the bindings, in order.
pub open spec fn names_bound(bindings: Seq<BindingView>) -> Seq<Seq<char>> {
    Seq::new(bindings.len(), |i: int| bindings[i].name)
}

/// The binding of an integer.
pub open spec fn integer_binding(name: Seq<char>, number: i64) -> BindingView {
    BindingView { name, value: SqlValueView::Integer(number) }
}

/// The binding of a text.
pub open spec fn text_binding(name: Seq<char>, text: Seq<char>) -> BindingView {
    BindingView { name, value: SqlValueView::Text(text) }
}

/// Appends the binding of `number` to the parameter `name`.
pub fn bind_integer(bindings: &mut Vec<Binding>, name: String, number: i64)
    ensures
        bindings_of(final(bindings)@) == bindings_of(old(bindings)@).push(
            integer_binding(name@, number),
        ),
{
    bindings.push(Binding { name, value: SqlValue::Integer(number) });
    assert(bindings_of(bindings@) =~= bindings_of(old(bindings)@).push(
        integer_binding(name@, number),
    ));
}

/// Appends the binding of `text` to the parameter `name`.
pub fn bind_text(bindings: &mut Vec<Binding>, name: String, text: &str)
    ensures
        bindings_of(final(bindings)@) == bindings_of(old(bindings)@).push(
            text_binding(name@, text@),
        ),
{
    bindings.push(Binding { name, value: SqlValue::Text(text.to_owned()) });
    assert(bindings_of(bindings@) =~= bindings_of(old(bindings)@).push(
        text_binding(name@, text@),
    ));
}

} // verus!
