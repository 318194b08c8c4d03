//! The values that a decoding procedure produces.

use vstd::prelude::*;
use vstd::string::StringExecFns;
use crate::text::str_eq;

verus! {

/// A byte order known at run time.
#[derive(Clone, Copy, Debug, PartialEq, Eq, Structural)]
pub enum Endianness {
    Big,
    Little,
    Native,
}

/// How the fields of a struct or of a variant are written.
#[derive(Clone, Copy, Debug, PartialEq, Eq, Structural)]
pub enum Shape {
    /// `Name`
    Unit,
    /// `Name(a, b)`
    Tuple,
    /// `Name { a, b }`
    Named,
}

/// A decoded value.
#[derive(Debug, PartialEq, Eq)]
pub enum Value {
    /// `()`
    Unit,
    /// The marker of a phantom type.
    Phantom,
    Bool(bool),
    /// An unsigned integer of any width.
    UInt(u128),
    /// A signed integer of any width.
    Int(i128),
    Bytes(Vec<u8>),
    Text(String),
    Endian(Endianness),
    /// `None`
    Absent,
    /// `Some(value)`
    Present(Box<Value>),
    /// A sequence or an array.
    List(Vec<Value>),
    /// A struct or a variant of an enum, with the names of its fields and
    /// their values.
    Struct { name: String, shape: Shape, names: Vec<String>, values: Vec<Value> },
}

/// What a `Value` holds, as plain values.
pub enum ValueView {
    Unit,
    Phantom,
    Bool(bool),
    UInt(u128),
    Int(i128),
    Bytes(Seq<u8>),
    Text(Seq<char>),
    Endian(Endianness),
    Absent,
    Present(Box<ValueView>),
    List(Seq<ValueView>),
    Struct { name: Seq<char>, shape: Shape, names: Seq<Seq<char>>, values: Seq<ValueView> },
}

/// What the value `v` holds, as plain values.
pub open spec fn value_view(v: Value) -> ValueView
    decreases v,
{
    match v {
        Value::Unit => ValueView::Unit,
        Value::Phantom => ValueView::Phantom,
        Value::Bool(b) => ValueView::Bool(b),
        Value::UInt(n) => ValueView::UInt(n),
        Value::Int(n) => ValueView::Int(n),
        Value::Bytes(b) => ValueView::Bytes(b@),
        Value::Text(s) => ValueView::Text(s@),
        Value::Endian(e) => ValueView::Endian(e),
        Value::Absent => ValueView::Absent,
        Value::Present(inner) => ValueView::Present(Box::new(value_view(*inner))),
        Value::List(items) => ValueView::List(
            Seq::new(
                items.len() as nat,
                |i: int|
                    if 0 <= i < items.len() {
                        value_view(items[i])
                    } else {
                        ValueView::Unit
                    },
            ),
        ),
        Value::Struct { name, shape, names, values } => ValueView::Struct {
            name: name@,
            shape,
            names: names@.map_values(|s: String| s@),
            values: Seq::new(
                values.len() as nat,
                |i: int|
                    if 0 <= i < values.len() {
                        value_view(values[i])
                    } else {
                        ValueView::Unit
                    },
            ),
        },
    }
}

impl View for Value {
    type V = ValueView;

    open spec fn view(&self) -> ValueView {
        value_view(*self)
    }
}

/// The views of a list of values, in order.
pub open spec fn values_view(list: Seq<Value>) -> Seq<ValueView> {
    Seq::new(list.len(), |i: int| list[i]@)
}

/// The view of a list is the list of the views.
pub proof fn lemma_list_view(items: Vec<Value>)
    ensures
        Value::List(items)@ == ValueView::List(values_view(items@)),
{
    assert(Value::List(items)@->List_0 =~= values_view(items@));
}

/// The view of a struct holds the views of its fields.
pub proof fn lemma_struct_view(name: String, shape: Shape, names: Vec<String>, values: Vec<Value>)
    ensures
        (Value::Struct { name, shape, names, values })@ == (ValueView::Struct {
            name: name@,
            shape,
            names: names@.map_values(|s: String| s@),
            values: values_view(values@),
        }),
{
    assert((Value::Struct { name, shape, names, values })@->Struct_values =~= values_view(
        values@,
    ));
}

/// A copy of a list of bytes.
pub fn duplicate_bytes(bytes: &Vec<u8>) -> (r: Vec<u8>)
    ensures
        r@ == bytes@,
{
    let mut out: Vec<u8> = Vec::new();
    let mut i: usize = 0;
    while i < bytes.len()
        invariant
            i <= bytes.len(),
            out@ == bytes@.take(i as int),
        decreases bytes.len() - i,
    {
        out.push(bytes[i]);
        proof {
            assert(bytes@.take(i as int).push(bytes[i as int]) =~= bytes@.take(i as int + 1));
        }
        i += 1;
    }
    proof {
        assert(bytes@.take(bytes.len() as int) =~= bytes@);
    }
    out
}

fn duplicate_names(list: &Vec<String>) -> (r: Vec<String>)
    ensures
        r@.map_values(|s: String| s@) == list@.map_values(|s: String| s@),
{
    let mut out: Vec<String> = Vec::new();
    let mut i: usize = 0;
    while i < list.len()
        invariant
            i <= list.len(),
            out.len() == i,
            forall|j: int| 0 <= j < i ==> out[j]@ == list[j]@,
        decreases list.len() - i,
    {
        out.push(list[i].clone());
        i += 1;
    }
    proof {
        assert(out@.map_values(|s: String| s@) =~= list@.map_values(|s: String| s@));
    }
    out
}

impl Value {
    /// A copy of the value.
    pub fn duplicate(&self) -> (r: Value)
        ensures
            r@ == self@,
        decreases self,
    {
        match self {
            Value::Unit => Value::Unit,
            Value::Phantom => Value::Phantom,
            Value::Bool(b) => Value::Bool(*b),
            Value::UInt(n) => Value::UInt(*n),
            Value::Int(n) => Value::Int(*n),
            Value::Bytes(b) => Value::Bytes(duplicate_bytes(b)),
            Value::Text(s) => Value::Text(s.clone()),
            Value::Endian(e) => Value::Endian(*e),
            Value::Absent => Value::Absent,
            Value::Present(inner) => Value::Present(Box::new(inner.duplicate())),
            Value::List(items) => {
                let mut out: Vec<Value> = Vec::new();
                let mut i: usize = 0;
                while i < items.len()
                    invariant
                        i <= items.len(),
                        out.len() == i,
                        forall|j: int| 0 <= j < i ==> out[j]@ == items[j]@,
                        decreases_to!(self => items),
                    decreases items.len() - i,
                {
                    proof {
                        vstd::std_specs::vec::axiom_vec_index_decreases(*items, i as int);
                    }
                    let c = items[i].duplicate();
                    out.push(c);
                    i += 1;
                }
                proof {
                    lemma_list_view(out);
                    lemma_list_view(*items);
                    assert(values_view(out@) =~= values_view(items@));
                }
                Value::List(out)
            },
            Value::Struct { name, shape, names, values } => {
                let mut out: Vec<Value> = Vec::new();
                let mut i: usize = 0;
                while i < values.len()
                    invariant
                        i <= values.len(),
                        out.len() == i,
                        forall|j: int| 0 <= j < i ==> out[j]@ == values[j]@,
                        decreases_to!(self => values),
                    decreases values.len() - i,
                {
                    proof {
                        vstd::std_specs::vec::axiom_vec_index_decreases(*values, i as int);
                    }
                    let c = values[i].duplicate();
                    out.push(c);
                    i += 1;
                }
                let copy_names = duplicate_names(names);
                let copy_name = name.clone();
                proof {
                    lemma_struct_view(copy_name, *shape, copy_names, out);
                    lemma_struct_view(*name, *shape, *names, *values);
                    assert(values_view(out@) =~= values_view(values@));
                }
                Value::Struct { name: copy_name, shape: *shape, names: copy_names, values: out }
            },
        }
    }
}

/// A name with the value bound to it.
#[derive(Debug, PartialEq, Eq)]
pub struct Binding {
    pub name: String,
    pub value: Value,
}

/// What a `Binding` holds, as plain values.
pub struct BindingView {
    pub name: Seq<char>,
    pub value: ValueView,
}

impl View for Binding {
    type V = BindingView;

    open spec fn view(&self) -> BindingView {
        BindingView { name: self.name@, value: self.value@ }
    }
}

/// The views of a list of bindings, in order.
pub open spec fn bindings_view(list: Seq<Binding>) -> Seq<BindingView> {
    list.map_values(|b: Binding| b@)
}

/// The value bound to `name` by the last binding of that name.
pub open spec fn lookup_spec(scope: Seq<BindingView>, name: Seq<char>) -> Option<ValueView>
    decreases scope.len(),
{
    if scope.len() == 0 {
        None
    } else if scope.last().name == name {
        Some(scope.last().value)
    } else {
        lookup_spec(scope.drop_last(), name)
    }
}

impl Binding {
    pub fn new(name: &str, value: Value) -> (r: Binding)
        ensures
            r@ == (BindingView { name: name@, value: value@ }),
    {
        Binding { name: String::from_str(name), value }
    }

    /// A copy of the binding.
    pub fn duplicate(&self) -> (r: Binding)
        ensures
            r@ == self@,
    {
        Binding { name: self.name.clone(), value: self.value.duplicate() }
    }
}

/// A copy of a list of bindings.
pub fn duplicate_bindings(list: &Vec<Binding>) -> (r: Vec<Binding>)
    ensures
        bindings_view(r@) == bindings_view(list@),
{
    let mut out: Vec<Binding> = Vec::new();
    let mut i: usize = 0;
    while i < list.len()
        invariant
            i <= list.len(),
            out.len() == i,
            forall|j: int| 0 <= j < i ==> out[j]@ == list[j]@,
        decreases list.len() - i,
    {
        out.push(list[i].duplicate());
        i += 1;
    }
    proof {
        assert(bindings_view(out@) =~= bindings_view(list@));
    }
    out
}

/// The value bound to `name` by the last binding of that name.
pub fn lookup<'a>(scope: &'a Vec<Binding>, name: &str) -> (r: Option<&'a Value>)
    ensures
        match r {
            Some(v) => lookup_spec(bindings_view(scope@), name@) == Some(v@),
            None => lookup_spec(bindings_view(scope@), name@).is_none(),
        },
{
    let ghost views = bindings_view(scope@);
    let mut i: usize = scope.len();
    proof {
        assert(views.take(i as int) =~= views);
    }
    while i > 0
        invariant
            i <= scope.len(),
            views == bindings_view(scope@),
            lookup_spec(views, name@) == lookup_spec(views.take(i as int), name@),
        decreases i,
    {
        proof {
            assert(views.take(i as int).drop_last() =~= views.take(i as int - 1));
            assert(views.take(i as int).last() == scope[i as int - 1]@);
        }
        i -= 1;
        if str_eq(scope[i].name.as_str(), name) {
            return Some(&scope[i].value);
        }
    }
    None
}

} // verus!
