//! The extraction tuple model: the typed values a filter extracts from a
//! request, kept as an ordered, fixed-arity sequence.
//!
//! Sequential composition concatenates the two operands' sequences, left
//! values first; an arity-0 filter contributes nothing and is transparent.

use vstd::prelude::*;

verus! {

/// One extracted value: a parsed number or a piece of text.
#[derive(Clone, Debug, PartialEq, Eq)]
pub enum Value {
    U32(u32),
    Text(String),
}

/// The mathematical model of a [`Value`]: text is seen as its character
/// sequence.
pub enum ValueModel {
    U32(u32),
    Text(Seq<char>),
}

impl View for Value {
    type V = ValueModel;

    open spec fn view(&self) -> ValueModel {
        match self {
            Value::U32(n) => ValueModel::U32(*n),
            Value::Text(s) => ValueModel::Text(s@),
        }
    }
}

impl DeepView for Value {
    type V = ValueModel;

    open spec fn deep_view(&self) -> ValueModel {
        self.view()
    }
}

/// The static type of one extracted value: one slot of a filter's shape.
#[derive(Clone, Copy, Debug, PartialEq, Eq, Structural)]
pub enum Kind {
    U32,
    Text,
}

/// The kind of an extracted value.
pub open spec fn kind_of(v: ValueModel) -> Kind {
    match v {
        ValueModel::U32(_) => Kind::U32,
        ValueModel::Text(_) => Kind::Text,
    }
}

/// The shape of an extraction tuple: the kinds of its values, in order.
pub open spec fn kinds_of(vs: Seq<ValueModel>) -> Seq<Kind> {
    vs.map_values(|v: ValueModel| kind_of(v))
}

/// Shapes concatenate exactly as the tuples they describe do: the shape of
/// a flattened tuple is the left shape followed by the right shape, so
/// flattening is associative and an empty tuple is transparent to it.
pub proof fn lemma_kinds_of_concat(a: Seq<ValueModel>, b: Seq<ValueModel>)
    ensures
        kinds_of(a + b) == kinds_of(a) + kinds_of(b),
        kinds_of(Seq::<ValueModel>::empty() + a) == kinds_of(a),
{
    assert(kinds_of(a + b) =~= kinds_of(a) + kinds_of(b));
    assert(Seq::<ValueModel>::empty() + a =~= a);
}

} // verus!
