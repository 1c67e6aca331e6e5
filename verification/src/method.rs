//! Method descriptors: the parameter types, the result type and the number of
//! stack slots that the parameters take.

use crate::field::{FieldType, FieldTypeView};
use crate::text::{decimal, push_decimal};
use vstd::prelude::*;
use vstd::std_specs::cmp::PartialEqSpecImpl;

verus! {

/// The views of a list of types, one for one.
pub open spec fn views(types: Seq<FieldType>) -> Seq<FieldTypeView> {
    Seq::new(types.len(), |i: int| types[i]@)
}

/// The view of a type that may be missing.
pub open spec fn view_of(t: Option<FieldType>) -> Option<FieldTypeView> {
    match t {
        Some(t) => Some(t@),
        None => None,
    }
}

/// The number of stack slots that values of the types take together.
pub open spec fn slots(types: Seq<FieldTypeView>) -> nat
    decreases types.len(),
{
    if types.len() == 0 {
        0
    } else {
        slots(types.drop_last()) + types.last().size()
    }
}

/// The types as source text writes them, with a comma and a space between
/// one and the next.
pub open spec fn joined(types: Seq<FieldTypeView>) -> Seq<char>
    decreases types.len(),
{
    if types.len() == 0 {
        Seq::empty()
    } else if types.len() == 1 {
        types[0].rendered()
    } else {
        joined(types.drop_last()) + ", "@ + types.last().rendered()
    }
}

/// The slots of a list that grows by one type grow by the size of that type.
pub proof fn lemma_slots_push(types: Seq<FieldTypeView>, t: FieldTypeView)
    ensures
        slots(types.push(t)) == slots(types) + t.size(),
{
    assert(types.push(t).drop_last() =~= types);
}

/// Every type takes one slot or two, so a list takes at least as many slots
/// as it has types and at most twice as many.
pub proof fn lemma_slots_bounds(types: Seq<FieldTypeView>)
    ensures
        types.len() <= slots(types) <= 2 * types.len(),
    decreases types.len(),
{
    if types.len() > 0 {
        lemma_slots_bounds(types.drop_last());
    }
}

proof fn lemma_slots_take(types: Seq<FieldTypeView>, i: int)
    requires
        0 <= i < types.len(),
    ensures
        slots(types.take(i + 1)) == slots(types.take(i)) + types[i].size(),
{
    assert(types.take(i + 1).drop_last() =~= types.take(i));
}

proof fn lemma_slots_prefix(types: Seq<FieldTypeView>, i: int)
    requires
        0 <= i <= types.len(),
    ensures
        slots(types.take(i)) <= slots(types),
    decreases types.len() - i,
{
    if i == types.len() {
        assert(types.take(i) =~= types);
    } else {
        lemma_slots_take(types, i);
        lemma_slots_prefix(types, i + 1);
    }
}

/// The signature of a method: the types of its parameters, first parameter
/// first, the type of its result (none for `void`), and the number of stack
/// slots that the parameters take. That number is computed when the
/// descriptor is made and cannot come apart from the parameters afterwards;
/// so it has no part in the view, and equal descriptors hash alike.
#[derive(Eq, Hash)]
pub struct MethodDescriptor {
    parameter_size: usize,
    parameters: Vec<FieldType>,
    return_type: Option<FieldType>,
}

/// What a `MethodDescriptor` stands for.
pub struct MethodDescriptorView {
    pub parameters: Seq<FieldTypeView>,
    pub return_type: Option<FieldTypeView>,
}

impl MethodDescriptorView {
    /// The number of stack slots that the parameters take.
    pub open spec fn width(self) -> nat {
        slots(self.parameters)
    }

    /// The type of the result as source text writes it.
    pub open spec fn result_rendered(self) -> Seq<char> {
        match self.return_type {
            Some(t) => t.rendered(),
            None => "void"@,
        }
    }

    /// The result type, a space, the width of the parameters, and the
    /// parameter types in parentheses: `void 3(int, long)`.
    pub open spec fn rendered(self) -> Seq<char> {
        self.result_rendered() + " "@ + decimal(self.width()) + "("@ + joined(self.parameters)
            + ")"@
    }
}

impl View for MethodDescriptor {
    type V = MethodDescriptorView;

    closed spec fn view(&self) -> MethodDescriptorView {
        MethodDescriptorView {
            parameters: views(self.parameters@),
            return_type: view_of(self.return_type),
        }
    }
}

impl MethodDescriptor {
    #[verifier::type_invariant]
    spec fn width_is_current(&self) -> bool {
        self.parameter_size == slots(views(self.parameters@))
    }

    /// The number that `parameter_size` returns.
    pub closed spec fn spec_parameter_size(&self) -> usize {
        self.parameter_size
    }

    /// The descriptor of a method with these parameters and this result. The
    /// slots of the parameters have to fit in a `usize`.
    pub fn new(parameters: Vec<FieldType>, return_type: Option<FieldType>) -> (r: Self)
        requires
            slots(views(parameters@)) <= usize::MAX,
        ensures
            r@.parameters == views(parameters@),
            r@.return_type == view_of(return_type),
            r.parameter_size() == slots(views(parameters@)),
    {
        let ghost types = views(parameters@);
        let mut width: usize = 0;
        let mut i: usize = 0;
        while i < parameters.len()
            invariant
                i <= parameters.len(),
                types == views(parameters@),
                width == slots(types.take(i as int)),
                slots(types) <= usize::MAX,
            decreases parameters.len() - i,
        {
            proof {
                lemma_slots_take(types, i as int);
                lemma_slots_prefix(types, i + 1);
            }
            width = width + parameters[i].get_size();
            i = i + 1;
        }
        assert(types.take(i as int) =~= types);
        MethodDescriptor { parameter_size: width, parameters, return_type }
    }

    /// The descriptor without parameters and without a result, of width 0.
    pub fn empty() -> (r: Self)
        ensures
            r@.parameters == Seq::<FieldTypeView>::empty(),
            r@.return_type is None,
            r.parameter_size() == 0,
    {
        let parameters: Vec<FieldType> = Vec::new();
        assert(views(parameters@) =~= Seq::<FieldTypeView>::empty());
        MethodDescriptor { parameter_size: 0, parameters, return_type: None }
    }

    /// The number of stack slots that the parameters take: the sum of their
    /// sizes.
    #[verifier::when_used_as_spec(spec_parameter_size)]
    pub fn parameter_size(&self) -> (r: usize)
        ensures
            r == self.spec_parameter_size(),
            r == self@.width(),
    {
        proof {
            use_type_invariant(self);
        }
        self.parameter_size
    }

    /// The types of the parameters, first parameter first.
    pub fn parameters(&self) -> (r: &Vec<FieldType>)
        ensures
            views(r@) == self@.parameters,
    {
        &self.parameters
    }

    /// The type of the result; none for `void`.
    pub fn return_type(&self) -> (r: &Option<FieldType>)
        ensures
            view_of(*r) == self@.return_type,
    {
        &self.return_type
    }

    /// Appends the rendering of the descriptor to `out`.
    pub fn render_into(&self, out: &mut String)
        ensures
            final(out)@ == old(out)@ + self@.rendered(),
    {
        proof {
            use_type_invariant(self);
        }
        let ghost types = self@.parameters;
        match &self.return_type {
            Some(t) => t.render_into(out),
            None => out.append("void"),
        }
        out.append(" ");
        push_decimal(out, self.parameter_size as u64);
        out.append("(");
        let ghost head = out@;
        assert(head =~= old(out)@ + (self@.result_rendered() + " "@ + decimal(self@.width())
            + "("@));
        let mut i: usize = 0;
        assert(out@ =~= head + joined(types.take(0)));
        while i < self.parameters.len()
            invariant
                i <= self.parameters.len(),
                types == views(self.parameters@),
                out@ == head + joined(types.take(i as int)),
            decreases self.parameters.len() - i,
        {
            if i > 0 {
                out.append(", ");
            }
            self.parameters[i].render_into(out);
            proof {
                assert(types.take(i + 1).drop_last() =~= types.take(i as int));
                assert(types.take(i + 1).last() == types[i as int]);
                assert(out@ =~= head + joined(types.take(i + 1)));
            }
            i = i + 1;
        }
        assert(types.take(i as int) =~= types);
        out.append(")");
        assert(out@ =~= old(out)@ + self@.rendered());
    }

    /// The rendering of the descriptor: `void 0()` for the empty one.
    pub fn render(&self) -> (r: String)
        ensures
            r@ == self@.rendered(),
    {
        let mut out = String::new();
        self.render_into(&mut out);
        assert(out@ =~= self@.rendered());
        out
    }
}

impl Clone for MethodDescriptor {
    fn clone(&self) -> (r: Self)
        ensures
            r@ == self@,
    {
        proof {
            use_type_invariant(self);
        }
        let mut parameters: Vec<FieldType> = Vec::new();
        let mut i: usize = 0;
        while i < self.parameters.len()
            invariant
                i <= self.parameters.len(),
                parameters@.len() == i,
                forall|k: int| 0 <= k < i ==> parameters@[k]@ == self.parameters@[k]@,
            decreases self.parameters.len() - i,
        {
            parameters.push(self.parameters[i].clone());
            i = i + 1;
        }
        assert(views(parameters@) =~= views(self.parameters@));
        let return_type = match &self.return_type {
            Some(t) => Some(t.clone()),
            None => None,
        };
        MethodDescriptor { parameter_size: self.parameter_size, parameters, return_type }
    }
}

impl PartialEq for MethodDescriptor {
    /// Two descriptors are equal if they have the same parameter types in
    /// the same order and the same result type.
    fn eq(&self, other: &Self) -> (r: bool) {
        if self.parameters.len() != other.parameters.len() {
            assert(views(self.parameters@).len() != views(other.parameters@).len());
            return false;
        }
        let mut i: usize = 0;
        while i < self.parameters.len()
            invariant
                i <= self.parameters.len(),
                self.parameters.len() == other.parameters.len(),
                forall|k: int| 0 <= k < i ==> self.parameters@[k]@ == other.parameters@[k]@,
            decreases self.parameters.len() - i,
        {
            if !(self.parameters[i] == other.parameters[i]) {
                assert(views(self.parameters@)[i as int] != views(other.parameters@)[i as int]);
                return false;
            }
            i = i + 1;
        }
        assert(views(self.parameters@) =~= views(other.parameters@));
        match (&self.return_type, &other.return_type) {
            (Some(a), Some(b)) => a == b,
            (None, None) => true,
            _ => false,
        }
    }
}

impl PartialEqSpecImpl for MethodDescriptor {
    open spec fn obeys_eq_spec() -> bool {
        true
    }

    open spec fn eq_spec(&self, other: &Self) -> bool {
        self@ == other@
    }
}

} // verus!
