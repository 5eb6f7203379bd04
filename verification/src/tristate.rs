use vstd::prelude::*;

verus! {

/// How one configurable field of an event is to be resolved.
#[derive(Debug, Clone, PartialEq)]
pub enum TriState<T> {
    /// The field is left out of the event.
    Unset,
    /// The field is derived from the report when the event is built.
    Inferred,
    /// The field has exactly this value.
    Explicit(T),
}

impl<T> TriState<T> {
    /// The state after a request to derive the field: an explicit value is
    /// kept, anything else becomes `Inferred`.
    pub open spec fn spec_infer(self) -> Self {
        match self {
            TriState::Explicit(v) => TriState::Explicit(v),
            _ => TriState::Inferred,
        }
    }

    /// The state after a request to fix the field to `value`.
    pub open spec fn spec_set(self, value: T) -> Self {
        TriState::Explicit(value)
    }

    /// The state after the setting `incoming` is layered onto this one:
    /// `Unset` changes nothing, `Inferred` asks for the field to be derived,
    /// and an explicit value replaces whatever was there.
    pub open spec fn spec_merge(self, incoming: Self) -> Self {
        match incoming {
            TriState::Unset => self,
            TriState::Inferred => self.spec_infer(),
            TriState::Explicit(v) => self.spec_set(v),
        }
    }

    /// Requests that the field be derived. An explicit value stays.
    pub fn infer(self) -> (r: Self)
        ensures
            r == self.spec_infer(),
    {
        match self {
            TriState::Explicit(v) => TriState::Explicit(v),
            _ => TriState::Inferred,
        }
    }

    /// Fixes the field to `value`, whatever it was before.
    pub fn set(self, value: T) -> (r: Self)
        ensures
            r == self.spec_set(value),
    {
        TriState::Explicit(value)
    }

    /// Layers the setting `incoming` onto this one.
    pub fn merge(self, incoming: Self) -> (r: Self)
        ensures
            r == self.spec_merge(incoming),
    {
        match incoming {
            TriState::Unset => self,
            TriState::Inferred => self.infer(),
            TriState::Explicit(v) => self.set(v),
        }
    }

    /// Asking twice for a field to be derived is the same as asking once.
    pub proof fn law_infer_idempotent(self)
        ensures
            self.spec_infer().spec_infer() == self.spec_infer(),
    {
    }

    /// A value set after a request to derive the field is the field's value.
    pub proof fn law_set_after_infer(self, value: T)
        ensures
            self.spec_infer().spec_set(value) == TriState::Explicit(value),
    {
    }

    /// A request to derive the field does not displace a value set before.
    pub proof fn law_infer_after_set(self, value: T)
        ensures
            self.spec_set(value).spec_infer() == TriState::Explicit(value),
    {
    }

    /// A later explicit value replaces an earlier one.
    pub proof fn law_last_set_wins(self, first: T, second: T)
        ensures
            self.spec_set(first).spec_set(second) == TriState::Explicit(second),
    {
    }

    /// Layering never lowers a setting: what was explicit stays explicit,
    /// and what was to be derived is not unset again.
    pub proof fn law_merge_keeps_rank(self, incoming: Self)
        ensures
            self is Explicit ==> self.spec_merge(incoming) is Explicit,
            self is Inferred ==> !(self.spec_merge(incoming) is Unset),
            incoming is Explicit ==> self.spec_merge(incoming) == incoming,
    {
    }
}

/// The view of a text setting.
pub open spec fn text_state(t: TriState<String>) -> TriState<Seq<char>> {
    match t {
        TriState::Unset => TriState::Unset,
        TriState::Inferred => TriState::Inferred,
        TriState::Explicit(s) => TriState::Explicit(s@),
    }
}

} // verus!
