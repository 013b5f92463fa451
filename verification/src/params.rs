//! The parameter registry: which identifier stands at which position.

use crate::error::Error;
use vstd::prelude::*;

verus! {

/// The identifier that a plug-in gives to one of its parameters.
pub type ParamId = u64;

/// The position of an identifier in a sequence of identifiers, counted from
/// zero, or nothing if it does not occur.
pub open spec fn position_of(ids: Seq<ParamId>, id: ParamId) -> Option<int> {
    if ids.contains(id) {
        Some(ids.index_of(id))
    } else {
        None
    }
}

/// Whether no identifier occurs twice.
pub open spec fn distinct(ids: Seq<ParamId>) -> bool {
    forall|i: int, j: int| 0 <= i < j < ids.len() ==> ids[i] != ids[j]
}

/// The registry of a module's parameters, in the order of their declaration.
///
/// A parameter's index is its position in that order, counted from zero. The
/// registry is filled while the host asks for the parameters and frozen when
/// that command ends; a frozen registry never changes again.
pub struct ParameterRegistry {
    ids: Vec<ParamId>,
    frozen: bool,
}

impl View for ParameterRegistry {
    type V = Seq<ParamId>;

    /// The declared identifiers, in the order of their declaration.
    closed spec fn view(&self) -> Seq<ParamId> {
        self.ids@
    }
}

impl ParameterRegistry {
    #[verifier::type_invariant]
    spec fn no_identifier_twice(&self) -> bool {
        distinct(self.ids@)
    }

    /// Whether declarations are refused from now on.
    pub closed spec fn frozen(&self) -> bool {
        self.frozen
    }

    /// An empty registry that takes declarations.
    pub fn new() -> (registry: Self)
        ensures
            registry@ == Seq::<ParamId>::empty(),
            !registry.frozen(),
    {
        ParameterRegistry { ids: Vec::new(), frozen: false }
    }

    /// Gives the next index to an identifier that was not declared before.
    ///
    /// A frozen registry refuses with [`Error::RegistryFrozen`], a known
    /// identifier is refused with [`Error::DuplicateParameter`]; the registry
    /// is then unchanged.
    pub fn declare(&mut self, id: ParamId) -> (r: Result<usize, Error>)
        ensures
            distinct(old(self)@),
            distinct(final(self)@),
            final(self).frozen() == old(self).frozen(),
            old(self).frozen() ==> r == Err::<usize, Error>(Error::RegistryFrozen),
            !old(self).frozen() && old(self)@.contains(id) ==> r == Err::<usize, Error>(
                Error::DuplicateParameter,
            ),
            !old(self).frozen() && !old(self)@.contains(id) ==> r == Ok::<usize, Error>(
                old(self)@.len() as usize,
            ),
            r is Err ==> final(self)@ == old(self)@,
            r is Ok ==> final(self)@ == old(self)@.push(id),
    {
        proof {
            use_type_invariant(&*self);
        }
        if self.frozen {
            return Err(Error::RegistryFrozen);
        }
        let mut i: usize = 0;
        while i < self.ids.len()
            invariant
                i <= self.ids@.len(),
                *self == *old(self),
                distinct(self.ids@),
                !self.frozen,
                forall|k: int| 0 <= k < i ==> self.ids@[k] != id,
            decreases self.ids@.len() - i,
        {
            if self.ids[i] == id {
                return Err(Error::DuplicateParameter);
            }
            i += 1;
        }
        let index = self.ids.len();
        let mut ids: Vec<ParamId> = Vec::new();
        std::mem::swap(&mut self.ids, &mut ids);
        ids.push(id);
        proof {
            lemma_declare_then_resolve(old(self)@, id);
        }
        std::mem::swap(&mut self.ids, &mut ids);
        Ok(index)
    }

    /// Refuses every later declaration. What was declared stays as it is.
    pub fn freeze(&mut self)
        ensures
            final(self).frozen(),
            final(self)@ == old(self)@,
    {
        proof {
            use_type_invariant(&*self);
        }
        self.frozen = true;
    }

    /// Whether the registry is frozen.
    pub fn is_frozen(&self) -> (b: bool)
        ensures
            b == self.frozen(),
    {
        self.frozen
    }

    /// How many parameters are declared.
    pub fn num_params(&self) -> (n: usize)
        ensures
            n == self@.len(),
    {
        self.ids.len()
    }

    /// The identifier that was declared at an index, or
    /// [`Error::InvalidIndex`] for an index that no declaration gave out.
    pub fn resolve_index(&self, index: usize) -> (r: Result<ParamId, Error>)
        ensures
            index < self@.len() ==> r == Ok::<ParamId, Error>(self@[index as int]),
            index >= self@.len() ==> r == Err::<ParamId, Error>(Error::InvalidIndex),
    {
        if index < self.ids.len() {
            Ok(self.ids[index])
        } else {
            Err(Error::InvalidIndex)
        }
    }

    /// The index at which an identifier was declared, or
    /// [`Error::InvalidIndex`] for one that was never declared.
    pub fn resolve_id(&self, id: ParamId) -> (r: Result<usize, Error>)
        ensures
            distinct(self@),
            match position_of(self@, id) {
                Some(i) => r == Ok::<usize, Error>(i as usize),
                None => r == Err::<usize, Error>(Error::InvalidIndex),
            },
            r matches Ok(i) ==> i < self@.len() && self@[i as int] == id,
    {
        proof {
            use_type_invariant(self);
        }
        let mut i: usize = 0;
        while i < self.ids.len()
            invariant
                i <= self.ids@.len(),
                distinct(self.ids@),
                forall|k: int| 0 <= k < i ==> self.ids@[k] != id,
            decreases self.ids@.len() - i,
        {
            if self.ids[i] == id {
                proof {
                    lemma_position_is_unique(self.ids@, i as int);
                }
                return Ok(i);
            }
            i += 1;
        }
        Err(Error::InvalidIndex)
    }
}

/// The two lookups of a registry are inverse to each other: where no
/// identifier occurs twice, the identifier at an index is found at that
/// index and nowhere else.
pub proof fn lemma_position_is_unique(ids: Seq<ParamId>, i: int)
    requires
        distinct(ids),
        0 <= i < ids.len(),
    ensures
        position_of(ids, ids[i]) == Some(i),
{
    assert(ids.contains(ids[i]));
    let j = ids.index_of(ids[i]);
    assert(0 <= j < ids.len() && ids[j] == ids[i]);
    if j < i {
        assert(ids[j] != ids[i]);
    }
    if i < j {
        assert(ids[i] != ids[j]);
    }
}

/// A declaration that succeeded is undone by neither lookup: the index it
/// gave out leads to the identifier, the identifier leads to the index, and
/// every earlier declaration is found where it was.
pub proof fn lemma_declare_then_resolve(ids: Seq<ParamId>, id: ParamId)
    requires
        distinct(ids),
        !ids.contains(id),
    ensures
        distinct(ids.push(id)),
        ids.push(id)[ids.len() as int] == id,
        position_of(ids.push(id), id) == Some(ids.len() as int),
        forall|i: int| 0 <= i < ids.len() ==> position_of(ids.push(id), ids[i]) == Some(i),
{
    let after = ids.push(id);
    assert forall|i: int, j: int| 0 <= i < j < after.len() implies after[i] != after[j] by {
        if j == ids.len() {
            assert(ids.contains(ids[i]));
        }
    }
    lemma_position_is_unique(after, ids.len() as int);
    assert forall|i: int| 0 <= i < ids.len() implies position_of(after, ids[i]) == Some(i) by {
        assert(after[i] == ids[i]);
        lemma_position_is_unique(after, i);
    }
}

} // verus!
