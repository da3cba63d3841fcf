//! How the types of a compilation unit may change.

use crate::hir::TypeDefinition;
use crate::generics::GenericValue;
use crate::list::List;
use crate::registry::{known_instance, registered, StructuralType, Types};
use crate::span::kept;
use crate::types::TypeId;
use crate::typing::sound_entries;
use vstd::prelude::*;

verus! {

broadcast use crate::span::group_kept;

/// Whether each definition bears the number of its position.
pub open spec fn numbered(definitions: Seq<TypeDefinition>) -> bool {
    forall|i: int|
        0 <= i < definitions.len() ==> (#[trigger] definitions[i]).id == TypeId(i as u32)
}

/// Whether definitions are of the same type, which may have been filled in.
pub open spec fn same_type(before: TypeDefinition, after: TypeDefinition) -> bool {
    before.id == after.id && before.name == after.name && before.span == after.span
}

impl<'a> Types<'a> {
    /// Whether these types can turn into others: no problem is dropped, every
    /// type keeps its definition, definitions stay numbered, and constants stay
    /// sound.
    #[verifier::opaque]
    pub open spec fn grows_into(self, later: Types<'a>) -> bool {
        &&& kept(self.problems, later.problems)
        &&& self.definitions.len() <= later.definitions.len()
        &&& forall|i: int|
            0 <= i < self.definitions.len() ==> same_type(
                #[trigger] self.definitions[i],
                later.definitions[i],
            )
        &&& numbered(self.definitions) ==> numbered(later.definitions)
        &&& sound_entries(self.constants) ==> sound_entries(later.constants)
    }
}

/// Types stay the same where nothing happens.
pub broadcast proof fn grows_in_place<'a>(before: Types<'a>, after: Types<'a>)
    requires
        before == after,
    ensures
        #[trigger] before.grows_into(after),
{
    reveal(Types::grows_into);
}

/// Types grow where they grow at every step.
pub broadcast proof fn grows_step_by_step<'a>(first: Types<'a>, second: Types<'a>, third: Types<'a>)
    requires
        #[trigger] first.grows_into(second),
        #[trigger] second.grows_into(third),
    ensures
        first.grows_into(third),
{
    reveal(Types::grows_into);
    assert forall|i: int| 0 <= i < first.definitions.len() implies same_type(
        #[trigger] first.definitions[i],
        third.definitions[i],
    ) by {
        assert(same_type(second.definitions[i], third.definitions[i]));
    }
}

pub broadcast group group_grown {
    grows_in_place,
    grows_step_by_step,
}

impl<'a> Types<'a> {
    /// Whether later types answer every question about names and registered
    /// types as these do: nothing that is registered is registered anew.
    #[verifier::opaque]
    pub open spec fn keeps(self, later: Types<'a>) -> bool {
        &&& self.platform == later.platform
        &&& self.names == later.names
        &&& self.generic_templates == later.generic_templates
        &&& forall|key: StructuralType| #[trigger]
            registered(self.structural, key) is Some ==> registered(later.structural, key)
                == registered(self.structural, key)
        &&& forall|name: Seq<char>, arguments: List<GenericValue>| #[trigger]
            known_instance(self.generic_instances, name, arguments) is Some ==> known_instance(
                later.generic_instances,
                name,
                arguments,
            ) == known_instance(self.generic_instances, name, arguments)
    }
}

/// Nothing changes where nothing is registered.
pub broadcast proof fn registered_stay<'a>(before: Types<'a>, after: Types<'a>)
    requires
        before.platform == after.platform,
        before.names == after.names,
        before.generic_templates == after.generic_templates,
        before.structural == after.structural,
        before.generic_instances == after.generic_instances,
    ensures
        #[trigger] before.keeps(after),
{
    reveal(Types::keeps);
}

/// What is kept at every step is kept.
pub broadcast proof fn registered_stay_step_by_step<'a>(
    first: Types<'a>,
    second: Types<'a>,
    third: Types<'a>,
)
    requires
        #[trigger] first.keeps(second),
        #[trigger] second.keeps(third),
    ensures
        first.keeps(third),
{
    reveal(Types::keeps);
}

pub broadcast group group_interned {
    registered_stay,
    registered_stay_step_by_step,
}

} // verus!
