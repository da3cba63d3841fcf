//! That written types stand for types of the shape that is written.

use crate::ast::{lone_name, TypeName, TypeNameKind};
use crate::generics::Environment;
use crate::hir::TypeDefinitionKind;
use crate::list::List;
use crate::registry::naming::{length_resolved, path_resolved, resolved, sequence_resolved};
use crate::registry::{registered, StructuralType, Types};
use crate::span::Span;
use crate::text::Text;
use crate::types::Type;
use vstd::prelude::*;

verus! {

/// The shape of an unnamed composite type, where it has one of its own.
pub open spec fn shape_of<'a>(key: StructuralType) -> Option<TypeDefinitionKind<'a>> {
    match key {
        StructuralType::Tuple(elements) => Some(TypeDefinitionKind::Tuple { elements }),
        StructuralType::Array { element, length } => Some(
            TypeDefinitionKind::Array { element, length },
        ),
        StructuralType::Reference { target, mutable } => Some(
            TypeDefinitionKind::Reference { target, mutable },
        ),
        StructuralType::RawPointer { target, mutable } => Some(
            TypeDefinitionKind::RawPointer { target, mutable },
        ),
        StructuralType::Slice { element, mutable } => Some(
            TypeDefinitionKind::Slice { element, mutable },
        ),
        StructuralType::Function { parameters, return_type } => Some(
            TypeDefinitionKind::Function { parameters, return_type },
        ),
        _ => None,
    }
}

/// Whether the registered composite types have the shapes that they are
/// registered for.
pub open spec fn well_shaped(types: Types) -> bool {
    forall|key: StructuralType|
        shape_of(key) is Some && #[trigger] registered(types.structural, key) is Some
            ==> types.shape(registered(types.structural, key)->0) == shape_of(key)
}

/// Whether a type, if there is one, has a shape.
pub open spec fn has_shape<'a>(
    types: Types<'a>,
    ty: Option<Type>,
    kind: TypeDefinitionKind<'a>,
) -> bool {
    ty is Some ==> types.shape(ty->0) == Some(kind)
}

/// A composite type that is asked for has its shape, whether it is new or not,
/// and the types that are registered keep theirs.
pub proof fn registered_types_have_their_shape<'a>(
    types: Types<'a>,
    key: StructuralType,
    name: Option<Text<'a>>,
    kind: TypeDefinitionKind<'a>,
    span: Span,
)
    requires
        well_shaped(types),
        shape_of(key) == Some(kind),
    ensures
        well_shaped(types.interned(key, name, kind, span).0),
        has_shape(
            types.interned(key, name, kind, span).0,
            types.interned(key, name, kind, span).1,
            kind,
        ),
{
    let (more, ty) = types.interned(key, name, kind, span);
    if registered(types.structural, key) is None {
        assert forall|other: StructuralType|
            shape_of(other) is Some && #[trigger] registered(more.structural, other)
                is Some implies more.shape(registered(more.structural, other)->0) == shape_of(
            other,
        ) by {
            if other != key {
                let known = registered(types.structural, other);
                assert(registered(more.structural, other) == known);
                assert(types.shape(known->0) == shape_of(other));
            }
        }
    } else {
        assert(types.shape(registered(types.structural, key)->0) == shape_of(key));
    }
}

spec fn target_of(written: TypeName) -> TypeName {
    match *written.kind {
        TypeNameKind::Reference { target, .. } => match *target.kind {
            TypeNameKind::Slice(element) => element,
            _ => target,
        },
        TypeNameKind::RawPointer { target, .. } => target,
        TypeNameKind::Array { element, .. } => element,
        TypeNameKind::Function { return_type, .. } => return_type,
        _ => written,
    }
}

/// A reference that is written stands for a reference to what its target stands
/// for, through which something can be changed exactly if it says `mut`; a
/// reference to a slice stands for such a slice.
pub proof fn references_resolve_to_references<'a>(
    types: Types<'a>,
    written: TypeName<'a>,
    mutable: bool,
    target: TypeName<'a>,
    environment: Environment<'a>,
    fuel: nat,
)
    requires
        fuel > 0,
        *written.kind == (TypeNameKind::Reference { mutable, target }),
    ensures
        ({
            let inner = match *target.kind {
                TypeNameKind::Slice(element) => element,
                _ => target,
            };
            let (more, ty) = resolved(types, written, environment, fuel);
            match resolved(types, inner, environment, (fuel - 1) as nat) {
                (middle, Some(found)) => well_shaped(middle) ==> well_shaped(more) && has_shape(
                    more,
                    ty,
                    if *target.kind is Slice {
                        TypeDefinitionKind::Slice { element: found, mutable }
                    } else {
                        TypeDefinitionKind::Reference { target: found, mutable }
                    },
                ),
                (_, None) => ty is None,
            }
        }),
{
    let (middle, found) = resolved(types, target_of(written), environment, (fuel - 1) as nat);
    if let Some(found) = found {
        if well_shaped(middle) {
            registered_types_have_their_shape(
                middle,
                StructuralType::Slice { element: found, mutable },
                None,
                TypeDefinitionKind::Slice { element: found, mutable },
                written.span,
            );
            registered_types_have_their_shape(
                middle,
                StructuralType::Reference { target: found, mutable },
                None,
                TypeDefinitionKind::Reference { target: found, mutable },
                written.span,
            );
        }
    }
}

/// A raw pointer that is written stands for a raw pointer to what its target
/// stands for.
pub proof fn raw_pointers_resolve_to_raw_pointers<'a>(
    types: Types<'a>,
    written: TypeName<'a>,
    mutable: bool,
    target: TypeName<'a>,
    environment: Environment<'a>,
    fuel: nat,
)
    requires
        fuel > 0,
        *written.kind == (TypeNameKind::RawPointer { mutable, target }),
    ensures
        ({
            let (more, ty) = resolved(types, written, environment, fuel);
            match resolved(types, target, environment, (fuel - 1) as nat) {
                (middle, Some(found)) => well_shaped(middle) ==> well_shaped(more) && has_shape(
                    more,
                    ty,
                    TypeDefinitionKind::RawPointer { target: found, mutable },
                ),
                (_, None) => ty is None,
            }
        }),
{
    let (middle, found) = resolved(types, target, environment, (fuel - 1) as nat);
    if let Some(found) = found {
        if well_shaped(middle) {
            registered_types_have_their_shape(
                middle,
                StructuralType::RawPointer { target: found, mutable },
                None,
                TypeDefinitionKind::RawPointer { target: found, mutable },
                written.span,
            );
        }
    }
}

/// An array that is written stands for an array of what its element stands for,
/// as long as its length says.
pub proof fn arrays_resolve_to_arrays<'a>(
    types: Types<'a>,
    written: TypeName<'a>,
    element: TypeName<'a>,
    length: crate::ast::Expression<'a>,
    environment: Environment<'a>,
    fuel: nat,
)
    requires
        fuel > 0,
        *written.kind == (TypeNameKind::Array { element, length }),
    ensures
        ({
            let (more, ty) = resolved(types, written, environment, fuel);
            match resolved(types, element, environment, (fuel - 1) as nat) {
                (middle, Some(found)) => match length_resolved(middle, length, environment).1 {
                    Some(count) => well_shaped(middle) ==> well_shaped(more) && has_shape(
                        more,
                        ty,
                        TypeDefinitionKind::Array { element: found, length: count },
                    ),
                    None => ty is None,
                },
                (_, None) => ty is None,
            }
        }),
{
    reveal(length_resolved);
    let (middle, found) = resolved(types, element, environment, (fuel - 1) as nat);
    if let Some(found) = found {
        let (measured, count) = length_resolved(middle, length, environment);
        if let Some(count) = count {
            if well_shaped(middle) {
                assert(measured.structural == middle.structural);
                assert(measured.definitions == middle.definitions);
                assert forall|key: StructuralType|
                    shape_of(key) is Some && #[trigger] registered(measured.structural, key)
                        is Some implies measured.shape(registered(measured.structural, key)->0)
                    == shape_of(key) by {
                    assert(middle.shape(registered(middle.structural, key)->0) == shape_of(key));
                }
                registered_types_have_their_shape(
                    measured,
                    StructuralType::Array { element: found, length: count },
                    None,
                    TypeDefinitionKind::Array { element: found, length: count },
                    written.span,
                );
            }
        }
    }
}

/// A tuple that is written stands for a tuple of what its elements stand for, in
/// their order.
pub proof fn tuples_resolve_to_tuples<'a>(
    types: Types<'a>,
    written: TypeName<'a>,
    elements: List<TypeName<'a>>,
    environment: Environment<'a>,
    fuel: nat,
)
    requires
        fuel > 0,
        *written.kind == TypeNameKind::Tuple(elements),
    ensures
        ({
            let (more, ty) = resolved(types, written, environment, fuel);
            match sequence_resolved(types, elements, environment, (fuel - 1) as nat) {
                (middle, Some(found)) => well_shaped(middle) ==> well_shaped(more) && has_shape(
                    more,
                    ty,
                    TypeDefinitionKind::Tuple { elements: found },
                ),
                (_, None) => ty is None,
            }
        }),
{
    let (middle, found) = sequence_resolved(types, elements, environment, (fuel - 1) as nat);
    if let Some(found) = found {
        if well_shaped(middle) {
            registered_types_have_their_shape(
                middle,
                StructuralType::Tuple(found),
                None,
                TypeDefinitionKind::Tuple { elements: found },
                written.span,
            );
        }
    }
}

/// A function type that is written stands for functions from what its parameters
/// stand for, in their order, to what its result stands for.
pub proof fn functions_resolve_to_functions<'a>(
    types: Types<'a>,
    written: TypeName<'a>,
    parameters: List<TypeName<'a>>,
    return_type: TypeName<'a>,
    environment: Environment<'a>,
    fuel: nat,
)
    requires
        fuel > 0,
        *written.kind == (TypeNameKind::Function { parameters, return_type }),
    ensures
        ({
            let (more, ty) = resolved(types, written, environment, fuel);
            match sequence_resolved(types, parameters, environment, (fuel - 1) as nat) {
                (first, Some(inputs)) => match resolved(
                    first,
                    return_type,
                    environment,
                    (fuel - 1) as nat,
                ) {
                    (second, Some(output)) => well_shaped(second) ==> well_shaped(more)
                        && has_shape(
                        more,
                        ty,
                        TypeDefinitionKind::Function { parameters: inputs, return_type: output },
                    ),
                    (_, None) => ty is None,
                },
                (_, None) => ty is None,
            }
        }),
{
    let (first, inputs) = sequence_resolved(types, parameters, environment, (fuel - 1) as nat);
    if let Some(inputs) = inputs {
        let (second, output) = resolved(first, return_type, environment, (fuel - 1) as nat);
        if let Some(output) = output {
            if well_shaped(second) {
                registered_types_have_their_shape(
                    second,
                    StructuralType::Function { parameters: inputs, return_type: output },
                    None,
                    TypeDefinitionKind::Function { parameters: inputs, return_type: output },
                    written.span,
                );
            }
        }
    }
}

/// A list of written types without packs stands for as many types, each for what
/// it stands for behind those in front of it.
pub proof fn first_types_resolve_first<'a>(
    types: Types<'a>,
    written: List<TypeName<'a>>,
    environment: Environment<'a>,
    fuel: nat,
)
    requires
        written is Cons,
        !is_pack(written.first()),
        sequence_resolved(types, written, environment, fuel).1 is Some,
    ensures
        ({
            let (middle, first) = resolved(types, written.first(), environment, fuel);
            let found = sequence_resolved(types, written, environment, fuel).1->0;
            &&& first is Some
            &&& found is Cons
            &&& found.first() == first->0
            &&& sequence_resolved(middle, written.rest(), environment, fuel).1 == Some(
                found.rest(),
            )
        }),
{
    let (middle, first) = resolved(types, written.first(), environment, fuel);
    if let Some(first) = first {
        if let Some(rest) = sequence_resolved(middle, written.rest(), environment, fuel).1 {
            assert(crate::list::append(crate::list::cons(first, List::Nil), rest)
                == crate::list::cons(first, rest)) by {
                reveal_with_fuel(crate::list::append, 3);
            }
        }
    }
}

/// Whether a written type stands for several.
pub open spec fn is_pack(written: TypeName) -> bool {
    *written.kind is PackExpansion
}

/// A name stands for what a generic parameter of that name is bound to, else for
/// the type that the language gives the name, else for the declared type.
pub proof fn names_resolve_to_their_types<'a>(
    types: Types<'a>,
    written: TypeName<'a>,
    path: crate::ast::Path<'a>,
    environment: Environment<'a>,
    fuel: nat,
)
    requires
        fuel > 0,
        *written.kind == TypeNameKind::Path(path),
    ensures
        ({
            let (more, ty) = resolved(types, written, environment, fuel);
            let meant = match lone_name(path) {
                Some(name) => types.named(environment, name@),
                None => None,
            };
            &&& ty == meant
            &&& meant is Some ==> more == types
            &&& meant is None ==> more.problems.len() == types.problems.len() + 1
        }),
{
    reveal(path_resolved);
}

} // verus!
