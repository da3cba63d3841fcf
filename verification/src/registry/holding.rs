//! What values of a type are made of, and what follows from it.

use crate::hir::{
    DerivedTrait, EnumVariant, EnumVariantFields, TypeDefinitionKind, TypeField,
};
use crate::list::List;
use crate::registry::capability::{
    all_copyable, copyable, has_derived, implemented, TYPE_DEPTH,
};
use crate::registry::storage::{any_field_scoped, any_scoped, any_variant_scoped, scoped};
use crate::registry::{Types, LIMIT};
use crate::types::Type;
use vstd::prelude::*;

verus! {

/// Whether one of the fields has a type.
pub open spec fn has_field_of(fields: Seq<TypeField>, part: Type) -> bool {
    exists|i: int| 0 <= i < fields.len() && (#[trigger] fields[i]).ty == part
}

/// Whether a variant carries something of a type.
pub open spec fn carries_type(variant: EnumVariant, part: Type) -> bool {
    match variant.fields {
        EnumVariantFields::Unit => false,
        EnumVariantFields::Tuple(list) => list@.contains(part),
        EnumVariantFields::Struct(fields) => has_field_of(fields@, part),
    }
}

/// Whether values of a type hold, as a part of their own, a value of another
/// type: a field, an element, or what a variant carries.
pub open spec fn is_part(types: Types, part: Type, whole: Type) -> bool {
    match types.shape(whole) {
        Some(TypeDefinitionKind::Struct { fields }) => has_field_of(fields@, part),
        Some(TypeDefinitionKind::Tuple { elements }) => elements@.contains(part),
        Some(TypeDefinitionKind::Array { element, .. }) => element == part,
        Some(TypeDefinitionKind::Enum { variants }) => exists|i: int|
            0 <= i < variants@.len() && carries_type(#[trigger] variants@[i], part),
        _ => false,
    }
}

/// Whether a type is itself one of references or views.
pub open spec fn is_view(types: Types, ty: Type) -> bool {
    ||| ty is Reference || ty is Slice || ty is Str || ty is CStr
    ||| match types.shape(ty) {
        Some(TypeDefinitionKind::Reference { .. }) => true,
        Some(TypeDefinitionKind::Slice { .. }) => true,
        _ => false,
    }
}

proof fn scoped_anywhere_in_list(types: Types, list: List<Type>, depth: nat)
    ensures
        any_scoped(types, list, depth) == exists|i: int|
            0 <= i < list@.len() && scoped(types, #[trigger] list@[i], depth),
    decreases list,
{
    if list is Cons {
        scoped_anywhere_in_list(types, list.rest(), depth);
        assert(list@ =~= seq![list.first()] + list.rest()@);
        assert(list@[0] == list.first());
        if any_scoped(types, list.rest(), depth) {
            let i = choose|i: int|
                0 <= i < list.rest()@.len() && scoped(types, #[trigger] list.rest()@[i], depth);
            assert(list@[i + 1] == list.rest()@[i]);
        }
        if exists|i: int| 0 <= i < list@.len() && scoped(types, #[trigger] list@[i], depth) {
            let i = choose|i: int|
                0 <= i < list@.len() && scoped(types, #[trigger] list@[i], depth);
            if i > 0 {
                assert(list.rest()@[i - 1] == list@[i]);
            }
        }
    }
}

proof fn scoped_anywhere_in_fields(types: Types, fields: List<TypeField>, depth: nat)
    ensures
        any_field_scoped(types, fields, depth) == exists|i: int|
            0 <= i < fields@.len() && scoped(types, (#[trigger] fields@[i]).ty, depth),
    decreases fields,
{
    if fields is Cons {
        scoped_anywhere_in_fields(types, fields.rest(), depth);
        assert(fields@ =~= seq![fields.first()] + fields.rest()@);
        assert(fields@[0] == fields.first());
        if any_field_scoped(types, fields.rest(), depth) {
            let i = choose|i: int|
                0 <= i < fields.rest()@.len() && scoped(
                    types,
                    (#[trigger] fields.rest()@[i]).ty,
                    depth,
                );
            assert(fields@[i + 1] == fields.rest()@[i]);
        }
        if exists|i: int|
            0 <= i < fields@.len() && scoped(types, (#[trigger] fields@[i]).ty, depth) {
            let i = choose|i: int|
                0 <= i < fields@.len() && scoped(types, (#[trigger] fields@[i]).ty, depth);
            if i > 0 {
                assert(fields.rest()@[i - 1] == fields@[i]);
            }
        }
    }
}

/// Whether a variant carries something that is scoped.
spec fn variant_scoped(types: Types, variant: EnumVariant, depth: nat) -> bool {
    match variant.fields {
        EnumVariantFields::Unit => false,
        EnumVariantFields::Tuple(list) => any_scoped(types, list, depth),
        EnumVariantFields::Struct(fields) => any_field_scoped(types, fields, depth),
    }
}

proof fn scoped_anywhere_in_variants(types: Types, variants: List<EnumVariant>, depth: nat)
    ensures
        any_variant_scoped(types, variants, depth) == exists|i: int|
            0 <= i < variants@.len() && variant_scoped(types, #[trigger] variants@[i], depth),
    decreases variants,
{
    if variants is Cons {
        scoped_anywhere_in_variants(types, variants.rest(), depth);
        assert(variants@ =~= seq![variants.first()] + variants.rest()@);
        assert(variants@[0] == variants.first());
        if any_variant_scoped(types, variants.rest(), depth) {
            let i = choose|i: int|
                0 <= i < variants.rest()@.len() && variant_scoped(
                    types,
                    #[trigger] variants.rest()@[i],
                    depth,
                );
            assert(variants@[i + 1] == variants.rest()@[i]);
        }
        if exists|i: int|
            0 <= i < variants@.len() && variant_scoped(types, #[trigger] variants@[i], depth) {
            let i = choose|i: int|
                0 <= i < variants@.len() && variant_scoped(types, #[trigger] variants@[i], depth);
            if i > 0 {
                assert(variants.rest()@[i - 1] == variants@[i]);
            }
        }
    }
}

/// Values of a type are scoped, looked at from a depth, where they are views or
/// hold a part that is scoped one deeper.
proof fn scoped_values_have_scoped_parts(types: Types, ty: Type, depth: nat)
    requires
        depth <= TYPE_DEPTH,
    ensures
        scoped(types, ty, depth) == (is_view(types, ty) || exists|part: Type| #[trigger]
            is_part(types, part, ty) && scoped(types, part, depth + 1)),
{
    match types.shape(ty) {
        Some(TypeDefinitionKind::Struct { fields }) => {
            scoped_anywhere_in_fields(types, fields, depth + 1);
            if any_field_scoped(types, fields, depth + 1) {
                let i = choose|i: int|
                    0 <= i < fields@.len() && scoped(
                        types,
                        (#[trigger] fields@[i]).ty,
                        depth + 1,
                    );
                assert(is_part(types, fields@[i].ty, ty));
            }
            if exists|part: Type| #[trigger]
                is_part(types, part, ty) && scoped(types, part, depth + 1) {
                let part = choose|part: Type| #[trigger]
                    is_part(types, part, ty) && scoped(types, part, depth + 1);
                let i = choose|i: int| 0 <= i < fields@.len() && (#[trigger] fields@[i]).ty == part;
                assert(scoped(types, fields@[i].ty, depth + 1));
            }
        },
        Some(TypeDefinitionKind::Tuple { elements }) => {
            scoped_anywhere_in_list(types, elements, depth + 1);
            if any_scoped(types, elements, depth + 1) {
                let i = choose|i: int|
                    0 <= i < elements@.len() && scoped(types, #[trigger] elements@[i], depth + 1);
                assert(is_part(types, elements@[i], ty));
            }
            if exists|part: Type| #[trigger]
                is_part(types, part, ty) && scoped(types, part, depth + 1) {
                let part = choose|part: Type| #[trigger]
                    is_part(types, part, ty) && scoped(types, part, depth + 1);
                let i = choose|i: int| 0 <= i < elements@.len() && elements@[i] == part;
                assert(scoped(types, elements@[i], depth + 1));
            }
        },
        Some(TypeDefinitionKind::Array { element, .. }) => {
            assert(is_part(types, element, ty));
        },
        Some(TypeDefinitionKind::Enum { variants }) => {
            scoped_anywhere_in_variants(types, variants, depth + 1);
            if any_variant_scoped(types, variants, depth + 1) {
                let i = choose|i: int|
                    0 <= i < variants@.len() && variant_scoped(
                        types,
                        #[trigger] variants@[i],
                        depth + 1,
                    );
                match variants@[i].fields {
                    EnumVariantFields::Unit => {},
                    EnumVariantFields::Tuple(list) => {
                        scoped_anywhere_in_list(types, list, depth + 1);
                        let j = choose|j: int|
                            0 <= j < list@.len() && scoped(types, #[trigger] list@[j], depth + 1);
                        assert(carries_type(variants@[i], list@[j]));
                        assert(is_part(types, list@[j], ty));
                    },
                    EnumVariantFields::Struct(fields) => {
                        scoped_anywhere_in_fields(types, fields, depth + 1);
                        let j = choose|j: int|
                            0 <= j < fields@.len() && scoped(
                                types,
                                (#[trigger] fields@[j]).ty,
                                depth + 1,
                            );
                        assert(carries_type(variants@[i], fields@[j].ty));
                        assert(is_part(types, fields@[j].ty, ty));
                    },
                }
            }
            if exists|part: Type| #[trigger]
                is_part(types, part, ty) && scoped(types, part, depth + 1) {
                let part = choose|part: Type| #[trigger]
                    is_part(types, part, ty) && scoped(types, part, depth + 1);
                let i = choose|i: int|
                    0 <= i < variants@.len() && carries_type(#[trigger] variants@[i], part);
                match variants@[i].fields {
                    EnumVariantFields::Unit => {},
                    EnumVariantFields::Tuple(list) => {
                        scoped_anywhere_in_list(types, list, depth + 1);
                        let j = choose|j: int| 0 <= j < list@.len() && list@[j] == part;
                        assert(scoped(types, list@[j], depth + 1));
                    },
                    EnumVariantFields::Struct(fields) => {
                        scoped_anywhere_in_fields(types, fields, depth + 1);
                        let j = choose|j: int|
                            0 <= j < fields@.len() && (#[trigger] fields@[j]).ty == part;
                        assert(scoped(types, fields@[j].ty, depth + 1));
                    },
                }
                assert(variant_scoped(types, variants@[i], depth + 1));
            }
        },
        _ => {},
    }
}

proof fn scoped_stays_scoped_deeper(types: Types, ty: Type, depth: nat)
    ensures
        scoped(types, ty, depth) ==> scoped(types, ty, depth + 1),
    decreases (if depth > TYPE_DEPTH {
        0
    } else {
        TYPE_DEPTH + 1 - depth
    }),
{
    if depth < TYPE_DEPTH {
        scoped_values_have_scoped_parts(types, ty, depth);
        scoped_values_have_scoped_parts(types, ty, depth + 1);
        if scoped(types, ty, depth) && !is_view(types, ty) {
            let part = choose|part: Type| #[trigger]
                is_part(types, part, ty) && scoped(types, part, depth + 1);
            scoped_stays_scoped_deeper(types, part, depth + 1);
        }
    }
}

/// References, slices and strings hold references, and so does everything that
/// holds something that does: whatever the parts of a value refer to, the value
/// refers to.
pub proof fn what_holds_references_is_scoped<'a>(types: Types<'a>, part: Type, whole: Type)
    ensures
        is_view(types, whole) ==> types.is_scoped(whole),
        is_part(types, part, whole) && types.is_scoped(part) ==> types.is_scoped(whole),
{
    reveal(Types::is_scoped);
    scoped_values_have_scoped_parts(types, whole, 0);
    scoped_stays_scoped_deeper(types, part, 0);
}

/// A type holds references only if it is one of views, or a part of it may hold
/// references. Types without parts that are no views hold none.
pub proof fn scoped_types_hold_references<'a>(types: Types<'a>, ty: Type)
    requires
        types.is_scoped(ty),
    ensures
        is_view(types, ty) || exists|part: Type| #[trigger]
            is_part(types, part, ty) && scoped(types, part, 1),
{
    reveal(Types::is_scoped);
    scoped_values_have_scoped_parts(types, ty, 0);
}

/// Whether a type is declared to be copied.
pub open spec fn says_copy(types: Types, ty: Type) -> bool {
    has_derived(types, ty, DerivedTrait::Copy) || implemented(
        types,
        types.trait_implementations,
        ty,
        "Copy"@,
        0,
        (LIMIT - 1) as nat,
    )
}

proof fn each_is_copied(types: Types, list: List<Type>, fuel: nat)
    ensures
        all_copyable(types, list, fuel) == forall|i: int|
            0 <= i < list@.len() ==> copyable(types, #[trigger] list@[i], fuel),
    decreases list,
{
    if list is Cons {
        each_is_copied(types, list.rest(), fuel);
        assert(list@ =~= seq![list.first()] + list.rest()@);
        assert(list@[0] == list.first());
        if all_copyable(types, list, fuel) {
            assert forall|i: int| 0 <= i < list@.len() implies copyable(
                types,
                #[trigger] list@[i],
                fuel,
            ) by {
                if i > 0 {
                    assert(list@[i] == list.rest()@[i - 1]);
                }
            }
        }
        if forall|i: int| 0 <= i < list@.len() ==> copyable(types, #[trigger] list@[i], fuel) {
            assert forall|i: int| 0 <= i < list.rest()@.len() implies copyable(
                types,
                #[trigger] list.rest()@[i],
                fuel,
            ) by {
                assert(list@[i + 1] == list.rest()@[i]);
            }
        }
    }
}

/// A struct is moved unless it is declared to be copied, and so is what can be
/// changed through a reference. A tuple is copied where each element is, and an
/// array where its elements are. Numbers, characters and truth values are copied,
/// and so is a reference through which nothing can be changed.
pub proof fn what_is_copied<'a>(types: Types<'a>, ty: Type)
    ensures
        says_copy(types, ty) ==> types.is_copy(ty),
        ty is Struct ==> types.is_copy(ty) == says_copy(types, ty),
        ty is Reference ==> match types.shape(ty) {
            Some(TypeDefinitionKind::Reference { mutable, .. }) => types.is_copy(ty) == (!mutable
                || says_copy(types, ty)),
            _ => true,
        },
        ty is Slice ==> match types.shape(ty) {
            Some(TypeDefinitionKind::Slice { mutable, .. }) => types.is_copy(ty) == (!mutable
                || says_copy(types, ty)),
            _ => true,
        },
        ty is Tuple ==> match types.shape(ty) {
            Some(TypeDefinitionKind::Tuple { elements }) => types.is_copy(ty) == (says_copy(
                types,
                ty,
            ) || forall|i: int|
                0 <= i < elements@.len() ==> copyable(
                    types,
                    #[trigger] elements@[i],
                    (LIMIT - 1) as nat,
                )),
            _ => true,
        },
        ty is Array ==> match types.shape(ty) {
            Some(TypeDefinitionKind::Array { element, .. }) => types.is_copy(ty) == (says_copy(
                types,
                ty,
            ) || copyable(types, element, (LIMIT - 1) as nat)),
            _ => true,
        },
        ty.is_numeric() || ty is Bool || ty is Char || ty is Unit ==> types.is_copy(ty),
{
    reveal(Types::is_copy);
    match types.shape(ty) {
        Some(TypeDefinitionKind::Tuple { elements }) => {
            each_is_copied(types, elements, (LIMIT - 1) as nat);
        },
        _ => {},
    }
}

} // verus!
