//! Where values of a type may be kept.

use crate::ast::{
    lone_name, single_path_name, EnumVariant as AstVariant, EnumVariantPayload, GenericArgument,
    StructField, TypeName, TypeNameKind,
};
use crate::generics::{bound, find};
use crate::hir::{EnumVariant, EnumVariantFields, TypeDefinitionKind, TypeField};
use crate::list::List;
use crate::registry::capability::TYPE_DEPTH;
use crate::registry::{GenericTypeTemplate, TypeRegistry, Types};
use crate::text::same;
use crate::types::Type;
use vstd::prelude::*;

verus! {

/// Whether a type is a view through which something can be changed.
pub open spec fn mutable_view(types: Types, ty: Type) -> bool {
    match types.shape(ty) {
        Some(TypeDefinitionKind::Reference { mutable, .. }) => mutable,
        Some(TypeDefinitionKind::Slice { mutable, .. }) => mutable,
        _ => false,
    }
}

/// Whether values of a type borrow from somewhere, and so are bound to a
/// scope. Types that lie too deep count as scoped.
pub open spec fn scoped(types: Types, ty: Type, depth: nat) -> bool
    decreases (if depth > TYPE_DEPTH { 0 } else { TYPE_DEPTH + 1 - depth }), 0nat, List::<Type>::Nil,
{
    if depth > TYPE_DEPTH {
        true
    } else {
        ||| ty is Reference || ty is Slice || ty is Str || ty is CStr
        ||| match types.shape(ty) {
            Some(TypeDefinitionKind::Struct { fields }) => any_field_scoped(
                types,
                fields,
                depth + 1,
            ),
            Some(TypeDefinitionKind::Tuple { elements }) => any_scoped(types, elements, depth + 1),
            Some(TypeDefinitionKind::Array { element, .. }) => scoped(types, element, depth + 1),
            Some(TypeDefinitionKind::Enum { variants }) => any_variant_scoped(
                types,
                variants,
                depth + 1,
            ),
            Some(TypeDefinitionKind::Reference { .. }) => true,
            Some(TypeDefinitionKind::Slice { .. }) => true,
            _ => false,
        }
    }
}

/// Whether any of the types is scoped.
pub open spec fn any_scoped(types: Types, list: List<Type>, depth: nat) -> bool
    decreases (if depth > TYPE_DEPTH { 0 } else { TYPE_DEPTH + 1 - depth }), 1nat, list,
{
    match list {
        List::Nil => false,
        List::Cons(node) => scoped(types, node.head, depth) || any_scoped(types, node.tail, depth),
    }
}

/// Whether any of the fields is scoped.
pub open spec fn any_field_scoped(types: Types, fields: List<TypeField>, depth: nat) -> bool
    decreases (if depth > TYPE_DEPTH { 0 } else { TYPE_DEPTH + 1 - depth }), 1nat, fields,
{
    match fields {
        List::Nil => false,
        List::Cons(node) => scoped(types, node.head.ty, depth) || any_field_scoped(
            types,
            node.tail,
            depth,
        ),
    }
}

/// Whether anything that the variants carry is scoped.
pub open spec fn any_variant_scoped(types: Types, variants: List<EnumVariant>, depth: nat) -> bool
    decreases (if depth > TYPE_DEPTH { 0 } else { TYPE_DEPTH + 1 - depth }), 2nat, variants,
{
    match variants {
        List::Nil => false,
        List::Cons(node) => (match node.head.fields {
            EnumVariantFields::Unit => false,
            EnumVariantFields::Tuple(list) => any_scoped(types, list, depth),
            EnumVariantFields::Struct(fields) => any_field_scoped(types, fields, depth),
        }) || any_variant_scoped(types, node.tail, depth),
    }
}

/// Whether values of a type can be kept in a static.
pub open spec fn static_storable(types: Types, ty: Type, depth: nat) -> bool
    decreases (if depth > TYPE_DEPTH { 0 } else { TYPE_DEPTH + 1 - depth }), 0nat, List::<Type>::Nil,
{
    if depth > TYPE_DEPTH || ty is Never || ty is Str || ty is CStr {
        false
    } else {
        match types.shape(ty) {
            None => true,
            Some(TypeDefinitionKind::Struct { fields }) => fields_static_storable(
                types,
                fields,
                depth + 1,
            ),
            Some(TypeDefinitionKind::Tuple { elements }) => all_static_storable(
                types,
                elements,
                depth + 1,
            ),
            Some(TypeDefinitionKind::Array { element, .. }) => static_storable(
                types,
                element,
                depth + 1,
            ),
            Some(TypeDefinitionKind::Enum { variants }) => variants_static_storable(
                types,
                variants,
                depth + 1,
            ),
            _ => false,
        }
    }
}

/// Whether values of all the types can be kept in a static.
pub open spec fn all_static_storable(types: Types, list: List<Type>, depth: nat) -> bool
    decreases (if depth > TYPE_DEPTH { 0 } else { TYPE_DEPTH + 1 - depth }), 1nat, list,
{
    match list {
        List::Nil => true,
        List::Cons(node) => static_storable(types, node.head, depth) && all_static_storable(
            types,
            node.tail,
            depth,
        ),
    }
}

/// Whether values of all the fields can be kept in a static.
pub open spec fn fields_static_storable(types: Types, fields: List<TypeField>, depth: nat) -> bool
    decreases (if depth > TYPE_DEPTH { 0 } else { TYPE_DEPTH + 1 - depth }), 1nat, fields,
{
    match fields {
        List::Nil => true,
        List::Cons(node) => static_storable(types, node.head.ty, depth) && fields_static_storable(
            types,
            node.tail,
            depth,
        ),
    }
}

/// Whether everything that the variants carry can be kept in a static.
pub open spec fn variants_static_storable(
    types: Types,
    variants: List<EnumVariant>,
    depth: nat,
) -> bool
    decreases (if depth > TYPE_DEPTH { 0 } else { TYPE_DEPTH + 1 - depth }), 2nat, variants,
{
    match variants {
        List::Nil => true,
        List::Cons(node) => (match node.head.fields {
            EnumVariantFields::Unit => true,
            EnumVariantFields::Tuple(list) => all_static_storable(types, list, depth),
            EnumVariantFields::Struct(fields) => fields_static_storable(types, fields, depth),
        }) && variants_static_storable(types, node.tail, depth),
    }
}

/// Whether a written type may stand for a scoped type. Types that lie too deep
/// count as scoped.
pub open spec fn maybe_scoped<'a>(types: Types<'a>, written: TypeName<'a>, depth: nat) -> bool
    decreases (if depth > TYPE_DEPTH { 0 } else { TYPE_DEPTH + 1 - depth }), 0nat, List::<Type>::Nil,
{
    if depth > TYPE_DEPTH {
        true
    } else {
        match *written.kind {
            TypeNameKind::Reference { .. } => true,
            TypeNameKind::Slice(_) => true,
            TypeNameKind::Path(path) => match lone_name(path) {
                Some(name) => name@ == "str"@ || name@ == "cstr"@,
                None => false,
            },
            TypeNameKind::Generic { path, arguments } => {
                ||| any_argument_maybe_scoped(types, arguments, depth + 1)
                ||| match lone_name(path) {
                    Some(name) => match bound(types.generic_templates, name@) {
                        Some(GenericTypeTemplate::Struct(declaration)) =>
                        any_declared_field_maybe_scoped(types, declaration.fields, depth + 1),
                        Some(GenericTypeTemplate::Enum(declaration)) =>
                        any_declared_variant_maybe_scoped(types, declaration.variants, depth + 1),
                        None => false,
                    },
                    None => false,
                }
            },
            TypeNameKind::Tuple(elements) => any_maybe_scoped(types, elements, depth + 1),
            TypeNameKind::PackExpansion { template, .. } => match template {
                Some(template) => maybe_scoped(types, template, depth + 1),
                None => false,
            },
            TypeNameKind::Array { element, .. } => maybe_scoped(types, element, depth + 1),
            _ => false,
        }
    }
}

/// Whether any of the written types may be scoped.
pub open spec fn any_maybe_scoped<'a>(
    types: Types<'a>,
    written: List<TypeName<'a>>,
    depth: nat,
) -> bool
    decreases (if depth > TYPE_DEPTH { 0 } else { TYPE_DEPTH + 1 - depth }), 1nat, written,
{
    match written {
        List::Nil => false,
        List::Cons(node) => maybe_scoped(types, node.head, depth) || any_maybe_scoped(
            types,
            node.tail,
            depth,
        ),
    }
}

/// Whether any of the generic arguments may be scoped.
pub open spec fn any_argument_maybe_scoped<'a>(
    types: Types<'a>,
    arguments: List<GenericArgument<'a>>,
    depth: nat,
) -> bool
    decreases (if depth > TYPE_DEPTH { 0 } else { TYPE_DEPTH + 1 - depth }), 1nat, arguments,
{
    match arguments {
        List::Nil => false,
        List::Cons(node) => (match node.head {
            GenericArgument::Type(ty) => maybe_scoped(types, ty, depth),
            GenericArgument::Pack { template: Some(template), .. } => maybe_scoped(
                types,
                template,
                depth,
            ),
            _ => false,
        }) || any_argument_maybe_scoped(types, node.tail, depth),
    }
}

/// Whether any of the declared fields may be scoped.
pub open spec fn any_declared_field_maybe_scoped<'a>(
    types: Types<'a>,
    fields: List<StructField<'a>>,
    depth: nat,
) -> bool
    decreases (if depth > TYPE_DEPTH { 0 } else { TYPE_DEPTH + 1 - depth }), 1nat, fields,
{
    match fields {
        List::Nil => false,
        List::Cons(node) => maybe_scoped(types, node.head.ty, depth)
            || any_declared_field_maybe_scoped(types, node.tail, depth),
    }
}

/// Whether anything that the declared variants carry may be scoped.
pub open spec fn any_declared_variant_maybe_scoped<'a>(
    types: Types<'a>,
    variants: List<AstVariant<'a>>,
    depth: nat,
) -> bool
    decreases (if depth > TYPE_DEPTH { 0 } else { TYPE_DEPTH + 1 - depth }), 2nat, variants,
{
    match variants {
        List::Nil => false,
        List::Cons(node) => (match node.head.payload {
            EnumVariantPayload::Unit => false,
            EnumVariantPayload::Tuple(list) => any_maybe_scoped(types, list, depth),
            EnumVariantPayload::Struct(fields) => any_declared_field_maybe_scoped(
                types,
                fields,
                depth,
            ),
        }) || any_declared_variant_maybe_scoped(types, node.tail, depth),
    }
}

impl<'a> Types<'a> {
    /// Whether the type gives mutable access to what it points to.
    #[verifier::opaque]
    pub open spec fn is_mutable_view(self, ty: Type) -> bool {
        mutable_view(self, ty)
    }

    /// Whether values of the type hold a reference.
    #[verifier::opaque]
    pub open spec fn is_scoped(self, ty: Type) -> bool {
        scoped(self, ty, 0)
    }

    /// Whether values of the type may be stored in a static.
    #[verifier::opaque]
    pub open spec fn supports_static_storage(self, ty: Type) -> bool {
        static_storable(self, ty, 0)
    }

    /// Whether a written type may stand for a type that holds a reference.
    #[verifier::opaque]
    pub open spec fn may_be_scoped(self, written: TypeName<'a>) -> bool {
        maybe_scoped(self, written, 0)
    }
}

impl<'a> TypeRegistry<'a> {
    /// Whether a type is a view through which something can be changed.
    pub fn is_mutable_view(&self, ty: Type) -> (answer: bool)
        ensures
            answer == self@.is_mutable_view(ty),
    {
        reveal(Types::is_mutable_view);
        match self.shape(ty) {
            Some(TypeDefinitionKind::Reference { mutable, .. }) => mutable,
            Some(TypeDefinitionKind::Slice { mutable, .. }) => mutable,
            _ => false,
        }
    }

    /// Whether values of a type borrow from somewhere, and so are bound to a
    /// scope.
    pub fn is_scoped(&self, ty: Type) -> (answer: bool)
        ensures
            answer == self@.is_scoped(ty),
    {
        reveal(Types::is_scoped);
        self.is_scoped_at_depth(ty, 0)
    }

    fn is_scoped_at_depth(&self, ty: Type, depth: u32) -> (answer: bool)
        requires
            depth <= TYPE_DEPTH + 1,
        ensures
            answer == scoped(self@, ty, depth as nat),
        decreases TYPE_DEPTH + 1 - depth, 0nat, List::<Type>::Nil,
    {
        if depth > TYPE_DEPTH {
            return true;
        }
        if matches!(ty, Type::Reference(_) | Type::Slice(_) | Type::Str | Type::CStr) {
            return true;
        }
        match self.shape(ty) {
            Some(TypeDefinitionKind::Struct { fields }) => self.is_any_field_scoped(
                &fields,
                depth + 1,
            ),
            Some(TypeDefinitionKind::Tuple { elements }) => self.is_any_scoped(
                &elements,
                depth + 1,
            ),
            Some(TypeDefinitionKind::Array { element, .. }) => self.is_scoped_at_depth(
                element,
                depth + 1,
            ),
            Some(TypeDefinitionKind::Enum { variants }) => self.is_any_variant_scoped(
                &variants,
                depth + 1,
            ),
            Some(TypeDefinitionKind::Reference { .. }) => true,
            Some(TypeDefinitionKind::Slice { .. }) => true,
            _ => false,
        }
    }

    fn is_any_scoped(&self, list: &List<Type>, depth: u32) -> (answer: bool)
        requires
            depth <= TYPE_DEPTH + 1,
        ensures
            answer == any_scoped(self@, *list, depth as nat),
        decreases TYPE_DEPTH + 1 - depth, 1nat, *list,
    {
        let mut ahead: &List<Type> = list;
        loop
            invariant
                depth <= TYPE_DEPTH + 1,
                any_scoped(self@, *list, depth as nat) == any_scoped(self@, *ahead, depth as nat),
            decreases *ahead,
        {
            match ahead {
                List::Nil => {
                    return false;
                },
                List::Cons(node) => {
                    if self.is_scoped_at_depth(node.head, depth) {
                        return true;
                    }
                    ahead = &node.tail;
                },
            }
        }
    }

    fn is_any_field_scoped(&self, fields: &List<TypeField<'a>>, depth: u32) -> (answer: bool)
        requires
            depth <= TYPE_DEPTH + 1,
        ensures
            answer == any_field_scoped(self@, *fields, depth as nat),
        decreases TYPE_DEPTH + 1 - depth, 1nat, *fields,
    {
        let mut ahead: &List<TypeField<'a>> = fields;
        loop
            invariant
                depth <= TYPE_DEPTH + 1,
                any_field_scoped(self@, *fields, depth as nat) == any_field_scoped(
                    self@,
                    *ahead,
                    depth as nat,
                ),
            decreases *ahead,
        {
            match ahead {
                List::Nil => {
                    return false;
                },
                List::Cons(node) => {
                    if self.is_scoped_at_depth(node.head.ty, depth) {
                        return true;
                    }
                    ahead = &node.tail;
                },
            }
        }
    }

    fn is_any_variant_scoped(&self, variants: &List<EnumVariant<'a>>, depth: u32) -> (answer: bool)
        requires
            depth <= TYPE_DEPTH + 1,
        ensures
            answer == any_variant_scoped(self@, *variants, depth as nat),
        decreases TYPE_DEPTH + 1 - depth, 2nat, *variants,
    {
        let mut ahead: &List<EnumVariant<'a>> = variants;
        loop
            invariant
                depth <= TYPE_DEPTH + 1,
                any_variant_scoped(self@, *variants, depth as nat) == any_variant_scoped(
                    self@,
                    *ahead,
                    depth as nat,
                ),
            decreases *ahead,
        {
            match ahead {
                List::Nil => {
                    return false;
                },
                List::Cons(node) => {
                    if match &node.head.fields {
                        EnumVariantFields::Unit => false,
                        EnumVariantFields::Tuple(list) => self.is_any_scoped(list, depth),
                        EnumVariantFields::Struct(fields) => self.is_any_field_scoped(
                            fields,
                            depth,
                        ),
                    } {
                        return true;
                    }
                    ahead = &node.tail;
                },
            }
        }
    }

    /// Whether values of a type can be kept in a static.
    pub fn supports_static_storage(&self, ty: Type) -> (answer: bool)
        ensures
            answer == self@.supports_static_storage(ty),
    {
        reveal(Types::supports_static_storage);
        self.supports_static_storage_at_depth(ty, 0)
    }

    fn supports_static_storage_at_depth(&self, ty: Type, depth: u32) -> (answer: bool)
        requires
            depth <= TYPE_DEPTH + 1,
        ensures
            answer == static_storable(self@, ty, depth as nat),
        decreases TYPE_DEPTH + 1 - depth, 0nat, List::<Type>::Nil,
    {
        if depth > TYPE_DEPTH || matches!(ty, Type::Never | Type::Str | Type::CStr) {
            return false;
        }
        match self.shape(ty) {
            None => true,
            Some(TypeDefinitionKind::Struct { fields }) => self.do_fields_support_static_storage(
                &fields,
                depth + 1,
            ),
            Some(TypeDefinitionKind::Tuple { elements }) => self.do_all_support_static_storage(
                &elements,
                depth + 1,
            ),
            Some(TypeDefinitionKind::Array { element, .. }) => {
                self.supports_static_storage_at_depth(element, depth + 1)
            },
            Some(TypeDefinitionKind::Enum { variants }) => {
                self.do_variants_support_static_storage(&variants, depth + 1)
            },
            _ => false,
        }
    }

    fn do_all_support_static_storage(&self, list: &List<Type>, depth: u32) -> (answer: bool)
        requires
            depth <= TYPE_DEPTH + 1,
        ensures
            answer == all_static_storable(self@, *list, depth as nat),
        decreases TYPE_DEPTH + 1 - depth, 1nat, *list,
    {
        let mut ahead: &List<Type> = list;
        loop
            invariant
                depth <= TYPE_DEPTH + 1,
                all_static_storable(self@, *list, depth as nat) == all_static_storable(
                    self@,
                    *ahead,
                    depth as nat,
                ),
            decreases *ahead,
        {
            match ahead {
                List::Nil => {
                    return true;
                },
                List::Cons(node) => {
                    if !self.supports_static_storage_at_depth(node.head, depth) {
                        return false;
                    }
                    ahead = &node.tail;
                },
            }
        }
    }

    fn do_fields_support_static_storage(
        &self,
        fields: &List<TypeField<'a>>,
        depth: u32,
    ) -> (answer: bool)
        requires
            depth <= TYPE_DEPTH + 1,
        ensures
            answer == fields_static_storable(self@, *fields, depth as nat),
        decreases TYPE_DEPTH + 1 - depth, 1nat, *fields,
    {
        let mut ahead: &List<TypeField<'a>> = fields;
        loop
            invariant
                depth <= TYPE_DEPTH + 1,
                fields_static_storable(self@, *fields, depth as nat) == fields_static_storable(
                    self@,
                    *ahead,
                    depth as nat,
                ),
            decreases *ahead,
        {
            match ahead {
                List::Nil => {
                    return true;
                },
                List::Cons(node) => {
                    if !self.supports_static_storage_at_depth(node.head.ty, depth) {
                        return false;
                    }
                    ahead = &node.tail;
                },
            }
        }
    }

    fn do_variants_support_static_storage(
        &self,
        variants: &List<EnumVariant<'a>>,
        depth: u32,
    ) -> (answer: bool)
        requires
            depth <= TYPE_DEPTH + 1,
        ensures
            answer == variants_static_storable(self@, *variants, depth as nat),
        decreases TYPE_DEPTH + 1 - depth, 2nat, *variants,
    {
        let mut ahead: &List<EnumVariant<'a>> = variants;
        loop
            invariant
                depth <= TYPE_DEPTH + 1,
                variants_static_storable(
                    self@,
                    *variants,
                    depth as nat,
                ) == variants_static_storable(
                    self@,
                    *ahead,
                    depth as nat,
                ),
            decreases *ahead,
        {
            match ahead {
                List::Nil => {
                    return true;
                },
                List::Cons(node) => {
                    if !((match &node.head.fields {
                        EnumVariantFields::Unit => true,
                        EnumVariantFields::Tuple(list) => self.do_all_support_static_storage(
                            list,
                            depth,
                        ),
                        EnumVariantFields::Struct(fields) => self.do_fields_support_static_storage(
                            fields,
                            depth,
                        ),
                    })) {
                        return false;
                    }
                    ahead = &node.tail;
                },
            }
        }
    }

    /// Whether a written type may stand for a scoped type.
    pub fn type_name_may_be_scoped(&self, written: &TypeName<'a>) -> (answer: bool)
        ensures
            answer == self@.may_be_scoped(*written),
    {
        reveal(Types::may_be_scoped);
        self.may_be_scoped_at_depth(written, 0)
    }

    fn may_be_scoped_at_depth(&self, written: &TypeName<'a>, depth: u32) -> (answer: bool)
        requires
            depth <= TYPE_DEPTH + 1,
        ensures
            answer == maybe_scoped(self@, *written, depth as nat),
        decreases TYPE_DEPTH + 1 - depth, 0nat, List::<Type>::Nil,
    {
        if depth > TYPE_DEPTH {
            return true;
        }
        match &*written.kind {
            TypeNameKind::Reference { .. } => true,
            TypeNameKind::Slice(_) => true,
            TypeNameKind::Path(path) => match single_path_name(path) {
                Some(name) => same(name, "str") || same(name, "cstr"),
                None => false,
            },
            TypeNameKind::Generic { path, arguments } => {
                if self.may_any_argument_be_scoped(arguments, depth + 1) {
                    return true;
                }
                match single_path_name(path) {
                    Some(name) => match find(&self.generic_templates, name) {
                        Some(GenericTypeTemplate::Struct(declaration)) => {
                            self.may_any_declared_field_be_scoped(&declaration.fields, depth + 1)
                        },
                        Some(GenericTypeTemplate::Enum(declaration)) => {
                            self.may_any_declared_variant_be_scoped(
                                &declaration.variants,
                                depth + 1,
                            )
                        },
                        None => false,
                    },
                    None => false,
                }
            },
            TypeNameKind::Tuple(elements) => self.may_any_be_scoped(elements, depth + 1),
            TypeNameKind::PackExpansion { template, .. } => match template {
                Some(template) => self.may_be_scoped_at_depth(template, depth + 1),
                None => false,
            },
            TypeNameKind::Array { element, .. } => self.may_be_scoped_at_depth(element, depth + 1),
            _ => false,
        }
    }

    fn may_any_be_scoped(&self, written: &List<TypeName<'a>>, depth: u32) -> (answer: bool)
        requires
            depth <= TYPE_DEPTH + 1,
        ensures
            answer == any_maybe_scoped(self@, *written, depth as nat),
        decreases TYPE_DEPTH + 1 - depth, 1nat, *written,
    {
        let mut ahead: &List<TypeName<'a>> = written;
        loop
            invariant
                depth <= TYPE_DEPTH + 1,
                any_maybe_scoped(self@, *written, depth as nat) == any_maybe_scoped(
                    self@,
                    *ahead,
                    depth as nat,
                ),
            decreases *ahead,
        {
            match ahead {
                List::Nil => {
                    return false;
                },
                List::Cons(node) => {
                    if self.may_be_scoped_at_depth(&node.head, depth) {
                        return true;
                    }
                    ahead = &node.tail;
                },
            }
        }
    }

    fn may_any_argument_be_scoped(
        &self,
        arguments: &List<GenericArgument<'a>>,
        depth: u32,
    ) -> (answer: bool)
        requires
            depth <= TYPE_DEPTH + 1,
        ensures
            answer == any_argument_maybe_scoped(self@, *arguments, depth as nat),
        decreases TYPE_DEPTH + 1 - depth, 1nat, *arguments,
    {
        let mut ahead: &List<GenericArgument<'a>> = arguments;
        loop
            invariant
                depth <= TYPE_DEPTH + 1,
                any_argument_maybe_scoped(
                    self@,
                    *arguments,
                    depth as nat,
                ) == any_argument_maybe_scoped(
                    self@,
                    *ahead,
                    depth as nat,
                ),
            decreases *ahead,
        {
            match ahead {
                List::Nil => {
                    return false;
                },
                List::Cons(node) => {
                    if match &node.head {
                        GenericArgument::Type(ty) => self.may_be_scoped_at_depth(ty, depth),
                        GenericArgument::Pack { template: Some(template), .. } => {
                            self.may_be_scoped_at_depth(template, depth)
                        },
                        _ => false,
                    } {
                        return true;
                    }
                    ahead = &node.tail;
                },
            }
        }
    }

    fn may_any_declared_field_be_scoped(
        &self,
        fields: &List<StructField<'a>>,
        depth: u32,
    ) -> (answer: bool)
        requires
            depth <= TYPE_DEPTH + 1,
        ensures
            answer == any_declared_field_maybe_scoped(self@, *fields, depth as nat),
        decreases TYPE_DEPTH + 1 - depth, 1nat, *fields,
    {
        let mut ahead: &List<StructField<'a>> = fields;
        loop
            invariant
                depth <= TYPE_DEPTH + 1,
                any_declared_field_maybe_scoped(
                    self@,
                    *fields,
                    depth as nat,
                ) == any_declared_field_maybe_scoped(
                    self@,
                    *ahead,
                    depth as nat,
                ),
            decreases *ahead,
        {
            match ahead {
                List::Nil => {
                    return false;
                },
                List::Cons(node) => {
                    if self.may_be_scoped_at_depth(&node.head.ty, depth) {
                        return true;
                    }
                    ahead = &node.tail;
                },
            }
        }
    }

    fn may_any_declared_variant_be_scoped(
        &self,
        variants: &List<AstVariant<'a>>,
        depth: u32,
    ) -> (answer: bool)
        requires
            depth <= TYPE_DEPTH + 1,
        ensures
            answer == any_declared_variant_maybe_scoped(self@, *variants, depth as nat),
        decreases TYPE_DEPTH + 1 - depth, 2nat, *variants,
    {
        let mut ahead: &List<AstVariant<'a>> = variants;
        loop
            invariant
                depth <= TYPE_DEPTH + 1,
                any_declared_variant_maybe_scoped(
                    self@,
                    *variants,
                    depth as nat,
                ) == any_declared_variant_maybe_scoped(
                    self@,
                    *ahead,
                    depth as nat,
                ),
            decreases *ahead,
        {
            match ahead {
                List::Nil => {
                    return false;
                },
                List::Cons(node) => {
                    if match &node.head.payload {
                        EnumVariantPayload::Unit => false,
                        EnumVariantPayload::Tuple(list) => self.may_any_be_scoped(list, depth),
                        EnumVariantPayload::Struct(fields) => self.may_any_declared_field_be_scoped(
                            fields,
                            depth,
                        ),
                    } {
                        return true;
                    }
                    ahead = &node.tail;
                },
            }
        }
    }
}

} // verus!
