//! Calls into the runtime, which the standard library wraps.

use crate::analyzer::sparing::{watched, Watch};
use crate::mention::call_mentions;
use crate::analyzer::{Analyzer, State};
use crate::analyzer::checks::{in_named_module, is_in_module};
use crate::ast::{lone_name, single_path_name, CallExpression, Path};
use crate::hir::{
    invalid_composite_expression, typed, EnumVariant, EnumVariantFields, Expression,
    ExpressionKind, SynchronizationKind, TypeField,
};
use crate::list::{append, cons, List};
use crate::registry::IntrinsicType;
use crate::span::{error, helped, Span};
use crate::text::{frame, framed, joined, number, same, words, words2, words3, Piece};
use crate::types::Type;
use crate::typing::{sound, sound_if_any, Scene};
use vstd::prelude::*;

verus! {

broadcast use {
    crate::analyzer::growth::group_led,
    crate::analyzer::numbering::group_numbered,
    crate::analyzer::sparing::group_spared,
    crate::registry::growth::group_grown,
    crate::span::group_kept,
    crate::typing::group_sound,
};

/// A call into the runtime.
#[derive(Clone, Copy, PartialEq, Eq, Structural, Debug)]
pub enum RuntimeCall {
    StringData,
    StringLength,
    SliceLength,
    StringFromParts,
    SliceFromParts,
    PointeeStride,
    HashValue,
    AllocateBytes,
    DeallocateBytes,
    ThreadSpawn,
    ThreadJoin,
    ThreadScope,
    SynchronizationCreate(SynchronizationKind),
    SynchronizationLoad(SynchronizationKind),
    SynchronizationReplace(SynchronizationKind),
    ThreadLocalStore,
    ChannelCreate,
    ChannelSend,
    ChannelReceive,
    JobSubmit,
    JobWait,
    ParallelForSlice,
    ParallelForArray,
}

/// The variants of a thread error.
#[derive(Clone, Copy)]
pub struct ThreadErrorVariants {
    pub spawn_failed: u32,
    pub invalid_handle: u32,
    pub worker_panicked: u32,
    pub result_mismatch: u32,
}

/// The variants of a job error.
#[derive(Clone, Copy)]
pub struct JobErrorVariants {
    pub submit_failed: u32,
    pub invalid_handle: u32,
    pub worker_panicked: u32,
    pub result_mismatch: u32,
}

/// The call into the runtime of that name.
#[verifier::opaque]
pub open spec fn spec_runtime_call(name: &str) -> Option<RuntimeCall> {
    if name@ == "__string_data"@ {
        Some(RuntimeCall::StringData)
    } else if name@ == "__string_length"@ {
        Some(RuntimeCall::StringLength)
    } else if name@ == "__slice_length"@ {
        Some(RuntimeCall::SliceLength)
    } else if name@ == "__str_from_parts"@ {
        Some(RuntimeCall::StringFromParts)
    } else if name@ == "__slice_from_parts"@ {
        Some(RuntimeCall::SliceFromParts)
    } else if name@ == "__pointee_stride"@ {
        Some(RuntimeCall::PointeeStride)
    } else if name@ == "__hash_value"@ {
        Some(RuntimeCall::HashValue)
    } else if name@ == "__allocate_bytes"@ {
        Some(RuntimeCall::AllocateBytes)
    } else if name@ == "__deallocate_bytes"@ {
        Some(RuntimeCall::DeallocateBytes)
    } else {
        spec_concurrent_call(name)
    }
}

/// The call into the runtime of that name.
pub(crate) fn runtime_call(name: &str) -> (call: Option<RuntimeCall>)
    ensures
        call == spec_runtime_call(name),
{
    reveal(spec_runtime_call);
    if same(name, "__string_data") {
        Some(RuntimeCall::StringData)
    } else if same(name, "__string_length") {
        Some(RuntimeCall::StringLength)
    } else if same(name, "__slice_length") {
        Some(RuntimeCall::SliceLength)
    } else if same(name, "__str_from_parts") {
        Some(RuntimeCall::StringFromParts)
    } else if same(name, "__slice_from_parts") {
        Some(RuntimeCall::SliceFromParts)
    } else if same(name, "__pointee_stride") {
        Some(RuntimeCall::PointeeStride)
    } else if same(name, "__hash_value") {
        Some(RuntimeCall::HashValue)
    } else if same(name, "__allocate_bytes") {
        Some(RuntimeCall::AllocateBytes)
    } else if same(name, "__deallocate_bytes") {
        Some(RuntimeCall::DeallocateBytes)
    } else {
        concurrent_call(name)
    }
}

/// The call into the runtime of that name that has to do with threads.
#[verifier::opaque]
pub open spec fn spec_concurrent_call(name: &str) -> Option<RuntimeCall> {
    if name@ == "__thread_spawn"@ {
        Some(RuntimeCall::ThreadSpawn)
    } else if name@ == "__thread_join"@ {
        Some(RuntimeCall::ThreadJoin)
    } else if name@ == "__thread_scope"@ {
        Some(RuntimeCall::ThreadScope)
    } else if name@ == "__mutex_create"@ {
        Some(RuntimeCall::SynchronizationCreate(SynchronizationKind::Mutex))
    } else if name@ == "__mutex_load"@ {
        Some(RuntimeCall::SynchronizationLoad(SynchronizationKind::Mutex))
    } else if name@ == "__mutex_replace"@ {
        Some(RuntimeCall::SynchronizationReplace(SynchronizationKind::Mutex))
    } else if name@ == "__rwlock_create"@ {
        Some(RuntimeCall::SynchronizationCreate(SynchronizationKind::RwLock))
    } else if name@ == "__rwlock_load"@ {
        Some(RuntimeCall::SynchronizationLoad(SynchronizationKind::RwLock))
    } else if name@ == "__rwlock_replace"@ {
        Some(RuntimeCall::SynchronizationReplace(SynchronizationKind::RwLock))
    } else if name@ == "__thread_local_create"@ {
        Some(RuntimeCall::SynchronizationCreate(SynchronizationKind::ThreadLocal))
    } else if name@ == "__thread_local_get"@ {
        Some(RuntimeCall::SynchronizationLoad(SynchronizationKind::ThreadLocal))
    } else if name@ == "__thread_local_set"@ {
        Some(RuntimeCall::ThreadLocalStore)
    } else if name@ == "__channel_create"@ {
        Some(RuntimeCall::ChannelCreate)
    } else if name@ == "__channel_send"@ {
        Some(RuntimeCall::ChannelSend)
    } else if name@ == "__channel_receive"@ {
        Some(RuntimeCall::ChannelReceive)
    } else if name@ == "__job_submit"@ {
        Some(RuntimeCall::JobSubmit)
    } else if name@ == "__job_wait"@ {
        Some(RuntimeCall::JobWait)
    } else if name@ == "__parallel_for_mut"@ {
        Some(RuntimeCall::ParallelForSlice)
    } else if name@ == "__parallel_for_array_mut"@ {
        Some(RuntimeCall::ParallelForArray)
    } else {
        None
    }
}

/// The call into the runtime of that name that has to do with threads.
pub(crate) fn concurrent_call(name: &str) -> (call: Option<RuntimeCall>)
    ensures
        call == spec_concurrent_call(name),
{
    reveal(spec_concurrent_call);
    if same(name, "__thread_spawn") {
        Some(RuntimeCall::ThreadSpawn)
    } else if same(name, "__thread_join") {
        Some(RuntimeCall::ThreadJoin)
    } else if same(name, "__thread_scope") {
        Some(RuntimeCall::ThreadScope)
    } else if same(name, "__mutex_create") {
        Some(RuntimeCall::SynchronizationCreate(SynchronizationKind::Mutex))
    } else if same(name, "__mutex_load") {
        Some(RuntimeCall::SynchronizationLoad(SynchronizationKind::Mutex))
    } else if same(name, "__mutex_replace") {
        Some(RuntimeCall::SynchronizationReplace(SynchronizationKind::Mutex))
    } else if same(name, "__rwlock_create") {
        Some(RuntimeCall::SynchronizationCreate(SynchronizationKind::RwLock))
    } else if same(name, "__rwlock_load") {
        Some(RuntimeCall::SynchronizationLoad(SynchronizationKind::RwLock))
    } else if same(name, "__rwlock_replace") {
        Some(RuntimeCall::SynchronizationReplace(SynchronizationKind::RwLock))
    } else if same(name, "__thread_local_create") {
        Some(RuntimeCall::SynchronizationCreate(SynchronizationKind::ThreadLocal))
    } else if same(name, "__thread_local_get") {
        Some(RuntimeCall::SynchronizationLoad(SynchronizationKind::ThreadLocal))
    } else if same(name, "__thread_local_set") {
        Some(RuntimeCall::ThreadLocalStore)
    } else if same(name, "__channel_create") {
        Some(RuntimeCall::ChannelCreate)
    } else if same(name, "__channel_send") {
        Some(RuntimeCall::ChannelSend)
    } else if same(name, "__channel_receive") {
        Some(RuntimeCall::ChannelReceive)
    } else if same(name, "__job_submit") {
        Some(RuntimeCall::JobSubmit)
    } else if same(name, "__job_wait") {
        Some(RuntimeCall::JobWait)
    } else if same(name, "__parallel_for_mut") {
        Some(RuntimeCall::ParallelForSlice)
    } else if same(name, "__parallel_for_array_mut") {
        Some(RuntimeCall::ParallelForArray)
    } else {
        None
    }
}

/// The call into the runtime that a path names.
#[verifier::opaque]
pub open spec fn spec_runtime_call_at<'a>(path: Path<'a>) -> Option<RuntimeCall> {
    match lone_name(path) {
        Some(name) => spec_runtime_call(name),
        None => None,
    }
}

/// The call into the runtime that a path names.
pub(crate) fn runtime_call_at<'a>(path: &Path<'a>) -> (call: Option<RuntimeCall>)
    ensures
        call == spec_runtime_call_at(*path),
{
    reveal(spec_runtime_call_at);
    match single_path_name(path) {
        Some(name) => runtime_call(name),
        None => None,
    }
}

/// Whether a field is private, with that name.
#[verifier::opaque]
pub open spec fn spec_is_private_field_named<'a>(field: TypeField<'a>, name: &str) -> bool {
    field.name@ == name@ && !field.is_public
}

/// Whether a field is private, with that name.
pub(crate) fn is_private_field_named<'a>(field: &TypeField<'a>, name: &str) -> (answer: bool)
    ensures
        answer == spec_is_private_field_named(*field, name),
{
    reveal(spec_is_private_field_named);
    same(field.name, name) && !field.is_public
}

/// The position of the first variant of that name without payload.
#[verifier::opaque]
pub open spec fn spec_find_unit_variant<'a>(
    variants: List<EnumVariant<'a>>,
    name: &str,
    position: u32,
) -> Option<u32>
    decreases variants,
{
    match variants {
        List::Nil => None,
        List::Cons(node) => if node.head.name@ == name@
            && (match node.head.fields {
                EnumVariantFields::Unit => true,
                _ => false,
            }) {
            Some(position)
        } else {
            spec_find_unit_variant(node.tail, name, position.saturating_add(1))
        },
    }
}

/// The position of the first variant of that name without payload.
pub(crate) fn find_unit_variant<'a>(
    variants: &List<EnumVariant<'a>>,
    name: &str,
    position: u32,
) -> (found: Option<u32>)
    ensures
        found == spec_find_unit_variant(*variants, name, position),
{
    let mut ahead: &List<EnumVariant<'a>> = variants;
    let mut current_position: u32 = position;
    loop
        invariant
            spec_find_unit_variant(*variants, name, position) == spec_find_unit_variant(
                *ahead,
                name,
                current_position,
            ),
        decreases *ahead,
    {
        reveal(spec_find_unit_variant);
        match ahead {
            List::Nil => {
                return None;
            },
            List::Cons(node) => {
                if same(node.head.name, name)
                && (match &node.head.fields {
                    EnumVariantFields::Unit => true,
                    _ => false,
                }) {
                    return Some(current_position);
                } else {
                    current_position = current_position.saturating_add(1);
                    ahead = &node.tail;
                }
            },
        }
    }
}

impl<'a> State<'a> {
    /// A call into the runtime.
    pub open spec fn analyze_runtime_intrinsic_call(
        self,
        call: CallExpression<'a>,
        path: Path<'a>,
        expected: Option<Type>,
        fuel: nat,
    ) -> (Self, Option<Expression<'a>>)
        decreases fuel, 6nat, List::<Type>::Nil,
    {
        match spec_runtime_call_at(path) {
            None => (self, None),
            Some(runtime_call) => {
                let (s, value) = self.analyze_runtime_call(
                    runtime_call,
                    call,
                    path,
                    expected,
                    fuel,
                );
                (s, Some(value))
            },
        }
    }

    /// A call into the runtime, by what it does.
    pub open spec fn analyze_runtime_call(
        self,
        runtime_call: RuntimeCall,
        call: CallExpression<'a>,
        path: Path<'a>,
        expected: Option<Type>,
        fuel: nat,
    ) -> (Self, Expression<'a>)
        decreases fuel, 5nat, List::<Type>::Nil,
    {
        match runtime_call {
            RuntimeCall::StringData => self.analyze_string_view_part(call, path, true, fuel),
            RuntimeCall::StringLength => self.analyze_string_view_part(call, path, false, fuel),
            RuntimeCall::SliceLength => self.analyze_slice_length(call, path, fuel),
            RuntimeCall::StringFromParts => self.analyze_string_from_parts(call, path, fuel),
            RuntimeCall::SliceFromParts => self.analyze_slice_from_parts(
                call,
                path,
                expected,
                fuel,
            ),
            RuntimeCall::PointeeStride => self.analyze_pointee_stride(call, path, fuel),
            RuntimeCall::HashValue => self.analyze_hash_value(call, path, fuel),
            RuntimeCall::AllocateBytes => self.analyze_allocate_bytes(call, path, expected, fuel),
            RuntimeCall::DeallocateBytes => self.analyze_deallocate_bytes(call, path, fuel),
            _ => self.analyze_concurrent_call(runtime_call, call, path, expected, fuel),
        }
    }

    /// A call into the runtime that has to do with threads, by what it does.
    pub open spec fn analyze_concurrent_call(
        self,
        runtime_call: RuntimeCall,
        call: CallExpression<'a>,
        path: Path<'a>,
        expected: Option<Type>,
        fuel: nat,
    ) -> (Self, Expression<'a>)
        decreases fuel, 4nat, List::<Type>::Nil,
    {
        match runtime_call {
            RuntimeCall::ThreadSpawn => self.analyze_thread_spawn(
                call,
                path,
                expected,
                false,
                fuel,
            ),
            RuntimeCall::ThreadJoin => self.analyze_thread_join(call, path, expected, fuel),
            RuntimeCall::ThreadScope => self.analyze_thread_spawn(call, path, expected, true, fuel),
            RuntimeCall::SynchronizationCreate(kind) => self.analyze_synchronization_create(
                call,
                path,
                kind,
                fuel,
            ),
            RuntimeCall::SynchronizationLoad(kind) => self.analyze_synchronization_load(
                call,
                path,
                expected,
                kind,
                fuel,
            ),
            RuntimeCall::SynchronizationReplace(kind) => self.analyze_synchronization_replace(
                call,
                path,
                expected,
                kind,
                fuel,
            ),
            RuntimeCall::ThreadLocalStore => self.analyze_thread_local_store(call, path, fuel),
            RuntimeCall::ChannelCreate => self.analyze_channel_create(call, path, fuel),
            RuntimeCall::ChannelSend => self.analyze_channel_send(call, path, expected, fuel),
            RuntimeCall::ChannelReceive => self.analyze_channel_receive(call, path, expected, fuel),
            RuntimeCall::JobSubmit => self.analyze_job_submit(call, path, expected, fuel),
            RuntimeCall::JobWait => self.analyze_job_wait(call, path, expected, fuel),
            RuntimeCall::ParallelForSlice => self.analyze_parallel_for_mut(
                call,
                path,
                expected,
                false,
                fuel,
            ),
            _ => self.analyze_parallel_for_mut(call, path, expected, true, fuel),
        }
    }

    /// Whether the function stands in the module of that name.
    #[verifier::opaque]
    pub open spec fn is_module(self, name: &str) -> bool {
        in_named_module(self.frame.home, name)
    }

    /// The allocator may only be called by its wrapper.
    #[verifier::opaque]
    pub open spec fn require_standard_allocator_intrinsic(self, span: Span) -> Self {
        if !self.is_module("3_std_5_alloc") {
            let s = self.report(
                helped(
                    "E3145",
                    words("runtime allocator intrinsics are private to `std::alloc`"),
                    "import and call the public allocator wrapper instead",
                    span,
                ),
            );
            s
        } else {
            self
        }
    }

    /// The parts of a string may only be taken by its wrappers.
    #[verifier::opaque]
    pub open spec fn require_standard_io_intrinsic(self, span: Span) -> Self {
        if !(
            self.is_module("3_std_2_fs") || self.is_module("3_std_2_io")
                || self.is_module("3_std_3_env") || self.is_module("3_std_6_string")
                || self.is_module("3_std_7_process")
        ) {
            let s = self.report(
                helped(
                    "E3148",
                    words(
                        "string-view runtime intrinsics are private to standard library wrappers",
                    ),
                    "import and call the public string, file-system, or I/O wrapper instead",
                    span,
                ),
            );
            s
        } else {
            self
        }
    }

    /// A string may only be made of its parts by its wrapper.
    #[verifier::opaque]
    pub open spec fn require_standard_string_intrinsic(self, span: Span) -> Self {
        if !self.is_module("3_std_6_string") {
            let s = self.report(
                helped(
                    "E3149",
                    words("raw string construction is private to `std::string`"),
                    "construct an owned `String` or use a string literal instead",
                    span,
                ),
            );
            s
        } else {
            self
        }
    }

    /// The memory of collections may only be reached by their wrappers.
    #[verifier::opaque]
    pub open spec fn require_standard_collections_intrinsic(self, span: Span) -> Self {
        if !(
            self.is_module("3_std_5_alloc") || self.is_module("3_std_5_slice")
                || self.is_module("3_std_11_collections") || self.is_module("3_std_2_fs")
        ) {
            let s = self.report(
                helped(
                    "E3150",
                    words("native slice intrinsics are private to standard slice wrappers"),
                    "use `std::slice` or a standard owned collection instead",
                    span,
                ),
            );
            s
        } else {
            self
        }
    }

    /// Threads may only be started by their wrapper.
    #[verifier::opaque]
    pub open spec fn require_standard_thread_intrinsic(self, span: Span) -> Self {
        if !self.is_module("3_std_6_thread") {
            let s = self.report(
                helped(
                    "E3151",
                    words("native thread intrinsics are private to `std::thread`"),
                    "import and call the safe standard thread wrappers",
                    span,
                ),
            );
            s
        } else {
            self
        }
    }

    /// Jobs may only be started by their wrapper.
    #[verifier::opaque]
    pub open spec fn require_standard_job_intrinsic(self, span: Span) -> Self {
        if !self.is_module("3_std_3_job") {
            let s = self.report(
                helped(
                    "E3154",
                    words("job intrinsics are private to `std::job`"),
                    "import and call the safe standard job wrappers",
                    span,
                ),
            );
            s
        } else {
            self
        }
    }

    /// The length of a slice may only be taken by its wrappers.
    #[verifier::opaque]
    pub open spec fn require_standard_slice_intrinsic(self, span: Span) -> Self {
        if !(
            self.is_module("3_std_3_job") || self.is_module("3_std_5_alloc")
                || self.is_module("3_std_5_slice") || self.is_module("3_std_6_string")
                || self.is_module("3_std_2_fs")
        ) {
            let s = self.report(
                helped(
                    "E3154",
                    words("raw slice inspection is private to the standard library"),
                    "use safe slice and string APIs instead",
                    span,
                ),
            );
            s
        } else {
            self
        }
    }

    /// The data or the length of a string.
    pub open spec fn analyze_string_view_part(
        self,
        call: CallExpression<'a>,
        path: Path<'a>,
        data: bool,
        fuel: nat,
    ) -> (Self, Expression<'a>)
        decreases fuel, 3nat, List::<Type>::Nil,
    {
        let s = self.require_standard_io_intrinsic(call.span);
        let s = s.require_arity(call, path, 1);
        let (s, value) = s.analyze_argument(call, 0, Some(Type::Str), fuel);
        let s = s.analyze_extra(call, 1, fuel);
        s.string_view_part(value, data, call.span)
    }

    /// The data or the length of a string.
    #[verifier::opaque]
    pub open spec fn string_view_part(
        self,
        value: Expression<'a>,
        data: bool,
        span: Span,
    ) -> (Self, Expression<'a>) {
        let s = self.require_type(Type::Str, value.ty, value.span, "string view");
        if data {
            let (s, interned) = s.intern_raw_pointer(Type::U8, false, span);
            let ty = match interned {
                Some(ty) => ty,
                None => Type::Unit,
            };
            (s, typed(ExpressionKind::StringData(value), ty, span))
        } else {
            (s, typed(ExpressionKind::StringLength(value), Type::Usize, span))
        }
    }

    /// The length of a slice.
    pub open spec fn analyze_slice_length(
        self,
        call: CallExpression<'a>,
        path: Path<'a>,
        fuel: nat,
    ) -> (Self, Expression<'a>)
        decreases fuel, 3nat, List::<Type>::Nil,
    {
        let s = self.require_standard_slice_intrinsic(call.span);
        let s = s.require_arity(call, path, 1);
        let (s, slice) = s.analyze_argument(call, 0, None, fuel);
        let s = s.analyze_extra(call, 1, fuel);
        let s = if s.slice_shape(slice.ty).is_none() {
            let s = s.report(
                error(
                    "E3154",
                    framed("slice length requires a slice view, found `", slice.ty.text(), "`"),
                    slice.span,
                ),
            );
            s
        } else {
            s
        };
        (s, typed(ExpressionKind::SliceLength(slice), Type::Usize, call.span))
    }

    /// Whether a type is a raw pointer to bytes.
    #[verifier::opaque]
    pub open spec fn is_byte_pointer(self, ty: Type) -> bool {
        match self.types.pointer_shape(ty) {
            Some((target, _, raw)) => target == Type::U8 && raw,
            None => false,
        }
    }

    /// A string that is made of its parts.
    pub open spec fn analyze_string_from_parts(
        self,
        call: CallExpression<'a>,
        path: Path<'a>,
        fuel: nat,
    ) -> (Self, Expression<'a>)
        decreases fuel, 3nat, List::<Type>::Nil,
    {
        let s = self.require_standard_string_intrinsic(call.span);
        let s = s.require_arity(call, path, 2);
        let (s, data) = s.analyze_argument(call, 0, None, fuel);
        let (s, length) = s.analyze_argument(call, 1, Some(Type::Usize), fuel);
        let s = s.analyze_extra(call, 2, fuel);
        let s = if !s.is_byte_pointer(data.ty) {
            let s = s.report(
                error(
                    "E3149",
                    framed(
                        "string construction requires a raw byte pointer, found `",
                        data.ty.text(),
                        "`",
                    ),
                    data.span,
                ),
            );
            s
        } else {
            s
        };
        let s = s.require_type(Type::Usize, length.ty, length.span, "string byte length");
        (s, typed(ExpressionKind::StringFromParts { data, length }, Type::Str, call.span))
    }

    /// The expected slice type, its element, and whether it is mutable.
    #[verifier::opaque]
    pub open spec fn expected_slice(self, expected: Option<Type>) -> Option<(Type, Type, bool)> {
        match expected {
            None => None,
            Some(expected) => match self.types.slice_shape(expected) {
                Some((element, mutable)) => Some((expected, element, mutable)),
                None => None,
            },
        }
    }

    /// Whether a type is a raw pointer to elements, mutable where that is needed.
    #[verifier::opaque]
    pub open spec fn is_element_pointer(self, ty: Type, element: Type, mutable: bool) -> bool {
        match self.types.pointer_shape(ty) {
            Some((target, pointer_mutable, raw)) => target == element && raw
                && (!mutable || pointer_mutable),
            None => false,
        }
    }

    /// A slice that is made of its parts.
    pub open spec fn analyze_slice_from_parts(
        self,
        call: CallExpression<'a>,
        path: Path<'a>,
        expected: Option<Type>,
        fuel: nat,
    ) -> (Self, Expression<'a>)
        decreases fuel, 3nat, List::<Type>::Nil,
    {
        let s = self.require_standard_collections_intrinsic(call.span);
        let s = s.require_arity(call, path, 2);
        let (s, data) = s.analyze_argument(call, 0, None, fuel);
        let (s, length) = s.analyze_argument(call, 1, Some(Type::Usize), fuel);
        let s = s.analyze_extra(call, 2, fuel);
        s.slice_from_parts(data, length, expected, call.span)
    }

    /// A slice that is made of its parts.
    #[verifier::opaque]
    pub open spec fn slice_from_parts(
        self,
        data: Expression<'a>,
        length: Expression<'a>,
        expected: Option<Type>,
        span: Span,
    ) -> (Self, Expression<'a>) {
        match self.expected_slice(expected) {
            None => {
                let s = self.report(
                    helped(
                        "E3151",
                        words("`__slice_from_parts` requires an expected borrowed slice type"),
                        "call the intrinsic only from a typed standard collection wrapper",
                        span,
                    ),
                );
                (s, invalid_composite_expression(span))
            },
            Some((ty, element, mutable)) => {
                let s = if !self.is_element_pointer(data.ty, element, mutable) {
                    let s = self.report(
                        error(
                            "E3151",
                            framed(
                                "slice construction requires a compatible raw element pointer, found `",
                                data.ty.text(),
                                "`",
                            ),
                            data.span,
                        ),
                    );
                    s
                } else {
                    self
                };
                let s = s.require_type(Type::Usize, length.ty, length.span, "slice element count");
                (s, typed(ExpressionKind::SliceFromParts { data, length }, ty, span))
            },
        }
    }

    /// The distance between the values that a pointer leads to.
    pub open spec fn analyze_pointee_stride(
        self,
        call: CallExpression<'a>,
        path: Path<'a>,
        fuel: nat,
    ) -> (Self, Expression<'a>)
        decreases fuel, 3nat, List::<Type>::Nil,
    {
        let s = self.require_standard_collections_intrinsic(call.span);
        let s = s.require_arity(call, path, 1);
        let (s, pointer) = s.analyze_argument(call, 0, None, fuel);
        let s = s.analyze_extra(call, 1, fuel);
        match s.pointer_shape(pointer.ty) {
            None => {
                let s = s.report(
                    error(
                        "E3150",
                        framed(
                            "pointee stride requires a raw pointer, found `",
                            pointer.ty.text(),
                            "`",
                        ),
                        pointer.span,
                    ),
                );
                (s, invalid_composite_expression(call.span))
            },
            Some((target, _, raw)) => {
                let s = if !raw {
                    let s = s.report(
                        error(
                            "E3150",
                            words("pointee stride requires a raw pointer"),
                            pointer.span,
                        ),
                    );
                    s
                } else {
                    s
                };
                (s, typed(ExpressionKind::TypeStride { target }, Type::Usize, call.span))
            },
        }
    }

    /// The hash of a value.
    pub open spec fn analyze_hash_value(
        self,
        call: CallExpression<'a>,
        path: Path<'a>,
        fuel: nat,
    ) -> (Self, Expression<'a>)
        decreases fuel, 3nat, List::<Type>::Nil,
    {
        let s = self.require_standard_collections_intrinsic(call.span);
        let s = s.require_arity(call, path, 2);
        let (s, value) = s.analyze_argument(call, 0, None, fuel);
        let (s, seed) = s.analyze_argument(call, 1, Some(Type::U64), fuel);
        let s = s.analyze_extra(call, 2, fuel);
        let s = if !s.types.is_hash_capable(value.ty) {
            let s = s.report(
                helped(
                    "E3150",
                    framed("hashing requires `Hash`, found `", value.ty.text(), "`"),
                    "derive or implement `Hash` for the key type",
                    value.span,
                ),
            );
            s
        } else {
            s
        };
        let s = s.require_type(Type::U64, seed.ty, seed.span, "hash seed");
        (s, typed(ExpressionKind::HashValue { value, seed }, Type::U64, call.span))
    }

    /// An allocation.
    pub open spec fn analyze_allocate_bytes(
        self,
        call: CallExpression<'a>,
        path: Path<'a>,
        expected: Option<Type>,
        fuel: nat,
    ) -> (Self, Expression<'a>)
        decreases fuel, 3nat, List::<Type>::Nil,
    {
        let s = self.require_standard_allocator_intrinsic(call.span);
        let s = s.require_arity(call, path, 2);
        let (s, allocator) = s.analyze_argument(call, 0, Some(Type::Usize), fuel);
        let (s, length) = s.analyze_argument(call, 1, Some(Type::Usize), fuel);
        let s = s.analyze_extra(call, 2, fuel);
        let s = s.require_type(Type::Usize, allocator.ty, allocator.span, "allocator handle");
        let s = s.require_type(Type::Usize, length.ty, length.span, "allocation length");
        match s.allocation_parts(expected, call.span) {
            (s, None) => (s, invalid_composite_expression(call.span)),
            (s, Some((ty, allocation_type, error_type, error_variant))) => (
                s,
                typed(
                    ExpressionKind::AllocateBytes {
                        allocator,
                        length,
                        allocation_type,
                        error_type,
                        error_variant,
                    },
                    ty,
                    call.span,
                ),
            ),
        }
    }

    /// The expected result of an allocation: its type, the allocation, the error,
    /// and the variant for a lack of memory.
    #[verifier::opaque]
    pub open spec fn allocation_parts(
        self,
        expected: Option<Type>,
        span: Span,
    ) -> (Self, Option<(Type, Type, Type, u32)>) {
        match expected {
            None => {
                let s = self.report(
                    helped(
                        "E3145",
                        words(
                            "`__allocate_bytes` requires an expected `Result<OwnedBytes, AllocError>` type",
                        ),
                        "call the intrinsic only from the typed standard allocator wrapper",
                        span,
                    ),
                );
                (s, None)
            },
            Some(ty) => match self.intrinsic(ty) {
                Some(IntrinsicType::Result { success, error }) => match self.validate_allocation_result_types(
                    success,
                    error,
                    span,
                ) {
                    (s, None) => (s, None),
                    (s, Some(variant)) => (s, Some((ty, success, error, variant))),
                },
                _ => {
                    let s = self.report(
                        error("E3145", words("`__allocate_bytes` must return a Result"), span),
                    );
                    (s, None)
                },
            },
        }
    }

    /// Whether a type is a mutable raw pointer to bytes.
    #[verifier::opaque]
    pub open spec fn is_mutable_byte_pointer(self, ty: Type) -> bool {
        match self.types.pointer_shape(ty) {
            Some((target, mutable, raw)) => target == Type::U8 && mutable && raw,
            None => false,
        }
    }

    /// Whether fields are those of an allocation.
    #[verifier::opaque]
    pub open spec fn are_allocation_fields(self, fields: List<TypeField<'a>>) -> bool {
        match fields {
            List::Nil => false,
            List::Cons(data) => match data.tail {
                List::Nil => false,
                List::Cons(length) => match length.tail {
                    List::Nil => false,
                    List::Cons(allocator) => allocator.tail.is_empty()
                        && spec_is_private_field_named(data.head, "data")
                        && self.is_mutable_byte_pointer(data.head.ty)
                        && spec_is_private_field_named(length.head, "len")
                        && length.head.ty == Type::Usize
                        && spec_is_private_field_named(allocator.head, "allocator")
                        && allocator.head.ty == Type::Usize,
                },
            },
        }
    }

    /// The variant for a lack of memory.
    #[verifier::opaque]
    pub open spec fn memory_variant(self, ty: Type) -> Option<u32> {
        match self.enum_variants(ty) {
            Some(variants) => spec_find_unit_variant(variants, "OutOfMemory", 0),
            None => None,
        }
    }

    /// The result of an allocation must have the form that the runtime fills.
    #[verifier::opaque]
    pub open spec fn validate_allocation_result_types(
        self,
        allocation_type: Type,
        error_type: Type,
        span: Span,
    ) -> (Self, Option<u32>) {
        let variant = if self.are_allocation_fields(self.types.struct_fields(allocation_type)) {
            self.memory_variant(error_type)
        } else {
            None
        };
        match variant {
            Some(variant) => (self, Some(variant)),
            None => {
                let s = self.report(
                    helped(
                        "E3145",
                        words("invalid standard allocator result representation"),
                        "`OwnedBytes` must contain private `data`, `len`, and `allocator` fields and `AllocError` must define `OutOfMemory`",
                        span,
                    ),
                );
                (s, None)
            },
        }
    }

    /// A deallocation must stand in `unsafe`.
    #[verifier::opaque]
    pub open spec fn require_unsafe_deallocation(self, span: Span) -> Self {
        if self.frame.unsafe_depth == 0 {
            let s = self.report(
                helped(
                    "E3146",
                    words("the raw deallocation intrinsic requires `unsafe`"),
                    "keep the intrinsic inside the owned standard-library wrapper",
                    span,
                ),
            );
            s
        } else {
            self
        }
    }

    /// A deallocation.
    pub open spec fn analyze_deallocate_bytes(
        self,
        call: CallExpression<'a>,
        path: Path<'a>,
        fuel: nat,
    ) -> (Self, Expression<'a>)
        decreases fuel, 3nat, List::<Type>::Nil,
    {
        let s = self.require_standard_allocator_intrinsic(call.span);
        let s = s.require_unsafe_deallocation(call.span);
        let s = s.require_arity(call, path, 3);
        let (s, allocator) = s.analyze_argument(call, 0, Some(Type::Usize), fuel);
        let (s, data) = s.analyze_argument(call, 1, None, fuel);
        let (s, length) = s.analyze_argument(call, 2, Some(Type::Usize), fuel);
        let s = s.analyze_extra(call, 3, fuel);
        s.deallocate(allocator, data, length, call.span)
    }

    /// A deallocation of its parts.
    #[verifier::opaque]
    pub open spec fn deallocate(
        self,
        allocator: Expression<'a>,
        data: Expression<'a>,
        length: Expression<'a>,
        span: Span,
    ) -> (Self, Expression<'a>) {
        let s = self.require_type(Type::Usize, allocator.ty, allocator.span, "allocator handle");
        let s = s.require_type(Type::Usize, length.ty, length.span, "allocation length");
        let s = if !s.is_mutable_byte_pointer(data.ty) {
            let s = s.report(
                error(
                    "E3146",
                    framed("deallocation requires `*mut u8`, found `", data.ty.text(), "`"),
                    data.span,
                ),
            );
            s
        } else {
            s
        };
        (s, typed(ExpressionKind::DeallocateBytes { allocator, data, length }, Type::Unit, span))
    }

    /// The parameter and the result of a callback with one parameter.
    #[verifier::opaque]
    pub open spec fn require_callback(
        self,
        callback: Type,
        span: Span,
        code: &'a str,
        role: &'a str,
    ) -> (Self, (Type, Type)) {
        match self.function_shape(callback) {
            Some((parameters, output)) => match parameters {
                List::Cons(node) => if node.tail.is_empty() {
                    (self, (node.head, output))
                } else {
                    self.reject_callback_arity(parameters.count(), span, code, role)
                },
                List::Nil => self.reject_callback_arity(0, span, code, role),
            },
            None => {
                let s = self.report(
                    helped(
                        code,
                        cons(
                            Piece::Words(role),
                            framed(
                                " callback must be a function value, found `",
                                callback.text(),
                                "`",
                            ),
                        ),
                        "pass a function with type `fn(Input) -> Output`",
                        span,
                    ),
                );
                (s, (Type::Unit, Type::Unit))
            },
        }
    }

    /// A callback with too many or too few parameters.
    #[verifier::opaque]
    pub open spec fn reject_callback_arity(
        self,
        count: u64,
        span: Span,
        code: &'a str,
        role: &'a str,
    ) -> (Self, (Type, Type)) {
        let s = self.report(
            helped(
                code,
                cons(
                    Piece::Words(role),
                    cons(
                        Piece::Words(" callbacks require exactly one parameter, found "),
                        number(count as u128),
                    ),
                ),
                "bundle multiple inputs in a struct or tuple",
                span,
            ),
        );
        (s, (Type::Unit, Type::Unit))
    }

    /// The expected result of an operation: its type, the success and the error.
    #[verifier::opaque]
    pub open spec fn expected_result_parts(
        self,
        expected: Option<Type>,
        span: Span,
        role: &'a str,
    ) -> (Self, Option<(Type, Type, Type)>) {
        match expected {
            None => {
                let s = self.report(
                    helped(
                        "E3151",
                        words2(role, " requires an expected `Result<T, E>` type"),
                        "add a result type annotation or return the intrinsic directly",
                        span,
                    ),
                );
                (s, None)
            },
            Some(ty) => match self.intrinsic(ty) {
                Some(IntrinsicType::Result { success, error }) => (
                    self,
                    Some((ty, success, error)),
                ),
                _ => {
                    let s = self.report(
                        error("E3151", words2(role, " must produce `Result<T, E>`"), span),
                    );
                    (s, None)
                },
            },
        }
    }

    /// The variants of a thread error, if they are all there.
    #[verifier::opaque]
    pub open spec fn find_thread_error_variants(self, ty: Type) -> Option<ThreadErrorVariants> {
        match self.unit_variant(ty, "SpawnFailed") {
            None => None,
            Some(spawn_failed) => match self.unit_variant(ty, "InvalidHandle") {
                None => None,
                Some(invalid_handle) => match self.unit_variant(ty, "WorkerPanicked") {
                    None => None,
                    Some(worker_panicked) => match self.unit_variant(ty, "ResultMismatch") {
                        None => None,
                        Some(result_mismatch) => Some(
                            ThreadErrorVariants {
                                spawn_failed,
                                invalid_handle,
                                worker_panicked,
                                result_mismatch,
                            },
                        ),
                    },
                },
            },
        }
    }

    /// The variants of a thread error.
    #[verifier::opaque]
    pub open spec fn thread_error_variants(
        self,
        ty: Type,
        span: Span,
    ) -> (Self, Option<ThreadErrorVariants>) {
        match self.find_thread_error_variants(ty) {
            Some(variants) => (self, Some(variants)),
            None => {
                let s = self.report(
                    helped(
                        "E3151",
                        words(
                            "thread errors require unit variants `SpawnFailed`, `InvalidHandle`, `WorkerPanicked`, and `ResultMismatch`",
                        ),
                        "use `std::thread::ThreadError`",
                        span,
                    ),
                );
                (s, None)
            },
        }
    }

    /// The variants of a job error, if they are all there.
    #[verifier::opaque]
    pub open spec fn find_job_error_variants(self, ty: Type) -> Option<JobErrorVariants> {
        match self.unit_variant(ty, "PoolCreateFailed") {
            None => None,
            Some(_) => match self.unit_variant(ty, "SubmitFailed") {
                None => None,
                Some(submit_failed) => match self.unit_variant(ty, "InvalidHandle") {
                    None => None,
                    Some(invalid_handle) => match self.unit_variant(ty, "WorkerPanicked") {
                        None => None,
                        Some(worker_panicked) => match self.unit_variant(ty, "ResultMismatch") {
                            None => None,
                            Some(result_mismatch) => Some(
                                JobErrorVariants {
                                    submit_failed,
                                    invalid_handle,
                                    worker_panicked,
                                    result_mismatch,
                                },
                            ),
                        },
                    },
                },
            },
        }
    }

    /// The variants of a job error.
    #[verifier::opaque]
    pub open spec fn job_error_variants(
        self,
        ty: Type,
        span: Span,
    ) -> (Self, Option<JobErrorVariants>) {
        match self.find_job_error_variants(ty) {
            Some(variants) => (self, Some(variants)),
            None => {
                let s = self.report(
                    helped(
                        "E3154",
                        words(
                            "job errors require unit variants `PoolCreateFailed`, `SubmitFailed`, `InvalidHandle`, `WorkerPanicked`, and `ResultMismatch`",
                        ),
                        "use `std::job::JobError`",
                        span,
                    ),
                );
                (s, None)
            },
        }
    }

    /// The variant for a closed channel.
    #[verifier::opaque]
    pub open spec fn channel_closed_variant(self, ty: Type, span: Span) -> (Self, Option<u32>) {
        match self.unit_variant(ty, "Closed") {
            Some(variant) => (self, Some(variant)),
            None => {
                let s = self.report(
                    helped(
                        "E3153",
                        words("channel errors require a unit variant named `Closed`"),
                        "use `std::thread::ChannelError`",
                        span,
                    ),
                );
                (s, None)
            },
        }
    }

    /// A value that is shared must satisfy a trait.
    #[verifier::opaque]
    pub open spec fn require_synchronization_trait(
        self,
        ty: Type,
        requirement: &'a str,
        span: Span,
    ) -> Self {
        if !self.types.meets(ty, requirement@) {
            let s = self.report(
                helped(
                    "E3153",
                    cons(
                        Piece::Words("synchronization value type `"),
                        append(ty.text(), words3("` does not satisfy `", requirement, "`")),
                    ),
                    "store an owned value whose fields satisfy the required traits",
                    span,
                ),
            );
            s
        } else {
            self
        }
    }

    /// A value that is shared must be safe to share, and hold no reference.
    #[verifier::opaque]
    pub open spec fn require_synchronization_value(
        self,
        ty: Type,
        span: Span,
        kind: SynchronizationKind,
    ) -> Self {
        let s = match kind {
            SynchronizationKind::Mutex => self.require_synchronization_trait(ty, "Send", span),
            SynchronizationKind::RwLock => {
                let s = self.require_synchronization_trait(ty, "Send", span);
                let s = s.require_synchronization_trait(ty, "Sync", span);
                s
            },
            SynchronizationKind::ThreadLocal => {
                let s = self.require_synchronization_trait(ty, "Copy", span);
                let s = s.require_synchronization_trait(ty, "Send", span);
                s
            },
        };
        if s.types.is_scoped(ty) {
            let s = s.report(
                helped(
                    "E3153",
                    framed(
                        "synchronization value type `",
                        ty.text(),
                        "` cannot contain a scoped borrow",
                    ),
                    "store owned data in synchronization resources",
                    span,
                ),
            );
            s
        } else {
            s
        }
    }

    /// A value that is sent must be safe to send, and hold no reference.
    #[verifier::opaque]
    pub open spec fn require_channel_value(self, ty: Type, span: Span) -> Self {
        let s = if !self.types.meets(ty, "Send"@) {
            let s = self.report(
                helped(
                    "E3153",
                    framed("channel element type `", ty.text(), "` does not satisfy `Send`"),
                    "send owned thread-safe values",
                    span,
                ),
            );
            s
        } else {
            self
        };
        if s.types.is_scoped(ty) {
            let s = s.report(
                helped(
                    "E3153",
                    framed("channel element type `", ty.text(), "` cannot contain a scoped borrow"),
                    "send owned data or use `scope` with direct arguments",
                    span,
                ),
            );
            s
        } else {
            s
        }
    }

    /// A value that goes to a thread must be safe to send. Without a scope, it
    /// must hold no reference.
    #[verifier::opaque]
    pub open spec fn require_thread_transfer(
        self,
        ty: Type,
        span: Span,
        scoped: bool,
        role: &'a str,
    ) -> Self {
        let s = if !self.types.meets(ty, "Send"@) {
            let s = self.report(
                helped(
                    "E3152",
                    cons(
                        Piece::Words("thread "),
                        cons(
                            Piece::Words(role),
                            framed(" type `", ty.text(), "` does not satisfy `Send`"),
                        ),
                    ),
                    "move owned thread-safe data or use synchronization",
                    span,
                ),
            );
            s
        } else {
            self
        };
        if !scoped && s.types.is_scoped(ty) {
            let s = s.report(
                helped(
                    "E3152",
                    words3("native thread ", role, " cannot contain a scoped borrow"),
                    "use `scope` so the worker is joined before the borrow ends",
                    span,
                ),
            );
            s
        } else {
            s
        }
    }

    /// A thread that is started.
    pub open spec fn analyze_thread_spawn(
        self,
        call: CallExpression<'a>,
        path: Path<'a>,
        expected: Option<Type>,
        scoped: bool,
        fuel: nat,
    ) -> (Self, Expression<'a>)
        decreases fuel, 3nat, List::<Type>::Nil,
    {
        let s = self.require_standard_thread_intrinsic(call.span);
        let s = s.require_arity(call, path, 2);
        let (s, callback) = s.analyze_argument(call, 0, None, fuel);
        let (s, (parameter_type, output_type)) = s.require_callback(
            callback.ty,
            callback.span,
            "E3151",
            "thread",
        );
        let (s, argument) = s.analyze_argument(call, 1, Some(parameter_type), fuel);
        let s = s.analyze_extra(call, 2, fuel);
        let s = s.check_thread_values(parameter_type, output_type, callback, argument, scoped);
        s.spawn_thread(callback, argument, output_type, expected, scoped, call.span)
    }

    /// What goes to a thread and comes back from it must be safe to send.
    #[verifier::opaque]
    pub open spec fn check_thread_values(
        self,
        parameter_type: Type,
        output_type: Type,
        callback: Expression<'a>,
        argument: Expression<'a>,
        scoped: bool,
    ) -> Self {
        let s = self.require_type(parameter_type, argument.ty, argument.span, "thread argument");
        let s = s.require_thread_transfer(argument.ty, argument.span, scoped, "argument");
        let s = s.require_thread_transfer(output_type, callback.span, scoped, "result");
        s
    }

    /// The expected result of a thread operation, and the variants of its error.
    #[verifier::opaque]
    pub open spec fn thread_result(
        self,
        output_type: Type,
        expected: Option<Type>,
        scoped: bool,
        span: Span,
    ) -> (Self, Option<(Type, Type, ThreadErrorVariants)>) {
        match self.expected_result_parts(expected, span, "thread operation") {
            (s, None) => (s, None),
            (s, Some((ty, success, error_type))) => {
                let s = s.require_type(
                    if scoped {
                        output_type
                    } else {
                        Type::Usize
                    },
                    success,
                    span,
                    "thread operation success",
                );
                match s.thread_error_variants(error_type, span) {
                    (s, None) => (s, None),
                    (s, Some(variants)) => (s, Some((ty, error_type, variants))),
                }
            },
        }
    }

    /// A thread of its parts.
    #[verifier::opaque]
    pub open spec fn spawn_thread(
        self,
        callback: Expression<'a>,
        argument: Expression<'a>,
        output_type: Type,
        expected: Option<Type>,
        scoped: bool,
        span: Span,
    ) -> (Self, Expression<'a>) {
        match self.thread_result(output_type, expected, scoped, span) {
            (s, None) => (s, invalid_composite_expression(span)),
            (s, Some((ty, error_type, variants))) => (
                s,
                if scoped {
                    typed(
                        ExpressionKind::ThreadScope {
                            callback,
                            argument,
                            output_type,
                            error_type,
                            spawn_failed_variant: variants.spawn_failed,
                            invalid_handle_variant: variants.invalid_handle,
                            worker_panicked_variant: variants.worker_panicked,
                            result_mismatch_variant: variants.result_mismatch,
                        },
                        ty,
                        span,
                    )
                } else {
                    typed(
                        ExpressionKind::ThreadSpawn {
                            callback,
                            argument,
                            output_type,
                            error_type,
                            spawn_failed_variant: variants.spawn_failed,
                        },
                        ty,
                        span,
                    )
                },
            ),
        }
    }

    /// A thread that is waited for.
    pub open spec fn analyze_thread_join(
        self,
        call: CallExpression<'a>,
        path: Path<'a>,
        expected: Option<Type>,
        fuel: nat,
    ) -> (Self, Expression<'a>)
        decreases fuel, 3nat, List::<Type>::Nil,
    {
        let s = self.require_standard_thread_intrinsic(call.span);
        let s = s.require_arity(call, path, 1);
        let (s, handle) = s.analyze_argument(call, 0, Some(Type::Usize), fuel);
        let s = s.analyze_extra(call, 1, fuel);
        let s = s.require_type(Type::Usize, handle.ty, handle.span, "thread handle");
        s.join_thread(handle, expected, call.span)
    }

    /// The result of a thread.
    #[verifier::opaque]
    pub open spec fn join_thread(
        self,
        handle: Expression<'a>,
        expected: Option<Type>,
        span: Span,
    ) -> (Self, Expression<'a>) {
        match self.expected_result_parts(expected, span, "thread join") {
            (s, None) => (s, invalid_composite_expression(span)),
            (s, Some((ty, output_type, error_type))) => match s.thread_error_variants(
                error_type,
                span,
            ) {
                (s, None) => (s, invalid_composite_expression(span)),
                (s, Some(variants)) => (
                    s,
                    typed(
                        ExpressionKind::ThreadJoin {
                            handle,
                            output_type,
                            error_type,
                            invalid_handle_variant: variants.invalid_handle,
                            worker_panicked_variant: variants.worker_panicked,
                            result_mismatch_variant: variants.result_mismatch,
                        },
                        ty,
                        span,
                    ),
                ),
            },
        }
    }

    /// A shared value that is created.
    pub open spec fn analyze_synchronization_create(
        self,
        call: CallExpression<'a>,
        path: Path<'a>,
        synchronization: SynchronizationKind,
        fuel: nat,
    ) -> (Self, Expression<'a>)
        decreases fuel, 3nat, List::<Type>::Nil,
    {
        let s = self.require_standard_thread_intrinsic(call.span);
        let s = s.require_arity(call, path, 1);
        let (s, value) = s.analyze_argument(call, 0, None, fuel);
        let s = s.analyze_extra(call, 1, fuel);
        let s = s.require_synchronization_value(value.ty, value.span, synchronization);
        (
            s,
            typed(
                ExpressionKind::SynchronizationCreate { value, synchronization },
                Type::Usize,
                call.span,
            ),
        )
    }

    /// A shared value that is read.
    pub open spec fn analyze_synchronization_load(
        self,
        call: CallExpression<'a>,
        path: Path<'a>,
        expected: Option<Type>,
        synchronization: SynchronizationKind,
        fuel: nat,
    ) -> (Self, Expression<'a>)
        decreases fuel, 3nat, List::<Type>::Nil,
    {
        let s = self.require_standard_thread_intrinsic(call.span);
        let s = s.require_arity(call, path, 1);
        let (s, handle) = s.analyze_argument(call, 0, Some(Type::Usize), fuel);
        let s = s.analyze_extra(call, 1, fuel);
        let s = s.require_type(Type::Usize, handle.ty, handle.span, "synchronization handle");
        s.load_synchronized(handle, expected, synchronization, call.span)
    }

    /// A shared value that is read must be copied.
    #[verifier::opaque]
    pub open spec fn load_synchronized(
        self,
        handle: Expression<'a>,
        expected: Option<Type>,
        synchronization: SynchronizationKind,
        span: Span,
    ) -> (Self, Expression<'a>) {
        match expected {
            None => {
                let s = self.report(
                    helped(
                        "E3153",
                        words("loading a synchronized value requires an expected result type"),
                        "call the intrinsic only from a typed standard-library method",
                        span,
                    ),
                );
                (s, invalid_composite_expression(span))
            },
            Some(value_type) => {
                let s = if !self.types.meets(value_type, "Copy"@) {
                    let s = self.report(
                        helped(
                            "E3153",
                            framed(
                                "synchronized load type `",
                                value_type.text(),
                                "` does not satisfy `Copy`",
                            ),
                            "use `replace` to transfer ownership of a non-Copy value",
                            span,
                        ),
                    );
                    s
                } else {
                    self
                };
                let s = s.require_synchronization_value(value_type, span, synchronization);
                (
                    s,
                    typed(
                        ExpressionKind::SynchronizationLoad { handle, value_type, synchronization },
                        value_type,
                        span,
                    ),
                )
            },
        }
    }

    /// A shared value that is exchanged.
    pub open spec fn analyze_synchronization_replace(
        self,
        call: CallExpression<'a>,
        path: Path<'a>,
        expected: Option<Type>,
        synchronization: SynchronizationKind,
        fuel: nat,
    ) -> (Self, Expression<'a>)
        decreases fuel, 3nat, List::<Type>::Nil,
    {
        let s = self.require_standard_thread_intrinsic(call.span);
        let s = s.require_arity(call, path, 2);
        let (s, handle) = s.analyze_argument(call, 0, Some(Type::Usize), fuel);
        let (s, value) = s.analyze_argument(call, 1, expected, fuel);
        let s = s.analyze_extra(call, 2, fuel);
        s.replace_synchronized(handle, value, expected, synchronization, call.span)
    }

    /// A shared value and the one that takes its place.
    #[verifier::opaque]
    pub open spec fn replace_synchronized(
        self,
        handle: Expression<'a>,
        value: Expression<'a>,
        expected: Option<Type>,
        synchronization: SynchronizationKind,
        span: Span,
    ) -> (Self, Expression<'a>) {
        let s = self.require_type(Type::Usize, handle.ty, handle.span, "synchronization handle");
        let s = s.require_expected(expected, value.ty, value.span, "replacement value");
        let s = s.require_synchronization_value(value.ty, value.span, synchronization);
        let ty = value.ty;
        (
            s,
            typed(
                ExpressionKind::SynchronizationReplace { handle, value, synchronization },
                ty,
                span,
            ),
        )
    }

    /// A value of a thread that is set.
    pub open spec fn analyze_thread_local_store(
        self,
        call: CallExpression<'a>,
        path: Path<'a>,
        fuel: nat,
    ) -> (Self, Expression<'a>)
        decreases fuel, 3nat, List::<Type>::Nil,
    {
        let s = self.require_standard_thread_intrinsic(call.span);
        let s = s.require_arity(call, path, 2);
        let (s, handle) = s.analyze_argument(call, 0, Some(Type::Usize), fuel);
        let (s, value) = s.analyze_argument(call, 1, None, fuel);
        let s = s.analyze_extra(call, 2, fuel);
        let s = s.require_type(Type::Usize, handle.ty, handle.span, "thread-local handle");
        let s = s.require_synchronization_value(
            value.ty,
            value.span,
            SynchronizationKind::ThreadLocal,
        );
        (s, typed(ExpressionKind::ThreadLocalStore { handle, value }, Type::Unit, call.span))
    }

    /// A channel that is created.
    pub open spec fn analyze_channel_create(
        self,
        call: CallExpression<'a>,
        path: Path<'a>,
        fuel: nat,
    ) -> (Self, Expression<'a>)
        decreases fuel, 3nat, List::<Type>::Nil,
    {
        let s = self.require_standard_thread_intrinsic(call.span);
        let s = s.require_arity(call, path, 2);
        let (s, probe) = s.analyze_argument(call, 0, None, fuel);
        let (s, capacity) = s.analyze_argument(call, 1, Some(Type::Usize), fuel);
        let s = s.analyze_extra(call, 2, fuel);
        s.create_channel(probe, capacity, call.span)
    }

    /// A channel for the values that a pointer leads to.
    #[verifier::opaque]
    pub open spec fn create_channel(
        self,
        probe: Expression<'a>,
        capacity: Expression<'a>,
        span: Span,
    ) -> (Self, Expression<'a>) {
        let s = self.require_type(Type::Usize, capacity.ty, capacity.span, "channel capacity");
        match s.pointer_shape(probe.ty) {
            None => {
                let s = s.report(
                    error(
                        "E3153",
                        framed(
                            "channel type probe must be a raw pointer, found `",
                            probe.ty.text(),
                            "`",
                        ),
                        probe.span,
                    ),
                );
                (s, invalid_composite_expression(span))
            },
            Some((element_type, _, raw)) => {
                let s = if !raw {
                    let s = s.report(
                        error(
                            "E3153",
                            words("channel type probe must be a raw pointer"),
                            probe.span,
                        ),
                    );
                    s
                } else {
                    s
                };
                let s = s.require_channel_value(element_type, probe.span);
                (
                    s,
                    typed(
                        ExpressionKind::ChannelCreate { probe, capacity, element_type },
                        Type::Usize,
                        span,
                    ),
                )
            },
        }
    }

    /// A value that is sent.
    pub open spec fn analyze_channel_send(
        self,
        call: CallExpression<'a>,
        path: Path<'a>,
        expected: Option<Type>,
        fuel: nat,
    ) -> (Self, Expression<'a>)
        decreases fuel, 3nat, List::<Type>::Nil,
    {
        let s = self.require_standard_thread_intrinsic(call.span);
        let s = s.require_arity(call, path, 2);
        let (s, handle) = s.analyze_argument(call, 0, Some(Type::Usize), fuel);
        let (s, value) = s.analyze_argument(call, 1, None, fuel);
        let s = s.analyze_extra(call, 2, fuel);
        let s = s.require_type(Type::Usize, handle.ty, handle.span, "channel handle");
        let s = s.require_channel_value(value.ty, value.span);
        s.send_to_channel(handle, value, expected, call.span)
    }

    /// A value and the channel that it is sent to.
    #[verifier::opaque]
    pub open spec fn send_to_channel(
        self,
        handle: Expression<'a>,
        value: Expression<'a>,
        expected: Option<Type>,
        span: Span,
    ) -> (Self, Expression<'a>) {
        match self.expected_result_parts(expected, span, "channel send") {
            (s, None) => (s, invalid_composite_expression(span)),
            (s, Some((ty, success, error_type))) => {
                let s = s.require_type(Type::Unit, success, span, "channel send success");
                match s.channel_closed_variant(error_type, span) {
                    (s, None) => (s, invalid_composite_expression(span)),
                    (s, Some(closed_variant)) => (
                        s,
                        typed(
                            ExpressionKind::ChannelSend {
                                handle,
                                value,
                                error_type,
                                closed_variant,
                            },
                            ty,
                            span,
                        ),
                    ),
                }
            },
        }
    }

    /// A value that is received.
    pub open spec fn analyze_channel_receive(
        self,
        call: CallExpression<'a>,
        path: Path<'a>,
        expected: Option<Type>,
        fuel: nat,
    ) -> (Self, Expression<'a>)
        decreases fuel, 3nat, List::<Type>::Nil,
    {
        let s = self.require_standard_thread_intrinsic(call.span);
        let s = s.require_arity(call, path, 1);
        let (s, handle) = s.analyze_argument(call, 0, Some(Type::Usize), fuel);
        let s = s.analyze_extra(call, 1, fuel);
        let s = s.require_type(Type::Usize, handle.ty, handle.span, "channel handle");
        s.receive_from_channel(handle, expected, call.span)
    }

    /// The value that comes from a channel.
    #[verifier::opaque]
    pub open spec fn receive_from_channel(
        self,
        handle: Expression<'a>,
        expected: Option<Type>,
        span: Span,
    ) -> (Self, Expression<'a>) {
        match self.expected_result_parts(expected, span, "channel receive") {
            (s, None) => (s, invalid_composite_expression(span)),
            (s, Some((ty, value_type, error_type))) => {
                let s = s.require_channel_value(value_type, span);
                match s.channel_closed_variant(error_type, span) {
                    (s, None) => (s, invalid_composite_expression(span)),
                    (s, Some(closed_variant)) => (
                        s,
                        typed(
                            ExpressionKind::ChannelReceive {
                                handle,
                                value_type,
                                error_type,
                                closed_variant,
                            },
                            ty,
                            span,
                        ),
                    ),
                }
            },
        }
    }

    /// A job that is started.
    pub open spec fn analyze_job_submit(
        self,
        call: CallExpression<'a>,
        path: Path<'a>,
        expected: Option<Type>,
        fuel: nat,
    ) -> (Self, Expression<'a>)
        decreases fuel, 3nat, List::<Type>::Nil,
    {
        let s = self.require_standard_job_intrinsic(call.span);
        let s = s.require_arity(call, path, 3);
        let (s, pool) = s.analyze_argument(call, 0, Some(Type::Usize), fuel);
        let (s, callback) = s.analyze_argument(call, 1, None, fuel);
        let (s, (parameter_type, output_type)) = s.require_callback(
            callback.ty,
            callback.span,
            "E3154",
            "job",
        );
        let (s, argument) = s.analyze_argument(call, 2, Some(parameter_type), fuel);
        let s = s.analyze_extra(call, 3, fuel);
        let s = s.check_job_values(parameter_type, output_type, pool, callback, argument);
        s.submit_job(pool, callback, argument, output_type, expected, call.span)
    }

    /// What goes to a job and comes back from it must be safe to send.
    #[verifier::opaque]
    pub open spec fn check_job_values(
        self,
        parameter_type: Type,
        output_type: Type,
        pool: Expression<'a>,
        callback: Expression<'a>,
        argument: Expression<'a>,
    ) -> Self {
        let s = self.require_type(Type::Usize, pool.ty, pool.span, "job pool handle");
        let s = s.require_type(parameter_type, argument.ty, argument.span, "job argument");
        let s = s.require_thread_transfer(argument.ty, argument.span, false, "job argument");
        let s = s.require_thread_transfer(output_type, callback.span, false, "job result");
        s
    }

    /// A job of its parts.
    #[verifier::opaque]
    pub open spec fn submit_job(
        self,
        pool: Expression<'a>,
        callback: Expression<'a>,
        argument: Expression<'a>,
        output_type: Type,
        expected: Option<Type>,
        span: Span,
    ) -> (Self, Expression<'a>) {
        match self.expected_result_parts(expected, span, "job submission") {
            (s, None) => (s, invalid_composite_expression(span)),
            (s, Some((ty, success, error_type))) => {
                let s = s.require_type(Type::Usize, success, span, "job submission success");
                match s.job_error_variants(error_type, span) {
                    (s, None) => (s, invalid_composite_expression(span)),
                    (s, Some(variants)) => (
                        s,
                        typed(
                            ExpressionKind::JobSubmit {
                                pool,
                                callback,
                                argument,
                                output_type,
                                error_type,
                                submit_failed_variant: variants.submit_failed,
                            },
                            ty,
                            span,
                        ),
                    ),
                }
            },
        }
    }

    /// A job that is waited for.
    pub open spec fn analyze_job_wait(
        self,
        call: CallExpression<'a>,
        path: Path<'a>,
        expected: Option<Type>,
        fuel: nat,
    ) -> (Self, Expression<'a>)
        decreases fuel, 3nat, List::<Type>::Nil,
    {
        let s = self.require_standard_job_intrinsic(call.span);
        let s = s.require_arity(call, path, 1);
        let (s, handle) = s.analyze_argument(call, 0, Some(Type::Usize), fuel);
        let s = s.analyze_extra(call, 1, fuel);
        let s = s.require_type(Type::Usize, handle.ty, handle.span, "job handle");
        s.wait_for_job(handle, expected, call.span)
    }

    /// The result of a job.
    #[verifier::opaque]
    pub open spec fn wait_for_job(
        self,
        handle: Expression<'a>,
        expected: Option<Type>,
        span: Span,
    ) -> (Self, Expression<'a>) {
        match self.expected_result_parts(expected, span, "job wait") {
            (s, None) => (s, invalid_composite_expression(span)),
            (s, Some((ty, output_type, error_type))) => match s.job_error_variants(
                error_type,
                span,
            ) {
                (s, None) => (s, invalid_composite_expression(span)),
                (s, Some(variants)) => (
                    s,
                    typed(
                        ExpressionKind::JobWait {
                            handle,
                            output_type,
                            error_type,
                            invalid_handle_variant: variants.invalid_handle,
                            worker_panicked_variant: variants.worker_panicked,
                            result_mismatch_variant: variants.result_mismatch,
                        },
                        ty,
                        span,
                    ),
                ),
            },
        }
    }

    /// A loop over the elements of an array or a slice in parallel.
    pub open spec fn analyze_parallel_for_mut(
        self,
        call: CallExpression<'a>,
        path: Path<'a>,
        expected: Option<Type>,
        array: bool,
        fuel: nat,
    ) -> (Self, Expression<'a>)
        decreases fuel, 3nat, List::<Type>::Nil,
    {
        let s = self.require_standard_job_intrinsic(call.span);
        let s = s.require_arity(call, path, 4);
        let (s, pool) = s.analyze_argument(call, 0, Some(Type::Usize), fuel);
        let (s, slice) = s.analyze_argument(call, 1, None, fuel);
        let (s, callback) = s.analyze_argument(call, 2, None, fuel);
        let (s, minimum_chunk) = s.analyze_argument(call, 3, Some(Type::Usize), fuel);
        let s = s.analyze_extra(call, 4, fuel);
        s.parallel_for(pool, slice, callback, minimum_chunk, array, expected, call.span)
    }

    /// The element and the length of what is looped over in parallel.
    #[verifier::opaque]
    pub open spec fn parallel_shape(self, ty: Type, array: bool) -> Option<(Type, Option<u64>)> {
        if array {
            match self.types.pointer_shape(ty) {
                Some((target, true, false)) => match self.types.array_shape(target) {
                    Some((element, length)) => Some((element, Some(length))),
                    None => None,
                },
                _ => None,
            }
        } else {
            match self.types.slice_shape(ty) {
                Some((element, true)) => Some((element, None)),
                _ => None,
            }
        }
    }

    /// What is looped over in parallel must be mutable.
    #[verifier::opaque]
    pub open spec fn parallel_input_shape(
        self,
        input: Expression<'a>,
        array: bool,
    ) -> (Self, Option<(Type, Option<u64>)>) {
        match self.parallel_shape(input.ty, array) {
            Some(shape) => (self, Some(shape)),
            None => {
                let s = self.report(
                    helped(
                        "E3154",
                        cons(
                            Piece::Words("parallel mutable iteration requires "),
                            cons(
                                Piece::Words(
                                    if array {
                                        "`&mut [T; N]`"
                                    } else {
                                        "`&mut [T]`"
                                    },
                                ),
                                framed(", found `", input.ty.text(), "`"),
                            ),
                        ),
                        "borrow an array, vector slice, or tensor storage mutably",
                        input.span,
                    ),
                );
                (s, None)
            },
        }
    }

    /// Whether a type is a mutable slice of elements.
    #[verifier::opaque]
    pub open spec fn is_mutable_slice_of(self, ty: Type, element: Type) -> bool {
        match self.types.slice_shape(ty) {
            Some((actual, mutable)) => actual == element && mutable,
            None => false,
        }
    }

    /// The chunks that a callback takes in parallel.
    #[verifier::opaque]
    pub open spec fn require_chunk_callback(
        self,
        callback: Expression<'a>,
        element: Type,
    ) -> (Self, Type) {
        let (s, (chunk_type, output_type)) = self.require_callback(
            callback.ty,
            callback.span,
            "E3154",
            "parallel",
        );
        let s = if !s.is_mutable_slice_of(chunk_type, element) {
            let s = s.report(
                error(
                    "E3154",
                    framed(
                        "parallel callback must accept `&mut [T]`, found `",
                        chunk_type.text(),
                        "`",
                    ),
                    callback.span,
                ),
            );
            s
        } else {
            s
        };
        let s = s.require_type(Type::Unit, output_type, callback.span, "parallel callback result");
        (s, chunk_type)
    }

    /// The expected result of a loop in parallel, and the variants of its error.
    #[verifier::opaque]
    pub open spec fn parallel_result(
        self,
        expected: Option<Type>,
        span: Span,
    ) -> (Self, Option<(Type, Type, JobErrorVariants)>) {
        match self.expected_result_parts(expected, span, "parallel iteration") {
            (s, None) => (s, None),
            (s, Some((ty, success, error_type))) => {
                let s = s.require_type(Type::Unit, success, span, "parallel iteration success");
                match s.job_error_variants(error_type, span) {
                    (s, None) => (s, None),
                    (s, Some(variants)) => (s, Some((ty, error_type, variants))),
                }
            },
        }
    }

    /// A loop in parallel of its parts.
    #[verifier::opaque]
    pub open spec fn parallel_for(
        self,
        pool: Expression<'a>,
        slice: Expression<'a>,
        callback: Expression<'a>,
        minimum_chunk: Expression<'a>,
        array: bool,
        expected: Option<Type>,
        span: Span,
    ) -> (Self, Expression<'a>) {
        let s = self.require_type(Type::Usize, pool.ty, pool.span, "job pool handle");
        let s = s.require_type(
            Type::Usize,
            minimum_chunk.ty,
            minimum_chunk.span,
            "minimum parallel chunk",
        );
        match s.parallel_input_shape(slice, array) {
            (s, None) => (s, invalid_composite_expression(span)),
            (s, Some((element, array_length))) => {
                let s = s.require_channel_value(element, slice.span);
                let (s, chunk_type) = s.require_chunk_callback(callback, element);
                match s.parallel_result(expected, span) {
                    (s, None) => (s, invalid_composite_expression(span)),
                    (s, Some((ty, error_type, variants))) => (
                        s,
                        typed(
                            ExpressionKind::ParallelFor {
                                pool,
                                slice,
                                chunk_type,
                                array_length,
                                callback,
                                minimum_chunk,
                                error_type,
                                submit_failed_variant: variants.submit_failed,
                                worker_panicked_variant: variants.worker_panicked,
                                result_mismatch_variant: variants.result_mismatch,
                            },
                            ty,
                            span,
                        ),
                    ),
                }
            },
        }
    }
}

impl<'a> Analyzer<'a> {
    /// A call into the runtime.
    pub(crate) fn analyze_runtime_intrinsic_call(
        &mut self,
        call: &CallExpression<'a>,
        path: &Path<'a>,
        expected: Option<Type>,
        fuel: u32,
    ) -> (analyzed: Option<Expression<'a>>)
        ensures
            (final(self)@, analyzed) == old(self)@.analyze_runtime_intrinsic_call(
                *call,
                *path,
                expected,
                fuel as nat,
            ),
            old(self)@.leads_to(final(self)@),
            forall|watch: Watch| #[trigger]
                watched(watch) && old(self)@.is_apart(watch) && !call_mentions(*call, watch.name)
                    ==> old(self)@.spares(final(self)@, watch),
            forall|scene: Scene| #[trigger]
                final(self)@.admits(scene) && old(self)@.prepared()
                    ==> final(self)@.troubled() || sound_if_any(analyzed, scene),
        decreases fuel, 6nat, List::<Type>::Nil,
    {
        match runtime_call_at(path) {
            None => None,
            Some(runtime_call) => {
                let value = self.analyze_runtime_call(runtime_call, call, path, expected, fuel);
                Some(value)
            },
        }
    }

    /// A call into the runtime, by what it does.
    pub(crate) fn analyze_runtime_call(
        &mut self,
        runtime_call: RuntimeCall,
        call: &CallExpression<'a>,
        path: &Path<'a>,
        expected: Option<Type>,
        fuel: u32,
    ) -> (analyzed: Expression<'a>)
        ensures
            (final(self)@, analyzed) == old(self)@.analyze_runtime_call(
                runtime_call,
                *call,
                *path,
                expected,
                fuel as nat,
            ),
            old(self)@.leads_to(final(self)@),
            forall|watch: Watch| #[trigger]
                watched(watch) && old(self)@.is_apart(watch) && !call_mentions(*call, watch.name)
                    ==> old(self)@.spares(final(self)@, watch),
            forall|scene: Scene| #[trigger]
                final(self)@.admits(scene) && old(self)@.prepared()
                    ==> final(self)@.troubled() || sound(analyzed, scene),
        decreases fuel, 5nat, List::<Type>::Nil,
    {
        match runtime_call {
            RuntimeCall::StringData => self.analyze_string_view_part(call, path, true, fuel),
            RuntimeCall::StringLength => self.analyze_string_view_part(call, path, false, fuel),
            RuntimeCall::SliceLength => self.analyze_slice_length(call, path, fuel),
            RuntimeCall::StringFromParts => self.analyze_string_from_parts(call, path, fuel),
            RuntimeCall::SliceFromParts => self.analyze_slice_from_parts(
                call,
                path,
                expected,
                fuel,
            ),
            RuntimeCall::PointeeStride => self.analyze_pointee_stride(call, path, fuel),
            RuntimeCall::HashValue => self.analyze_hash_value(call, path, fuel),
            RuntimeCall::AllocateBytes => self.analyze_allocate_bytes(call, path, expected, fuel),
            RuntimeCall::DeallocateBytes => self.analyze_deallocate_bytes(call, path, fuel),
            _ => self.analyze_concurrent_call(runtime_call, call, path, expected, fuel),
        }
    }

    /// A call into the runtime that has to do with threads, by what it does.
    pub(crate) fn analyze_concurrent_call(
        &mut self,
        runtime_call: RuntimeCall,
        call: &CallExpression<'a>,
        path: &Path<'a>,
        expected: Option<Type>,
        fuel: u32,
    ) -> (analyzed: Expression<'a>)
        ensures
            (final(self)@, analyzed) == old(self)@.analyze_concurrent_call(
                runtime_call,
                *call,
                *path,
                expected,
                fuel as nat,
            ),
            old(self)@.leads_to(final(self)@),
            forall|watch: Watch| #[trigger]
                watched(watch) && old(self)@.is_apart(watch) && !call_mentions(*call, watch.name)
                    ==> old(self)@.spares(final(self)@, watch),
            forall|scene: Scene| #[trigger]
                final(self)@.admits(scene) && old(self)@.prepared()
                    ==> final(self)@.troubled() || sound(analyzed, scene),
        decreases fuel, 4nat, List::<Type>::Nil,
    {
        match runtime_call {
            RuntimeCall::ThreadSpawn => self.analyze_thread_spawn(
                call,
                path,
                expected,
                false,
                fuel,
            ),
            RuntimeCall::ThreadJoin => self.analyze_thread_join(call, path, expected, fuel),
            RuntimeCall::ThreadScope => self.analyze_thread_spawn(call, path, expected, true, fuel),
            RuntimeCall::SynchronizationCreate(kind) => self.analyze_synchronization_create(
                call,
                path,
                kind,
                fuel,
            ),
            RuntimeCall::SynchronizationLoad(kind) => self.analyze_synchronization_load(
                call,
                path,
                expected,
                kind,
                fuel,
            ),
            RuntimeCall::SynchronizationReplace(kind) => self.analyze_synchronization_replace(
                call,
                path,
                expected,
                kind,
                fuel,
            ),
            RuntimeCall::ThreadLocalStore => self.analyze_thread_local_store(call, path, fuel),
            RuntimeCall::ChannelCreate => self.analyze_channel_create(call, path, fuel),
            RuntimeCall::ChannelSend => self.analyze_channel_send(call, path, expected, fuel),
            RuntimeCall::ChannelReceive => self.analyze_channel_receive(call, path, expected, fuel),
            RuntimeCall::JobSubmit => self.analyze_job_submit(call, path, expected, fuel),
            RuntimeCall::JobWait => self.analyze_job_wait(call, path, expected, fuel),
            RuntimeCall::ParallelForSlice => self.analyze_parallel_for_mut(
                call,
                path,
                expected,
                false,
                fuel,
            ),
            _ => self.analyze_parallel_for_mut(call, path, expected, true, fuel),
        }
    }

    /// Whether the function stands in the module of that name.
    pub(crate) fn is_module(&self, name: &str) -> (answer: bool)
        ensures
            answer == self@.is_module(name),
    {
        reveal(State::is_module);
        is_in_module(&self.frame.home, name)
    }

    /// The allocator may only be called by its wrapper.
    pub(crate) fn require_standard_allocator_intrinsic(&mut self, span: Span)
        ensures
            final(self)@ == old(self)@.require_standard_allocator_intrinsic(span),
            old(self)@.leads_to(final(self)@),
            old(self)@.stays(final(self)@),
    {
        reveal(State::require_standard_allocator_intrinsic);
        if !self.is_module("3_std_5_alloc") {
            self.report(
                helped(
                    "E3145",
                    words("runtime allocator intrinsics are private to `std::alloc`"),
                    "import and call the public allocator wrapper instead",
                    span,
                ),
            );
        }
    }

    /// The parts of a string may only be taken by its wrappers.
    pub(crate) fn require_standard_io_intrinsic(&mut self, span: Span)
        ensures
            final(self)@ == old(self)@.require_standard_io_intrinsic(span),
            old(self)@.leads_to(final(self)@),
            old(self)@.stays(final(self)@),
    {
        reveal(State::require_standard_io_intrinsic);
        if !(
            self.is_module("3_std_2_fs") || self.is_module("3_std_2_io")
                || self.is_module("3_std_3_env") || self.is_module("3_std_6_string")
                || self.is_module("3_std_7_process")
        ) {
            self.report(
                helped(
                    "E3148",
                    words(
                        "string-view runtime intrinsics are private to standard library wrappers",
                    ),
                    "import and call the public string, file-system, or I/O wrapper instead",
                    span,
                ),
            );
        }
    }

    /// A string may only be made of its parts by its wrapper.
    pub(crate) fn require_standard_string_intrinsic(&mut self, span: Span)
        ensures
            final(self)@ == old(self)@.require_standard_string_intrinsic(span),
            old(self)@.leads_to(final(self)@),
            old(self)@.stays(final(self)@),
    {
        reveal(State::require_standard_string_intrinsic);
        if !self.is_module("3_std_6_string") {
            self.report(
                helped(
                    "E3149",
                    words("raw string construction is private to `std::string`"),
                    "construct an owned `String` or use a string literal instead",
                    span,
                ),
            );
        }
    }

    /// The memory of collections may only be reached by their wrappers.
    pub(crate) fn require_standard_collections_intrinsic(&mut self, span: Span)
        ensures
            final(self)@ == old(self)@.require_standard_collections_intrinsic(span),
            old(self)@.leads_to(final(self)@),
            old(self)@.stays(final(self)@),
    {
        reveal(State::require_standard_collections_intrinsic);
        if !(
            self.is_module("3_std_5_alloc") || self.is_module("3_std_5_slice")
                || self.is_module("3_std_11_collections") || self.is_module("3_std_2_fs")
        ) {
            self.report(
                helped(
                    "E3150",
                    words("native slice intrinsics are private to standard slice wrappers"),
                    "use `std::slice` or a standard owned collection instead",
                    span,
                ),
            );
        }
    }

    /// Threads may only be started by their wrapper.
    pub(crate) fn require_standard_thread_intrinsic(&mut self, span: Span)
        ensures
            final(self)@ == old(self)@.require_standard_thread_intrinsic(span),
            old(self)@.leads_to(final(self)@),
            old(self)@.stays(final(self)@),
    {
        reveal(State::require_standard_thread_intrinsic);
        if !self.is_module("3_std_6_thread") {
            self.report(
                helped(
                    "E3151",
                    words("native thread intrinsics are private to `std::thread`"),
                    "import and call the safe standard thread wrappers",
                    span,
                ),
            );
        }
    }

    /// Jobs may only be started by their wrapper.
    pub(crate) fn require_standard_job_intrinsic(&mut self, span: Span)
        ensures
            final(self)@ == old(self)@.require_standard_job_intrinsic(span),
            old(self)@.leads_to(final(self)@),
            old(self)@.stays(final(self)@),
    {
        reveal(State::require_standard_job_intrinsic);
        if !self.is_module("3_std_3_job") {
            self.report(
                helped(
                    "E3154",
                    words("job intrinsics are private to `std::job`"),
                    "import and call the safe standard job wrappers",
                    span,
                ),
            );
        }
    }

    /// The length of a slice may only be taken by its wrappers.
    pub(crate) fn require_standard_slice_intrinsic(&mut self, span: Span)
        ensures
            final(self)@ == old(self)@.require_standard_slice_intrinsic(span),
            old(self)@.leads_to(final(self)@),
            old(self)@.stays(final(self)@),
    {
        reveal(State::require_standard_slice_intrinsic);
        if !(
            self.is_module("3_std_3_job") || self.is_module("3_std_5_alloc")
                || self.is_module("3_std_5_slice") || self.is_module("3_std_6_string")
                || self.is_module("3_std_2_fs")
        ) {
            self.report(
                helped(
                    "E3154",
                    words("raw slice inspection is private to the standard library"),
                    "use safe slice and string APIs instead",
                    span,
                ),
            );
        }
    }

    /// The data or the length of a string.
    pub(crate) fn analyze_string_view_part(
        &mut self,
        call: &CallExpression<'a>,
        path: &Path<'a>,
        data: bool,
        fuel: u32,
    ) -> (analyzed: Expression<'a>)
        ensures
            (final(self)@, analyzed) == old(self)@.analyze_string_view_part(
                *call,
                *path,
                data,
                fuel as nat,
            ),
            old(self)@.leads_to(final(self)@),
            forall|watch: Watch| #[trigger]
                watched(watch) && old(self)@.is_apart(watch) && !call_mentions(*call, watch.name)
                    ==> old(self)@.spares(final(self)@, watch),
            forall|scene: Scene| #[trigger]
                final(self)@.admits(scene) && old(self)@.prepared()
                    ==> final(self)@.troubled() || sound(analyzed, scene),
        decreases fuel, 3nat, List::<Type>::Nil,
    {
        self.require_standard_io_intrinsic(call.span);
        self.require_arity(call, path, 1);
        let value = self.analyze_argument(call, 0, Some(Type::Str), fuel);
        self.analyze_extra(call, 1, fuel);
        self.string_view_part(value, data, call.span)
    }

    /// The data or the length of a string.
    pub(crate) fn string_view_part(
        &mut self,
        value: Expression<'a>,
        data: bool,
        span: Span,
    ) -> (analyzed: Expression<'a>)
        ensures
            (final(self)@, analyzed) == old(self)@.string_view_part(value, data, span),
            old(self)@.leads_to(final(self)@),
            old(self)@.stays(final(self)@),
            forall|scene: Scene| #[trigger]
                final(self)@.admits(scene) && old(self)@.prepared() && sound(value, scene)
                    ==> final(self)@.troubled() || sound(analyzed, scene),
    {
        reveal(State::string_view_part);
        self.require_type(Type::Str, value.ty, value.span, "string view");
        if data {
            let interned = self.intern_raw_pointer(Type::U8, false, span);
            let ty = match interned {
                Some(ty) => ty,
                None => Type::Unit,
            };
            typed(ExpressionKind::StringData(value), ty, span)
        } else {
            typed(ExpressionKind::StringLength(value), Type::Usize, span)
        }
    }

    /// The length of a slice.
    pub(crate) fn analyze_slice_length(
        &mut self,
        call: &CallExpression<'a>,
        path: &Path<'a>,
        fuel: u32,
    ) -> (analyzed: Expression<'a>)
        ensures
            (final(self)@, analyzed) == old(self)@.analyze_slice_length(*call, *path, fuel as nat),
            old(self)@.leads_to(final(self)@),
            forall|watch: Watch| #[trigger]
                watched(watch) && old(self)@.is_apart(watch) && !call_mentions(*call, watch.name)
                    ==> old(self)@.spares(final(self)@, watch),
            forall|scene: Scene| #[trigger]
                final(self)@.admits(scene) && old(self)@.prepared()
                    ==> final(self)@.troubled() || sound(analyzed, scene),
        decreases fuel, 3nat, List::<Type>::Nil,
    {
        self.require_standard_slice_intrinsic(call.span);
        self.require_arity(call, path, 1);
        let slice = self.analyze_argument(call, 0, None, fuel);
        self.analyze_extra(call, 1, fuel);
        if self.slice_shape(slice.ty).is_none() {
            self.report(
                error(
                    "E3154",
                    frame("slice length requires a slice view, found `", &slice.ty.text(), "`"),
                    slice.span,
                ),
            );
        }
        typed(ExpressionKind::SliceLength(slice), Type::Usize, call.span)
    }

    /// Whether a type is a raw pointer to bytes.
    pub(crate) fn is_byte_pointer(&self, ty: Type) -> (answer: bool)
        ensures
            answer == self@.is_byte_pointer(ty),
    {
        reveal(State::is_byte_pointer);
        match self.types.pointer_shape(ty) {
            Some((target, _, raw)) => target == Type::U8 && raw,
            None => false,
        }
    }

    /// A string that is made of its parts.
    pub(crate) fn analyze_string_from_parts(
        &mut self,
        call: &CallExpression<'a>,
        path: &Path<'a>,
        fuel: u32,
    ) -> (analyzed: Expression<'a>)
        ensures
            (final(self)@, analyzed) == old(self)@.analyze_string_from_parts(
                *call,
                *path,
                fuel as nat,
            ),
            old(self)@.leads_to(final(self)@),
            forall|watch: Watch| #[trigger]
                watched(watch) && old(self)@.is_apart(watch) && !call_mentions(*call, watch.name)
                    ==> old(self)@.spares(final(self)@, watch),
            forall|scene: Scene| #[trigger]
                final(self)@.admits(scene) && old(self)@.prepared()
                    ==> final(self)@.troubled() || sound(analyzed, scene),
        decreases fuel, 3nat, List::<Type>::Nil,
    {
        self.require_standard_string_intrinsic(call.span);
        self.require_arity(call, path, 2);
        let data = self.analyze_argument(call, 0, None, fuel);
        let length = self.analyze_argument(call, 1, Some(Type::Usize), fuel);
        self.analyze_extra(call, 2, fuel);
        if !self.is_byte_pointer(data.ty) {
            self.report(
                error(
                    "E3149",
                    frame(
                        "string construction requires a raw byte pointer, found `",
                        &data.ty.text(),
                        "`",
                    ),
                    data.span,
                ),
            );
        }
        self.require_type(Type::Usize, length.ty, length.span, "string byte length");
        typed(ExpressionKind::StringFromParts { data, length }, Type::Str, call.span)
    }

    /// The expected slice type, its element, and whether it is mutable.
    pub(crate) fn expected_slice(
        &self,
        expected: Option<Type>,
    ) -> (slice: Option<(Type, Type, bool)>)
        ensures
            slice == self@.expected_slice(expected),
    {
        reveal(State::expected_slice);
        match expected {
            None => None,
            Some(expected) => match self.types.slice_shape(expected) {
                Some((element, mutable)) => Some((expected, element, mutable)),
                None => None,
            },
        }
    }

    /// Whether a type is a raw pointer to elements, mutable where that is needed.
    pub(crate) fn is_element_pointer(
        &self,
        ty: Type,
        element: Type,
        mutable: bool,
    ) -> (answer: bool)
        ensures
            answer == self@.is_element_pointer(ty, element, mutable),
    {
        reveal(State::is_element_pointer);
        match self.types.pointer_shape(ty) {
            Some((target, pointer_mutable, raw)) => target == element && raw
                && (!mutable || pointer_mutable),
            None => false,
        }
    }

    /// A slice that is made of its parts.
    pub(crate) fn analyze_slice_from_parts(
        &mut self,
        call: &CallExpression<'a>,
        path: &Path<'a>,
        expected: Option<Type>,
        fuel: u32,
    ) -> (analyzed: Expression<'a>)
        ensures
            (final(self)@, analyzed) == old(self)@.analyze_slice_from_parts(
                *call,
                *path,
                expected,
                fuel as nat,
            ),
            old(self)@.leads_to(final(self)@),
            forall|watch: Watch| #[trigger]
                watched(watch) && old(self)@.is_apart(watch) && !call_mentions(*call, watch.name)
                    ==> old(self)@.spares(final(self)@, watch),
            forall|scene: Scene| #[trigger]
                final(self)@.admits(scene) && old(self)@.prepared()
                    ==> final(self)@.troubled() || sound(analyzed, scene),
        decreases fuel, 3nat, List::<Type>::Nil,
    {
        self.require_standard_collections_intrinsic(call.span);
        self.require_arity(call, path, 2);
        let data = self.analyze_argument(call, 0, None, fuel);
        let length = self.analyze_argument(call, 1, Some(Type::Usize), fuel);
        self.analyze_extra(call, 2, fuel);
        self.slice_from_parts(data, length, expected, call.span)
    }

    /// A slice that is made of its parts.
    pub(crate) fn slice_from_parts(
        &mut self,
        data: Expression<'a>,
        length: Expression<'a>,
        expected: Option<Type>,
        span: Span,
    ) -> (analyzed: Expression<'a>)
        ensures
            (final(self)@, analyzed) == old(self)@.slice_from_parts(data, length, expected, span),
            old(self)@.leads_to(final(self)@),
            old(self)@.stays(final(self)@),
            forall|scene: Scene| #[trigger]
                final(self)@.admits(scene) && old(self)@.prepared() && sound(data, scene)
                    && sound(length, scene)
                    ==> final(self)@.troubled() || sound(analyzed, scene),
    {
        reveal(State::slice_from_parts);
        match self.expected_slice(expected) {
            None => {
                self.report(
                    helped(
                        "E3151",
                        words("`__slice_from_parts` requires an expected borrowed slice type"),
                        "call the intrinsic only from a typed standard collection wrapper",
                        span,
                    ),
                );
                invalid_composite_expression(span)
            },
            Some((ty, element, mutable)) => {
                if !self.is_element_pointer(data.ty, element, mutable) {
                    self.report(
                        error(
                            "E3151",
                            frame(
                                "slice construction requires a compatible raw element pointer, found `",
                                &data.ty.text(),
                                "`",
                            ),
                            data.span,
                        ),
                    );
                }
                self.require_type(Type::Usize, length.ty, length.span, "slice element count");
                typed(ExpressionKind::SliceFromParts { data, length }, ty, span)
            },
        }
    }

    /// The distance between the values that a pointer leads to.
    pub(crate) fn analyze_pointee_stride(
        &mut self,
        call: &CallExpression<'a>,
        path: &Path<'a>,
        fuel: u32,
    ) -> (analyzed: Expression<'a>)
        ensures
            (final(self)@, analyzed) == old(self)@.analyze_pointee_stride(
                *call,
                *path,
                fuel as nat,
            ),
            old(self)@.leads_to(final(self)@),
            forall|watch: Watch| #[trigger]
                watched(watch) && old(self)@.is_apart(watch) && !call_mentions(*call, watch.name)
                    ==> old(self)@.spares(final(self)@, watch),
            forall|scene: Scene| #[trigger]
                final(self)@.admits(scene) && old(self)@.prepared()
                    ==> final(self)@.troubled() || sound(analyzed, scene),
        decreases fuel, 3nat, List::<Type>::Nil,
    {
        self.require_standard_collections_intrinsic(call.span);
        self.require_arity(call, path, 1);
        let pointer = self.analyze_argument(call, 0, None, fuel);
        self.analyze_extra(call, 1, fuel);
        match self.pointer_shape(pointer.ty) {
            None => {
                self.report(
                    error(
                        "E3150",
                        frame(
                            "pointee stride requires a raw pointer, found `",
                            &pointer.ty.text(),
                            "`",
                        ),
                        pointer.span,
                    ),
                );
                invalid_composite_expression(call.span)
            },
            Some((target, _, raw)) => {
                if !raw {
                    self.report(
                        error(
                            "E3150",
                            words("pointee stride requires a raw pointer"),
                            pointer.span,
                        ),
                    );
                }
                typed(ExpressionKind::TypeStride { target }, Type::Usize, call.span)
            },
        }
    }

    /// The hash of a value.
    pub(crate) fn analyze_hash_value(
        &mut self,
        call: &CallExpression<'a>,
        path: &Path<'a>,
        fuel: u32,
    ) -> (analyzed: Expression<'a>)
        ensures
            (final(self)@, analyzed) == old(self)@.analyze_hash_value(*call, *path, fuel as nat),
            old(self)@.leads_to(final(self)@),
            forall|watch: Watch| #[trigger]
                watched(watch) && old(self)@.is_apart(watch) && !call_mentions(*call, watch.name)
                    ==> old(self)@.spares(final(self)@, watch),
            forall|scene: Scene| #[trigger]
                final(self)@.admits(scene) && old(self)@.prepared()
                    ==> final(self)@.troubled() || sound(analyzed, scene),
        decreases fuel, 3nat, List::<Type>::Nil,
    {
        self.require_standard_collections_intrinsic(call.span);
        self.require_arity(call, path, 2);
        let value = self.analyze_argument(call, 0, None, fuel);
        let seed = self.analyze_argument(call, 1, Some(Type::U64), fuel);
        self.analyze_extra(call, 2, fuel);
        if !self.types.is_hash_capable(value.ty) {
            self.report(
                helped(
                    "E3150",
                    frame("hashing requires `Hash`, found `", &value.ty.text(), "`"),
                    "derive or implement `Hash` for the key type",
                    value.span,
                ),
            );
        }
        self.require_type(Type::U64, seed.ty, seed.span, "hash seed");
        typed(ExpressionKind::HashValue { value, seed }, Type::U64, call.span)
    }

    /// An allocation.
    pub(crate) fn analyze_allocate_bytes(
        &mut self,
        call: &CallExpression<'a>,
        path: &Path<'a>,
        expected: Option<Type>,
        fuel: u32,
    ) -> (analyzed: Expression<'a>)
        ensures
            (final(self)@, analyzed) == old(self)@.analyze_allocate_bytes(
                *call,
                *path,
                expected,
                fuel as nat,
            ),
            old(self)@.leads_to(final(self)@),
            forall|watch: Watch| #[trigger]
                watched(watch) && old(self)@.is_apart(watch) && !call_mentions(*call, watch.name)
                    ==> old(self)@.spares(final(self)@, watch),
            forall|scene: Scene| #[trigger]
                final(self)@.admits(scene) && old(self)@.prepared()
                    ==> final(self)@.troubled() || sound(analyzed, scene),
        decreases fuel, 3nat, List::<Type>::Nil,
    {
        self.require_standard_allocator_intrinsic(call.span);
        self.require_arity(call, path, 2);
        let allocator = self.analyze_argument(call, 0, Some(Type::Usize), fuel);
        let length = self.analyze_argument(call, 1, Some(Type::Usize), fuel);
        self.analyze_extra(call, 2, fuel);
        self.require_type(Type::Usize, allocator.ty, allocator.span, "allocator handle");
        self.require_type(Type::Usize, length.ty, length.span, "allocation length");
        match self.allocation_parts(expected, call.span) {
            None => invalid_composite_expression(call.span),
            Some((ty, allocation_type, error_type, error_variant)) => typed(
                ExpressionKind::AllocateBytes {
                    allocator,
                    length,
                    allocation_type,
                    error_type,
                    error_variant,
                },
                ty,
                call.span,
            ),
        }
    }

    /// The expected result of an allocation: its type, the allocation, the error,
    /// and the variant for a lack of memory.
    pub(crate) fn allocation_parts(
        &mut self,
        expected: Option<Type>,
        span: Span,
    ) -> (parts: Option<(Type, Type, Type, u32)>)
        ensures
            (final(self)@, parts) == old(self)@.allocation_parts(expected, span),
            old(self)@.leads_to(final(self)@),
            old(self)@.stays(final(self)@),
    {
        reveal(State::allocation_parts);
        match expected {
            None => {
                self.report(
                    helped(
                        "E3145",
                        words(
                            "`__allocate_bytes` requires an expected `Result<OwnedBytes, AllocError>` type",
                        ),
                        "call the intrinsic only from the typed standard allocator wrapper",
                        span,
                    ),
                );
                None
            },
            Some(ty) => match self.intrinsic(ty) {
                Some(IntrinsicType::Result { success, error }) => match self.validate_allocation_result_types(
                    success,
                    error,
                    span,
                ) {
                    None => None,
                    Some(variant) => Some((ty, success, error, variant)),
                },
                _ => {
                    self.report(
                        error("E3145", words("`__allocate_bytes` must return a Result"), span),
                    );
                    None
                },
            },
        }
    }

    /// Whether a type is a mutable raw pointer to bytes.
    pub(crate) fn is_mutable_byte_pointer(&self, ty: Type) -> (answer: bool)
        ensures
            answer == self@.is_mutable_byte_pointer(ty),
    {
        reveal(State::is_mutable_byte_pointer);
        match self.types.pointer_shape(ty) {
            Some((target, mutable, raw)) => target == Type::U8 && mutable && raw,
            None => false,
        }
    }

    /// Whether fields are those of an allocation.
    pub(crate) fn are_allocation_fields(&self, fields: &List<TypeField<'a>>) -> (answer: bool)
        ensures
            answer == self@.are_allocation_fields(*fields),
    {
        reveal(State::are_allocation_fields);
        match fields {
            List::Nil => false,
            List::Cons(data) => match &data.tail {
                List::Nil => false,
                List::Cons(length) => match &length.tail {
                    List::Nil => false,
                    List::Cons(allocator) => allocator.tail.is_empty()
                        && is_private_field_named(&data.head, "data")
                        && self.is_mutable_byte_pointer(data.head.ty)
                        && is_private_field_named(&length.head, "len")
                        && length.head.ty == Type::Usize
                        && is_private_field_named(&allocator.head, "allocator")
                        && allocator.head.ty == Type::Usize,
                },
            },
        }
    }

    /// The variant for a lack of memory.
    pub(crate) fn memory_variant(&self, ty: Type) -> (variant: Option<u32>)
        ensures
            variant == self@.memory_variant(ty),
    {
        reveal(State::memory_variant);
        match self.enum_variants(ty) {
            Some(variants) => find_unit_variant(&variants, "OutOfMemory", 0),
            None => None,
        }
    }

    /// The result of an allocation must have the form that the runtime fills.
    pub(crate) fn validate_allocation_result_types(
        &mut self,
        allocation_type: Type,
        error_type: Type,
        span: Span,
    ) -> (variant: Option<u32>)
        ensures
            (final(self)@, variant) == old(self)@.validate_allocation_result_types(
                allocation_type,
                error_type,
                span,
            ),
            old(self)@.leads_to(final(self)@),
            old(self)@.stays(final(self)@),
    {
        reveal(State::validate_allocation_result_types);
        let variant = if self.are_allocation_fields(&self.types.struct_fields(allocation_type)) {
            self.memory_variant(error_type)
        } else {
            None
        };
        match variant {
            Some(variant) => Some(variant),
            None => {
                self.report(
                    helped(
                        "E3145",
                        words("invalid standard allocator result representation"),
                        "`OwnedBytes` must contain private `data`, `len`, and `allocator` fields and `AllocError` must define `OutOfMemory`",
                        span,
                    ),
                );
                None
            },
        }
    }

    /// A deallocation must stand in `unsafe`.
    pub(crate) fn require_unsafe_deallocation(&mut self, span: Span)
        ensures
            final(self)@ == old(self)@.require_unsafe_deallocation(span),
            old(self)@.leads_to(final(self)@),
            old(self)@.stays(final(self)@),
    {
        reveal(State::require_unsafe_deallocation);
        if self.frame.unsafe_depth == 0 {
            self.report(
                helped(
                    "E3146",
                    words("the raw deallocation intrinsic requires `unsafe`"),
                    "keep the intrinsic inside the owned standard-library wrapper",
                    span,
                ),
            );
        }
    }

    /// A deallocation.
    pub(crate) fn analyze_deallocate_bytes(
        &mut self,
        call: &CallExpression<'a>,
        path: &Path<'a>,
        fuel: u32,
    ) -> (analyzed: Expression<'a>)
        ensures
            (final(self)@, analyzed) == old(self)@.analyze_deallocate_bytes(
                *call,
                *path,
                fuel as nat,
            ),
            old(self)@.leads_to(final(self)@),
            forall|watch: Watch| #[trigger]
                watched(watch) && old(self)@.is_apart(watch) && !call_mentions(*call, watch.name)
                    ==> old(self)@.spares(final(self)@, watch),
            forall|scene: Scene| #[trigger]
                final(self)@.admits(scene) && old(self)@.prepared()
                    ==> final(self)@.troubled() || sound(analyzed, scene),
        decreases fuel, 3nat, List::<Type>::Nil,
    {
        self.require_standard_allocator_intrinsic(call.span);
        self.require_unsafe_deallocation(call.span);
        self.require_arity(call, path, 3);
        let allocator = self.analyze_argument(call, 0, Some(Type::Usize), fuel);
        let data = self.analyze_argument(call, 1, None, fuel);
        let length = self.analyze_argument(call, 2, Some(Type::Usize), fuel);
        self.analyze_extra(call, 3, fuel);
        self.deallocate(allocator, data, length, call.span)
    }

    /// A deallocation of its parts.
    pub(crate) fn deallocate(
        &mut self,
        allocator: Expression<'a>,
        data: Expression<'a>,
        length: Expression<'a>,
        span: Span,
    ) -> (analyzed: Expression<'a>)
        ensures
            (final(self)@, analyzed) == old(self)@.deallocate(allocator, data, length, span),
            old(self)@.leads_to(final(self)@),
            old(self)@.stays(final(self)@),
            forall|scene: Scene| #[trigger]
                final(self)@.admits(scene) && old(self)@.prepared() && sound(allocator, scene)
                    && sound(data, scene) && sound(length, scene)
                    ==> final(self)@.troubled() || sound(analyzed, scene),
    {
        reveal(State::deallocate);
        self.require_type(Type::Usize, allocator.ty, allocator.span, "allocator handle");
        self.require_type(Type::Usize, length.ty, length.span, "allocation length");
        if !self.is_mutable_byte_pointer(data.ty) {
            self.report(
                error(
                    "E3146",
                    frame("deallocation requires `*mut u8`, found `", &data.ty.text(), "`"),
                    data.span,
                ),
            );
        }
        typed(ExpressionKind::DeallocateBytes { allocator, data, length }, Type::Unit, span)
    }

    /// The parameter and the result of a callback with one parameter.
    pub(crate) fn require_callback(
        &mut self,
        callback: Type,
        span: Span,
        code: &'a str,
        role: &'a str,
    ) -> (shape: (Type, Type))
        ensures
            (final(self)@, shape) == old(self)@.require_callback(callback, span, code, role),
            old(self)@.leads_to(final(self)@),
            old(self)@.stays(final(self)@),
    {
        reveal(State::require_callback);
        match self.function_shape(callback) {
            Some((parameters, output)) => match &parameters {
                List::Cons(node) => if node.tail.is_empty() {
                    (node.head, output)
                } else {
                    self.reject_callback_arity(parameters.count(), span, code, role)
                },
                List::Nil => self.reject_callback_arity(0, span, code, role),
            },
            None => {
                self.report(
                    helped(
                        code,
                        cons(
                            Piece::Words(role),
                            frame(
                                " callback must be a function value, found `",
                                &callback.text(),
                                "`",
                            ),
                        ),
                        "pass a function with type `fn(Input) -> Output`",
                        span,
                    ),
                );
                (Type::Unit, Type::Unit)
            },
        }
    }

    /// A callback with too many or too few parameters.
    pub(crate) fn reject_callback_arity(
        &mut self,
        count: u64,
        span: Span,
        code: &'a str,
        role: &'a str,
    ) -> (shape: (Type, Type))
        ensures
            (final(self)@, shape) == old(self)@.reject_callback_arity(count, span, code, role),
            old(self)@.leads_to(final(self)@),
            old(self)@.stays(final(self)@),
    {
        reveal(State::reject_callback_arity);
        self.report(
            helped(
                code,
                cons(
                    Piece::Words(role),
                    cons(
                        Piece::Words(" callbacks require exactly one parameter, found "),
                        number(count as u128),
                    ),
                ),
                "bundle multiple inputs in a struct or tuple",
                span,
            ),
        );
        (Type::Unit, Type::Unit)
    }

    /// The expected result of an operation: its type, the success and the error.
    pub(crate) fn expected_result_parts(
        &mut self,
        expected: Option<Type>,
        span: Span,
        role: &'a str,
    ) -> (parts: Option<(Type, Type, Type)>)
        ensures
            (final(self)@, parts) == old(self)@.expected_result_parts(expected, span, role),
            old(self)@.leads_to(final(self)@),
            old(self)@.stays(final(self)@),
    {
        reveal(State::expected_result_parts);
        match expected {
            None => {
                self.report(
                    helped(
                        "E3151",
                        words2(role, " requires an expected `Result<T, E>` type"),
                        "add a result type annotation or return the intrinsic directly",
                        span,
                    ),
                );
                None
            },
            Some(ty) => match self.intrinsic(ty) {
                Some(IntrinsicType::Result { success, error }) => Some((ty, success, error)),
                _ => {
                    self.report(error("E3151", words2(role, " must produce `Result<T, E>`"), span));
                    None
                },
            },
        }
    }

    /// The variants of a thread error, if they are all there.
    pub(crate) fn find_thread_error_variants(
        &self,
        ty: Type,
    ) -> (variants: Option<ThreadErrorVariants>)
        ensures
            variants == self@.find_thread_error_variants(ty),
    {
        reveal(State::find_thread_error_variants);
        match self.unit_variant(ty, "SpawnFailed") {
            None => None,
            Some(spawn_failed) => match self.unit_variant(ty, "InvalidHandle") {
                None => None,
                Some(invalid_handle) => match self.unit_variant(ty, "WorkerPanicked") {
                    None => None,
                    Some(worker_panicked) => match self.unit_variant(ty, "ResultMismatch") {
                        None => None,
                        Some(result_mismatch) => Some(
                            ThreadErrorVariants {
                                spawn_failed,
                                invalid_handle,
                                worker_panicked,
                                result_mismatch,
                            },
                        ),
                    },
                },
            },
        }
    }

    /// The variants of a thread error.
    pub(crate) fn thread_error_variants(
        &mut self,
        ty: Type,
        span: Span,
    ) -> (variants: Option<ThreadErrorVariants>)
        ensures
            (final(self)@, variants) == old(self)@.thread_error_variants(ty, span),
            old(self)@.leads_to(final(self)@),
            old(self)@.stays(final(self)@),
    {
        reveal(State::thread_error_variants);
        match self.find_thread_error_variants(ty) {
            Some(variants) => Some(variants),
            None => {
                self.report(
                    helped(
                        "E3151",
                        words(
                            "thread errors require unit variants `SpawnFailed`, `InvalidHandle`, `WorkerPanicked`, and `ResultMismatch`",
                        ),
                        "use `std::thread::ThreadError`",
                        span,
                    ),
                );
                None
            },
        }
    }

    /// The variants of a job error, if they are all there.
    pub(crate) fn find_job_error_variants(&self, ty: Type) -> (variants: Option<JobErrorVariants>)
        ensures
            variants == self@.find_job_error_variants(ty),
    {
        reveal(State::find_job_error_variants);
        match self.unit_variant(ty, "PoolCreateFailed") {
            None => None,
            Some(_) => match self.unit_variant(ty, "SubmitFailed") {
                None => None,
                Some(submit_failed) => match self.unit_variant(ty, "InvalidHandle") {
                    None => None,
                    Some(invalid_handle) => match self.unit_variant(ty, "WorkerPanicked") {
                        None => None,
                        Some(worker_panicked) => match self.unit_variant(ty, "ResultMismatch") {
                            None => None,
                            Some(result_mismatch) => Some(
                                JobErrorVariants {
                                    submit_failed,
                                    invalid_handle,
                                    worker_panicked,
                                    result_mismatch,
                                },
                            ),
                        },
                    },
                },
            },
        }
    }

    /// The variants of a job error.
    pub(crate) fn job_error_variants(
        &mut self,
        ty: Type,
        span: Span,
    ) -> (variants: Option<JobErrorVariants>)
        ensures
            (final(self)@, variants) == old(self)@.job_error_variants(ty, span),
            old(self)@.leads_to(final(self)@),
            old(self)@.stays(final(self)@),
    {
        reveal(State::job_error_variants);
        match self.find_job_error_variants(ty) {
            Some(variants) => Some(variants),
            None => {
                self.report(
                    helped(
                        "E3154",
                        words(
                            "job errors require unit variants `PoolCreateFailed`, `SubmitFailed`, `InvalidHandle`, `WorkerPanicked`, and `ResultMismatch`",
                        ),
                        "use `std::job::JobError`",
                        span,
                    ),
                );
                None
            },
        }
    }

    /// The variant for a closed channel.
    pub(crate) fn channel_closed_variant(&mut self, ty: Type, span: Span) -> (variant: Option<u32>)
        ensures
            (final(self)@, variant) == old(self)@.channel_closed_variant(ty, span),
            old(self)@.leads_to(final(self)@),
            old(self)@.stays(final(self)@),
    {
        reveal(State::channel_closed_variant);
        match self.unit_variant(ty, "Closed") {
            Some(variant) => Some(variant),
            None => {
                self.report(
                    helped(
                        "E3153",
                        words("channel errors require a unit variant named `Closed`"),
                        "use `std::thread::ChannelError`",
                        span,
                    ),
                );
                None
            },
        }
    }

    /// A value that is shared must satisfy a trait.
    pub(crate) fn require_synchronization_trait(
        &mut self,
        ty: Type,
        requirement: &'a str,
        span: Span,
    )
        ensures
            final(self)@ == old(self)@.require_synchronization_trait(ty, requirement, span),
            old(self)@.leads_to(final(self)@),
            old(self)@.stays(final(self)@),
    {
        reveal(State::require_synchronization_trait);
        if !self.types.satisfies_trait(ty, requirement) {
            self.report(
                helped(
                    "E3153",
                    cons(
                        Piece::Words("synchronization value type `"),
                        joined(&ty.text(), words3("` does not satisfy `", requirement, "`")),
                    ),
                    "store an owned value whose fields satisfy the required traits",
                    span,
                ),
            );
        }
    }

    /// A value that is shared must be safe to share, and hold no reference.
    pub(crate) fn require_synchronization_value(
        &mut self,
        ty: Type,
        span: Span,
        kind: SynchronizationKind,
    )
        ensures
            final(self)@ == old(self)@.require_synchronization_value(ty, span, kind),
            old(self)@.leads_to(final(self)@),
            old(self)@.stays(final(self)@),
    {
        reveal(State::require_synchronization_value);
        match kind {
            SynchronizationKind::Mutex => self.require_synchronization_trait(ty, "Send", span),
            SynchronizationKind::RwLock => {
                self.require_synchronization_trait(ty, "Send", span);
                self.require_synchronization_trait(ty, "Sync", span);
            },
            SynchronizationKind::ThreadLocal => {
                self.require_synchronization_trait(ty, "Copy", span);
                self.require_synchronization_trait(ty, "Send", span);
            },
        }
        if self.types.is_scoped(ty) {
            self.report(
                helped(
                    "E3153",
                    frame(
                        "synchronization value type `",
                        &ty.text(),
                        "` cannot contain a scoped borrow",
                    ),
                    "store owned data in synchronization resources",
                    span,
                ),
            );
        }
    }

    /// A value that is sent must be safe to send, and hold no reference.
    pub(crate) fn require_channel_value(&mut self, ty: Type, span: Span)
        ensures
            final(self)@ == old(self)@.require_channel_value(ty, span),
            old(self)@.leads_to(final(self)@),
            old(self)@.stays(final(self)@),
    {
        reveal(State::require_channel_value);
        if !self.types.satisfies_trait(ty, "Send") {
            self.report(
                helped(
                    "E3153",
                    frame("channel element type `", &ty.text(), "` does not satisfy `Send`"),
                    "send owned thread-safe values",
                    span,
                ),
            );
        }
        if self.types.is_scoped(ty) {
            self.report(
                helped(
                    "E3153",
                    frame("channel element type `", &ty.text(), "` cannot contain a scoped borrow"),
                    "send owned data or use `scope` with direct arguments",
                    span,
                ),
            );
        }
    }

    /// A value that goes to a thread must be safe to send. Without a scope, it
    /// must hold no reference.
    pub(crate) fn require_thread_transfer(
        &mut self,
        ty: Type,
        span: Span,
        scoped: bool,
        role: &'a str,
    )
        ensures
            final(self)@ == old(self)@.require_thread_transfer(ty, span, scoped, role),
            old(self)@.leads_to(final(self)@),
            old(self)@.stays(final(self)@),
    {
        reveal(State::require_thread_transfer);
        if !self.types.satisfies_trait(ty, "Send") {
            self.report(
                helped(
                    "E3152",
                    cons(
                        Piece::Words("thread "),
                        cons(
                            Piece::Words(role),
                            frame(" type `", &ty.text(), "` does not satisfy `Send`"),
                        ),
                    ),
                    "move owned thread-safe data or use synchronization",
                    span,
                ),
            );
        }
        if !scoped && self.types.is_scoped(ty) {
            self.report(
                helped(
                    "E3152",
                    words3("native thread ", role, " cannot contain a scoped borrow"),
                    "use `scope` so the worker is joined before the borrow ends",
                    span,
                ),
            );
        }
    }

    /// A thread that is started.
    pub(crate) fn analyze_thread_spawn(
        &mut self,
        call: &CallExpression<'a>,
        path: &Path<'a>,
        expected: Option<Type>,
        scoped: bool,
        fuel: u32,
    ) -> (analyzed: Expression<'a>)
        ensures
            (final(self)@, analyzed) == old(self)@.analyze_thread_spawn(
                *call,
                *path,
                expected,
                scoped,
                fuel as nat,
            ),
            old(self)@.leads_to(final(self)@),
            forall|watch: Watch| #[trigger]
                watched(watch) && old(self)@.is_apart(watch) && !call_mentions(*call, watch.name)
                    ==> old(self)@.spares(final(self)@, watch),
            forall|scene: Scene| #[trigger]
                final(self)@.admits(scene) && old(self)@.prepared()
                    ==> final(self)@.troubled() || sound(analyzed, scene),
        decreases fuel, 3nat, List::<Type>::Nil,
    {
        self.require_standard_thread_intrinsic(call.span);
        self.require_arity(call, path, 2);
        let callback = self.analyze_argument(call, 0, None, fuel);
        let (parameter_type, output_type) = self.require_callback(
            callback.ty,
            callback.span,
            "E3151",
            "thread",
        );
        let argument = self.analyze_argument(call, 1, Some(parameter_type), fuel);
        self.analyze_extra(call, 2, fuel);
        self.check_thread_values(parameter_type, output_type, &callback, &argument, scoped);
        self.spawn_thread(callback, argument, output_type, expected, scoped, call.span)
    }

    /// What goes to a thread and comes back from it must be safe to send.
    pub(crate) fn check_thread_values(
        &mut self,
        parameter_type: Type,
        output_type: Type,
        callback: &Expression<'a>,
        argument: &Expression<'a>,
        scoped: bool,
    )
        ensures
            final(self)@ == old(self)@.check_thread_values(
                parameter_type,
                output_type,
                *callback,
                *argument,
                scoped,
            ),
            old(self)@.leads_to(final(self)@),
            old(self)@.stays(final(self)@),
    {
        reveal(State::check_thread_values);
        self.require_type(parameter_type, argument.ty, argument.span, "thread argument");
        self.require_thread_transfer(argument.ty, argument.span, scoped, "argument");
        self.require_thread_transfer(output_type, callback.span, scoped, "result");
    }

    /// The expected result of a thread operation, and the variants of its error.
    pub(crate) fn thread_result(
        &mut self,
        output_type: Type,
        expected: Option<Type>,
        scoped: bool,
        span: Span,
    ) -> (parts: Option<(Type, Type, ThreadErrorVariants)>)
        ensures
            (final(self)@, parts) == old(self)@.thread_result(output_type, expected, scoped, span),
            old(self)@.leads_to(final(self)@),
            old(self)@.stays(final(self)@),
    {
        reveal(State::thread_result);
        match self.expected_result_parts(expected, span, "thread operation") {
            None => None,
            Some((ty, success, error_type)) => {
                self.require_type(
                    if scoped {
                        output_type
                    } else {
                        Type::Usize
                    },
                    success,
                    span,
                    "thread operation success",
                );
                match self.thread_error_variants(error_type, span) {
                    None => None,
                    Some(variants) => Some((ty, error_type, variants)),
                }
            },
        }
    }

    /// A thread of its parts.
    pub(crate) fn spawn_thread(
        &mut self,
        callback: Expression<'a>,
        argument: Expression<'a>,
        output_type: Type,
        expected: Option<Type>,
        scoped: bool,
        span: Span,
    ) -> (analyzed: Expression<'a>)
        ensures
            (final(self)@, analyzed) == old(self)@.spawn_thread(
                callback,
                argument,
                output_type,
                expected,
                scoped,
                span,
            ),
            old(self)@.leads_to(final(self)@),
            old(self)@.stays(final(self)@),
            forall|scene: Scene| #[trigger]
                final(self)@.admits(scene) && old(self)@.prepared() && sound(callback, scene)
                    && sound(argument, scene)
                    ==> final(self)@.troubled() || sound(analyzed, scene),
    {
        reveal(State::spawn_thread);
        match self.thread_result(output_type, expected, scoped, span) {
            None => invalid_composite_expression(span),
            Some((ty, error_type, variants)) => if scoped {
                typed(
                    ExpressionKind::ThreadScope {
                        callback,
                        argument,
                        output_type,
                        error_type,
                        spawn_failed_variant: variants.spawn_failed,
                        invalid_handle_variant: variants.invalid_handle,
                        worker_panicked_variant: variants.worker_panicked,
                        result_mismatch_variant: variants.result_mismatch,
                    },
                    ty,
                    span,
                )
            } else {
                typed(
                    ExpressionKind::ThreadSpawn {
                        callback,
                        argument,
                        output_type,
                        error_type,
                        spawn_failed_variant: variants.spawn_failed,
                    },
                    ty,
                    span,
                )
            },
        }
    }

    /// A thread that is waited for.
    pub(crate) fn analyze_thread_join(
        &mut self,
        call: &CallExpression<'a>,
        path: &Path<'a>,
        expected: Option<Type>,
        fuel: u32,
    ) -> (analyzed: Expression<'a>)
        ensures
            (final(self)@, analyzed) == old(self)@.analyze_thread_join(
                *call,
                *path,
                expected,
                fuel as nat,
            ),
            old(self)@.leads_to(final(self)@),
            forall|watch: Watch| #[trigger]
                watched(watch) && old(self)@.is_apart(watch) && !call_mentions(*call, watch.name)
                    ==> old(self)@.spares(final(self)@, watch),
            forall|scene: Scene| #[trigger]
                final(self)@.admits(scene) && old(self)@.prepared()
                    ==> final(self)@.troubled() || sound(analyzed, scene),
        decreases fuel, 3nat, List::<Type>::Nil,
    {
        self.require_standard_thread_intrinsic(call.span);
        self.require_arity(call, path, 1);
        let handle = self.analyze_argument(call, 0, Some(Type::Usize), fuel);
        self.analyze_extra(call, 1, fuel);
        self.require_type(Type::Usize, handle.ty, handle.span, "thread handle");
        self.join_thread(handle, expected, call.span)
    }

    /// The result of a thread.
    pub(crate) fn join_thread(
        &mut self,
        handle: Expression<'a>,
        expected: Option<Type>,
        span: Span,
    ) -> (analyzed: Expression<'a>)
        ensures
            (final(self)@, analyzed) == old(self)@.join_thread(handle, expected, span),
            old(self)@.leads_to(final(self)@),
            old(self)@.stays(final(self)@),
            forall|scene: Scene| #[trigger]
                final(self)@.admits(scene) && old(self)@.prepared() && Type::Usize.accepts(handle.ty)
                    && sound(handle, scene)
                    ==> final(self)@.troubled() || sound(analyzed, scene),
    {
        reveal(State::join_thread);
        match self.expected_result_parts(expected, span, "thread join") {
            None => invalid_composite_expression(span),
            Some((ty, output_type, error_type)) => match self.thread_error_variants(
                error_type,
                span,
            ) {
                None => invalid_composite_expression(span),
                Some(variants) => typed(
                    ExpressionKind::ThreadJoin {
                        handle,
                        output_type,
                        error_type,
                        invalid_handle_variant: variants.invalid_handle,
                        worker_panicked_variant: variants.worker_panicked,
                        result_mismatch_variant: variants.result_mismatch,
                    },
                    ty,
                    span,
                ),
            },
        }
    }

    /// A shared value that is created.
    pub(crate) fn analyze_synchronization_create(
        &mut self,
        call: &CallExpression<'a>,
        path: &Path<'a>,
        synchronization: SynchronizationKind,
        fuel: u32,
    ) -> (analyzed: Expression<'a>)
        ensures
            (final(self)@, analyzed) == old(self)@.analyze_synchronization_create(
                *call,
                *path,
                synchronization,
                fuel as nat,
            ),
            old(self)@.leads_to(final(self)@),
            forall|watch: Watch| #[trigger]
                watched(watch) && old(self)@.is_apart(watch) && !call_mentions(*call, watch.name)
                    ==> old(self)@.spares(final(self)@, watch),
            forall|scene: Scene| #[trigger]
                final(self)@.admits(scene) && old(self)@.prepared()
                    ==> final(self)@.troubled() || sound(analyzed, scene),
        decreases fuel, 3nat, List::<Type>::Nil,
    {
        self.require_standard_thread_intrinsic(call.span);
        self.require_arity(call, path, 1);
        let value = self.analyze_argument(call, 0, None, fuel);
        self.analyze_extra(call, 1, fuel);
        self.require_synchronization_value(value.ty, value.span, synchronization);
        typed(
            ExpressionKind::SynchronizationCreate { value, synchronization },
            Type::Usize,
            call.span,
        )
    }

    /// A shared value that is read.
    pub(crate) fn analyze_synchronization_load(
        &mut self,
        call: &CallExpression<'a>,
        path: &Path<'a>,
        expected: Option<Type>,
        synchronization: SynchronizationKind,
        fuel: u32,
    ) -> (analyzed: Expression<'a>)
        ensures
            (final(self)@, analyzed) == old(self)@.analyze_synchronization_load(
                *call,
                *path,
                expected,
                synchronization,
                fuel as nat,
            ),
            old(self)@.leads_to(final(self)@),
            forall|watch: Watch| #[trigger]
                watched(watch) && old(self)@.is_apart(watch) && !call_mentions(*call, watch.name)
                    ==> old(self)@.spares(final(self)@, watch),
            forall|scene: Scene| #[trigger]
                final(self)@.admits(scene) && old(self)@.prepared()
                    ==> final(self)@.troubled() || sound(analyzed, scene),
        decreases fuel, 3nat, List::<Type>::Nil,
    {
        self.require_standard_thread_intrinsic(call.span);
        self.require_arity(call, path, 1);
        let handle = self.analyze_argument(call, 0, Some(Type::Usize), fuel);
        self.analyze_extra(call, 1, fuel);
        self.require_type(Type::Usize, handle.ty, handle.span, "synchronization handle");
        self.load_synchronized(handle, expected, synchronization, call.span)
    }

    /// A shared value that is read must be copied.
    pub(crate) fn load_synchronized(
        &mut self,
        handle: Expression<'a>,
        expected: Option<Type>,
        synchronization: SynchronizationKind,
        span: Span,
    ) -> (analyzed: Expression<'a>)
        ensures
            (final(self)@, analyzed) == old(self)@.load_synchronized(
                handle,
                expected,
                synchronization,
                span,
            ),
            old(self)@.leads_to(final(self)@),
            old(self)@.stays(final(self)@),
            forall|scene: Scene| #[trigger]
                final(self)@.admits(scene) && old(self)@.prepared() && Type::Usize.accepts(handle.ty)
                    && sound(handle, scene)
                    ==> final(self)@.troubled() || sound(analyzed, scene),
    {
        reveal(State::load_synchronized);
        match expected {
            None => {
                self.report(
                    helped(
                        "E3153",
                        words("loading a synchronized value requires an expected result type"),
                        "call the intrinsic only from a typed standard-library method",
                        span,
                    ),
                );
                invalid_composite_expression(span)
            },
            Some(value_type) => {
                if !self.types.satisfies_trait(value_type, "Copy") {
                    self.report(
                        helped(
                            "E3153",
                            frame(
                                "synchronized load type `",
                                &value_type.text(),
                                "` does not satisfy `Copy`",
                            ),
                            "use `replace` to transfer ownership of a non-Copy value",
                            span,
                        ),
                    );
                }
                self.require_synchronization_value(value_type, span, synchronization);
                typed(
                    ExpressionKind::SynchronizationLoad { handle, value_type, synchronization },
                    value_type,
                    span,
                )
            },
        }
    }

    /// A shared value that is exchanged.
    pub(crate) fn analyze_synchronization_replace(
        &mut self,
        call: &CallExpression<'a>,
        path: &Path<'a>,
        expected: Option<Type>,
        synchronization: SynchronizationKind,
        fuel: u32,
    ) -> (analyzed: Expression<'a>)
        ensures
            (final(self)@, analyzed) == old(self)@.analyze_synchronization_replace(
                *call,
                *path,
                expected,
                synchronization,
                fuel as nat,
            ),
            old(self)@.leads_to(final(self)@),
            forall|watch: Watch| #[trigger]
                watched(watch) && old(self)@.is_apart(watch) && !call_mentions(*call, watch.name)
                    ==> old(self)@.spares(final(self)@, watch),
            forall|scene: Scene| #[trigger]
                final(self)@.admits(scene) && old(self)@.prepared()
                    ==> final(self)@.troubled() || sound(analyzed, scene),
        decreases fuel, 3nat, List::<Type>::Nil,
    {
        self.require_standard_thread_intrinsic(call.span);
        self.require_arity(call, path, 2);
        let handle = self.analyze_argument(call, 0, Some(Type::Usize), fuel);
        let value = self.analyze_argument(call, 1, expected, fuel);
        self.analyze_extra(call, 2, fuel);
        self.replace_synchronized(handle, value, expected, synchronization, call.span)
    }

    /// A shared value and the one that takes its place.
    pub(crate) fn replace_synchronized(
        &mut self,
        handle: Expression<'a>,
        value: Expression<'a>,
        expected: Option<Type>,
        synchronization: SynchronizationKind,
        span: Span,
    ) -> (analyzed: Expression<'a>)
        ensures
            (final(self)@, analyzed) == old(self)@.replace_synchronized(
                handle,
                value,
                expected,
                synchronization,
                span,
            ),
            old(self)@.leads_to(final(self)@),
            old(self)@.stays(final(self)@),
            forall|scene: Scene| #[trigger]
                final(self)@.admits(scene) && old(self)@.prepared() && sound(handle, scene)
                    && sound(value, scene)
                    ==> final(self)@.troubled() || sound(analyzed, scene),
    {
        reveal(State::replace_synchronized);
        self.require_type(Type::Usize, handle.ty, handle.span, "synchronization handle");
        self.require_expected(expected, value.ty, value.span, "replacement value");
        self.require_synchronization_value(value.ty, value.span, synchronization);
        let ty = value.ty;
        typed(ExpressionKind::SynchronizationReplace { handle, value, synchronization }, ty, span)
    }

    /// A value of a thread that is set.
    pub(crate) fn analyze_thread_local_store(
        &mut self,
        call: &CallExpression<'a>,
        path: &Path<'a>,
        fuel: u32,
    ) -> (analyzed: Expression<'a>)
        ensures
            (final(self)@, analyzed) == old(self)@.analyze_thread_local_store(
                *call,
                *path,
                fuel as nat,
            ),
            old(self)@.leads_to(final(self)@),
            forall|watch: Watch| #[trigger]
                watched(watch) && old(self)@.is_apart(watch) && !call_mentions(*call, watch.name)
                    ==> old(self)@.spares(final(self)@, watch),
            forall|scene: Scene| #[trigger]
                final(self)@.admits(scene) && old(self)@.prepared()
                    ==> final(self)@.troubled() || sound(analyzed, scene),
        decreases fuel, 3nat, List::<Type>::Nil,
    {
        self.require_standard_thread_intrinsic(call.span);
        self.require_arity(call, path, 2);
        let handle = self.analyze_argument(call, 0, Some(Type::Usize), fuel);
        let value = self.analyze_argument(call, 1, None, fuel);
        self.analyze_extra(call, 2, fuel);
        self.require_type(Type::Usize, handle.ty, handle.span, "thread-local handle");
        self.require_synchronization_value(value.ty, value.span, SynchronizationKind::ThreadLocal);
        typed(ExpressionKind::ThreadLocalStore { handle, value }, Type::Unit, call.span)
    }

    /// A channel that is created.
    pub(crate) fn analyze_channel_create(
        &mut self,
        call: &CallExpression<'a>,
        path: &Path<'a>,
        fuel: u32,
    ) -> (analyzed: Expression<'a>)
        ensures
            (final(self)@, analyzed) == old(self)@.analyze_channel_create(
                *call,
                *path,
                fuel as nat,
            ),
            old(self)@.leads_to(final(self)@),
            forall|watch: Watch| #[trigger]
                watched(watch) && old(self)@.is_apart(watch) && !call_mentions(*call, watch.name)
                    ==> old(self)@.spares(final(self)@, watch),
            forall|scene: Scene| #[trigger]
                final(self)@.admits(scene) && old(self)@.prepared()
                    ==> final(self)@.troubled() || sound(analyzed, scene),
        decreases fuel, 3nat, List::<Type>::Nil,
    {
        self.require_standard_thread_intrinsic(call.span);
        self.require_arity(call, path, 2);
        let probe = self.analyze_argument(call, 0, None, fuel);
        let capacity = self.analyze_argument(call, 1, Some(Type::Usize), fuel);
        self.analyze_extra(call, 2, fuel);
        self.create_channel(probe, capacity, call.span)
    }

    /// A channel for the values that a pointer leads to.
    pub(crate) fn create_channel(
        &mut self,
        probe: Expression<'a>,
        capacity: Expression<'a>,
        span: Span,
    ) -> (analyzed: Expression<'a>)
        ensures
            (final(self)@, analyzed) == old(self)@.create_channel(probe, capacity, span),
            old(self)@.leads_to(final(self)@),
            old(self)@.stays(final(self)@),
            forall|scene: Scene| #[trigger]
                final(self)@.admits(scene) && old(self)@.prepared() && sound(probe, scene)
                    && sound(capacity, scene)
                    ==> final(self)@.troubled() || sound(analyzed, scene),
    {
        reveal(State::create_channel);
        self.require_type(Type::Usize, capacity.ty, capacity.span, "channel capacity");
        match self.pointer_shape(probe.ty) {
            None => {
                self.report(
                    error(
                        "E3153",
                        frame(
                            "channel type probe must be a raw pointer, found `",
                            &probe.ty.text(),
                            "`",
                        ),
                        probe.span,
                    ),
                );
                invalid_composite_expression(span)
            },
            Some((element_type, _, raw)) => {
                if !raw {
                    self.report(
                        error(
                            "E3153",
                            words("channel type probe must be a raw pointer"),
                            probe.span,
                        ),
                    );
                }
                self.require_channel_value(element_type, probe.span);
                typed(
                    ExpressionKind::ChannelCreate { probe, capacity, element_type },
                    Type::Usize,
                    span,
                )
            },
        }
    }

    /// A value that is sent.
    pub(crate) fn analyze_channel_send(
        &mut self,
        call: &CallExpression<'a>,
        path: &Path<'a>,
        expected: Option<Type>,
        fuel: u32,
    ) -> (analyzed: Expression<'a>)
        ensures
            (final(self)@, analyzed) == old(self)@.analyze_channel_send(
                *call,
                *path,
                expected,
                fuel as nat,
            ),
            old(self)@.leads_to(final(self)@),
            forall|watch: Watch| #[trigger]
                watched(watch) && old(self)@.is_apart(watch) && !call_mentions(*call, watch.name)
                    ==> old(self)@.spares(final(self)@, watch),
            forall|scene: Scene| #[trigger]
                final(self)@.admits(scene) && old(self)@.prepared()
                    ==> final(self)@.troubled() || sound(analyzed, scene),
        decreases fuel, 3nat, List::<Type>::Nil,
    {
        self.require_standard_thread_intrinsic(call.span);
        self.require_arity(call, path, 2);
        let handle = self.analyze_argument(call, 0, Some(Type::Usize), fuel);
        let value = self.analyze_argument(call, 1, None, fuel);
        self.analyze_extra(call, 2, fuel);
        self.require_type(Type::Usize, handle.ty, handle.span, "channel handle");
        self.require_channel_value(value.ty, value.span);
        self.send_to_channel(handle, value, expected, call.span)
    }

    /// A value and the channel that it is sent to.
    pub(crate) fn send_to_channel(
        &mut self,
        handle: Expression<'a>,
        value: Expression<'a>,
        expected: Option<Type>,
        span: Span,
    ) -> (analyzed: Expression<'a>)
        ensures
            (final(self)@, analyzed) == old(self)@.send_to_channel(handle, value, expected, span),
            old(self)@.leads_to(final(self)@),
            old(self)@.stays(final(self)@),
            forall|scene: Scene| #[trigger]
                final(self)@.admits(scene) && old(self)@.prepared() && Type::Usize.accepts(handle.ty)
                    && sound(handle, scene) && sound(value, scene)
                    ==> final(self)@.troubled() || sound(analyzed, scene),
    {
        reveal(State::send_to_channel);
        match self.expected_result_parts(expected, span, "channel send") {
            None => invalid_composite_expression(span),
            Some((ty, success, error_type)) => {
                self.require_type(Type::Unit, success, span, "channel send success");
                match self.channel_closed_variant(error_type, span) {
                    None => invalid_composite_expression(span),
                    Some(closed_variant) => typed(
                        ExpressionKind::ChannelSend { handle, value, error_type, closed_variant },
                        ty,
                        span,
                    ),
                }
            },
        }
    }

    /// A value that is received.
    pub(crate) fn analyze_channel_receive(
        &mut self,
        call: &CallExpression<'a>,
        path: &Path<'a>,
        expected: Option<Type>,
        fuel: u32,
    ) -> (analyzed: Expression<'a>)
        ensures
            (final(self)@, analyzed) == old(self)@.analyze_channel_receive(
                *call,
                *path,
                expected,
                fuel as nat,
            ),
            old(self)@.leads_to(final(self)@),
            forall|watch: Watch| #[trigger]
                watched(watch) && old(self)@.is_apart(watch) && !call_mentions(*call, watch.name)
                    ==> old(self)@.spares(final(self)@, watch),
            forall|scene: Scene| #[trigger]
                final(self)@.admits(scene) && old(self)@.prepared()
                    ==> final(self)@.troubled() || sound(analyzed, scene),
        decreases fuel, 3nat, List::<Type>::Nil,
    {
        self.require_standard_thread_intrinsic(call.span);
        self.require_arity(call, path, 1);
        let handle = self.analyze_argument(call, 0, Some(Type::Usize), fuel);
        self.analyze_extra(call, 1, fuel);
        self.require_type(Type::Usize, handle.ty, handle.span, "channel handle");
        self.receive_from_channel(handle, expected, call.span)
    }

    /// The value that comes from a channel.
    pub(crate) fn receive_from_channel(
        &mut self,
        handle: Expression<'a>,
        expected: Option<Type>,
        span: Span,
    ) -> (analyzed: Expression<'a>)
        ensures
            (final(self)@, analyzed) == old(self)@.receive_from_channel(handle, expected, span),
            old(self)@.leads_to(final(self)@),
            old(self)@.stays(final(self)@),
            forall|scene: Scene| #[trigger]
                final(self)@.admits(scene) && old(self)@.prepared() && Type::Usize.accepts(handle.ty)
                    && sound(handle, scene)
                    ==> final(self)@.troubled() || sound(analyzed, scene),
    {
        reveal(State::receive_from_channel);
        match self.expected_result_parts(expected, span, "channel receive") {
            None => invalid_composite_expression(span),
            Some((ty, value_type, error_type)) => {
                self.require_channel_value(value_type, span);
                match self.channel_closed_variant(error_type, span) {
                    None => invalid_composite_expression(span),
                    Some(closed_variant) => typed(
                        ExpressionKind::ChannelReceive {
                            handle,
                            value_type,
                            error_type,
                            closed_variant,
                        },
                        ty,
                        span,
                    ),
                }
            },
        }
    }

    /// A job that is started.
    pub(crate) fn analyze_job_submit(
        &mut self,
        call: &CallExpression<'a>,
        path: &Path<'a>,
        expected: Option<Type>,
        fuel: u32,
    ) -> (analyzed: Expression<'a>)
        ensures
            (final(self)@, analyzed) == old(self)@.analyze_job_submit(
                *call,
                *path,
                expected,
                fuel as nat,
            ),
            old(self)@.leads_to(final(self)@),
            forall|watch: Watch| #[trigger]
                watched(watch) && old(self)@.is_apart(watch) && !call_mentions(*call, watch.name)
                    ==> old(self)@.spares(final(self)@, watch),
            forall|scene: Scene| #[trigger]
                final(self)@.admits(scene) && old(self)@.prepared()
                    ==> final(self)@.troubled() || sound(analyzed, scene),
        decreases fuel, 3nat, List::<Type>::Nil,
    {
        self.require_standard_job_intrinsic(call.span);
        self.require_arity(call, path, 3);
        let pool = self.analyze_argument(call, 0, Some(Type::Usize), fuel);
        let callback = self.analyze_argument(call, 1, None, fuel);
        let (parameter_type, output_type) = self.require_callback(
            callback.ty,
            callback.span,
            "E3154",
            "job",
        );
        let argument = self.analyze_argument(call, 2, Some(parameter_type), fuel);
        self.analyze_extra(call, 3, fuel);
        self.check_job_values(parameter_type, output_type, &pool, &callback, &argument);
        self.submit_job(pool, callback, argument, output_type, expected, call.span)
    }

    /// What goes to a job and comes back from it must be safe to send.
    pub(crate) fn check_job_values(
        &mut self,
        parameter_type: Type,
        output_type: Type,
        pool: &Expression<'a>,
        callback: &Expression<'a>,
        argument: &Expression<'a>,
    )
        ensures
            final(self)@ == old(self)@.check_job_values(
                parameter_type,
                output_type,
                *pool,
                *callback,
                *argument,
            ),
            old(self)@.leads_to(final(self)@),
            old(self)@.stays(final(self)@),
            Type::Usize.accepts(pool.ty) || final(self)@.troubled(),
    {
        reveal(State::check_job_values);
        self.require_type(Type::Usize, pool.ty, pool.span, "job pool handle");
        self.require_type(parameter_type, argument.ty, argument.span, "job argument");
        self.require_thread_transfer(argument.ty, argument.span, false, "job argument");
        self.require_thread_transfer(output_type, callback.span, false, "job result");
    }

    /// A job of its parts.
    pub(crate) fn submit_job(
        &mut self,
        pool: Expression<'a>,
        callback: Expression<'a>,
        argument: Expression<'a>,
        output_type: Type,
        expected: Option<Type>,
        span: Span,
    ) -> (analyzed: Expression<'a>)
        ensures
            (final(self)@, analyzed) == old(self)@.submit_job(
                pool,
                callback,
                argument,
                output_type,
                expected,
                span,
            ),
            old(self)@.leads_to(final(self)@),
            old(self)@.stays(final(self)@),
            forall|scene: Scene| #[trigger]
                final(self)@.admits(scene) && old(self)@.prepared() && Type::Usize.accepts(pool.ty)
                    && sound(pool, scene) && sound(callback, scene)
                    && sound(argument, scene)
                    ==> final(self)@.troubled() || sound(analyzed, scene),
    {
        reveal(State::submit_job);
        match self.expected_result_parts(expected, span, "job submission") {
            None => invalid_composite_expression(span),
            Some((ty, success, error_type)) => {
                self.require_type(Type::Usize, success, span, "job submission success");
                match self.job_error_variants(error_type, span) {
                    None => invalid_composite_expression(span),
                    Some(variants) => typed(
                        ExpressionKind::JobSubmit {
                            pool,
                            callback,
                            argument,
                            output_type,
                            error_type,
                            submit_failed_variant: variants.submit_failed,
                        },
                        ty,
                        span,
                    ),
                }
            },
        }
    }

    /// A job that is waited for.
    pub(crate) fn analyze_job_wait(
        &mut self,
        call: &CallExpression<'a>,
        path: &Path<'a>,
        expected: Option<Type>,
        fuel: u32,
    ) -> (analyzed: Expression<'a>)
        ensures
            (final(self)@, analyzed) == old(self)@.analyze_job_wait(
                *call,
                *path,
                expected,
                fuel as nat,
            ),
            old(self)@.leads_to(final(self)@),
            forall|watch: Watch| #[trigger]
                watched(watch) && old(self)@.is_apart(watch) && !call_mentions(*call, watch.name)
                    ==> old(self)@.spares(final(self)@, watch),
            forall|scene: Scene| #[trigger]
                final(self)@.admits(scene) && old(self)@.prepared()
                    ==> final(self)@.troubled() || sound(analyzed, scene),
        decreases fuel, 3nat, List::<Type>::Nil,
    {
        self.require_standard_job_intrinsic(call.span);
        self.require_arity(call, path, 1);
        let handle = self.analyze_argument(call, 0, Some(Type::Usize), fuel);
        self.analyze_extra(call, 1, fuel);
        self.require_type(Type::Usize, handle.ty, handle.span, "job handle");
        self.wait_for_job(handle, expected, call.span)
    }

    /// The result of a job.
    pub(crate) fn wait_for_job(
        &mut self,
        handle: Expression<'a>,
        expected: Option<Type>,
        span: Span,
    ) -> (analyzed: Expression<'a>)
        ensures
            (final(self)@, analyzed) == old(self)@.wait_for_job(handle, expected, span),
            old(self)@.leads_to(final(self)@),
            old(self)@.stays(final(self)@),
            forall|scene: Scene| #[trigger]
                final(self)@.admits(scene) && old(self)@.prepared() && Type::Usize.accepts(handle.ty)
                    && sound(handle, scene)
                    ==> final(self)@.troubled() || sound(analyzed, scene),
    {
        reveal(State::wait_for_job);
        match self.expected_result_parts(expected, span, "job wait") {
            None => invalid_composite_expression(span),
            Some((ty, output_type, error_type)) => match self.job_error_variants(error_type, span) {
                None => invalid_composite_expression(span),
                Some(variants) => typed(
                    ExpressionKind::JobWait {
                        handle,
                        output_type,
                        error_type,
                        invalid_handle_variant: variants.invalid_handle,
                        worker_panicked_variant: variants.worker_panicked,
                        result_mismatch_variant: variants.result_mismatch,
                    },
                    ty,
                    span,
                ),
            },
        }
    }

    /// A loop over the elements of an array or a slice in parallel.
    pub(crate) fn analyze_parallel_for_mut(
        &mut self,
        call: &CallExpression<'a>,
        path: &Path<'a>,
        expected: Option<Type>,
        array: bool,
        fuel: u32,
    ) -> (analyzed: Expression<'a>)
        ensures
            (final(self)@, analyzed) == old(self)@.analyze_parallel_for_mut(
                *call,
                *path,
                expected,
                array,
                fuel as nat,
            ),
            old(self)@.leads_to(final(self)@),
            forall|watch: Watch| #[trigger]
                watched(watch) && old(self)@.is_apart(watch) && !call_mentions(*call, watch.name)
                    ==> old(self)@.spares(final(self)@, watch),
            forall|scene: Scene| #[trigger]
                final(self)@.admits(scene) && old(self)@.prepared()
                    ==> final(self)@.troubled() || sound(analyzed, scene),
        decreases fuel, 3nat, List::<Type>::Nil,
    {
        self.require_standard_job_intrinsic(call.span);
        self.require_arity(call, path, 4);
        let pool = self.analyze_argument(call, 0, Some(Type::Usize), fuel);
        let slice = self.analyze_argument(call, 1, None, fuel);
        let callback = self.analyze_argument(call, 2, None, fuel);
        let minimum_chunk = self.analyze_argument(call, 3, Some(Type::Usize), fuel);
        self.analyze_extra(call, 4, fuel);
        self.parallel_for(pool, slice, callback, minimum_chunk, array, expected, call.span)
    }

    /// The element and the length of what is looped over in parallel.
    pub(crate) fn parallel_shape(
        &self,
        ty: Type,
        array: bool,
    ) -> (shape: Option<(Type, Option<u64>)>)
        ensures
            shape == self@.parallel_shape(ty, array),
    {
        reveal(State::parallel_shape);
        if array {
            match self.types.pointer_shape(ty) {
                Some((target, true, false)) => match self.types.array_shape(target) {
                    Some((element, length)) => Some((element, Some(length))),
                    None => None,
                },
                _ => None,
            }
        } else {
            match self.types.slice_shape(ty) {
                Some((element, true)) => Some((element, None)),
                _ => None,
            }
        }
    }

    /// What is looped over in parallel must be mutable.
    pub(crate) fn parallel_input_shape(
        &mut self,
        input: &Expression<'a>,
        array: bool,
    ) -> (shape: Option<(Type, Option<u64>)>)
        ensures
            (final(self)@, shape) == old(self)@.parallel_input_shape(*input, array),
            old(self)@.leads_to(final(self)@),
            old(self)@.stays(final(self)@),
    {
        reveal(State::parallel_input_shape);
        match self.parallel_shape(input.ty, array) {
            Some(shape) => Some(shape),
            None => {
                self.report(
                    helped(
                        "E3154",
                        cons(
                            Piece::Words("parallel mutable iteration requires "),
                            cons(
                                Piece::Words(
                                    if array {
                                        "`&mut [T; N]`"
                                    } else {
                                        "`&mut [T]`"
                                    },
                                ),
                                frame(", found `", &input.ty.text(), "`"),
                            ),
                        ),
                        "borrow an array, vector slice, or tensor storage mutably",
                        input.span,
                    ),
                );
                None
            },
        }
    }

    /// Whether a type is a mutable slice of elements.
    pub(crate) fn is_mutable_slice_of(&self, ty: Type, element: Type) -> (answer: bool)
        ensures
            answer == self@.is_mutable_slice_of(ty, element),
    {
        reveal(State::is_mutable_slice_of);
        match self.types.slice_shape(ty) {
            Some((actual, mutable)) => actual == element && mutable,
            None => false,
        }
    }

    /// The chunks that a callback takes in parallel.
    pub(crate) fn require_chunk_callback(
        &mut self,
        callback: &Expression<'a>,
        element: Type,
    ) -> (chunk_type: Type)
        ensures
            (final(self)@, chunk_type) == old(self)@.require_chunk_callback(*callback, element),
            old(self)@.leads_to(final(self)@),
            old(self)@.stays(final(self)@),
    {
        reveal(State::require_chunk_callback);
        let (chunk_type, output_type) = self.require_callback(
            callback.ty,
            callback.span,
            "E3154",
            "parallel",
        );
        if !self.is_mutable_slice_of(chunk_type, element) {
            self.report(
                error(
                    "E3154",
                    frame(
                        "parallel callback must accept `&mut [T]`, found `",
                        &chunk_type.text(),
                        "`",
                    ),
                    callback.span,
                ),
            );
        }
        self.require_type(Type::Unit, output_type, callback.span, "parallel callback result");
        chunk_type
    }

    /// The expected result of a loop in parallel, and the variants of its error.
    pub(crate) fn parallel_result(
        &mut self,
        expected: Option<Type>,
        span: Span,
    ) -> (parts: Option<(Type, Type, JobErrorVariants)>)
        ensures
            (final(self)@, parts) == old(self)@.parallel_result(expected, span),
            old(self)@.leads_to(final(self)@),
            old(self)@.stays(final(self)@),
    {
        reveal(State::parallel_result);
        match self.expected_result_parts(expected, span, "parallel iteration") {
            None => None,
            Some((ty, success, error_type)) => {
                self.require_type(Type::Unit, success, span, "parallel iteration success");
                match self.job_error_variants(error_type, span) {
                    None => None,
                    Some(variants) => Some((ty, error_type, variants)),
                }
            },
        }
    }

    /// A loop in parallel of its parts.
    pub(crate) fn parallel_for(
        &mut self,
        pool: Expression<'a>,
        slice: Expression<'a>,
        callback: Expression<'a>,
        minimum_chunk: Expression<'a>,
        array: bool,
        expected: Option<Type>,
        span: Span,
    ) -> (analyzed: Expression<'a>)
        ensures
            (final(self)@, analyzed) == old(self)@.parallel_for(
                pool,
                slice,
                callback,
                minimum_chunk,
                array,
                expected,
                span,
            ),
            old(self)@.leads_to(final(self)@),
            old(self)@.stays(final(self)@),
            forall|scene: Scene| #[trigger]
                final(self)@.admits(scene) && old(self)@.prepared() && sound(pool, scene)
                    && sound(slice, scene) && sound(callback, scene)
                    && sound(minimum_chunk, scene)
                    ==> final(self)@.troubled() || sound(analyzed, scene),
    {
        reveal(State::parallel_for);
        self.require_type(Type::Usize, pool.ty, pool.span, "job pool handle");
        self.require_type(
            Type::Usize,
            minimum_chunk.ty,
            minimum_chunk.span,
            "minimum parallel chunk",
        );
        match self.parallel_input_shape(&slice, array) {
            None => invalid_composite_expression(span),
            Some((element, array_length)) => {
                self.require_channel_value(element, slice.span);
                let chunk_type = self.require_chunk_callback(&callback, element);
                match self.parallel_result(expected, span) {
                    None => invalid_composite_expression(span),
                    Some((ty, error_type, variants)) => typed(
                        ExpressionKind::ParallelFor {
                            pool,
                            slice,
                            chunk_type,
                            array_length,
                            callback,
                            minimum_chunk,
                            error_type,
                            submit_failed_variant: variants.submit_failed,
                            worker_panicked_variant: variants.worker_panicked,
                            result_mismatch_variant: variants.result_mismatch,
                        },
                        ty,
                        span,
                    ),
                }
            },
        }
    }
}

} // verus!
