//! The relation between the kinds of handle, and the casts along it.
//!
//! All handles hold one address, so a cast never changes what a handle points
//! to: it only changes what the handle is taken for. A cast towards an
//! ancestor is always right. A cast towards a descendant is right only if the
//! runtime says that the class of the value can be assigned to the class of
//! the target kind.

use vstd::prelude::*;
use crate::error::{Error, ErrorView};
use crate::ffi::constants::JNI_ERR;

verus! {

/// Marker for all handle kinds that can be taken for a
/// [`JObject`](crate::types::JObject) without a check.
pub trait IsObject: Sized {
    /// The address that the handle holds.
    spec fn addr(&self) -> usize;
}

/// Marker for all handle kinds that can be taken for a
/// [`JArray`](crate::types::JArray) without a check.
pub trait IsArray: IsObject {

}

impl<'b, H: IsObject> IsObject for &'b H {
    open spec fn addr(&self) -> usize {
        (**self).addr()
    }
}

/// Trait representing the ability for this reference to be 'downcast', and treated as a reference
/// to a parent type
pub trait JavaDownCast<T: IsObject>: IsObject {
    /// The handle of the parent type that this one is taken for.
    spec fn cast(self) -> T;

    /// The cast keeps the address.
    proof fn cast_keeps_address(self)
        ensures
            self.cast().addr() == self.addr(),
    ;

    /// Does a safe cast to a Java type that this type inherits from
    fn downcast(self) -> (r: T)
        ensures
            r == self.cast(),
            r.addr() == self.addr(),
    ;
}

/// Trait representing the ability for this reference to be 'upcast', and treated as a reference
/// to a child type
pub trait JavaUpCast<T: IsObject>: IsObject {
    /// The handle of the child type that this one is taken for.
    spec fn recast(self) -> T;

    /// The cast keeps the address.
    proof fn recast_keeps_address(self)
        ensures
            self.recast().addr() == self.addr(),
    ;

    /// The binary name of the class that belongs to the child type, if it has one.
    spec fn target_name() -> Option<Seq<char>>;

    /// The binary name of the class that the runtime is to be asked for, if
    /// the child type has one. The answer to hand to [`upcast`](Self::upcast)
    /// is whether the class of this value can be assigned to that class.
    fn target_class() -> (name: Option<&'static str>)
        ensures
            match name {
                Some(n) => Self::target_name() == Some(n@),
                None => Self::target_name() is None,
            },
    ;

    /// Does a safe cast to a Java type that inherits from this type, given the
    /// runtime's answer. A child type without a class of its own is never
    /// granted, whatever the answer.
    fn upcast(self, assignable: bool) -> (r: Result<T, Error>)
        ensures
            match r {
                Ok(h) => assignable && Self::target_name() is Some && h == self.recast()
                    && h.addr() == self.addr(),
                Err(e) => !(assignable && Self::target_name() is Some) && e@
                    == cannot_assign(Self::target_name()),
            },
    ;

    /// Does an unchecked cast to a Java type that inherits from this type. The
    /// caller vouches for the class of the value.
    fn upcast_raw(self) -> (r: T)
        ensures
            r == self.recast(),
            r.addr() == self.addr(),
    ;
}

/// The error of an upcast that was not granted.
pub open spec fn cannot_assign(target: Option<Seq<char>>) -> ErrorView {
    ErrorView::General(
        "Can't assign to type "@ + match target {
            Some(name) => name,
            None => Seq::empty(),
        },
        JNI_ERR as int,
    )
}

/// A downcast by way of an ancestor arrives at the same address as the direct
/// downcast.
pub proof fn lemma_downcast_by_ancestor<H, K, O>(h: H)
    where
        H: JavaDownCast<K> + JavaDownCast<O>,
        K: JavaDownCast<O>,
        O: IsObject,

    ensures
        <K as JavaDownCast<O>>::cast(<H as JavaDownCast<K>>::cast(h)).addr() == <H as JavaDownCast<
            O,
        >>::cast(h).addr(),
{
    <H as JavaDownCast<K>>::cast_keeps_address(h);
    <K as JavaDownCast<O>>::cast_keeps_address(<H as JavaDownCast<K>>::cast(h));
    <H as JavaDownCast<O>>::cast_keeps_address(h);
}

} // verus!
