//! The widget identity generator.
//!
//! Identifiers are issued strictly increasingly, so no two widgets created
//! through the same generator ever share one.  The generator is threaded
//! explicitly through every constructor instead of living in process-global
//! state; the application owns exactly one and passes it down.

use vstd::prelude::*;

verus! {

/// A widget identifier.  Equality of widgets is defined solely by equality of
/// their identifiers.
pub type WidgetUid = usize;

/// Issues process-wide unique widget identifiers, monotonically.
pub struct UidGenerator {
    /// The identifier the next call of [`gen_uid`] will return.  Every
    /// identifier issued so far is strictly below it.
    pub next: usize,
}

impl UidGenerator {
    /// A fresh generator; the first identifier issued is `0`.
    pub fn new() -> (r: UidGenerator)
        ensures
            r.next == 0,
    {
        UidGenerator { next: 0 }
    }

    /// Whether `uid` was issued by this generator in the past: every issued
    /// identifier lies strictly below `next`, so a future issue never collides
    /// with it.
    pub open spec fn issued(self, uid: WidgetUid) -> bool {
        uid < self.next
    }
}

/// Issues the next unique widget identifier.
///
/// The result is strictly larger than every identifier issued before and
/// strictly smaller than every identifier issued after, so identifiers never
/// collide, including during rapid successive calls.
pub fn gen_uid(generator: &mut UidGenerator) -> (uid: WidgetUid)
    requires
        old(generator).next < usize::MAX,
    ensures
        uid == old(generator).next,
        final(generator).next == old(generator).next + 1,
        final(generator).issued(uid),
        forall|prior: WidgetUid| old(generator).issued(prior) ==> prior != uid,
{
    let uid = generator.next;
    generator.next = generator.next + 1;
    uid
}

} // verus!
