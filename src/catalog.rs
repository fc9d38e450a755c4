use vstd::prelude::*;

use crate::reason::{ReasonView, UnsafeReason};

verus! {

/// The standard reasons for risky code. Each gives a record whose identifier
/// is the reason's own name, written in capitals, with no other annotation.
/// Projects may build their own reasons the same way, or derive specialised
/// ones from these with the builder methods of [`UnsafeReason`].
#[derive(Clone, Copy, PartialEq, Eq, Debug, Structural)]
pub enum StandardReason {
    /// The code calls foreign code (such as C code), which the language's
    /// safety rules cannot check.
    UsesForeignCode,
    /// The code is called by foreign code, and must exchange data and control
    /// flow with its caller.
    UsedByForeignCode,
    /// The code implements an algorithm that needs maximum performance, and
    /// itself makes sure that bounds checks, overflow checks etc. hold.
    Performance,
    /// The code implements a legal type conversion that the type system
    /// cannot yet express.
    ImplementsSafeTransmute,
    /// The code implements a container type, such as `Vec` or `HashMap`.
    ImplementsContainer,
    /// The code is part of a device driver and accesses memory directly, for
    /// example memory-mapped I/O registers.
    ImplementsDeviceDriver,
    /// The code is part of a memory manager, such as a heap or a page table.
    /// A container uses a memory manager but is not part of one.
    ImplementsMemoryManager,
    /// The code uses processor-specific intrinsics (such as SIMD), which not
    /// every processor provides.
    UsesVectorIntrinsics,
}

impl StandardReason {
    /// The reason's name, which is also the identifier of its record.
    pub open spec fn spec_name(self) -> Seq<char> {
        match self {
            StandardReason::UsesForeignCode => "USES_FOREIGN_CODE"@,
            StandardReason::UsedByForeignCode => "USED_BY_FOREIGN_CODE"@,
            StandardReason::Performance => "PERFORMANCE"@,
            StandardReason::ImplementsSafeTransmute => "IMPLEMENTS_SAFE_TRANSMUTE"@,
            StandardReason::ImplementsContainer => "IMPLEMENTS_CONTAINER"@,
            StandardReason::ImplementsDeviceDriver => "IMPLEMENTS_DEVICE_DRIVER"@,
            StandardReason::ImplementsMemoryManager => "IMPLEMENTS_MEMORY_MANAGER"@,
            StandardReason::UsesVectorIntrinsics => "USES_VECTOR_INTRINSICS"@,
        }
    }

    /// The model of the reason's record.
    pub open spec fn spec_reason(self) -> ReasonView {
        ReasonView::new(self.spec_name())
    }

    /// The reason's name.
    pub fn name(self) -> (r: &'static str)
        ensures
            r@ == self.spec_name(),
    {
        match self {
            StandardReason::UsesForeignCode => "USES_FOREIGN_CODE",
            StandardReason::UsedByForeignCode => "USED_BY_FOREIGN_CODE",
            StandardReason::Performance => "PERFORMANCE",
            StandardReason::ImplementsSafeTransmute => "IMPLEMENTS_SAFE_TRANSMUTE",
            StandardReason::ImplementsContainer => "IMPLEMENTS_CONTAINER",
            StandardReason::ImplementsDeviceDriver => "IMPLEMENTS_DEVICE_DRIVER",
            StandardReason::ImplementsMemoryManager => "IMPLEMENTS_MEMORY_MANAGER",
            StandardReason::UsesVectorIntrinsics => "USES_VECTOR_INTRINSICS",
        }
    }

    /// The reason's record: its name as identifier, and no annotation.
    pub fn reason(self) -> (r: UnsafeReason)
        ensures
            r@ == self.spec_reason(),
            r@.id == self.spec_name(),
            r@.is_bare(),
    {
        UnsafeReason::new(self.name())
    }
}

/// Two different standard reasons have different names.
pub proof fn standard_names_unique(a: StandardReason, b: StandardReason)
    ensures
        a != b ==> a.spec_name() != b.spec_name(),
{
    reveal_strlit("USES_FOREIGN_CODE");
    reveal_strlit("USED_BY_FOREIGN_CODE");
    reveal_strlit("PERFORMANCE");
    reveal_strlit("IMPLEMENTS_SAFE_TRANSMUTE");
    reveal_strlit("IMPLEMENTS_CONTAINER");
    reveal_strlit("IMPLEMENTS_DEVICE_DRIVER");
    reveal_strlit("IMPLEMENTS_MEMORY_MANAGER");
    reveal_strlit("USES_VECTOR_INTRINSICS");
    assert(StandardReason::UsesForeignCode.spec_name().len() == 17);
    assert(StandardReason::UsedByForeignCode.spec_name().len() == 20);
    assert(StandardReason::Performance.spec_name().len() == 11);
    assert(StandardReason::ImplementsSafeTransmute.spec_name().len() == 25);
    assert(StandardReason::ImplementsContainer.spec_name().len() == 20);
    assert(StandardReason::ImplementsDeviceDriver.spec_name().len() == 24);
    assert(StandardReason::ImplementsMemoryManager.spec_name().len() == 25);
    assert(StandardReason::UsesVectorIntrinsics.spec_name().len() == 22);
    // Names of equal length differ in one letter.
    assert(StandardReason::UsedByForeignCode.spec_name()[0] == 'U');
    assert(StandardReason::ImplementsContainer.spec_name()[0] == 'I');
    assert(StandardReason::ImplementsSafeTransmute.spec_name()[11] == 'S');
    assert(StandardReason::ImplementsMemoryManager.spec_name()[11] == 'M');
}

/// The identifier of a standard reason's record is the reason's name, and
/// deriving a record from it never changes that identifier, whatever
/// annotations are added.
pub proof fn standard_ids_stable(
    k: StandardReason,
    owner: Seq<char>,
    bug: Seq<char>,
    url: Seq<char>,
    key: Seq<char>,
    value: Seq<char>,
    message: Seq<char>,
)
    ensures
        k.spec_reason().id == k.spec_name(),
        k.spec_reason().with_owner(owner).id == k.spec_name(),
        k.spec_reason().with_bug(bug).id == k.spec_name(),
        k.spec_reason().with_link(url).id == k.spec_name(),
        k.spec_reason().with_tag(key, value).id == k.spec_name(),
        k.spec_reason().with_message(message).id == k.spec_name(),
        k.spec_reason().with_owner(owner).with_bug(bug).with_link(url).with_tag(
            key,
            value,
        ).with_message(message).id == k.spec_name(),
{
}

} // verus!
