//! The choices made while setting up the device: which physical device and
//! which queue family to use, and which buffers get a device address.
//!
//! Vulkan's enumerations and flag sets come in as their raw values.

use vstd::prelude::*;

verus! {

/// Calls `ash::vk::PhysicalDeviceType::as_raw` on `PhysicalDeviceType::CPU`,
/// which Vulkan numbers 4.
#[verifier::external_body]
fn cpu_device_type() -> (r: i32)
    ensures
        r == 4,
{
    ash::vk::PhysicalDeviceType::CPU.as_raw()
}

/// Calls `ash::vk::QueueFlags::as_raw` on `QueueFlags::GRAPHICS`, bit 0.
#[verifier::external_body]
fn graphics_queue_flag() -> (r: u32)
    ensures
        r == 1,
{
    ash::vk::QueueFlags::GRAPHICS.as_raw()
}

/// Calls `ash::vk::BufferUsageFlags::as_raw` on
/// `BufferUsageFlags::SHADER_DEVICE_ADDRESS`, bit 17.
#[verifier::external_body]
fn shader_device_address_usage() -> (r: u32)
    ensures
        r == 0x2_0000,
{
    ash::vk::BufferUsageFlags::SHADER_DEVICE_ADDRESS.as_raw()
}

/// Why no device could be set up.
#[derive(Debug, Clone, Copy, PartialEq, Eq, Structural)]
pub enum SetupError {
    /// The instance reported no physical device at all.
    NoDevices,
    /// Every physical device is a CPU implementation.
    NoSuitableDevice,
    /// The chosen device has no queue family that supports graphics.
    NoGraphicsQueueFamily,
}

impl SetupError {
    /// The message that reports the error.
    pub fn message(&self) -> (r: &'static str)
        ensures
            *self == SetupError::NoDevices ==> r@ == "No Vulkan devices found"@,
            *self == SetupError::NoSuitableDevice ==> r@ == "No suitable physical device found"@,
            *self == SetupError::NoGraphicsQueueFamily ==> r@
                == "No suitable graphics queue family found"@,
    {
        match self {
            SetupError::NoDevices => "No Vulkan devices found",
            SetupError::NoSuitableDevice => "No suitable physical device found",
            SetupError::NoGraphicsQueueFamily => "No suitable graphics queue family found",
        }
    }
}

/// `flags` holds every bit of `mask`.
pub open spec fn has_flags(flags: u32, mask: u32) -> bool {
    flags & mask == mask
}

/// A flag set holds the graphics bit exactly when its lowest bit is set, and
/// holding a mask does not depend on bits outside the mask: adding or
/// removing other bits never changes whether a queue family is accepted.
pub proof fn lemma_has_flags_only_mask_bits(flags: u32, other: u32, mask: u32)
    ensures
        has_flags(flags, 1) <==> flags % 2 == 1,
        other & mask == 0 ==> (has_flags(flags | other, mask) <==> has_flags(flags, mask)),
        has_flags(flags & mask, mask) <==> has_flags(flags, mask),
        has_flags(mask, mask),
{
    assert((flags & 1 == 1u32) <==> flags % 2 == 1) by (bit_vector);
    assert(other & mask == 0 ==> (((flags | other) & mask == mask) <==> (flags & mask == mask))) by (bit_vector);
    assert((((flags & mask) & mask) == mask) <==> (flags & mask == mask)) by (bit_vector);
    assert(mask & mask == mask) by (bit_vector);
}

/// Picks the first physical device that is not a CPU implementation, given
/// the raw `PhysicalDeviceType` of each device in the order the instance
/// lists them.
pub fn choose_physical_device(device_types: &[i32]) -> (r: Result<usize, SetupError>)
    ensures
        r == Err::<usize, SetupError>(SetupError::NoDevices) <==> device_types@.len() == 0,
        r == Err::<usize, SetupError>(SetupError::NoSuitableDevice) <==> device_types@.len() > 0
            && forall|j: int| 0 <= j < device_types@.len() ==> #[trigger] device_types@[j] == 4,
        r is Ok || r == Err::<usize, SetupError>(SetupError::NoDevices) || r == Err::<
            usize,
            SetupError,
        >(SetupError::NoSuitableDevice),
        r matches Ok(i) ==> {
            &&& i < device_types@.len()
            &&& device_types@[i as int] != 4
            &&& forall|j: int| 0 <= j < i ==> #[trigger] device_types@[j] == 4
        },
{
    if device_types.len() == 0 {
        return Err(SetupError::NoDevices);
    }
    let cpu: i32 = cpu_device_type();
    let mut i: usize = 0;
    while i < device_types.len()
        invariant
            cpu == 4,
            i <= device_types@.len(),
            forall|j: int| 0 <= j < i ==> #[trigger] device_types@[j] == 4,
        decreases device_types@.len() - i,
    {
        if device_types[i] != cpu {
            return Ok(i);
        }
        i = i + 1;
    }
    Err(SetupError::NoSuitableDevice)
}

/// Picks the first queue family whose raw `QueueFlags` include graphics.
pub fn find_graphics_queue_family(queue_flags: &[u32]) -> (r: Result<u32, SetupError>)
    requires
        queue_flags@.len() <= u32::MAX,
    ensures
        r matches Ok(i) ==> {
            &&& i < queue_flags@.len()
            &&& has_flags(queue_flags@[i as int], 1)
            &&& forall|j: int| 0 <= j < i ==> !has_flags(#[trigger] queue_flags@[j], 1)
        },
        r is Err <==> forall|j: int|
            0 <= j < queue_flags@.len() ==> !has_flags(#[trigger] queue_flags@[j], 1),
        r is Err ==> r == Err::<u32, SetupError>(SetupError::NoGraphicsQueueFamily),
        r matches Ok(i) ==> queue_flags@[i as int] % 2 == 1,
        r matches Ok(i) ==> forall|j: int| 0 <= j < i ==> #[trigger] queue_flags@[j] % 2 == 0,
        r is Err <==> forall|j: int| 0 <= j < queue_flags@.len() ==> #[trigger] queue_flags@[j] % 2 == 0,
{
    proof {
        assert forall|f: u32| #[trigger] has_flags(f, 1) <==> f % 2 == 1 by {
            lemma_has_flags_only_mask_bits(f, 0, 1);
        }
    }
    let graphics: u32 = graphics_queue_flag();
    let mut i: usize = 0;
    while i < queue_flags.len()
        invariant
            graphics == 1,
            forall|f: u32| #[trigger] has_flags(f, 1) <==> f % 2 == 1,
            i <= queue_flags@.len() <= u32::MAX,
            forall|j: int| 0 <= j < i ==> !has_flags(#[trigger] queue_flags@[j], 1),
        decreases queue_flags@.len() - i,
    {
        if queue_flags[i] & graphics == graphics {
            return Ok(i as u32);
        }
        i = i + 1;
    }
    Err(SetupError::NoGraphicsQueueFamily)
}

/// Whether a buffer created with the raw `BufferUsageFlags` `usages` gets a
/// device address: when the usages include `SHADER_DEVICE_ADDRESS`.
pub fn wants_device_address(usages: u32) -> (r: bool)
    ensures
        r == has_flags(usages, 0x2_0000),
{
    let flag: u32 = shader_device_address_usage();
    usages & flag == flag
}

} // verus!
