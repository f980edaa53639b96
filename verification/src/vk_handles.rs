//! Vulkan handle types that the library carries through without looking inside.

use vstd::prelude::*;

verus! {

#[verifier::external_type_specification]
#[verifier::external_body]
pub struct ExVkBuffer(ash::vk::Buffer);

#[verifier::external_type_specification]
#[verifier::external_body]
pub struct ExVkImage(ash::vk::Image);

#[verifier::external_type_specification]
#[verifier::external_body]
pub struct ExVkImageView(ash::vk::ImageView);

#[verifier::external_type_specification]
#[verifier::external_body]
pub struct ExVkSemaphore(ash::vk::Semaphore);

} // verus!
