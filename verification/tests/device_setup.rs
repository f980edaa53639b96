use render_vulkan::setup::{
    choose_physical_device, find_graphics_queue_family, wants_device_address, SetupError,
};

#[test]
fn no_devices_at_all() {
    assert_eq!(choose_physical_device(&[]), Err(SetupError::NoDevices));
}

#[test]
fn only_cpu_devices() {
    let cpu = ash::vk::PhysicalDeviceType::CPU.as_raw();
    assert_eq!(choose_physical_device(&[cpu, cpu]), Err(SetupError::NoSuitableDevice));
}

#[test]
fn first_non_cpu_device_is_chosen() {
    let cpu = ash::vk::PhysicalDeviceType::CPU.as_raw();
    let discrete = ash::vk::PhysicalDeviceType::DISCRETE_GPU.as_raw();
    let integrated = ash::vk::PhysicalDeviceType::INTEGRATED_GPU.as_raw();
    assert_eq!(choose_physical_device(&[cpu, integrated, discrete]), Ok(1));
    assert_eq!(choose_physical_device(&[discrete]), Ok(0));
}

#[test]
fn first_graphics_queue_family_is_chosen() {
    let compute = ash::vk::QueueFlags::COMPUTE.as_raw();
    let transfer = ash::vk::QueueFlags::TRANSFER.as_raw();
    let graphics = ash::vk::QueueFlags::GRAPHICS.as_raw();
    assert_eq!(
        find_graphics_queue_family(&[compute | transfer, graphics | compute, graphics]),
        Ok(1)
    );
    assert_eq!(
        find_graphics_queue_family(&[transfer, compute]),
        Err(SetupError::NoGraphicsQueueFamily)
    );
    assert_eq!(find_graphics_queue_family(&[]), Err(SetupError::NoGraphicsQueueFamily));
}

#[test]
fn device_address_only_for_shader_device_address_usage() {
    let sda = ash::vk::BufferUsageFlags::SHADER_DEVICE_ADDRESS.as_raw();
    let storage = ash::vk::BufferUsageFlags::STORAGE_BUFFER.as_raw();
    assert!(wants_device_address(sda | storage));
    assert!(!wants_device_address(storage));
    assert!(!wants_device_address(0));
}

#[test]
fn error_messages() {
    assert_eq!(SetupError::NoDevices.message(), "No Vulkan devices found");
    assert_eq!(SetupError::NoSuitableDevice.message(), "No suitable physical device found");
    assert_eq!(
        SetupError::NoGraphicsQueueFamily.message(),
        "No suitable graphics queue family found"
    );
}
