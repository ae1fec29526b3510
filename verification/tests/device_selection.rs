use std::cell::RefCell;
use vulkan_render::context::{
    check_device_extensions, contains_name, needs_portability, pick_physical_device, unique_queue_families,
    validation_layers, ApiVersion, ContextError,
};
use vulkan_render::resources::{upload_size, TempBuffers};

fn names(list: &[&str]) -> Vec<Vec<u8>> {
    list.iter().map(|s| s.as_bytes().to_vec()).collect()
}

#[test]
fn validation_layer_decision() {
    let available = names(&["VK_LAYER_KHRONOS_validation", "VK_LAYER_other"]);
    assert_eq!(validation_layers(false, &[], b"VK_LAYER_KHRONOS_validation"), Ok(false));
    assert_eq!(validation_layers(true, &available, b"VK_LAYER_KHRONOS_validation"), Ok(true));
    assert_eq!(
        validation_layers(true, &names(&["VK_LAYER_other"]), b"VK_LAYER_KHRONOS_validation"),
        Err(ContextError::ValidationLayerUnavailable)
    );
    assert_eq!(
        ContextError::ValidationLayerUnavailable.message(),
        "Validation layer requested but not supported."
    );
}

#[test]
fn names_are_compared_byte_for_byte() {
    let available = names(&["abc", "abcd"]);
    assert!(contains_name(&available, b"abcd"));
    assert!(!contains_name(&available, b"ab"));
    assert!(!contains_name(&[], b""));
}

#[test]
fn every_required_extension_must_be_available() {
    let available = names(&["VK_KHR_swapchain", "VK_KHR_maintenance1"]);
    assert_eq!(check_device_extensions(&available, &names(&["VK_KHR_swapchain"])), Ok(()));
    assert_eq!(check_device_extensions(&available, &[]), Ok(()));
    assert_eq!(
        check_device_extensions(&available, &names(&["VK_KHR_swapchain", "VK_KHR_portability_subset"])),
        Err(ContextError::MissingDeviceExtensions)
    );
    assert_eq!(ContextError::MissingDeviceExtensions.message(), "Missing required queue family extensions.");
}

#[test]
fn first_compatible_device_is_picked_and_later_ones_are_not_checked() {
    let checked = RefCell::new(Vec::new());
    let picked = pick_physical_device(&[5u32, 6, 7, 8], |d| {
        checked.borrow_mut().push(d);
        if d % 2 == 0 { Ok(()) } else { Err("incompatible") }
    });
    assert_eq!(picked, Ok(6));
    assert_eq!(*checked.borrow(), vec![5, 6]);
}

#[test]
fn no_compatible_device_is_an_error() {
    let picked = pick_physical_device(&[1u32, 3], |_d| Err::<(), _>("incompatible"));
    assert_eq!(picked, Err(ContextError::NoCompatibleDevice));
    assert_eq!(ContextError::NoCompatibleDevice.message(), "Failed to find compatible physical device");
    assert_eq!(pick_physical_device(&[] as &[u32], |_d| Ok::<(), ()>(())), Err(ContextError::NoCompatibleDevice));
}

#[test]
fn queue_families_are_named_once() {
    assert_eq!(unique_queue_families(0, 0, 0), vec![0]);
    assert_eq!(unique_queue_families(0, 1, 0), vec![0, 1]);
    assert_eq!(unique_queue_families(0, 1, 1), vec![0, 1]);
    assert_eq!(unique_queue_families(2, 2, 1), vec![2, 1]);
    assert_eq!(unique_queue_families(0, 1, 2), vec![0, 1, 2]);
}

#[test]
fn portability_only_on_macos_with_a_new_enough_loader() {
    let minimum = ApiVersion { major: 1, minor: 3, patch: 216 };
    let asked = RefCell::new(false);
    let r = needs_portability(false, || {
        *asked.borrow_mut() = true;
        Ok::<_, ()>(ApiVersion { major: 1, minor: 4, patch: 0 })
    }, minimum);
    assert_eq!(r, Ok(false));
    assert!(!*asked.borrow());
    assert_eq!(needs_portability(true, || Ok::<_, ()>(ApiVersion { major: 1, minor: 3, patch: 216 }), minimum), Ok(true));
    assert_eq!(needs_portability(true, || Ok::<_, ()>(ApiVersion { major: 1, minor: 3, patch: 215 }), minimum), Ok(false));
    assert_eq!(needs_portability(true, || Ok::<_, ()>(ApiVersion { major: 1, minor: 2, patch: 999 }), minimum), Ok(false));
    assert_eq!(needs_portability(true, || Ok::<_, ()>(ApiVersion { major: 2, minor: 0, patch: 0 }), minimum), Ok(true));
    assert_eq!(needs_portability(true, || Err::<ApiVersion, _>("no loader"), minimum), Err("no loader"));
}

#[test]
fn swapchain_support_message() {
    assert_eq!(ContextError::InsufficientSwapchainSupport.message(), "Insufficient swapchain support.");
}

#[test]
fn upload_size_is_element_size_times_count() {
    assert_eq!(upload_size(&[1u32, 2, 3]), 12);
    assert_eq!(upload_size(&[0u16; 5]), 10);
    assert_eq!(upload_size::<u64>(&[]), 0);
    assert_eq!(upload_size(&[[0f32; 3]; 2]), 24);
}

#[test]
fn destroying_empty_temp_buffers_destroys_nothing() {
    let mut buffers = TempBuffers { planet_vertex_buffer: None, planet_index_buffer: None };
    let count = RefCell::new(0);
    buffers.destroy(|_b| *count.borrow_mut() += 1);
    assert_eq!(*count.borrow(), 0);
    assert!(buffers.planet_vertex_buffer.is_none() && buffers.planet_index_buffer.is_none());
}
