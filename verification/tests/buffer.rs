use tensorsludge::buffer::{
    allocation_sizes, buffer_request, buffer_size, MemoryPreference, BATCHES, ELEMENT_SIZE,
    HIDDEN_L1, IMG_SIZE, IMG_WIDTH,
};
use tensorsludge::vulkan::{
    SHARING_MODE_EXCLUSIVE, STORAGE_BUFFER_BIT, TRANSFER_DST_BIT, TRANSFER_SRC_BIT,
};

#[test]
fn workload_constants() {
    assert_eq!(IMG_WIDTH, 28);
    assert_eq!(IMG_SIZE, 784);
    assert_eq!(HIDDEN_L1, 128);
    assert_eq!(BATCHES, 50);
    assert_eq!(ELEMENT_SIZE, 4);
}

#[test]
fn buffer_size_is_the_product_of_the_constants() {
    assert_eq!(buffer_size(), 20_070_400);
    assert_eq!(buffer_size(), BATCHES * IMG_WIDTH * IMG_WIDTH * HIDDEN_L1 * 4);
    assert_eq!(buffer_size(), 50 * 784 * 128 * 4);
}

#[test]
fn no_extra_argument_plans_one_double_buffer() {
    assert_eq!(allocation_sizes(1), vec![40_140_800]);
    assert_eq!(allocation_sizes(1), vec![2 * buffer_size()]);
}

#[test]
fn no_token_at_all_plans_one_double_buffer() {
    assert_eq!(allocation_sizes(0), vec![40_140_800]);
}

#[test]
fn one_extra_argument_plans_two_buffers() {
    assert_eq!(allocation_sizes(2), vec![20_070_400, 20_070_400]);
}

#[test]
fn many_extra_arguments_plan_two_buffers() {
    assert_eq!(allocation_sizes(3), vec![buffer_size(), buffer_size()]);
    assert_eq!(allocation_sizes(usize::MAX), vec![20_070_400, 20_070_400]);
}

#[test]
fn buffer_request_describes_a_storage_buffer() {
    let request = buffer_request(4096);
    assert_eq!(request.size, 4096);
    assert_eq!(request.usage, 35);
    assert_eq!(request.usage, STORAGE_BUFFER_BIT | TRANSFER_SRC_BIT | TRANSFER_DST_BIT);
    assert_eq!(request.sharing_mode, SHARING_MODE_EXCLUSIVE);
    assert_eq!(request.memory, MemoryPreference::GpuOnly);
}

#[test]
fn buffer_request_keeps_any_size() {
    assert_eq!(buffer_request(0).size, 0);
    assert_eq!(buffer_request(u64::MAX).size, u64::MAX);
    assert_eq!(buffer_request(0), buffer_request(0));
    assert_ne!(buffer_request(1), buffer_request(2));
}

#[test]
fn buffer_request_agrees_with_the_bindings() {
    let usage = erupt::vk1_0::BufferUsageFlags::STORAGE_BUFFER
        | erupt::vk1_0::BufferUsageFlags::TRANSFER_SRC
        | erupt::vk1_0::BufferUsageFlags::TRANSFER_DST;
    let request = buffer_request(buffer_size());
    assert_eq!(erupt::vk1_0::BufferUsageFlags::from_bits(request.usage), Some(usage));
    assert_eq!(
        erupt::vk1_0::SharingMode(request.sharing_mode),
        erupt::vk1_0::SharingMode::EXCLUSIVE
    );
}
