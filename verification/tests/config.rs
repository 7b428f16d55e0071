use tensorsludge::config::{
    device_request, instance_request, ApplicationInfo, Extension, Layer, LayerConfig,
};

#[test]
fn layer_and_extension_names() {
    assert_eq!(Layer::KhronosValidation.name(), "VK_LAYER_KHRONOS_validation");
    assert_eq!(Extension::DebugUtils.name(), "VK_EXT_debug_utils");
}

#[test]
fn debug_build_validates_on_instance_and_device() {
    let config = LayerConfig::resolve(true);
    assert_eq!(config.instance_layers, vec![Layer::KhronosValidation]);
    assert_eq!(config.instance_extensions, vec![Extension::DebugUtils]);
    assert_eq!(config.device_layers, vec![Layer::KhronosValidation]);
    assert!(config.device_extensions.is_empty());
}

#[test]
fn release_build_enables_nothing() {
    let config = LayerConfig::resolve(false);
    assert!(config.instance_layers.is_empty());
    assert!(config.instance_extensions.is_empty());
    assert!(config.device_layers.is_empty());
    assert!(config.device_extensions.is_empty());
}

#[test]
fn workload_identity() {
    let info = ApplicationInfo::workload();
    assert_eq!(info.application_name, "TensorSludge");
    assert_eq!(info.engine_name, "TensorSludge");
    assert_eq!(info.application_version, 1 << 22);
    assert_eq!(info.engine_version, 4_194_304);
    assert_eq!(info.api_version, 4_194_304);
}

#[test]
fn workload_version_agrees_with_the_bindings() {
    let info = ApplicationInfo::workload();
    assert_eq!(info.api_version, erupt::vk1_0::make_version(1, 0, 0));
    assert_eq!(erupt::vk1_0::version_major(info.api_version), 1);
    assert_eq!(erupt::vk1_0::version_minor(info.api_version), 0);
    assert_eq!(erupt::vk1_0::version_patch(info.api_version), 0);
}

#[test]
fn instance_request_in_debug() {
    let request = instance_request(true);
    assert_eq!(request.application.application_name, "TensorSludge");
    assert_eq!(request.application.api_version, 4_194_304);
    assert_eq!(request.layers, vec![Layer::KhronosValidation]);
    assert_eq!(request.extensions, vec![Extension::DebugUtils]);
}

#[test]
fn instance_request_in_release() {
    let request = instance_request(false);
    assert_eq!(request.application.engine_name, "TensorSludge");
    assert!(request.layers.is_empty());
    assert!(request.extensions.is_empty());
}

#[test]
fn device_request_in_debug() {
    let request = device_request(true, 3, 7);
    assert_eq!(request.physical_device, 3);
    assert_eq!(request.queue_family_index, 7);
    assert_eq!(request.queue_count, 1);
    assert_eq!(request.layers, vec![Layer::KhronosValidation]);
    assert!(request.extensions.is_empty());
}

#[test]
fn device_request_in_release() {
    let request = device_request(false, 0, 0);
    assert_eq!(request.physical_device, 0);
    assert_eq!(request.queue_family_index, 0);
    assert_eq!(request.queue_count, 1);
    assert!(request.layers.is_empty());
    assert!(request.extensions.is_empty());
}
