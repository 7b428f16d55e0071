//! What is requested of the driver when the instance and the logical device
//! are created: the application's identity, and the layers and extensions
//! that the build configuration calls for.

use vstd::prelude::*;
use crate::vulkan::{make_version, packed_version};

verus! {

/// A driver layer that this library knows how to ask for.
#[derive(Clone, Copy, Debug, PartialEq, Eq, Structural)]
pub enum Layer {
    /// The Khronos validation layer.
    KhronosValidation,
}

/// A driver extension that this library knows how to ask for.
#[derive(Clone, Copy, Debug, PartialEq, Eq, Structural)]
pub enum Extension {
    /// Debug messengers and object naming.
    DebugUtils,
}

impl Layer {
    /// The name under which the driver knows the layer.
    pub open spec fn spec_name(self) -> Seq<char> {
        match self {
            Layer::KhronosValidation => "VK_LAYER_KHRONOS_validation"@,
        }
    }

    /// The name under which the driver knows the layer.
    pub fn name(self) -> (name: &'static str)
        ensures
            name@ == self.spec_name(),
    {
        match self {
            Layer::KhronosValidation => "VK_LAYER_KHRONOS_validation",
        }
    }
}

impl Extension {
    /// The name under which the driver knows the extension.
    pub open spec fn spec_name(self) -> Seq<char> {
        match self {
            Extension::DebugUtils => "VK_EXT_debug_utils"@,
        }
    }

    /// The name under which the driver knows the extension.
    pub fn name(self) -> (name: &'static str)
        ensures
            name@ == self.spec_name(),
    {
        match self {
            Extension::DebugUtils => "VK_EXT_debug_utils",
        }
    }
}

/// The layers and extensions to enable, resolved once from the build
/// configuration.
#[derive(Debug)]
pub struct LayerConfig {
    /// Layers enabled on the instance.
    pub instance_layers: Vec<Layer>,
    /// Extensions enabled on the instance.
    pub instance_extensions: Vec<Extension>,
    /// Layers enabled on the logical device.
    pub device_layers: Vec<Layer>,
    /// Extensions enabled on the logical device.
    pub device_extensions: Vec<Extension>,
}

/// The layers that a build asks for, on the instance and on the device
/// alike: validation in a debug build, none otherwise.
pub open spec fn layers_for(debug: bool) -> Seq<Layer> {
    if debug {
        seq![Layer::KhronosValidation]
    } else {
        Seq::empty()
    }
}

/// The instance extensions that a build asks for: debug utilities in a
/// debug build, none otherwise.
pub open spec fn instance_extensions_for(debug: bool) -> Seq<Extension> {
    if debug {
        seq![Extension::DebugUtils]
    } else {
        Seq::empty()
    }
}

impl LayerConfig {
    /// Whether this is the configuration of a debug build (`debug`) or of a
    /// release build.
    pub open spec fn is_for(&self, debug: bool) -> bool {
        &&& self.instance_layers@ == layers_for(debug)
        &&& self.instance_extensions@ == instance_extensions_for(debug)
        &&& self.device_layers@ == layers_for(debug)
        &&& self.device_extensions@ == Seq::<Extension>::empty()
    }

    /// Resolves the configuration of a build. A debug build validates on
    /// the instance and on the device and enables debug utilities on the
    /// instance; a release build enables nothing.
    pub fn resolve(debug: bool) -> (config: LayerConfig)
        ensures
            config.is_for(debug),
            debug ==> config.instance_layers@.contains(Layer::KhronosValidation)
                && config.device_layers@.contains(Layer::KhronosValidation),
            !debug ==> !config.instance_layers@.contains(Layer::KhronosValidation)
                && !config.device_layers@.contains(Layer::KhronosValidation),
    {
        let mut instance_layers: Vec<Layer> = Vec::new();
        let mut instance_extensions: Vec<Extension> = Vec::new();
        let mut device_layers: Vec<Layer> = Vec::new();
        let device_extensions: Vec<Extension> = Vec::new();
        if debug {
            instance_extensions.push(Extension::DebugUtils);
            instance_layers.push(Layer::KhronosValidation);
            device_layers.push(Layer::KhronosValidation);
        }
        proof {
            assert(instance_layers@ =~= layers_for(debug));
            assert(instance_extensions@ =~= instance_extensions_for(debug));
            assert(device_layers@ =~= layers_for(debug));
            lemma_validation_iff_debug(debug);
        }
        LayerConfig { instance_layers, instance_extensions, device_layers, device_extensions }
    }
}

/// The layers of a build include validation exactly when the build is a
/// debug build.
pub proof fn lemma_validation_iff_debug(debug: bool)
    ensures
        layers_for(debug).contains(Layer::KhronosValidation) <==> debug,
{
    if debug {
        assert(layers_for(debug)[0] == Layer::KhronosValidation);
    }
}

/// The name that the application and its engine go by.
pub open spec fn spec_application_name() -> Seq<char> {
    "TensorSludge"@
}

/// The major, minor and patch parts of every version that is announced.
pub const VERSION_MAJOR: u32 = 1;
pub const VERSION_MINOR: u32 = 0;
pub const VERSION_PATCH: u32 = 0;

/// How the application introduces itself to the driver.
#[derive(Clone, Copy, Debug)]
pub struct ApplicationInfo {
    /// Name of the application.
    pub application_name: &'static str,
    /// Packed version of the application.
    pub application_version: u32,
    /// Name of the engine.
    pub engine_name: &'static str,
    /// Packed version of the engine.
    pub engine_version: u32,
    /// Packed version of the driver interface that is asked for.
    pub api_version: u32,
}

impl ApplicationInfo {
    /// Whether this is the identity under which the workload runs: one name
    /// for application and engine, and version 1.0.0 throughout.
    pub open spec fn is_workload(&self) -> bool {
        &&& self.application_name@ == spec_application_name()
        &&& self.engine_name@ == spec_application_name()
        &&& self.application_version == packed_version(VERSION_MAJOR, VERSION_MINOR, VERSION_PATCH)
        &&& self.engine_version == packed_version(VERSION_MAJOR, VERSION_MINOR, VERSION_PATCH)
        &&& self.api_version == packed_version(VERSION_MAJOR, VERSION_MINOR, VERSION_PATCH)
    }

    /// The identity under which the workload runs.
    pub fn workload() -> (info: ApplicationInfo)
        ensures
            info.is_workload(),
            info.api_version == 0x40_0000,
    {
        let version: u32 = make_version(VERSION_MAJOR, VERSION_MINOR, VERSION_PATCH);
        assert((1u32 << 22) | (0u32 << 12) | 0u32 == 0x40_0000u32) by (bit_vector);
        ApplicationInfo {
            application_name: "TensorSludge",
            application_version: version,
            engine_name: "TensorSludge",
            engine_version: version,
            api_version: version,
        }
    }
}

/// What is asked of the driver when the instance is created.
#[derive(Debug)]
pub struct InstanceRequest {
    /// The application's identity.
    pub application: ApplicationInfo,
    /// Layers to enable.
    pub layers: Vec<Layer>,
    /// Extensions to enable.
    pub extensions: Vec<Extension>,
}

/// What is asked of the driver when the logical device is created.
#[derive(Debug)]
pub struct DeviceRequest {
    /// Position of the physical device in the enumeration.
    pub physical_device: usize,
    /// The queue family to create queues from.
    pub queue_family_index: u32,
    /// How many queues to create, each at full priority.
    pub queue_count: u32,
    /// Layers to enable.
    pub layers: Vec<Layer>,
    /// Extensions to enable.
    pub extensions: Vec<Extension>,
}

impl InstanceRequest {
    /// Whether this is the instance request of a debug build (`debug`) or
    /// of a release build.
    pub open spec fn is_for(&self, debug: bool) -> bool {
        &&& self.application.is_workload()
        &&& self.layers@ == layers_for(debug)
        &&& self.extensions@ == instance_extensions_for(debug)
    }
}

impl DeviceRequest {
    /// Whether this is the device request of a debug build (`debug`) or of
    /// a release build, for the given device and queue family.
    pub open spec fn is_for(
        &self,
        debug: bool,
        physical_device: usize,
        queue_family_index: u32,
    ) -> bool {
        &&& self.physical_device == physical_device
        &&& self.queue_family_index == queue_family_index
        &&& self.queue_count == 1
        &&& self.layers@ == layers_for(debug)
        &&& self.extensions@ == Seq::<Extension>::empty()
    }
}

/// In a debug build both the instance request and the device request name
/// the validation layer; in a release build neither does.
pub proof fn lemma_requests_validate_iff_debug(
    debug: bool,
    instance: InstanceRequest,
    device: DeviceRequest,
    physical_device: usize,
    queue_family_index: u32,
)
    requires
        instance.is_for(debug),
        device.is_for(debug, physical_device, queue_family_index),
    ensures
        instance.layers@.contains(Layer::KhronosValidation) <==> debug,
        device.layers@.contains(Layer::KhronosValidation) <==> debug,
{
    lemma_validation_iff_debug(debug);
}

/// Builds the instance request of a build: the workload's identity with the
/// build's instance layers and extensions.
pub fn instance_request(debug: bool) -> (request: InstanceRequest)
    ensures
        request.is_for(debug),
{
    let config = LayerConfig::resolve(debug);
    InstanceRequest {
        application: ApplicationInfo::workload(),
        layers: config.instance_layers,
        extensions: config.instance_extensions,
    }
}

/// Builds the device request of a build: one queue of the chosen family on
/// the chosen device, with the build's device layers and no extensions.
pub fn device_request(
    debug: bool,
    physical_device: usize,
    queue_family_index: u32,
) -> (request: DeviceRequest)
    ensures
        request.is_for(debug, physical_device, queue_family_index),
{
    let config = LayerConfig::resolve(debug);
    DeviceRequest {
        physical_device,
        queue_family_index,
        queue_count: 1,
        layers: config.device_layers,
        extensions: config.device_extensions,
    }
}

} // verus!
