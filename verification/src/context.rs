//! The decisions made while setting up a Vulkan context: validation layers,
//! portability on macOS, which physical device to use, whether it has the
//! required extensions, and which queue families the logical device needs.

use vstd::prelude::*;

verus! {

/// Why a Vulkan context could not be set up.
#[derive(Debug, Clone, Copy, PartialEq, Eq, Structural)]
pub enum ContextError {
    /// Validation was asked for, but the validation layer is not installed.
    ValidationLayerUnavailable,
    /// No physical device passed the compatibility checks.
    NoCompatibleDevice,
    /// The device lacks a required extension.
    MissingDeviceExtensions,
    /// The device offers no surface format or no present mode.
    InsufficientSwapchainSupport,
}

impl ContextError {
    /// The message that reports the error.
    pub fn message(&self) -> (text: &'static str)
        ensures
            *self == ContextError::ValidationLayerUnavailable ==> text@ == "Validation layer requested but not supported."@,
            *self == ContextError::NoCompatibleDevice ==> text@ == "Failed to find compatible physical device"@,
            *self == ContextError::MissingDeviceExtensions ==> text@ == "Missing required queue family extensions."@,
            *self == ContextError::InsufficientSwapchainSupport ==> text@ == "Insufficient swapchain support."@,
    {
        match self {
            ContextError::ValidationLayerUnavailable => "Validation layer requested but not supported.",
            ContextError::NoCompatibleDevice => "Failed to find compatible physical device",
            ContextError::MissingDeviceExtensions => "Missing required queue family extensions.",
            ContextError::InsufficientSwapchainSupport => "Insufficient swapchain support.",
        }
    }
}

/// Whether `names` holds `name`.
pub open spec fn names_contain(names: Seq<Vec<u8>>, name: Seq<u8>) -> bool {
    exists|i: int| 0 <= i < names.len() && #[trigger] names[i]@ == name
}

/// Whether two names are the same bytes.
fn same_name(a: &[u8], b: &[u8]) -> (same: bool)
    ensures
        same == (a@ == b@),
{
    if a.len() != b.len() {
        return false;
    }
    let mut i: usize = 0;
    while i < a.len()
        invariant
            a@.len() == b@.len(),
            0 <= i <= a@.len(),
            forall|j: int| 0 <= j < i ==> a@[j] == b@[j],
        decreases a@.len() - i,
    {
        if a[i] != b[i] {
            return false;
        }
        i = i + 1;
    }
    assert(a@ =~= b@);
    true
}

/// Whether the list of names holds `name`.
pub fn contains_name(names: &[Vec<u8>], name: &[u8]) -> (found: bool)
    ensures
        found == names_contain(names@, name@),
{
    let mut i: usize = 0;
    while i < names.len()
        invariant
            0 <= i <= names@.len(),
            forall|j: int| 0 <= j < i ==> #[trigger] names@[j]@ != name@,
        decreases names@.len() - i,
    {
        if same_name(names[i].as_slice(), name) {
            return true;
        }
        i = i + 1;
    }
    false
}

/// Decides whether the validation layer is enabled: it is when validation is
/// asked for and the layer is among the available ones; asking for it when it
/// is not available is an error.
pub fn validation_layers(
    validation_enabled: bool,
    available_layers: &[Vec<u8>],
    validation_layer: &[u8],
) -> (result: Result<bool, ContextError>)
    ensures
        !validation_enabled ==> result == Ok::<bool, ContextError>(false),
        validation_enabled && names_contain(available_layers@, validation_layer@) ==> result == Ok::<bool, ContextError>(true),
        validation_enabled && !names_contain(available_layers@, validation_layer@)
            ==> result == Err::<bool, ContextError>(ContextError::ValidationLayerUnavailable),
{
    if validation_enabled {
        if !contains_name(available_layers, validation_layer) {
            return Err(ContextError::ValidationLayerUnavailable);
        }
        return Ok(true);
    }
    Ok(false)
}

/// Whether every required extension is among the available ones.
pub open spec fn all_extensions_available(available: Seq<Vec<u8>>, required: Seq<Vec<u8>>) -> bool {
    forall|j: int| 0 <= j < required.len() ==> names_contain(available, #[trigger] required[j]@)
}

/// Checks that a device offers every required extension.
pub fn check_device_extensions(available: &[Vec<u8>], required: &[Vec<u8>]) -> (result: Result<(), ContextError>)
    ensures
        result is Ok <==> all_extensions_available(available@, required@),
        result is Err ==> result == Err::<(), ContextError>(ContextError::MissingDeviceExtensions),
{
    let mut j: usize = 0;
    while j < required.len()
        invariant
            0 <= j <= required@.len(),
            forall|k: int| 0 <= k < j ==> names_contain(available@, #[trigger] required@[k]@),
        decreases required@.len() - j,
    {
        if !contains_name(available, required[j].as_slice()) {
            return Err(ContextError::MissingDeviceExtensions);
        }
        j = j + 1;
    }
    Ok(())
}

/// Whether a compatibility check could have rejected `device`.
pub open spec fn rejected<D, C, E>(check: C, device: D) -> bool
    where C: Fn(D) -> Result<(), E>
{
    exists|e: E| call_ensures(check, (device,), Err::<(), E>(e))
}

/// Picks the first device, in the order given, that passes `check`. Devices
/// after it are not checked.
pub fn pick_physical_device<D, C, E>(devices: &[D], check: C) -> (result: Result<D, ContextError>)
    where D: Copy, C: Fn(D) -> Result<(), E>
    requires
        forall|d: D| call_requires(check, (d,)),
    ensures
        result matches Ok(device) ==> exists|i: int| {
            &&& 0 <= i < devices@.len()
            &&& devices@[i] == device
            &&& call_ensures(check, (device,), Ok::<(), E>(()))
            &&& forall|j: int| 0 <= j < i ==> rejected(check, #[trigger] devices@[j])
        },
        result is Err ==> {
            &&& result == Err::<D, ContextError>(ContextError::NoCompatibleDevice)
            &&& forall|j: int| 0 <= j < devices@.len() ==> rejected(check, #[trigger] devices@[j])
        },
{
    let mut i: usize = 0;
    while i < devices.len()
        invariant
            forall|d: D| call_requires(check, (d,)),
            0 <= i <= devices@.len(),
            forall|j: int| 0 <= j < i ==> rejected(check, #[trigger] devices@[j]),
        decreases devices@.len() - i,
    {
        let device = devices[i];
        let checked = check(device);
        match checked {
            Ok(unit) => {
                assert(unit == ());
                assert(devices@[i as int] == device);
                return Ok(device);
            },
            Err(e) => {
                assert(rejected(check, devices@[i as int]));
            },
        }
        i = i + 1;
    }
    Err(ContextError::NoCompatibleDevice)
}

/// The queue families the logical device needs queues from: graphics,
/// present and transfer, each named once.
pub fn unique_queue_families(graphics: u32, present: u32, transfer: u32) -> (families: Vec<u32>)
    ensures
        families@.to_set() == set![graphics, present, transfer],
        families@.no_duplicates(),
{
    let mut families: Vec<u32> = Vec::new();
    families.push(graphics);
    if present != graphics {
        families.push(present);
    }
    if transfer != graphics && transfer != present {
        families.push(transfer);
    }
    proof {
        let s = families@;
        assert(s.contains(graphics)) by { assert(s[0] == graphics); }
        assert(s.contains(present)) by {
            if present != graphics { assert(s[1] == present); }
        }
        assert(s.contains(transfer)) by {
            if transfer == graphics {
            } else if transfer == present {
            } else {
                assert(s[s.len() - 1] == transfer);
            }
        }
        assert forall|x: u32| s.contains(x) implies (x == graphics || x == present || x == transfer) by {
            let k = choose|k: int| 0 <= k < s.len() && s[k] == x;
        }
        assert(s.to_set() =~= set![graphics, present, transfer]);
    }
    families
}

/// A Vulkan version, ordered by major, then minor, then patch number.
#[derive(Debug, Clone, Copy, PartialEq, Eq, Structural)]
pub struct ApiVersion {
    pub major: u32,
    pub minor: u32,
    pub patch: u32,
}

/// Whether `version` is at least `minimum`, comparing major, minor and patch
/// numbers in that order.
pub open spec fn version_at_least(version: ApiVersion, minimum: ApiVersion) -> bool {
    version.major > minimum.major
        || (version.major == minimum.major && version.minor > minimum.minor)
        || (version.major == minimum.major && version.minor == minimum.minor && version.patch >= minimum.patch)
}

/// A version as one number, major above minor above patch.
pub open spec fn version_rank(version: ApiVersion) -> int {
    version.major * 0x1_0000_0000_0000_0000 + version.minor * 0x1_0000_0000 + version.patch
}

/// `version_at_least` is the order of versions by major, then minor, then
/// patch number: the order of their ranks. So a newer minor version is newer
/// whatever the patch numbers, and the order is total and transitive.
pub proof fn lemma_version_order(a: ApiVersion, b: ApiVersion, c: ApiVersion)
    ensures
        version_at_least(a, b) <==> version_rank(a) >= version_rank(b),
        version_at_least(a, a),
        version_at_least(a, b) || version_at_least(b, a),
        version_at_least(a, b) && version_at_least(b, a) ==> a == b,
        version_at_least(a, b) && version_at_least(b, c) ==> version_at_least(a, c),
        a.major > b.major ==> version_at_least(a, b),
        a.major == b.major && a.minor > b.minor ==> version_at_least(a, b),
        a.major == b.major && a.minor == b.minor ==> (version_at_least(a, b) <==> a.patch >= b.patch),
{
}

/// Whether the instance must enable the portability extensions: on macOS,
/// with a loader at least as new as `minimum`. The loader's version is only
/// asked for on macOS, so it is passed as a callback.
pub fn needs_portability<L, E>(is_macos: bool, loader_version: L, minimum: ApiVersion) -> (result: Result<bool, E>)
    where L: FnOnce() -> Result<ApiVersion, E>
    requires
        call_requires(loader_version, ()),
    ensures
        !is_macos ==> result == Ok::<bool, E>(false),
        is_macos ==> match result {
            Ok(needed) => exists|v: ApiVersion| call_ensures(loader_version, (), Ok::<ApiVersion, E>(v))
                && needed == version_at_least(v, minimum),
            Err(e) => call_ensures(loader_version, (), Err::<ApiVersion, E>(e)),
        },
{
    if !is_macos {
        return Ok(false);
    }
    match loader_version() {
        Ok(version) => {
            let needed = version.major > minimum.major
                || (version.major == minimum.major && version.minor > minimum.minor)
                || (version.major == minimum.major && version.minor == minimum.minor && version.patch >= minimum.patch);
            assert(call_ensures(loader_version, (), Ok::<ApiVersion, E>(version)) && needed == version_at_least(version, minimum));
            Ok(needed)
        },
        Err(e) => Err(e),
    }
}

} // verus!
