//! Error values reported by the graphics side of the library.
use vstd::prelude::*;

verus! {

/// Category of a library error, with the diagnostic text where one applies.
#[derive(Debug, Clone, PartialEq, Eq)]
pub enum VMNLErrorKind {
    /// An argument or a state was rejected; the text says why.
    InvalidState(String),
    /// GLFW could not be initialized.
    GlfwInitFailed,
    /// The platform does not provide what GLFW needs.
    GlfwUnsupportedPlatform,
    /// GLFW reported a version mismatch.
    GlfwVersionMismatch,
    /// GLFW reported a platform error.
    GlfwPlatformError,
    /// GLFW could not create or find a context.
    GlfwContextCreationFailed,
    /// Any other GLFW error.
    GlfwUnknownError,
    /// The Vulkan library or instance could not be initialized.
    VulkanInitFailed,
    /// No device or queue offers a required feature.
    VulkanUnsupportedFeature,
    /// A required Vulkan extension is missing.
    VulkanExtensionNotPresent,
    /// An unexpected Vulkan failure.
    VulkanUnknownError,
    /// Vulkan validation rejected a request.
    VulkanValidationFailed,
    /// A shader failed to compile.
    VulkanShaderCompilationFailed,
    /// A shader module could not be created.
    VulkanShaderModuleCreationFailed,
    /// A pipeline layout could not be created.
    VulkanPipelineLayoutCreationFailed,
    /// A graphics pipeline could not be created.
    VulkanPipelineCreationFailed,
    /// A render pass or subpass could not be created.
    VulkanRenderPassCreationFailed,
    /// A descriptor set could not be created.
    VulkanDescriptorSetCreationFailed,
    /// A vertex buffer could not be created.
    VulkanVertexBufferCreationFailed,
    /// An index buffer could not be created.
    VulkanIndexBufferCreationFailed,
    /// A uniform buffer could not be created.
    VulkanFrameUboBufferCreationFailed,
}

/// A library error.
#[derive(Debug, Clone, PartialEq, Eq)]
pub struct VMNLError {
    /// What went wrong.
    pub kind: VMNLErrorKind,
}

/// Result type of the graphics side of the library.
pub type VMNLResult<T> = Result<T, VMNLError>;

impl VMNLError {
    /// Wrap an error kind.
    pub fn new(kind: VMNLErrorKind) -> (e: Self)
        ensures
            e.kind == kind,
    {
        VMNLError { kind }
    }

    /// The category of this error.
    pub fn kind(&self) -> (k: &VMNLErrorKind)
        ensures
            *k == self.kind,
    {
        &self.kind
    }
}

/// True when `r` failed with `InvalidState` and exactly the text `msg`.
pub open spec fn is_invalid_state<T>(r: VMNLResult<T>, msg: Seq<char>) -> bool {
    r matches Err(e) && e.kind matches VMNLErrorKind::InvalidState(m) && m@ == msg
}

/// An `InvalidState` error with the given text.
pub fn invalid_state(message: String) -> (e: VMNLError)
    ensures
        e.kind == VMNLErrorKind::InvalidState(message),
{
    VMNLError::new(VMNLErrorKind::InvalidState(message))
}

/// An `InvalidState` error whose text is the given literal.
pub fn invalid_state_text(message: &str) -> (e: VMNLError)
    ensures
        e.kind matches VMNLErrorKind::InvalidState(m) && m@ == message@,
{
    invalid_state(String::from_str(message))
}

} // verus!
