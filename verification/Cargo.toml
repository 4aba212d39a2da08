[package]
name = "scene_engine"
version = "0.1.0"
edition = "2021"
publish = false

[dependencies]
rapier3d = "0.22"
nalgebra = "0.33"
genmesh = "0.6"
noise = "0.9"
maud = "*"
log = "0.4"
serde = { version = "1", features = ["derive"] }
console_log = "1"
console_error_panic_hook = "0.1"
gloo-utils = "0.2"
gloo-console = "0.3"
wasm-bindgen = "0.2"
wasm-bindgen-futures = "0.4"
js-sys = "0.3"
web-sys = { version = "=0.3.69", features = [
    "Blob", "Crypto", "Document", "DomStringMap",
    "Element", "Event", "EventTarget", "Gpu",
    "GpuAdapter", "GpuAddressMode", "GpuBindGroup", "GpuBindGroupDescriptor",
    "GpuBindGroupEntry", "GpuBindGroupLayout", "GpuBuffer", "GpuBufferBinding",
    "GpuBufferDescriptor", "GpuCanvasAlphaMode", "GpuCanvasConfiguration", "GpuCanvasContext",
    "GpuColorTargetState", "GpuCommandBuffer", "GpuCommandEncoder", "GpuCompareFunction",
    "GpuCullMode", "GpuDepthStencilState", "GpuDevice", "GpuFilterMode",
    "GpuFragmentState", "GpuFrontFace", "GpuImageCopyExternalImage", "GpuImageCopyTextureTagged",
    "GpuIndexFormat", "GpuLoadOp", "GpuPrimitiveState", "GpuPrimitiveTopology",
    "GpuQueue", "GpuRenderPassColorAttachment", "GpuRenderPassDepthStencilAttachment", "GpuRenderPassDescriptor",
    "GpuRenderPassEncoder", "GpuRenderPipeline", "GpuRenderPipelineDescriptor", "GpuSampler",
    "GpuSamplerDescriptor", "GpuShaderModule", "GpuShaderModuleDescriptor", "GpuStoreOp",
    "GpuTexture", "GpuTextureDescriptor", "GpuTextureDimension", "GpuTextureFormat",
    "GpuTextureView", "GpuTextureViewDescriptor", "GpuTextureViewDimension", "GpuVertexAttribute",
    "GpuVertexBufferLayout", "GpuVertexFormat", "GpuVertexState", "HtmlCanvasElement",
    "HtmlElement", "HtmlHeadElement", "HtmlStyleElement", "ImageBitmap",
    "KeyboardEvent", "MouseEvent", "Navigator", "Node",
    "NodeList", "Performance", "Response", "ShadowRoot",
    "ShadowRootInit", "ShadowRootMode", "WheelEvent", "Window",
    "gpu_buffer_usage", "gpu_texture_usage",
] }
