# minmetal

A small binding to Apple's Metal API. The verified library (`src/`) holds
what can be stated and proved without the Objective-C runtime:

- `types`, `io`, `device`, `capture`, `counters`, `sparse`, `raytracing`,
  `stitching`: value types, the enumerations Metal takes by raw value with
  their raw-value tables and decoders, and the bit sets of options;
- `report`: how values and failures reported by Metal become results and
  error messages;
- `compression`: the lifecycle of an IO compression context;
- `resource`: layout rules of texture descriptors;
- `text`, `error`: message texts and the error type.

`app/` holds Objective-C wrappers for part of the API: devices, command
queues and buffers, libraries, buffers and textures, render and compute pass
descriptors, blit encoding, IO, captures, counters, sparse textures and ray
tracing. They take the library's value types, raw values, decoders and error
texts; the null checks on what Metal returns, the fallback names of unnamed
objects and the class checks of `CaptureManager::shared` stay with the
wrappers. Render pipelines, render and compute encoders, indirect command
buffers, rasterization-rate maps, residency sets, function stitching, Metal
layers, heaps, samplers, depth-stencil states, argument encoders and binary
archives have no wrappers here. `tests/` exercises the library.
