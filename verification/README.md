# re_renderer

Two passes of a renderer, verified with Verus: screen-space ambient occlusion
(`occlusion`) and the stroking of mesh edges and vertices
(`mesh_element_renderer`).

The passes do not touch the GPU. They ask a `RenderContext` for textures,
buffers, bind groups and pipelines, and record what they draw in a
`CommandEncoder`. Both are plain data, so the contracts say exactly what is asked
for and what is drawn.

- `gpu_types`, `handles`, `inline_vec`: the values that requests are made of.
- `resources`: the requests, and when they can be served one after the other.
- `commands`: the passes, and what is drawn in them.
- `bytes`, `uniforms`: what the shaders read, byte for byte.
- `occlusion`, `occlusion_laws`: the occlusion passes, and what holds of them.
- `mesh_element_renderer`, `mesh_element_laws`: the mesh elements, likewise.

Floats are held by their bits. `app/` computes with them, and serves the requests
and records the passes on a `wgpu` device.
