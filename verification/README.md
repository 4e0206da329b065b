# rocm_oxide_sim

A small simulation and sensor framework for synthetic RGB, depth,
segmentation and LiDAR datasets, with a GPU renderer behind an optional
backend. The core is a library verified with Verus; the programs around it
are ordinary Rust.

## Layout

- `src/` is the verified library. Every function carries a contract that
  Verus proves:
  - `scene`, `ids`, `geometry`: entities and the scene that numbers them,
    entity and object IDs, shapes, transforms and materials (generic over the
    scalar type, so no floating-point arithmetic happens here);
  - `sensors`, `metadata`: sensor configurations and rigs, and the metadata
    written next to each frame, including the object-ID table of a scene;
  - `image`, `encode`, `preview`, `text`: image buffers, the deterministic
    CPU previews, the PPM, PGM and raw `u32` file encodings, the segmentation
    colour map and RGBA previews;
  - `dataset`: the dataset layout, frame file names, the manifest and the
    writer that records which frames were written;
  - `render`: how a scene is laid out for the GPU, and the renderer's answers
    in a build without a GPU backend;
  - `viewer`: the live viewer's key handling;
  - `random`, `physics`: the SplitMix64 generator behind reproducible random
    camera paths, and the physics interface with a backend that does nothing.
- `app/` holds the three programs (`sensor_lab`, `dataset_generator`,
  `sim_viewer`) as subcommands of one binary: command-line parsing, files,
  JSON, the window, and everything that computes in floating point (camera
  paths, ray directions, depth normalisation).
- `tests/` runs the library on concrete values.
