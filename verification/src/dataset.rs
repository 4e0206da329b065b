//! Dataset layout: per-frame file names, the manifest, and the writer that
//! records which frames were written.
//!
//! A dataset root holds one directory per output (`rgb`, `depth`,
//! `depth_preview`, `segmentation`, `segmentation_preview`, `metadata`), each
//! with one file per frame named `frame_` and the six-digit frame index, and
//! the dataset manifest.
use vstd::prelude::*;

use crate::metadata::{FrameOutputMetadata, ObjectIdMetadata};
use crate::text::{append_padded_decimal, decimal_text, lemma_padded_text_value, padded_text, text_value};

verus! {

/// Relative path of a frame's file: `{dir}/frame_{index:06}{ext}`, the index
/// padded with zeros to at least six digits.
pub open spec fn frame_file(dir: Seq<char>, frame_index: u64, ext: Seq<char>) -> Seq<char> {
    dir + "/frame_"@ + padded_text(frame_index as nat, 6) + ext
}

/// Distinct frames never share a file: the relative path of a frame's
/// output determines the frame index.
pub proof fn lemma_frame_files_distinct(dir: Seq<char>, ext: Seq<char>, a: u64, b: u64)
    requires
        a != b,
    ensures
        frame_file(dir, a, ext) != frame_file(dir, b, ext),
{
    let prefix = dir + "/frame_"@;
    let pa = padded_text(a as nat, 6);
    let pb = padded_text(b as nat, 6);
    lemma_padded_text_value(a as nat, 6);
    lemma_padded_text_value(b as nat, 6);
    if frame_file(dir, a, ext) == frame_file(dir, b, ext) {
        let fa = frame_file(dir, a, ext);
        assert(fa =~= prefix + pa + ext);
        assert(frame_file(dir, b, ext) =~= prefix + pb + ext);
        assert(pa.len() == pb.len());
        assert(pa =~= fa.subrange(prefix.len() as int, (prefix.len() + pa.len()) as int));
        assert(pb =~= frame_file(dir, b, ext).subrange(prefix.len() as int, (prefix.len() + pb.len()) as int));
    }
}

/// Width of the index in a frame file name: six characters, or more when
/// the index has more digits.
pub open spec fn index_width(frame_index: u64) -> int {
    let digits = decimal_text(frame_index as nat).len() as int;
    if digits < 6 {
        6
    } else {
        digits
    }
}

/// A frame file name is the directory, `/frame_`, the index and the
/// extension. The index part is exactly `index_width` characters: the index
/// in base ten at its end, zeros before it, so it still spells the index.
pub proof fn lemma_frame_file_layout(dir: Seq<char>, frame_index: u64, ext: Seq<char>)
    ensures
        frame_file(dir, frame_index, ext).len() == dir.len() + 7 + index_width(frame_index)
            + ext.len(),
        frame_file(dir, frame_index, ext).take(dir.len() + 7int) == dir + "/frame_"@,
        frame_file(dir, frame_index, ext).skip(dir.len() + 7 + index_width(frame_index)) == ext,
        frame_file(dir, frame_index, ext).subrange(
            dir.len() + 7 + index_width(frame_index) - decimal_text(frame_index as nat).len(),
            dir.len() + 7 + index_width(frame_index),
        ) == decimal_text(frame_index as nat),
        forall|i: int|
            dir.len() + 7 <= i < dir.len() + 7 + index_width(frame_index) - decimal_text(
                frame_index as nat,
            ).len() ==> #[trigger] frame_file(dir, frame_index, ext)[i] == '0',
        text_value(
            frame_file(dir, frame_index, ext).subrange(
                dir.len() + 7int,
                dir.len() + 7 + index_width(frame_index),
            ),
        ) == frame_index,
{
    let f = frame_file(dir, frame_index, ext);
    let d = decimal_text(frame_index as nat);
    let p = padded_text(frame_index as nat, 6);
    let prefix = dir + "/frame_"@;
    reveal_strlit("/frame_");
    lemma_padded_text_value(frame_index as nat, 6);
    assert(prefix.len() == dir.len() + 7);
    assert(f =~= prefix + p + ext);
    assert(p.len() == index_width(frame_index));
    let z = index_width(frame_index) - d.len();
    if d.len() < 6 {
        assert(p =~= Seq::new(z as nat, |i: int| '0') + d);
    } else {
        assert(p =~= d);
    }
    assert(f.take(dir.len() + 7int) =~= prefix);
    assert(f.skip(dir.len() + 7 + index_width(frame_index)) =~= ext);
    assert(f.subrange(dir.len() + 7int, dir.len() + 7 + index_width(frame_index)) =~= p);
    assert(f.subrange(dir.len() + 7 + z, dir.len() + 7 + index_width(frame_index)) =~= d);
    assert forall|i: int| dir.len() + 7 <= i < dir.len() + 7 + z implies #[trigger] f[i] == '0' by {
        assert(f[i] == p[i - dir.len() - 7]);
    }
}

fn frame_file_path(dir: &str, frame_index: u64, ext: &str) -> (path: String)
    ensures
        path@ == frame_file(dir@, frame_index, ext@),
{
    let mut path = String::from_str(dir);
    path.append("/frame_");
    append_padded_decimal(&mut path, frame_index, 6);
    path.append(ext);
    path
}

/// Relative paths of the files one frame may produce.
#[derive(Debug, Clone, PartialEq, Eq)]
pub struct FrameOutputPaths {
    pub rgb: Option<String>,
    pub depth: Option<String>,
    pub depth_preview: Option<String>,
    pub segmentation: Option<String>,
    pub segmentation_preview: Option<String>,
    pub metadata: String,
}

/// `path` is present and equal to `expected`.
pub open spec fn some_path(path: Option<String>, expected: Seq<char>) -> bool {
    path matches Some(p) && p@ == expected
}

/// The relative paths of every output of frame `frame_index`.
pub fn frame_output_paths(frame_index: u64) -> (paths: FrameOutputPaths)
    ensures
        some_path(paths.rgb, frame_file("rgb"@, frame_index, ".ppm"@)),
        some_path(paths.depth, frame_file("depth"@, frame_index, ".f32"@)),
        some_path(paths.depth_preview, frame_file("depth_preview"@, frame_index, ".pgm"@)),
        some_path(paths.segmentation, frame_file("segmentation"@, frame_index, ".u32"@)),
        some_path(
            paths.segmentation_preview,
            frame_file("segmentation_preview"@, frame_index, ".ppm"@),
        ),
        paths.metadata@ == frame_file("metadata"@, frame_index, ".json"@),
{
    FrameOutputPaths {
        rgb: Some(frame_file_path("rgb", frame_index, ".ppm")),
        depth: Some(frame_file_path("depth", frame_index, ".f32")),
        depth_preview: Some(frame_file_path("depth_preview", frame_index, ".pgm")),
        segmentation: Some(frame_file_path("segmentation", frame_index, ".u32")),
        segmentation_preview: Some(frame_file_path("segmentation_preview", frame_index, ".ppm")),
        metadata: frame_file_path("metadata", frame_index, ".json"),
    }
}

/// `m` describes output `name`, in format `format`, stored at `path`.
pub open spec fn output_entry(m: FrameOutputMetadata, name: Seq<char>, format: Seq<char>, path: Seq<char>) -> bool {
    &&& m.name@ == name
    &&& m.format@ == format
    &&& m.path@ == path
}

fn output(name: &str, format: &str, path: String) -> (m: FrameOutputMetadata)
    ensures
        output_entry(m, name@, format@, path@),
{
    FrameOutputMetadata { name: String::from_str(name), format: String::from_str(format), path }
}

/// The outputs a dataset frame lists in its metadata: the RGB image, raw and
/// preview depth, raw and preview segmentation, each at its frame path.
pub fn dataset_frame_outputs(frame_index: u64) -> (outputs: Vec<FrameOutputMetadata>)
    ensures
        outputs@.len() == 5,
        output_entry(outputs@[0], "rgb"@, "ppm"@, frame_file("rgb"@, frame_index, ".ppm"@)),
        output_entry(
            outputs@[1],
            "depth"@,
            "raw-f32-little-endian"@,
            frame_file("depth"@, frame_index, ".f32"@),
        ),
        output_entry(
            outputs@[2],
            "depth_preview"@,
            "pgm"@,
            frame_file("depth_preview"@, frame_index, ".pgm"@),
        ),
        output_entry(
            outputs@[3],
            "segmentation"@,
            "raw-u32-little-endian"@,
            frame_file("segmentation"@, frame_index, ".u32"@),
        ),
        output_entry(
            outputs@[4],
            "segmentation_preview"@,
            "ppm"@,
            frame_file("segmentation_preview"@, frame_index, ".ppm"@),
        ),
{
    let mut outputs = Vec::new();
    outputs.push(output("rgb", "ppm", frame_file_path("rgb", frame_index, ".ppm")));
    outputs.push(output("depth", "raw-f32-little-endian", frame_file_path("depth", frame_index, ".f32")));
    outputs.push(output("depth_preview", "pgm", frame_file_path("depth_preview", frame_index, ".pgm")));
    outputs.push(output("segmentation", "raw-u32-little-endian", frame_file_path("segmentation", frame_index, ".u32")));
    outputs.push(output("segmentation_preview", "ppm", frame_file_path("segmentation_preview", frame_index, ".ppm")));
    outputs
}

/// The outputs of a single sensor capture written side by side: the camera
/// outputs and, when `include_lidar` holds, the LiDAR range, points, object
/// IDs and preview.
pub fn sensor_lab_outputs(include_lidar: bool) -> (outputs: Vec<FrameOutputMetadata>)
    ensures
        outputs@.len() == if include_lidar { 9int } else { 5int },
        output_entry(outputs@[0], "rgb"@, "ppm"@, "rgb.ppm"@),
        output_entry(outputs@[1], "depth"@, "raw-f32-little-endian"@, "depth.f32"@),
        output_entry(outputs@[2], "depth_preview"@, "pgm"@, "depth_preview.pgm"@),
        output_entry(outputs@[3], "segmentation"@, "raw-u32-little-endian"@, "segmentation.u32"@),
        output_entry(outputs@[4], "segmentation_preview"@, "ppm"@, "segmentation_preview.ppm"@),
        include_lidar ==> {
            &&& output_entry(outputs@[5], "lidar_range"@, "raw-f32-little-endian"@, "lidar_range.f32"@)
            &&& output_entry(outputs@[6], "lidar_points"@, "xyz"@, "lidar_points.xyz"@)
            &&& output_entry(
                outputs@[7],
                "lidar_object_ids"@,
                "raw-u32-little-endian"@,
                "lidar_object_ids.u32"@,
            )
            &&& output_entry(outputs@[8], "lidar_preview"@, "pgm"@, "lidar_preview.pgm"@)
        },
{
    let mut outputs = Vec::new();
    outputs.push(FrameOutputMetadata::new("rgb", "ppm", "rgb.ppm"));
    outputs.push(FrameOutputMetadata::new("depth", "raw-f32-little-endian", "depth.f32"));
    outputs.push(FrameOutputMetadata::new("depth_preview", "pgm", "depth_preview.pgm"));
    outputs.push(FrameOutputMetadata::new("segmentation", "raw-u32-little-endian", "segmentation.u32"));
    outputs.push(FrameOutputMetadata::new("segmentation_preview", "ppm", "segmentation_preview.ppm"));
    if include_lidar {
        outputs.push(FrameOutputMetadata::new("lidar_range", "raw-f32-little-endian", "lidar_range.f32"));
        outputs.push(FrameOutputMetadata::new("lidar_points", "xyz", "lidar_points.xyz"));
        outputs.push(FrameOutputMetadata::new("lidar_object_ids", "raw-u32-little-endian", "lidar_object_ids.u32"));
        outputs.push(FrameOutputMetadata::new("lidar_preview", "pgm", "lidar_preview.pgm"));
    }
    outputs
}

/// One frame's entry in the dataset manifest.
#[derive(Debug, PartialEq, Eq)]
pub struct ManifestFrame {
    pub frame_index: u64,
    pub rgb: String,
    pub depth: Option<String>,
    pub depth_preview: Option<String>,
    pub segmentation: Option<String>,
    pub segmentation_preview: Option<String>,
    pub metadata: String,
}

impl Clone for ManifestFrame {
    fn clone(&self) -> (frame: ManifestFrame)
        ensures
            frame == *self,
    {
        ManifestFrame {
            frame_index: self.frame_index,
            rgb: self.rgb.clone(),
            depth: clone_path(&self.depth),
            depth_preview: clone_path(&self.depth_preview),
            segmentation: clone_path(&self.segmentation),
            segmentation_preview: clone_path(&self.segmentation_preview),
            metadata: self.metadata.clone(),
        }
    }
}

fn clone_path(path: &Option<String>) -> (copy: Option<String>)
    ensures
        copy == *path,
{
    match path {
        Some(p) => Some(p.clone()),
        None => None,
    }
}

/// The one-element list of a present path; the empty list of an absent one.
pub open spec fn listed(path: Option<String>) -> Seq<Seq<char>> {
    match path {
        Some(p) => seq![p@],
        None => Seq::empty(),
    }
}

/// The files a manifest frame names, relative to the dataset root: the RGB
/// image, then each of depth, depth preview, segmentation and segmentation
/// preview that was written, then the metadata.
pub open spec fn frame_files(frame: ManifestFrame) -> Seq<Seq<char>> {
    seq![frame.rgb@] + listed(frame.depth) + listed(frame.depth_preview) + listed(frame.segmentation)
        + listed(frame.segmentation_preview) + seq![frame.metadata@]
}

/// The text of each path in a list.
pub open spec fn path_texts(paths: Seq<String>) -> Seq<Seq<char>> {
    paths.map_values(|p: String| p@)
}

fn push_path(files: &mut Vec<String>, path: &String)
    ensures
        path_texts(final(files)@) == path_texts(old(files)@) + seq![path@],
{
    files.push(path.clone());
    assert(path_texts(files@) =~= path_texts(old(files)@) + seq![path@]);
}

fn push_listed(files: &mut Vec<String>, path: &Option<String>)
    ensures
        path_texts(final(files)@) == path_texts(old(files)@) + listed(*path),
{
    match path {
        Some(p) => push_path(files, p),
        None => {
            assert(path_texts(files@) =~= path_texts(files@) + listed(*path));
        },
    }
}

impl ManifestFrame {
    /// The files this frame names, in the order of `frame_files`.
    pub fn files(&self) -> (files: Vec<String>)
        ensures
            path_texts(files@) == frame_files(*self),
    {
        let mut files = Vec::new();
        assert(path_texts(files@) =~= Seq::<Seq<char>>::empty());
        push_path(&mut files, &self.rgb);
        push_listed(&mut files, &self.depth);
        push_listed(&mut files, &self.depth_preview);
        push_listed(&mut files, &self.segmentation);
        push_listed(&mut files, &self.segmentation_preview);
        push_path(&mut files, &self.metadata);
        assert(path_texts(files@) =~= frame_files(*self));
        files
    }
}

impl FrameOutputPaths {
    /// The manifest entry of frame `frame_index` listing these paths; an
    /// absent RGB path is recorded as the empty path.
    pub fn to_manifest_frame(&self, frame_index: u64) -> (frame: ManifestFrame)
        ensures
            frame.frame_index == frame_index,
            self.rgb matches Some(p) ==> frame.rgb == p,
            self.rgb is None ==> frame.rgb@ == Seq::<char>::empty(),
            frame.depth == self.depth,
            frame.depth_preview == self.depth_preview,
            frame.segmentation == self.segmentation,
            frame.segmentation_preview == self.segmentation_preview,
            frame.metadata == self.metadata,
    {
        ManifestFrame {
            frame_index,
            rgb: match &self.rgb {
                Some(p) => p.clone(),
                None => String::new(),
            },
            depth: clone_path(&self.depth),
            depth_preview: clone_path(&self.depth_preview),
            segmentation: clone_path(&self.segmentation),
            segmentation_preview: clone_path(&self.segmentation_preview),
            metadata: self.metadata.clone(),
        }
    }
}

/// `frame` lists every output of frame `frame_index`.
pub open spec fn full_frame(frame: ManifestFrame, frame_index: u64) -> bool {
    &&& frame.frame_index == frame_index
    &&& frame.rgb@ == frame_file("rgb"@, frame_index, ".ppm"@)
    &&& some_path(frame.depth, frame_file("depth"@, frame_index, ".f32"@))
    &&& some_path(frame.depth_preview, frame_file("depth_preview"@, frame_index, ".pgm"@))
    &&& some_path(frame.segmentation, frame_file("segmentation"@, frame_index, ".u32"@))
    &&& some_path(
        frame.segmentation_preview,
        frame_file("segmentation_preview"@, frame_index, ".ppm"@),
    )
    &&& frame.metadata@ == frame_file("metadata"@, frame_index, ".json"@)
}

/// `frame` lists the RGB image and the metadata of frame `frame_index` only.
pub open spec fn rgb_frame(frame: ManifestFrame, frame_index: u64) -> bool {
    &&& frame.frame_index == frame_index
    &&& frame.rgb@ == frame_file("rgb"@, frame_index, ".ppm"@)
    &&& frame.depth is None
    &&& frame.depth_preview is None
    &&& frame.segmentation is None
    &&& frame.segmentation_preview is None
    &&& frame.metadata@ == frame_file("metadata"@, frame_index, ".json"@)
}

/// The files a recorded frame names are the files written for it: all six
/// outputs of a frame recorded with `record_sensor_outputs`, and the RGB
/// image and metadata of one recorded with `record_rgb_frame`, in the order
/// a dataset check visits them.
pub proof fn lemma_recorded_frame_files(frame: ManifestFrame, frame_index: u64)
    ensures
        full_frame(frame, frame_index) ==> frame_files(frame) == seq![
            frame_file("rgb"@, frame_index, ".ppm"@),
            frame_file("depth"@, frame_index, ".f32"@),
            frame_file("depth_preview"@, frame_index, ".pgm"@),
            frame_file("segmentation"@, frame_index, ".u32"@),
            frame_file("segmentation_preview"@, frame_index, ".ppm"@),
            frame_file("metadata"@, frame_index, ".json"@),
        ],
        rgb_frame(frame, frame_index) ==> frame_files(frame) == seq![
            frame_file("rgb"@, frame_index, ".ppm"@),
            frame_file("metadata"@, frame_index, ".json"@),
        ],
{
    if full_frame(frame, frame_index) {
        assert(frame_files(frame) =~= seq![
            frame_file("rgb"@, frame_index, ".ppm"@),
            frame_file("depth"@, frame_index, ".f32"@),
            frame_file("depth_preview"@, frame_index, ".pgm"@),
            frame_file("segmentation"@, frame_index, ".u32"@),
            frame_file("segmentation_preview"@, frame_index, ".ppm"@),
            frame_file("metadata"@, frame_index, ".json"@),
        ]);
    }
    if rgb_frame(frame, frame_index) {
        assert(frame_files(frame) =~= seq![
            frame_file("rgb"@, frame_index, ".ppm"@),
            frame_file("metadata"@, frame_index, ".json"@),
        ]);
    }
}

/// Which outputs a dataset contains.
#[derive(Debug, Clone, Copy, PartialEq, Eq)]
pub struct OutputSelection {
    pub rgb: bool,
    pub depth: bool,
    pub depth_preview: bool,
    pub segmentation: bool,
    pub segmentation_preview: bool,
    pub metadata: bool,
}

impl OutputSelection {
    /// Every output.
    pub fn all() -> (selection: OutputSelection)
        ensures
            selection == (OutputSelection {
                rgb: true,
                depth: true,
                depth_preview: true,
                segmentation: true,
                segmentation_preview: true,
                metadata: true,
            }),
    {
        OutputSelection {
            rgb: true,
            depth: true,
            depth_preview: true,
            segmentation: true,
            segmentation_preview: true,
            metadata: true,
        }
    }
}

/// How depth files are to be read. Each depth is a little-endian `f32`;
/// `miss_value_bits` is the bit pattern stored where a ray hits nothing,
/// that of `0.0`.
#[derive(Debug, Clone, PartialEq, Eq)]
pub struct DepthConvention {
    pub convention: String,
    pub units: String,
    pub miss_value_bits: u32,
}

/// How segmentation files are to be read.
#[derive(Debug, Clone, PartialEq, Eq)]
pub struct SegmentationConvention {
    pub format: String,
    pub background_id: u32,
}

/// Name of the dataset layout.
pub open spec fn dataset_format_name() -> Seq<char> {
    "rocm-oxide-sim-rgbd-segmentation"@
}

/// Name of the program that writes datasets.
pub open spec fn generator_name() -> Seq<char> {
    "rocm-oxide-sim dataset_generator"@
}

/// The dataset manifest: how the dataset was produced, its conventions and
/// the files of each frame. `P` describes the camera path.
#[derive(Debug)]
pub struct DatasetManifest<P> {
    pub format: String,
    pub dataset_format_version: u32,
    pub generator: String,
    pub scene_path: Option<String>,
    pub config_path: Option<String>,
    pub frame_count: usize,
    pub width: u32,
    pub height: u32,
    pub seed: u64,
    pub camera_path: P,
    pub outputs: OutputSelection,
    pub object_ids: Vec<ObjectIdMetadata>,
    pub renderer_backend: Option<String>,
    pub frames: Vec<ManifestFrame>,
    pub depth_convention: DepthConvention,
    pub segmentation_convention: SegmentationConvention,
}

/// The fixed parts of every manifest: format name and version, generator
/// name, and the depth and segmentation conventions.
pub open spec fn standard_header<P>(m: DatasetManifest<P>) -> bool {
    &&& m.format@ == dataset_format_name()
    &&& m.dataset_format_version == 1
    &&& m.generator@ == generator_name()
    &&& m.depth_convention.convention@ == "linear camera ray distance"@
    &&& m.depth_convention.units@ == "meters"@
    &&& m.depth_convention.miss_value_bits == 0
    &&& m.segmentation_convention.format@ == "u32 object IDs"@
    &&& m.segmentation_convention.background_id == 0
}

impl<P> DatasetManifest<P> {
    /// A manifest for `frame_count` frames of `width` by `height` pixels,
    /// generated with `seed` along `camera_path`, with no frames listed yet.
    pub fn new(
        frame_count: usize,
        width: u32,
        height: u32,
        seed: u64,
        camera_path: P,
        outputs: OutputSelection,
    ) -> (m: DatasetManifest<P>)
        ensures
            standard_header(m),
            m.frame_count == frame_count,
            m.width == width,
            m.height == height,
            m.seed == seed,
            m.camera_path == camera_path,
            m.outputs == outputs,
            m.scene_path is None,
            m.config_path is None,
            m.renderer_backend is None,
            m.object_ids@ == Seq::<ObjectIdMetadata>::empty(),
            m.frames@ == Seq::<ManifestFrame>::empty(),
    {
        DatasetManifest {
            format: String::from_str("rocm-oxide-sim-rgbd-segmentation"),
            dataset_format_version: 1,
            generator: String::from_str("rocm-oxide-sim dataset_generator"),
            scene_path: None,
            config_path: None,
            frame_count,
            width,
            height,
            seed,
            camera_path,
            outputs,
            object_ids: Vec::new(),
            renderer_backend: None,
            frames: Vec::new(),
            depth_convention: DepthConvention {
                convention: String::from_str("linear camera ray distance"),
                units: String::from_str("meters"),
                miss_value_bits: 0,
            },
            segmentation_convention: SegmentationConvention {
                format: String::from_str("u32 object IDs"),
                background_id: 0,
            },
        }
    }

    /// Whether the recorded frame count is the number of frames listed.
    pub fn frame_count_matches(&self) -> (matches: bool)
        ensures
            matches == (self.frame_count == self.frames@.len()),
    {
        self.frame_count == self.frames.len()
    }

    pub fn with_scene_path(self, scene_path: Option<String>) -> (m: DatasetManifest<P>)
        ensures
            m == (DatasetManifest { scene_path, ..self }),
    {
        DatasetManifest { scene_path, ..self }
    }

    pub fn with_config_path(self, config_path: Option<String>) -> (m: DatasetManifest<P>)
        ensures
            m == (DatasetManifest { config_path, ..self }),
    {
        DatasetManifest { config_path, ..self }
    }

    pub fn with_renderer_backend(self, backend: &str) -> (m: DatasetManifest<P>)
        ensures
            m.renderer_backend matches Some(b) && b@ == backend@,
            m == (DatasetManifest { renderer_backend: m.renderer_backend, ..self }),
    {
        DatasetManifest { renderer_backend: Some(String::from_str(backend)), ..self }
    }

    pub fn with_object_ids(self, object_ids: Vec<ObjectIdMetadata>) -> (m: DatasetManifest<P>)
        ensures
            m == (DatasetManifest { object_ids, ..self }),
    {
        DatasetManifest { object_ids, ..self }
    }

    pub fn with_frames(self, frames: Vec<ManifestFrame>) -> (m: DatasetManifest<P>)
        ensures
            m == (DatasetManifest { frames, ..self }),
    {
        DatasetManifest { frames, ..self }
    }
}

} // verus!

verus! {

/// Records the frames written into a dataset directory and produces its
/// manifest. Writing the files themselves is the caller's part: for each
/// frame it writes the files named by `frame_output_paths`, then records the
/// frame here, so that the manifest lists only frames whose files exist.
pub struct DatasetWriter<P> {
    root: String,
    manifest: DatasetManifest<P>,
}

/// The sub-directories of a dataset root.
pub open spec fn dataset_directories_spec() -> Seq<Seq<char>> {
    seq![
        "rgb"@,
        "depth"@,
        "depth_preview"@,
        "segmentation"@,
        "segmentation_preview"@,
        "metadata"@
    ]
}

/// The sub-directories to create under a dataset root before writing.
pub fn dataset_directories() -> (dirs: Vec<String>)
    ensures
        dirs@.len() == dataset_directories_spec().len(),
        forall|i: int| 0 <= i < dirs@.len() ==> #[trigger] dirs@[i]@ == dataset_directories_spec()[i],
{
    let mut dirs = Vec::new();
    dirs.push(String::from_str("rgb"));
    dirs.push(String::from_str("depth"));
    dirs.push(String::from_str("depth_preview"));
    dirs.push(String::from_str("segmentation"));
    dirs.push(String::from_str("segmentation_preview"));
    dirs.push(String::from_str("metadata"));
    dirs
}

impl DatasetWriter<()> {
    /// A writer for a dataset under `root` with no camera-path description;
    /// no frames are recorded yet.
    pub fn new(root: &str) -> (writer: DatasetWriter<()>)
        ensures
            writer.root()@ == root@,
            writer.frames() == Seq::<ManifestFrame>::empty(),
            standard_header(writer.template()),
            writer.template().frame_count == 0,
    {
        DatasetWriter::new_with_manifest(root, DatasetManifest::new(0, 0, 0, 0, (), OutputSelection::all()))
    }
}

impl<P> DatasetWriter<P> {
    /// The dataset root.
    pub closed spec fn root(&self) -> String {
        self.root
    }

    /// The frames recorded so far, in the order they were recorded.
    pub closed spec fn frames(&self) -> Seq<ManifestFrame> {
        self.manifest.frames@
    }

    /// The manifest the writer finishes, apart from its frames and count.
    pub closed spec fn template(&self) -> DatasetManifest<P> {
        self.manifest
    }

    /// A writer for a dataset under `root` whose manifest is `manifest`
    /// with the frames recorded from now on.
    pub fn new_with_manifest(root: &str, manifest: DatasetManifest<P>) -> (writer: DatasetWriter<P>)
        ensures
            writer.root()@ == root@,
            writer.frames() == Seq::<ManifestFrame>::empty(),
            writer.template() == (DatasetManifest { frames: writer.template().frames, ..manifest }),
    {
        DatasetWriter { root: String::from_str(root), manifest: DatasetManifest { frames: Vec::new(), ..manifest } }
    }

    pub fn root_path(&self) -> (root: &String)
        ensures
            *root == self.root(),
    {
        &self.root
    }

    pub fn recorded_frames(&self) -> (frames: &Vec<ManifestFrame>)
        ensures
            frames@ == self.frames(),
    {
        &self.manifest.frames
    }

    /// Records that frame `frame_index` was written as an RGB image and its
    /// metadata.
    pub fn record_rgb_frame(&mut self, frame_index: u64)
        ensures
            final(self).root() == old(self).root(),
            final(self).template() == (DatasetManifest { frames: final(self).template().frames, ..old(self).template() }),
            final(self).frames().len() == old(self).frames().len() + 1,
            final(self).frames().drop_last() == old(self).frames(),
            rgb_frame(final(self).frames().last(), frame_index),
    {
        let paths = frame_output_paths(frame_index);
        let frame = ManifestFrame {
            frame_index,
            rgb: match paths.rgb {
                Some(p) => p,
                None => String::new(),
            },
            depth: None,
            depth_preview: None,
            segmentation: None,
            segmentation_preview: None,
            metadata: paths.metadata,
        };
        self.manifest.frames.push(frame);
        assert(self.frames().drop_last() =~= old(self).frames());
    }

    /// Records that every output of frame `frame_index` was written.
    pub fn record_sensor_outputs(&mut self, frame_index: u64)
        ensures
            final(self).root() == old(self).root(),
            final(self).template() == (DatasetManifest { frames: final(self).template().frames, ..old(self).template() }),
            final(self).frames().len() == old(self).frames().len() + 1,
            final(self).frames().drop_last() == old(self).frames(),
            full_frame(final(self).frames().last(), frame_index),
    {
        let paths = frame_output_paths(frame_index);
        let frame = paths.to_manifest_frame(frame_index);
        self.manifest.frames.push(frame);
        assert(self.frames().drop_last() =~= old(self).frames());
    }
}

impl<P: Copy> DatasetWriter<P> {
    /// The manifest of the dataset written so far: the writer's manifest
    /// with the recorded frames and their number as the frame count.
    pub fn finish(&self) -> (manifest: DatasetManifest<P>)
        ensures
            manifest.frames@ == self.frames(),
            manifest.frame_count == self.frames().len(),
            manifest == (DatasetManifest {
                frames: manifest.frames,
                frame_count: manifest.frame_count,
                object_ids: manifest.object_ids,
                ..self.template()
            }),
            manifest.object_ids@ == self.template().object_ids@,
    {
        let m = &self.manifest;
        let frames = m.frames.clone();
        assert(frames@ =~= m.frames@);
        let object_ids = m.object_ids.clone();
        assert(object_ids@ =~= m.object_ids@);
        DatasetManifest {
            format: m.format.clone(),
            dataset_format_version: m.dataset_format_version,
            generator: m.generator.clone(),
            scene_path: clone_path(&m.scene_path),
            config_path: clone_path(&m.config_path),
            frame_count: m.frames.len(),
            width: m.width,
            height: m.height,
            seed: m.seed,
            camera_path: m.camera_path,
            outputs: m.outputs,
            object_ids,
            renderer_backend: clone_path(&m.renderer_backend),
            frames,
            depth_convention: DepthConvention {
                convention: m.depth_convention.convention.clone(),
                units: m.depth_convention.units.clone(),
                miss_value_bits: m.depth_convention.miss_value_bits,
            },
            segmentation_convention: SegmentationConvention {
                format: m.segmentation_convention.format.clone(),
                background_id: m.segmentation_convention.background_id,
            },
        }
    }
}

} // verus!
