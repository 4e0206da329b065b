//! Sensor configurations and sensor rigs, generic over the scalar type of
//! their angles, ranges and transforms. The rig answers which sensors it
//! carries and which mount serves as the primary camera or LiDAR; placing a
//! mount in the world is arithmetic on the scalars, left to the caller.
use vstd::prelude::*;

use crate::geometry::Transform;

verus! {

/// Default number of horizontal LiDAR samples.
pub fn default_lidar_horizontal_samples() -> (n: u32)
    ensures
        n == 512,
{
    512
}

/// Default number of vertical LiDAR channels.
pub fn default_lidar_vertical_channels() -> (n: u32)
    ensures
        n == 32,
{
    32
}

/// Default camera image width in pixels.
pub fn default_camera_width() -> (n: u32)
    ensures
        n == 640,
{
    640
}

/// Default camera image height in pixels.
pub fn default_camera_height() -> (n: u32)
    ensures
        n == 360,
{
    360
}

/// Pinhole camera configuration of a rig mount.
#[derive(Debug, Clone, Copy, PartialEq)]
pub struct CameraSensorConfig<S> {
    pub width: u32,
    pub height: u32,
    pub vertical_fov_degrees: S,
}

/// Single-return LiDAR scanning a spherical grid: horizontal samples sweep
/// yaw and vertical channels sweep pitch around the pose's forward axis.
#[derive(Debug, Clone, Copy, PartialEq)]
pub struct LidarConfig<S> {
    pub horizontal_samples: u32,
    pub vertical_channels: u32,
    pub horizontal_fov_degrees: S,
    pub vertical_fov_degrees: S,
    pub min_range_m: S,
    pub max_range_m: S,
    pub pose: Transform<S>,
}

impl<S> LidarConfig<S> {
    /// Number of rays in one scan.
    pub fn sample_count(&self) -> (n: usize)
        requires
            self.horizontal_samples * self.vertical_channels <= usize::MAX,
        ensures
            n == self.horizontal_samples * self.vertical_channels,
    {
        assert((self.horizontal_samples as usize) * (self.vertical_channels as usize) <= usize::MAX)
            by (nonlinear_arith)
            requires
                self.horizontal_samples * self.vertical_channels <= usize::MAX,
        ;
        self.horizontal_samples as usize * self.vertical_channels as usize
    }
}

/// A sensor that can be mounted on a rig.
#[derive(Debug, Clone, Copy, PartialEq)]
pub enum SensorConfig<S> {
    RgbCamera(CameraSensorConfig<S>),
    DepthCamera(CameraSensorConfig<S>),
    SegmentationCamera(CameraSensorConfig<S>),
    Lidar(LidarConfig<S>),
}

/// Snake-case name of a sensor's type.
pub open spec fn sensor_type_name<S>(sensor: SensorConfig<S>) -> Seq<char> {
    match sensor {
        SensorConfig::RgbCamera(_) => "rgb_camera"@,
        SensorConfig::DepthCamera(_) => "depth_camera"@,
        SensorConfig::SegmentationCamera(_) => "segmentation_camera"@,
        SensorConfig::Lidar(_) => "lidar"@,
    }
}

/// The camera configuration of a camera-like sensor.
pub open spec fn camera_of<S>(sensor: SensorConfig<S>) -> Option<CameraSensorConfig<S>> {
    match sensor {
        SensorConfig::RgbCamera(c) => Some(c),
        SensorConfig::DepthCamera(c) => Some(c),
        SensorConfig::SegmentationCamera(c) => Some(c),
        SensorConfig::Lidar(_) => None,
    }
}

/// The LiDAR configuration of a LiDAR sensor.
pub open spec fn lidar_of<S>(sensor: SensorConfig<S>) -> Option<LidarConfig<S>> {
    match sensor {
        SensorConfig::Lidar(c) => Some(c),
        _ => None,
    }
}

/// Every camera-like sensor (RGB, depth or segmentation camera) yields the
/// camera configuration it was built with and no LiDAR configuration; a
/// LiDAR yields its LiDAR configuration and no camera configuration. So a
/// sensor has a camera configuration exactly when it is not a LiDAR.
pub proof fn lemma_sensor_configs<S>(camera: CameraSensorConfig<S>, lidar: LidarConfig<S>, sensor: SensorConfig<S>)
    ensures
        camera_of(SensorConfig::RgbCamera(camera)) == Some(camera),
        camera_of(SensorConfig::DepthCamera(camera)) == Some(camera),
        camera_of(SensorConfig::SegmentationCamera(camera)) == Some(camera),
        camera_of(SensorConfig::<S>::Lidar(lidar)) is None,
        lidar_of(SensorConfig::Lidar(lidar)) == Some(lidar),
        lidar_of(SensorConfig::<S>::RgbCamera(camera)) is None,
        lidar_of(SensorConfig::<S>::DepthCamera(camera)) is None,
        lidar_of(SensorConfig::<S>::SegmentationCamera(camera)) is None,
        camera_of(sensor) is Some <==> !(sensor is Lidar),
        lidar_of(sensor) is Some <==> sensor is Lidar,
{
}

impl<S: Copy> SensorConfig<S> {
    pub fn sensor_type(&self) -> (name: &'static str)
        ensures
            name@ == sensor_type_name(*self),
    {
        match self {
            SensorConfig::RgbCamera(_) => "rgb_camera",
            SensorConfig::DepthCamera(_) => "depth_camera",
            SensorConfig::SegmentationCamera(_) => "segmentation_camera",
            SensorConfig::Lidar(_) => "lidar",
        }
    }

    pub fn camera_config(&self) -> (config: Option<CameraSensorConfig<S>>)
        ensures
            config == camera_of(*self),
    {
        match self {
            SensorConfig::RgbCamera(config) => Some(*config),
            SensorConfig::DepthCamera(config) => Some(*config),
            SensorConfig::SegmentationCamera(config) => Some(*config),
            SensorConfig::Lidar(_) => None,
        }
    }

    pub fn lidar_config(&self) -> (config: Option<LidarConfig<S>>)
        ensures
            config == lidar_of(*self),
    {
        match self {
            SensorConfig::Lidar(config) => Some(*config),
            _ => None,
        }
    }
}

/// A named sensor mounted relative to a rig's base transform.
#[derive(Debug, Clone)]
pub struct SensorMount<S> {
    pub name: String,
    pub sensor: SensorConfig<S>,
    pub transform: Transform<S>,
}

/// Sensors mounted relative to a common base transform.
#[derive(Debug, Clone)]
pub struct SensorRig<S> {
    pub name: String,
    pub base_transform: Transform<S>,
    pub mounts: Vec<SensorMount<S>>,
}

/// `i` is the first mount named `name`.
pub open spec fn first_named<S>(mounts: Seq<SensorMount<S>>, name: Seq<char>, i: int) -> bool {
    &&& 0 <= i < mounts.len()
    &&& mounts[i].name@ == name
    &&& forall|j: int| 0 <= j < i ==> mounts[j].name@ != name
}

/// `i` is the first mount carrying a camera-like sensor.
pub open spec fn first_camera<S>(mounts: Seq<SensorMount<S>>, i: int) -> bool {
    &&& 0 <= i < mounts.len()
    &&& camera_of(mounts[i].sensor) is Some
    &&& forall|j: int| 0 <= j < i ==> camera_of(mounts[j].sensor) is None
}

/// `i` is the first mount carrying a LiDAR.
pub open spec fn first_lidar<S>(mounts: Seq<SensorMount<S>>, i: int) -> bool {
    &&& 0 <= i < mounts.len()
    &&& lidar_of(mounts[i].sensor) is Some
    &&& forall|j: int| 0 <= j < i ==> lidar_of(mounts[j].sensor) is None
}

impl<S: Copy> SensorRig<S> {
    /// Names of the mounts, in mount order.
    pub fn sensor_names(&self) -> (names: Vec<&str>)
        ensures
            names@.len() == self.mounts@.len(),
            forall|i: int| 0 <= i < names@.len() ==> #[trigger] names@[i]@ == self.mounts@[i].name@,
    {
        let mut names: Vec<&str> = Vec::new();
        let mut i: usize = 0;
        while i < self.mounts.len()
            invariant
                i <= self.mounts@.len(),
                names@.len() == i,
                forall|j: int| 0 <= j < i ==> #[trigger] names@[j]@ == self.mounts@[j].name@,
            decreases self.mounts@.len() - i,
        {
            names.push(self.mounts[i].name.as_str());
            i = i + 1;
        }
        names
    }

    /// The first mount named `name`, if any.
    pub fn mount(&self, name: &str) -> (found: Option<&SensorMount<S>>)
        ensures
            found is None <==> forall|i: int| 0 <= i < self.mounts@.len() ==> self.mounts@[i].name@ != name@,
            found matches Some(m) ==> exists|i: int| first_named(self.mounts@, name@, i) && *m == #[trigger] self.mounts@[i],
    {
        let wanted = String::from_str(name);
        let mut i: usize = 0;
        while i < self.mounts.len()
            invariant
                wanted@ == name@,
                i <= self.mounts@.len(),
                forall|j: int| 0 <= j < i ==> self.mounts@[j].name@ != name@,
            decreases self.mounts@.len() - i,
        {
            if self.mounts[i].name == wanted {
                assert(first_named(self.mounts@, name@, i as int));
                return Some(&self.mounts[i]);
            }
            i = i + 1;
        }
        None
    }

    /// The first mount carrying a camera-like sensor, with its camera
    /// configuration.
    pub fn primary_camera_mount(&self) -> (found: Option<(&SensorMount<S>, CameraSensorConfig<S>)>)
        ensures
            found is None <==> forall|i: int| 0 <= i < self.mounts@.len() ==> camera_of(self.mounts@[i].sensor) is None,
            found matches Some((m, c)) ==> exists|i: int| first_camera(self.mounts@, i) && *m == #[trigger] self.mounts@[i] && camera_of(m.sensor) == Some(c),
    {
        let mut i: usize = 0;
        while i < self.mounts.len()
            invariant
                i <= self.mounts@.len(),
                forall|j: int| 0 <= j < i ==> camera_of(self.mounts@[j].sensor) is None,
            decreases self.mounts@.len() - i,
        {
            let mount = &self.mounts[i];
            match mount.sensor.camera_config() {
                Some(config) => {
                    assert(first_camera(self.mounts@, i as int));
                    return Some((mount, config));
                },
                None => {},
            }
            i = i + 1;
        }
        None
    }

    /// The first mount carrying a LiDAR, with its LiDAR configuration.
    pub fn primary_lidar_mount(&self) -> (found: Option<(&SensorMount<S>, LidarConfig<S>)>)
        ensures
            found is None <==> forall|i: int| 0 <= i < self.mounts@.len() ==> lidar_of(self.mounts@[i].sensor) is None,
            found matches Some((m, c)) ==> exists|i: int| first_lidar(self.mounts@, i) && *m == #[trigger] self.mounts@[i] && lidar_of(m.sensor) == Some(c),
    {
        let mut i: usize = 0;
        while i < self.mounts.len()
            invariant
                i <= self.mounts@.len(),
                forall|j: int| 0 <= j < i ==> lidar_of(self.mounts@[j].sensor) is None,
            decreases self.mounts@.len() - i,
        {
            let mount = &self.mounts[i];
            match mount.sensor.lidar_config() {
                Some(config) => {
                    assert(first_lidar(self.mounts@, i as int));
                    return Some((mount, config));
                },
                None => {},
            }
            i = i + 1;
        }
        None
    }
}

} // verus!
