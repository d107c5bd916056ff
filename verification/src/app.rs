//! The application builder: accumulates the window and device configuration
//! (name, dimensions, resizability, device configuration, logging) through
//! chained setters, each taking and returning the builder by value.

use vstd::prelude::*;
use vstd::string::StringExecFns;

verus! {

/// A window client size in pixels.
#[derive(Debug, Clone, Copy, PartialEq, Eq, Structural)]
pub struct Dimension {
    pub width: u32,
    pub height: u32,
}

/// Configuration for the graphics-device setup: adapter and device selection
/// performed by the host when the application is built.
#[derive(Debug, Clone)]
pub struct GpuBuilder {
    /// Prefer a low-power adapter over a high-performance one.
    pub prefer_low_power: bool,
}

impl Default for GpuBuilder {
    /// By default a high-performance adapter is requested.
    fn default() -> (r: Self)
        ensures
            !r.prefer_low_power,
    {
        GpuBuilder { prefer_low_power: false }
    }
}

/// Accumulates the application configuration before the window, event source
/// and device context are constructed.
#[derive(Debug, Clone)]
pub struct AppBuilder {
    /// Window title.
    pub name: String,
    /// Requested client size of the window, width and height in pixels.
    pub dim: Dimension,
    /// Configuration of the graphics-device setup.
    pub gpu_builder: GpuBuilder,
    /// Whether a global logging subscriber is installed on build.
    pub init_subscriber: bool,
    /// Whether the window may be resized by the user.
    pub resizable: bool,
}

impl AppBuilder {
    pub fn new() -> (r: Self)
        ensures
            r.name@ == "default app"@,
            r.dim == (Dimension { width: 640, height: 360 }),
            !r.gpu_builder.prefer_low_power,
            r.init_subscriber,
            r.resizable,
    {
        Self::default()
    }

    pub fn with_name(self, name: &str) -> (r: Self)
        ensures
            r.name@ == name@,
            r.dim == self.dim,
            r.gpu_builder == self.gpu_builder,
            r.init_subscriber == self.init_subscriber,
            r.resizable == self.resizable,
    {
        let mut this = self;
        this.name = String::from_str(name);
        this
    }

    pub fn with_gpu(self, gpu_builder: GpuBuilder) -> (r: Self)
        ensures
            r.name == self.name,
            r.dim == self.dim,
            r.gpu_builder == gpu_builder,
            r.init_subscriber == self.init_subscriber,
            r.resizable == self.resizable,
    {
        let mut this = self;
        this.gpu_builder = gpu_builder;
        this
    }

    pub fn with_dimension(self, widht: u32, height: u32) -> (r: Self)
        ensures
            r.name == self.name,
            r.dim == (Dimension { width: widht, height: height }),
            r.gpu_builder == self.gpu_builder,
            r.init_subscriber == self.init_subscriber,
            r.resizable == self.resizable,
    {
        let mut this = self;
        this.dim = Dimension { width: widht, height: height };
        this
    }

    pub fn with_init_subscriber(self, value: bool) -> (r: Self)
        ensures
            r.name == self.name,
            r.dim == self.dim,
            r.gpu_builder == self.gpu_builder,
            r.init_subscriber == value,
            r.resizable == self.resizable,
    {
        let mut this = self;
        this.init_subscriber = value;
        this
    }

    pub fn with_resizable(self, value: bool) -> (r: Self)
        ensures
            r.name == self.name,
            r.dim == self.dim,
            r.gpu_builder == self.gpu_builder,
            r.init_subscriber == self.init_subscriber,
            r.resizable == value,
    {
        let mut this = self;
        this.resizable = value;
        this
    }
}

impl Default for AppBuilder {
    /// The default configuration: name "default app", 640 by 360, a
    /// high-performance adapter, logging installed, window resizable.
    fn default() -> (r: Self)
        ensures
            r.name@ == "default app"@,
            r.dim == (Dimension { width: 640, height: 360 }),
            !r.gpu_builder.prefer_low_power,
            r.init_subscriber,
            r.resizable,
    {
        AppBuilder {
            name: String::from_str("default app"),
            dim: Dimension { width: 640, height: 360 },
            gpu_builder: GpuBuilder::default(),
            init_subscriber: true,
            resizable: true,
        }
    }
}

} // verus!
