//! What the driver knows about the panel: its size, how it is turned, and
//! the pixel format it expects.

use vstd::prelude::*;

verus! {

/// Columns of the panel when it is held upright.
pub const PANEL_WIDTH: u16 = 320;

/// Rows of the panel when it is held upright.
pub const PANEL_HEIGHT: u16 = 480;

/// Pixels of the panel, however it is turned.
pub const PANEL_PIXELS: u32 = 153_600;

/// Memory-access-control bit MY: rows are addressed bottom to top.
pub const ROW_ADDRESS_ORDER: u8 = 0x80;

/// Memory-access-control bit MX: columns are addressed right to left.
pub const COLUMN_ADDRESS_ORDER: u8 = 0x40;

/// Memory-access-control bit MV: rows and columns are exchanged.
pub const ROW_COLUMN_EXCHANGE: u8 = 0x20;

/// Memory-access-control bit ML: the panel refreshes bottom to top.
pub const VERTICAL_REFRESH_ORDER: u8 = 0x10;

/// Memory-access-control bit MH: the panel refreshes right to left.
pub const HORIZONTAL_REFRESH_ORDER: u8 = 0x04;

/// How the panel is turned.
#[derive(Clone, Copy, PartialEq, Eq, Structural, Debug)]
pub enum Orientation {
    Portrait,
    Landscape,
    PortraitUpsideDown,
    LandscapeUpsideDown,
}

impl Orientation {
    /// Whether the long side of the panel lies horizontally.
    pub open spec fn spec_is_landscape(self) -> bool {
        self == Orientation::Landscape || self == Orientation::LandscapeUpsideDown
    }

    /// Whether the long side of the panel lies horizontally.
    #[verifier::when_used_as_spec(spec_is_landscape)]
    pub fn is_landscape(self) -> (b: bool)
        ensures
            b == self.spec_is_landscape(),
    {
        match self {
            Orientation::Portrait | Orientation::PortraitUpsideDown => false,
            Orientation::Landscape | Orientation::LandscapeUpsideDown => true,
        }
    }

    /// Columns of the panel in this orientation.
    pub open spec fn spec_width(self) -> u16 {
        if self.is_landscape() {
            PANEL_HEIGHT
        } else {
            PANEL_WIDTH
        }
    }

    /// Columns of the panel in this orientation.
    #[verifier::when_used_as_spec(spec_width)]
    pub fn width(self) -> (w: u16)
        ensures
            w == self.spec_width(),
    {
        if self.is_landscape() {
            PANEL_HEIGHT
        } else {
            PANEL_WIDTH
        }
    }

    /// Rows of the panel in this orientation.
    pub open spec fn spec_height(self) -> u16 {
        if self.is_landscape() {
            PANEL_WIDTH
        } else {
            PANEL_HEIGHT
        }
    }

    /// Rows of the panel in this orientation.
    #[verifier::when_used_as_spec(spec_height)]
    pub fn height(self) -> (h: u16)
        ensures
            h == self.spec_height(),
    {
        if self.is_landscape() {
            PANEL_WIDTH
        } else {
            PANEL_HEIGHT
        }
    }

    /// The memory-access-control parameter that turns the panel this way.
    pub open spec fn spec_parameter(self) -> u8 {
        match self {
            Orientation::Portrait => 0x40,
            Orientation::PortraitUpsideDown => 0x90,
            Orientation::Landscape => 0x20,
            Orientation::LandscapeUpsideDown => 0xF4,
        }
    }

    /// The memory-access-control parameter that turns the panel this way.
    #[verifier::when_used_as_spec(spec_parameter)]
    pub fn parameter(self) -> (byte: u8)
        ensures
            byte == self.spec_parameter(),
    {
        match self {
            Orientation::Portrait => 0x40,
            Orientation::PortraitUpsideDown => 0x90,
            Orientation::Landscape => 0x20,
            Orientation::LandscapeUpsideDown => 0xF4,
        }
    }

    /// Each orientation's parameter is the union of the memory-access-control
    /// bits that produce it.
    pub proof fn parameter_bits()
        ensures
            Orientation::Portrait.parameter() == COLUMN_ADDRESS_ORDER,
            Orientation::PortraitUpsideDown.parameter() == ROW_ADDRESS_ORDER
                | VERTICAL_REFRESH_ORDER,
            Orientation::Landscape.parameter() == ROW_COLUMN_EXCHANGE,
            Orientation::LandscapeUpsideDown.parameter() == ROW_ADDRESS_ORDER
                | COLUMN_ADDRESS_ORDER | ROW_COLUMN_EXCHANGE | VERTICAL_REFRESH_ORDER
                | HORIZONTAL_REFRESH_ORDER,
    {
        assert(0x90u8 == 0x80u8 | 0x10u8) by (bit_vector);
        assert(0xF4u8 == 0x80u8 | 0x40u8 | 0x20u8 | 0x10u8 | 0x04u8) by (bit_vector);
    }

    /// Turning the panel exchanges its width and height exactly when the
    /// orientation is a landscape one, and never changes the number of
    /// pixels.
    pub proof fn dimensions(self)
        ensures
            self.is_landscape() ==> self.width() == Orientation::Portrait.height()
                && self.height() == Orientation::Portrait.width(),
            !self.is_landscape() ==> self.width() == Orientation::Portrait.width()
                && self.height() == Orientation::Portrait.height(),
            self.width() * self.height() == PANEL_PIXELS,
            Orientation::Portrait.width() == PANEL_WIDTH,
            Orientation::Portrait.height() == PANEL_HEIGHT,
    {
        if self.is_landscape() {
            assert(self.width() * self.height() == 480 * 320);
        } else {
            assert(self.width() * self.height() == 320 * 480);
        }
    }
}

/// The pixel encodings of the controller's interface.
#[derive(Clone, Copy, PartialEq, Eq, Structural, Debug)]
pub enum PixelFormat {
    /// 16 bits per pixel.
    Rgb565,
    /// 18 bits per pixel.
    Rgb666,
}

impl PixelFormat {
    /// The interface-pixel-format parameter that selects this encoding.
    pub open spec fn spec_parameter(self) -> u8 {
        match self {
            PixelFormat::Rgb565 => 0x55,
            PixelFormat::Rgb666 => 0x66,
        }
    }

    /// The interface-pixel-format parameter that selects this encoding.
    #[verifier::when_used_as_spec(spec_parameter)]
    pub fn parameter(self) -> (byte: u8)
        ensures
            byte == self.spec_parameter(),
    {
        match self {
            PixelFormat::Rgb565 => 0x55,
            PixelFormat::Rgb666 => 0x66,
        }
    }
}

/// The driver's configuration. Its width and height are always those of its
/// orientation.
#[derive(Clone, Copy, Debug)]
pub struct Config {
    width: u16,
    height: u16,
    orientation: Orientation,
    pixel_format: PixelFormat,
}

impl Config {
    #[verifier::type_invariant]
    spec fn sized_for_orientation(self) -> bool {
        self.width == self.orientation.width() && self.height == self.orientation.height()
    }

    /// Columns currently addressable.
    pub closed spec fn spec_width(&self) -> u16 {
        self.width
    }

    /// Rows currently addressable.
    pub closed spec fn spec_height(&self) -> u16 {
        self.height
    }

    /// How the panel is turned.
    pub closed spec fn spec_orientation(&self) -> Orientation {
        self.orientation
    }

    /// The pixel encoding the controller has been told to expect.
    pub closed spec fn spec_pixel_format(&self) -> PixelFormat {
        self.pixel_format
    }

    /// The configuration of a controller that has just been reset: upright,
    /// 320 by 480, 18 bits per pixel.
    pub fn new() -> (c: Config)
        ensures
            c.orientation() == Orientation::Portrait,
            c.pixel_format() == PixelFormat::Rgb666,
            c.width() == PANEL_WIDTH,
            c.height() == PANEL_HEIGHT,
    {
        Config {
            width: PANEL_WIDTH,
            height: PANEL_HEIGHT,
            orientation: Orientation::Portrait,
            pixel_format: PixelFormat::Rgb666,
        }
    }

    /// This configuration, turned to `orientation`.
    pub fn with_orientation(&self, orientation: Orientation) -> (c: Config)
        ensures
            c.orientation() == orientation,
            c.width() == orientation.width(),
            c.height() == orientation.height(),
            c.pixel_format() == self.pixel_format(),
    {
        Config {
            width: orientation.width(),
            height: orientation.height(),
            orientation,
            pixel_format: self.pixel_format,
        }
    }

    /// This configuration, with `pixel_format` as its pixel encoding.
    pub fn with_pixel_format(&self, pixel_format: PixelFormat) -> (c: Config)
        ensures
            c.orientation() == self.orientation(),
            c.width() == self.width(),
            c.height() == self.height(),
            c.pixel_format() == pixel_format,
    {
        proof {
            use_type_invariant(self);
        }
        Config {
            width: self.width,
            height: self.height,
            orientation: self.orientation,
            pixel_format,
        }
    }

    /// Columns currently addressable: the width of the current orientation.
    #[verifier::when_used_as_spec(spec_width)]
    pub fn width(&self) -> (w: u16)
        ensures
            w == self.spec_width(),
            w == self.orientation().width(),
            w * self.height() == PANEL_PIXELS,
    {
        proof {
            use_type_invariant(self);
            self.orientation.dimensions();
        }
        self.width
    }

    /// Rows currently addressable: the height of the current orientation.
    #[verifier::when_used_as_spec(spec_height)]
    pub fn height(&self) -> (h: u16)
        ensures
            h == self.spec_height(),
            h == self.orientation().height(),
            self.width() * h == PANEL_PIXELS,
    {
        proof {
            use_type_invariant(self);
            self.orientation.dimensions();
        }
        self.height
    }

    /// How the panel is turned.
    #[verifier::when_used_as_spec(spec_orientation)]
    pub fn orientation(&self) -> (o: Orientation)
        ensures
            o == self.spec_orientation(),
    {
        self.orientation
    }

    /// The pixel encoding the controller has been told to expect.
    #[verifier::when_used_as_spec(spec_pixel_format)]
    pub fn pixel_format(&self) -> (f: PixelFormat)
        ensures
            f == self.spec_pixel_format(),
    {
        self.pixel_format
    }
}

impl Default for Config {
    fn default() -> (c: Config)
        ensures
            c.orientation() == Orientation::Portrait,
            c.pixel_format() == PixelFormat::Rgb666,
            c.width() == PANEL_WIDTH,
            c.height() == PANEL_HEIGHT,
    {
        Config::new()
    }
}

} // verus!
