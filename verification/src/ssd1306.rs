//! Driver for SSD1306 OLED display controllers on I2C.
pub mod commands;
pub mod driver;
mod sealed;
pub mod size;
pub mod types;

pub use size::{DisplaySize, DisplaySize128x32, DisplaySize128x64, DisplaySize96x16};
pub use types::{
    Address, ComScanDirection, Config, DisplayLine, DisplayOffset, Error, InitError,
    InvalidArgument, Orientation, Page, PageRange, PowerSource, Result, Rotation, RowCount,
    ScrollDirection, ScrollFrameInterval, SegmentRemap, VerticalScrollArea,
};
pub use driver::{
    BufferedGraphicsMode, RawMode, ScrollActive, ScrollInactive, ScrollRestoreRequired, Ssd1306,
    StateChangeError,
};
