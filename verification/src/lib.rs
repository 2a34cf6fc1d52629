pub mod button;
pub mod fan;
pub mod leds;
pub mod protocol;
pub mod shared;
