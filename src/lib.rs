//! A small status panel: clock text and two percentage sliders, driven by
//! pointer events. The library holds the panel's state, the rules that turn
//! input events into state changes, the frame pacing decisions and a display
//! list that describes each frame; the program around it talks to the display
//! server and rasterises the display list.

pub mod geometry;
pub mod panel;
pub mod clock;
pub mod scene;
