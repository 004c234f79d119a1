//! `<video>` devices.
use vstd::prelude::*;
use crate::text::push_str;

verus! {

/// A `<video>` element of a domain's `<devices>`.
#[derive(Debug, Clone)]
pub struct DeviceVideo {
    pub model: VideoModel,
}

/// The `<model>` of a video device.
#[derive(Debug, Clone)]
pub struct VideoModel {
    pub model_type: Option<String>,
    pub vram: Option<u64>,
    pub heads: Option<u32>,
    pub primary: Option<String>,
    pub acceleration: Option<VideoAcceleration>,
}

/// The `<acceleration>` of a video model.
#[derive(Debug, Clone)]
pub struct VideoAcceleration {
    pub accel3d: Option<String>,
}

/// The model type of a video device, `unknown` when it has none.
pub open spec fn video_model_type(v: DeviceVideo) -> Seq<char> {
    match v.model.model_type {
        Some(t) => t@,
        None => "unknown"@,
    }
}

impl DeviceVideo {
    pub fn model_type(&self) -> (r: &str)
        ensures
            r@ == video_model_type(*self),
    {
        match &self.model.model_type {
            Some(t) => t.as_str(),
            None => "unknown",
        }
    }

    /// The name shown for the device in the hardware list.
    pub open spec fn display_name_spec(&self) -> Seq<char> {
        "Video "@ + video_model_type(*self)
    }

    /// `Video MODEL`.
    pub fn display_name(&self) -> (r: String)
        ensures
            r@ == self.display_name_spec(),
    {
        let mut r = String::new();
        push_str(&mut r, "Video ");
        push_str(&mut r, self.model_type());
        r
    }
}

} // verus!
